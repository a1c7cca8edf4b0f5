use hello_bench::config::{Config, ConfigError};
use hello_bench::greeter::MyGreeter;
use hello_bench::request::{Empty, RequestOption, RequestPayload, Something};

#[test]
fn empty_selector_resolves_to_empty_variant() {
    let r = RequestOption::from_name(&String::from("Empty"));
    assert_eq!(r, Ok(RequestOption::Empty));
}

#[test]
fn something_selector_resolves_to_textual_variant() {
    let r = RequestOption::from_name(&String::from("Something"));
    assert_eq!(r, Ok(RequestOption::Something));
}

#[test]
fn invalid_selector_is_a_fatal_configuration_error() {
    // An unknown request-variant selector must be rejected at startup,
    // before any request is issued.
    let r = RequestOption::from_name(&String::from("Neither"));
    assert_eq!(r, Err(ConfigError::InvalidRequestOption));
    // Selectors are case-sensitive.
    let lower = RequestOption::from_name(&String::from("empty"));
    assert_eq!(lower, Err(ConfigError::InvalidRequestOption));
}

#[test]
fn config_error_names_the_allowed_options() {
    let msg = ConfigError::InvalidRequestOption.message();
    assert_eq!(msg, "allowed options: Empty, Something");
}

#[test]
fn default_config_matches_the_command_line_defaults() {
    let c = Config::default();
    assert_eq!(c.connections, 1);
    assert_eq!(c.concurrency, 10);
    assert_eq!(c.messages, 10000);
    assert_eq!(c.request, RequestOption::Empty);
    assert_eq!(c.port, 50051);
    assert!(c.is_valid());
}

#[test]
fn zero_dimensions_are_invalid() {
    let mut c = Config::default();
    c.connections = 0;
    assert!(!c.is_valid());
    let mut c2 = Config::default();
    c2.messages = 0;
    assert!(!c2.is_valid());
    let mut c3 = Config::default();
    c3.concurrency = 0;
    assert!(!c3.is_valid());
}

#[test]
fn empty_variant_builds_the_empty_payload() {
    match RequestOption::Empty.build_request() {
        RequestPayload::Empty(_) => {}
        RequestPayload::Something(_) => panic!("empty variant built a textual payload"),
    }
}

#[test]
fn textual_variant_builds_the_fixed_request_text() {
    match RequestOption::Something.build_request() {
        RequestPayload::Something(s) => assert_eq!(s.text, "some request string"),
        RequestPayload::Empty(_) => panic!("textual variant built an empty payload"),
    }
}

#[test]
fn greeter_echoes_empty() {
    let g = MyGreeter::default();
    let _reply: Empty = g.say_empty(&Empty {});
}

#[test]
fn greeter_answers_with_the_fixed_reply_text() {
    let g = MyGreeter::default();
    let reply: Something = g.say_something(&Something { text: String::from("some request string") });
    assert_eq!(reply.text, "some reply string");
}
