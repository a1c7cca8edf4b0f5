//! The closed set of request shapes the pump can issue.
//!
//! A request option is an immutable tag plus a pure rule for building the
//! payload of the matching shape. The transport invokes the matching remote
//! operation outside this crate; the pump itself never depends on which
//! variant is in use.

use vstd::prelude::*;
use vstd::string::StringExecFns;

use crate::config::ConfigError;

verus! {

/// The empty request/reply payload.
#[derive(Clone, Copy, PartialEq, Eq, Structural, Debug)]
pub struct Empty {}

/// The one-text-field request/reply payload.
#[derive(Clone, Debug)]
pub struct Something {
    pub text: String,
}

/// Which of the two request shapes a run issues.
#[derive(Clone, Copy, PartialEq, Eq, Structural, Debug)]
pub enum RequestOption {
    Empty,
    Something,
}

/// A built request payload, of the shape its option prescribes.
pub enum RequestPayload {
    Empty(Empty),
    Something(Something),
}

impl RequestOption {
    /// Resolve the request-variant selector given at startup. Exactly the
    /// two variant names are accepted; anything else is a fatal
    /// configuration error.
    pub fn from_name(name: &String) -> (r: Result<RequestOption, ConfigError>)
        ensures
            name@ == "Empty"@ ==> r == Ok::<RequestOption, ConfigError>(RequestOption::Empty),
            name@ == "Something"@ ==> r == Ok::<RequestOption, ConfigError>(
                RequestOption::Something,
            ),
            name@ != "Empty"@ && name@ != "Something"@ ==> r == Err::<RequestOption, ConfigError>(
                ConfigError::InvalidRequestOption,
            ),
    {
        proof {
            reveal_strlit("Empty");
            reveal_strlit("Something");
            assert("Empty"@.len() == 5);
            assert("Something"@.len() == 9);
        }
        let empty_name = String::from_str("Empty");
        if *name == empty_name {
            Ok(RequestOption::Empty)
        } else {
            let something_name = String::from_str("Something");
            if *name == something_name {
                Ok(RequestOption::Something)
            } else {
                Err(ConfigError::InvalidRequestOption)
            }
        }
    }

    /// Build the payload for one request of this shape: the empty payload
    /// for `Empty`, the fixed request text for `Something`. Pure and
    /// stateless, so the same option may build any number of requests.
    pub fn build_request(&self) -> (p: RequestPayload)
        ensures
            *self is Empty ==> p is Empty,
            *self is Something ==> (p matches RequestPayload::Something(pl) && pl.text@
                == "some request string"@),
    {
        match self {
            RequestOption::Empty => RequestPayload::Empty(Empty {}),
            RequestOption::Something => RequestPayload::Something(
                Something { text: String::from_str("some request string") },
            ),
        }
    }
}

} // verus!
