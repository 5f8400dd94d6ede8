use vstd::prelude::*;
use vstd::string::StringExecFns;
use crate::error::Error;

verus! {

/// The handler that an inbound gateway event goes to.
#[derive(PartialEq, Eq, Structural, Clone, Copy, Debug)]
pub enum Route {
    Connect,
    Disconnect,
    SendMessage,
}

/// The handler named by a route tag, if any.
pub open spec fn route_of(tag: Seq<char>) -> Option<Route> {
    if tag == "$connect"@ {
        Some(Route::Connect)
    } else if tag == "$disconnect"@ {
        Some(Route::Disconnect)
    } else if tag == "sendmessage"@ {
        Some(Route::SendMessage)
    } else {
        None
    }
}

/// Picks the handler for an event by its route tag. A missing tag, or one
/// that names no handler, is an error; nothing else is done for the event.
pub fn route(tag: Option<String>) -> (r: Result<Route, Error>)
    ensures
        match tag {
            Some(t) => match route_of(t@) {
                Some(k) => r == Ok::<Route, Error>(k),
                None => r matches Err(Error::Custom(m)) && m@ == "route_key not found"@,
            },
            None => r matches Err(Error::Custom(m)) && m@ == "route_key not found"@,
        },
{
    match tag {
        None => Err(Error::custom("route_key not found")),
        Some(t) => {
            if t == String::from_str("$connect") {
                Ok(Route::Connect)
            } else if t == String::from_str("$disconnect") {
                Ok(Route::Disconnect)
            } else if t == String::from_str("sendmessage") {
                Ok(Route::SendMessage)
            } else {
                Err(Error::custom("route_key not found"))
            }
        },
    }
}

} // verus!
