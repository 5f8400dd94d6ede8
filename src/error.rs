use vstd::prelude::*;

verus! {

/// Every failure the relay reports. Failures of outside services are carried
/// as the text that the service gave.
#[derive(Debug)]
pub enum Error {
    SerdeJson(String),
    LambdaHttp(String),
    PutItem(String),
    DeleteItem(String),
    ScanItems(String),
    PostConnection(String),
    SerdeDynamo(String),
    BuildError(String),
    Custom(String),
}

impl Error {
    /// An error that carries a message of its own.
    pub fn custom(msg: &str) -> (r: Error)
        ensures
            r matches Error::Custom(m) && m@ == msg@,
    {
        Error::Custom(msg.to_owned())
    }
}

pub type Result<T> = core::result::Result<T, Error>;

} // verus!
