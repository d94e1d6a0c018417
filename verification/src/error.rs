use vstd::prelude::*;

verus! {

/// Errors of the library.
#[derive(Debug)]
pub enum Error {
    /// The user's data directory could not be determined.
    UserDataDirectoryNotObtainable,
    /// The node's root directory could not be determined.
    RootDirectoryNotObtainable,
    /// A peer id could not be parsed; the message says why.
    PeerIdParse(String),
    /// A remote call or another outside operation failed with this message.
    Rpc(String),
    /// A secret key could not be read or created; the message says why.
    SecretKey(String),
    /// No node of the registry has the requested peer id; the message names it.
    NodeNotFound(String),
    /// A logging setting is not valid; the message says why.
    LoggingConfiguration(String),
}

/// The text the program shows for an error.
pub open spec fn error_text(e: Error) -> Seq<char> {
    match e {
        Error::UserDataDirectoryNotObtainable => "Could not obtain user's data directory"@,
        Error::RootDirectoryNotObtainable => "could not obtain root directory path"@,
        Error::PeerIdParse(m) => m@,
        Error::Rpc(m) => m@,
        Error::SecretKey(m) => m@,
        Error::NodeNotFound(m) => m@,
        Error::LoggingConfiguration(m) => m@,
    }
}

impl Error {
    /// The text the program shows for this error.
    pub fn message(&self) -> (r: String)
        ensures
            r@ == error_text(*self),
    {
        match self {
            Error::UserDataDirectoryNotObtainable => "Could not obtain user's data directory".to_owned(),
            Error::RootDirectoryNotObtainable => "could not obtain root directory path".to_owned(),
            Error::PeerIdParse(m) => m.clone(),
            Error::Rpc(m) => m.clone(),
            Error::SecretKey(m) => m.clone(),
            Error::NodeNotFound(m) => m.clone(),
            Error::LoggingConfiguration(m) => m.clone(),
        }
    }
}

} // verus!
