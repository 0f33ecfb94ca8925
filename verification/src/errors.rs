//! Error kinds surfaced by the session and its call surfaces.

use vstd::prelude::*;

verus! {

/// Everything that can go wrong around the credential lifecycle.
///
/// `Request` carries the message of a transport-layer failure, `HaApi` a
/// structured error body returned by the remote service, and `Config` a
/// missing-configuration complaint (such as an absent webhook identity).
/// `Refresh` marks an attempt to refresh a static long-lived token,
/// `NoAuth` the absence of any credential, and `PoisonError` a protecting
/// lock found broken after a prior panic.
#[derive(Debug)]
pub enum Error {
    Request(String),
    HaApi(String),
    Config(String),
    Refresh(),
    NoAuth(),
    PoisonError(),
}

impl Error {
    /// Human-readable account of the error, mirroring what each variant
    /// carries.
    pub fn message(&self) -> (r: String)
        ensures
            match self {
                Error::Request(m) => r@ == m@,
                Error::HaApi(m) => r@ == m@,
                Error::Config(m) => r@ == m@,
                Error::Refresh() => r@ == "Tried to refresh a long lived access token"@,
                Error::NoAuth() => r@ == "There are no Authentication Credentials"@,
                Error::PoisonError() => r@ == "A lock protecting the session was poisoned"@,
            },
    {
        match self {
            Error::Request(m) => m.clone(),
            Error::HaApi(m) => m.clone(),
            Error::Config(m) => m.clone(),
            Error::Refresh() => "Tried to refresh a long lived access token".to_owned(),
            Error::NoAuth() => "There are no Authentication Credentials".to_owned(),
            Error::PoisonError() => "A lock protecting the session was poisoned".to_owned(),
        }
    }
}

} // verus!
