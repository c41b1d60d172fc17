use vstd::prelude::*;

verus! {

/// The statically configured key pair, the last link of the credential chain:
/// it is used when the process environment names no key pair of its own.
pub struct Auth {
    access_key: String,
    secret_key: String,
}

impl Auth {
    /// The configured key id, as characters.
    pub closed spec fn access_key_view(&self) -> Seq<char> {
        self.access_key@
    }

    /// The configured secret, as characters.
    pub closed spec fn secret_key_view(&self) -> Seq<char> {
        self.secret_key@
    }

    /// Holds the two configured keys as they are.
    pub fn new(access_key: String, secret_key: String) -> (auth: Auth)
        ensures
            auth.access_key_view() == access_key@,
            auth.secret_key_view() == secret_key@,
    {
        Auth { access_key, secret_key }
    }

    /// The configured key id.
    pub fn access_key(&self) -> (key: &str)
        ensures
            key@ == self.access_key_view(),
    {
        self.access_key.as_str()
    }

    /// The configured secret.
    pub fn secret_key(&self) -> (key: &str)
        ensures
            key@ == self.secret_key_view(),
    {
        self.secret_key.as_str()
    }
}

} // verus!
