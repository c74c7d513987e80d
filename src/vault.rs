//! The records a desktop client keeps per remote server in its local credential
//! vault: a login, and the tokens that server issued.
use vstd::prelude::*;
use crate::token::JwtTokenPair;
use crate::text::text_eq;

verus! {

/// A username and password kept for Basic login to a server.
#[derive(Debug)]
pub struct StoredUsernamePassword {
    pub username: String,
    pub password: String,
}

/// The credentials kept for a server.
#[derive(Debug)]
pub enum StoredCredentials {
    Bearer(String),
    Basic(StoredUsernamePassword),
}

/// The tokens kept for a server: an API key, or an access/refresh pair.
#[derive(Debug)]
pub enum StoredTokens {
    ApiKey(String),
    Jwt(JwtTokenPair),
}

/// For each known server (by id), whether tokens are kept for it.
#[derive(Debug)]
pub struct CredentialStoreTokenState {
    pub servers: Vec<(String, bool)>,
}

impl CredentialStoreTokenState {
    /// Whether tokens are kept for `server`; `None` for a server the vault does not know.
    pub fn has_tokens(&self, server: &str) -> (r: Option<bool>)
        ensures
            match r {
                Some(b) => exists|i: int|
                    0 <= i < self.servers@.len() && #[trigger] self.servers@[i].0@ == server@
                        && self.servers@[i].1 == b,
                None => forall|i: int|
                    0 <= i < self.servers@.len() ==> #[trigger] self.servers@[i].0@ != server@,
            },
    {
        let mut i: usize = 0;
        while i < self.servers.len()
            invariant
                i <= self.servers@.len(),
                forall|k: int| 0 <= k < i ==> #[trigger] self.servers@[k].0@ != server@,
            decreases self.servers@.len() - i,
        {
            if text_eq(self.servers[i].0.as_str(), server) {
                return Some(self.servers[i].1);
            }
            i += 1;
        }
        None
    }
}

} // verus!
