//! Configuration values the core consults. Reading them from the
//! environment is the surrounding program's job; the library only holds
//! them and answers questions about them.

use vstd::prelude::*;

verus! {

use crate::strutil::str_eq;

/// Which kind of deployment the server runs as.
#[derive(Clone, Copy, Debug, PartialEq, Eq, Structural)]
pub enum Env {
    Development,
    Production,
}

/// Base configuration options.
#[derive(Clone, Copy, Debug)]
pub struct Base {
    pub env: Env,
}

/// Credentials and addresses for the identity provider.
#[derive(Debug)]
pub struct DiscordConfig {
    pub client_id: String,
    pub client_secret: String,
    pub redirect_uri: String,
    pub user_token: String,
}

/// Where the cache/session store listens.
#[derive(Debug)]
pub struct RedisConfig {
    /// The URL of the Redis server.
    pub url: String,
}

/// The allow-list of request origins. A request carrying an `Origin`
/// header outside this list is rejected before any credential is read.
#[derive(Debug, Default)]
pub struct AllowedOrigins(Vec<String>);

impl View for AllowedOrigins {
    type V = Seq<Seq<char>>;

    closed spec fn view(&self) -> Seq<Seq<char>> {
        self.0@.map_values(|s: String| s@)
    }
}

impl AllowedOrigins {
    /// The allow-list holding exactly the given origins.
    pub fn new(origins: Vec<String>) -> (r: AllowedOrigins)
        ensures
            r@ == origins@.map_values(|s: String| s@),
    {
        AllowedOrigins(origins)
    }

    /// Whether `value` is one of the allowed origins.
    pub fn contains(&self, value: &str) -> (r: bool)
        ensures
            r == self@.contains(value@),
    {
        let n = self.0.len();
        let mut i: usize = 0;
        while i < n
            invariant
                i <= n,
                n == self.0@.len(),
                self@ == self.0@.map_values(|s: String| s@),
                forall|j: int| 0 <= j < i ==> (#[trigger] self.0@[j])@ != value@,
            decreases n - i,
        {
            if str_eq(self.0[i].as_str(), value) {
                proof {
                    assert(self@[i as int] == value@);
                }
                return true;
            }
            i = i + 1;
        }
        proof {
            assert(forall|j: int| 0 <= j < n ==> #[trigger] self@[j] != value@);
            if self@.contains(value@) {
                let j = choose|j: int| 0 <= j < self@.len() && self@[j] == value@;
                assert(self@[j] != value@);
            }
        }
        false
    }
}

} // verus!
