//! The resolved configuration the core consumes: where the store lives,
//! where to bind, and the token-signing secret. Reading the environment is
//! the surrounding program's job; the core only carries the values.

use vstd::prelude::*;

use crate::decimal::{spec_dec, u64_to_string};

verus! {

use vstd::string::StringExecFns;

/// Configuration, read-only after startup.
#[derive(Debug, Clone, PartialEq)]
pub struct AppConfig {
    pub database_url: String,
    pub server_host: String,
    pub server_port: u16,
    pub jwt_secret: String,
}

impl AppConfig {
    /// `host:port`, the address the server binds.
    pub fn server_address(&self) -> (r: String)
        ensures
            r@ == self.server_host@ + seq![':'] + spec_dec(self.server_port as nat),
    {
        proof {
            reveal_strlit(":");
        }
        let mut s = self.server_host.clone();
        s.append(":");
        let port = u64_to_string(self.server_port as u64);
        s.append(port.as_str());
        proof {
            assert(s@ =~= self.server_host@ + seq![':'] + spec_dec(self.server_port as nat));
        }
        s
    }
}

} // verus!
