//! The bot's identity, borrowed from a resolved configuration.

use vstd::prelude::*;

use crate::config::Config;

verus! {

/// What the messaging agent needs to authenticate, borrowed from the
/// resolved configuration it was constructed from.
pub struct Bot<'a> {
    pub name: &'a str,
    pub id: u64,
    pub token: &'a str,
    pub secret: &'a str,
}

impl<'a> Bot<'a> {
    /// Borrows the identity fields out of a resolved configuration.
    pub fn from_config(config: &'a Config) -> (r: Self)
        ensures
            r.name@ == config.name@,
            r.id == config.api.id,
            r.token@ == config.api.token@,
            r.secret@ == config.api.secret@,
    {
        Self {
            name: config.name.as_str(),
            id: config.api.id,
            token: config.api.token.as_str(),
            secret: config.api.secret.as_str(),
        }
    }
}

} // verus!
