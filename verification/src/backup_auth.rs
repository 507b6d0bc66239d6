//! The fallback token store: a map from user id to token held in process
//! memory, without expiry.

use std::collections::HashMap;
use vstd::prelude::*;
use crate::token::{is_random_v4, reads_back, Token};

verus! {

broadcast use vstd::std_specs::hash::group_hash_axioms;

/// The tokens issued while the remote store cannot be reached, at most one
/// per user.
pub struct OfflineAuth {
    pub tokens: HashMap<u64, Token>,
}

impl View for OfflineAuth {
    type V = Map<u64, Token>;

    open spec fn view(&self) -> Map<u64, Token> {
        self.tokens@
    }
}

impl OfflineAuth {
    /// A store without tokens.
    pub fn new() -> (store: Self)
        ensures
            store@ == Map::<u64, Token>::empty(),
    {
        OfflineAuth { tokens: HashMap::new() }
    }

    /// Issues a fresh token for `user_id` and registers it in place of any
    /// token the user held.
    pub fn generate_for_user(&mut self, user_id: u64) -> (token: Token)
        ensures
            final(self)@ == old(self)@.insert(user_id, token),
            is_random_v4(token.bits),
            reads_back(token),
    {
        let token = Token::generate();
        self.tokens.insert(user_id, token);
        token
    }

    /// Whether `token` is the token registered for `user_id`.
    pub fn validate(&self, user_id: u64, token: Token) -> (valid: bool)
        ensures
            valid == holds(self@, user_id, token),
    {
        match self.tokens.get(&user_id) {
            Some(registered) => *registered == token,
            None => false,
        }
    }
}

/// Whether a registry maps `user_id` to `token`.
pub open spec fn holds(tokens: Map<u64, Token>, user_id: u64, token: Token) -> bool {
    tokens.contains_key(user_id) && tokens[user_id] == token
}

} // verus!
