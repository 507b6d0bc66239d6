//! The remote token store: which writes issue a token, which key a
//! validation reads, and what the store's reply means for it.

use vstd::prelude::*;
use vstd::string::*;
use crate::cache::{
    commands_for, read_result, Cache, CacheErr, Entry, EntryView, Failure, Pipe,
    SetCommandView,
};
use crate::text::{decimal_string, decimal_text, parse_u64, push_text, u64_literal};
use crate::token::{is_random_v4, reads_back, Token};

verus! {

/// How long an issued token lives in the remote store, in seconds: twelve
/// hours.
pub const DAY_IN_SECONDS: u64 = 60 * 60 * 12;

/// The key under which the remote store holds the token of `user_id`.
pub open spec fn user_key(user_id: u64) -> Seq<char> {
    decimal_text(user_id as nat)
}

/// The entry that binds `user_id` to `token` for twelve hours.
pub open spec fn user_entry(user_id: u64, token: Token) -> EntryView {
    EntryView { key: user_key(user_id), value: token.text(), expiry_sec: DAY_IN_SECONDS }
}

/// The writes that issue `token` to `user_id`: the user's entry and its
/// reverse, from token to user, both unconditional.
pub open spec fn issue_commands(user_id: u64, token: Token) -> Seq<SetCommandView> {
    commands_for(user_entry(user_id, token), true, true)
}

/// What a read of a user's key means for the validation of `token`: valid
/// where the value reads as that token, invalid where it reads as anything
/// else or the key is absent, undecided where the read failed.
pub open spec fn validation_of(read: Result<Seq<char>, CacheErr>, token: Token) -> Result<
    bool,
    (),
> {
    match read {
        Ok(value) => Ok(Token::parsed(value) == Some(token)),
        Err(CacheErr::NilResponse) => Ok(false),
        Err(_) => Err(()),
    }
}

/// Whether `value` has its only `!` at place `at`, with something on both
/// sides of it.
pub open spec fn is_separated(value: Seq<char>, at: int) -> bool {
    &&& 0 < at < value.len() - 1
    &&& value[at] == '!'
    &&& forall|j: int| 0 <= j < value.len() && j != at ==> value[j] != '!'
}

/// The two parts of a value of the form `<name>!<user id>`: the name, which
/// is not empty, and the id, an unsigned 64-bit literal. A value with no `!`
/// or more than one, or with an empty part, or whose second part is no such
/// literal, has no parts.
pub open spec fn token_result(value: Seq<char>) -> Option<(Seq<char>, u64)> {
    if exists|at: int| is_separated(value, at) {
        let at = choose|at: int| is_separated(value, at);
        match u64_literal(value.skip(at + 1)) {
            Some(id) => Some((value.take(at), id)),
            None => None,
        }
    } else {
        None
    }
}

/// The value `<name>!<user id>`.
pub open spec fn joined(name: Seq<char>, user_id: u64) -> Seq<char> {
    name.push('!') + decimal_text(user_id as nat)
}

/// What a read of a token's key means for the validation of `username`:
/// valid where the value names that user, invalid where it names another or
/// the key is absent, undecided where the read failed or the value is not of
/// the form `<name>!<user id>`.
pub open spec fn username_validation_of(
    read: Result<Seq<char>, CacheErr>,
    username: Seq<char>,
) -> Result<bool, ()> {
    match read {
        Ok(value) => match token_result(value) {
            Some((name, _)) => Ok(name == username),
            None => Err(()),
        },
        Err(CacheErr::NilResponse) => Ok(false),
        Err(_) => Err(()),
    }
}

/// The remote token store, on top of the client of a key-value store.
pub struct RedisAuth {
    pub redis_cache: Cache,
}

impl RedisAuth {
    pub fn new(redis_cache: Cache) -> (store: Self)
        ensures
            store.redis_cache == redis_cache,
    {
        RedisAuth { redis_cache }
    }

    /// Draws a fresh token for `user_id` and gives it with the pipeline that
    /// issues it.
    pub fn generate_for_user(&self, user_id: u64) -> (issue: (Token, Pipe))
        ensures
            is_random_v4(issue.0.bits),
            reads_back(issue.0),
            issue.1@ == issue_commands(user_id, issue.0),
    {
        let token = Token::generate();
        let entry = Entry::new(decimal_string(user_id), token.to_string(), DAY_IN_SECONDS);
        let pipe = self.redis_cache.set_single(entry, true, true);
        (token, pipe)
    }

    /// The key to read for a validation of `user_id`.
    pub fn user_key(&self, user_id: u64) -> (key: String)
        ensures
            key@ == user_key(user_id),
    {
        decimal_string(user_id)
    }

    /// Decides from the reply to a read of the user's key whether `token` is
    /// the user's token.
    pub fn validate(&self, token: Token, reply: Result<String, Failure>) -> (valid: Result<
        bool,
        (),
    >)
        ensures
            valid == validation_of(read_result(reply), token),
    {
        match self.redis_cache.get(reply) {
            Ok(value) => match Token::parse_str(value.as_str()) {
                Some(stored) => Ok(stored == token),
                None => Ok(false),
            },
            Err(CacheErr::NilResponse) => Ok(false),
            Err(_) => Err(()),
        }
    }

    /// Decides from the reply to a read of a token's key whether the token
    /// was issued to `username`.
    pub fn validate_username(&self, username: &str, reply: Result<String, Failure>) -> (valid:
        Result<bool, ()>)
        ensures
            valid == username_validation_of(read_result(reply), username@),
    {
        let value = match self.redis_cache.get(reply) {
            Ok(value) => value,
            Err(CacheErr::NilResponse) => return Ok(false),
            Err(_) => return Err(()),
        };
        match separate_token_result(value) {
            Ok((stored_username, _)) => Ok(stored_username == username.to_owned()),
            Err(_) => Err(()),
        }
    }
}

/// The entry from a token to the user it was issued to.
pub fn create_token_to_user_entry(token: &Token, username: &str, user_id: u64) -> (entry: Entry)
    ensures
        entry@ == (EntryView {
            key: token.text(),
            value: joined(username@, user_id),
            expiry_sec: DAY_IN_SECONDS,
        }),
{
    let mut value = username.to_owned();
    push_text(&mut value, "!");
    push_text(&mut value, decimal_string(user_id).as_str());
    proof {
        reveal_strlit("!");
        assert("!"@ =~= seq!['!']);
        assert(value@ =~= joined(username@, user_id));
    }
    Entry::new(token.to_string(), value, DAY_IN_SECONDS)
}

/// The entry from a user's name to the token issued to the user.
pub fn create_user_to_token_entry(username: &str, token: &Token, user_id: u64) -> (entry: Entry)
    ensures
        entry@ == (EntryView {
            key: username@,
            value: joined(token.text(), user_id),
            expiry_sec: DAY_IN_SECONDS,
        }),
{
    let mut value = token.to_string();
    push_text(&mut value, "!");
    push_text(&mut value, decimal_string(user_id).as_str());
    proof {
        reveal_strlit("!");
        assert("!"@ =~= seq!['!']);
        assert(value@ =~= joined(token.text(), user_id));
    }
    Entry::new(username.to_owned(), value, DAY_IN_SECONDS)
}

/// Splits a value of the form `<name>!<user id>` into its two parts.
pub fn separate_token_result(value: String) -> (parts: Result<(String, u64), ()>)
    ensures
        parts is Ok <==> token_result(value@) is Some,
        parts is Ok ==> Some((parts->Ok_0.0@, parts->Ok_0.1)) == token_result(value@),
{
    let text = value.as_str();
    let n = text.unicode_len();
    let mut at: usize = 0;
    while at < n && text.get_char(at) != '!'
        invariant
            at <= n,
            n == text@.len(),
            forall|j: int| 0 <= j < at ==> text@[j] != '!',
        decreases n - at,
    {
        at += 1;
    }
    if at == n || at == 0 || at + 1 == n {
        assert forall|other: int| !is_separated(text@, other) by {
            if is_separated(text@, other) {
                if at < n {
                    assert(text@[at as int] == '!');
                }
            }
        }
        return Err(());
    }
    let mut j: usize = at + 1;
    while j < n
        invariant
            at < j <= n,
            n == text@.len(),
            text@ == value@,
            text@[at as int] == '!',
            forall|k: int| 0 <= k < j && k != at ==> text@[k] != '!',
        decreases n - j,
    {
        if text.get_char(j) == '!' {
            assert forall|other: int| !is_separated(text@, other) by {
                if is_separated(text@, other) {
                    assert(text@[at as int] == '!');
                    assert(text@[j as int] == '!');
                }
            }
            return Err(());
        }
        j += 1;
    }
    assert(is_separated(text@, at as int));
    let ghost chosen = choose|other: int| is_separated(text@, other);
    assert(chosen == at) by {
        assert(text@[chosen] == '!');
    }
    let left = text.substring_char(0, at);
    let right = text.substring_char(at + 1, n);
    assert(left@ =~= text@.take(at as int));
    assert(right@ =~= text@.skip(at + 1));
    match parse_u64(right) {
        Some(id) => Ok((left.to_owned(), id)),
        None => Err(()),
    }
}

/// Splits a value of the form `<token>!<user id>` into its two parts.
pub fn _separate_user_result(value: String) -> (parts: Result<(Token, u64), ()>)
    ensures
        parts is Ok <==> token_result(value@) is Some && Token::parsed(
            token_result(value@)->Some_0.0,
        ) is Some,
        parts is Ok ==> Some(parts->Ok_0.0) == Token::parsed(token_result(value@)->Some_0.0)
            && parts->Ok_0.1 == token_result(value@)->Some_0.1,
{
    match separate_token_result(value) {
        Ok((left, right)) => match Token::parse_str(left.as_str()) {
            Some(token) => Ok((token, right)),
            None => Err(()),
        },
        Err(_) => Err(()),
    }
}

} // verus!
