//! What holds of the service and of the store's pipelines whatever the
//! requests and whatever the store does, stated over a model of the remote
//! store and proved.

use vstd::prelude::*;
use crate::auth::{
    awaits, begin, lists, migration_entries, migration_entry, reconnect_due, resume, well_formed,
    ActionView, EventView, Request, ServiceView, TokenError, MAX_CONNECT_TIME, MIGRATION_EXPIRY,
};
use crate::backup_auth::holds;
use crate::cache::{
    apply_command, apply_commands, commands_for, commands_for_all, forward_command,
    reverse_command, CacheErr, EntryView, SetCommandView, Stored,
};
use crate::redis_auth::{
    is_separated, issue_commands, joined, token_result, user_entry, user_key, DAY_IN_SECONDS,
};
use crate::text::{
    decimal_text, is_digit, lemma_decimal_text_digits, lemma_decimal_text_injective,
    lemma_decimal_text_literal,
};
use crate::token::{lemma_token_text_not_decimal, reads_back, Token};

verus! {

/// Applying two sequences of writes one after the other is applying them
/// joined.
pub proof fn lemma_apply_joined(
    keys: Map<Seq<char>, Stored>,
    first: Seq<SetCommandView>,
    second: Seq<SetCommandView>,
)
    ensures
        apply_commands(keys, first + second) == apply_commands(
            apply_commands(keys, first),
            second,
        ),
    decreases second.len(),
{
    if second.len() == 0 {
        assert(first + second =~= first);
    } else {
        lemma_apply_joined(keys, first, second.drop_last());
        assert((first + second).drop_last() =~= first + second.drop_last());
        assert((first + second).last() == second.last());
    }
}

/// The store after the writes that one entry asks for.
pub open spec fn after_entry(
    keys: Map<Seq<char>, Stored>,
    entry: EntryView,
    symmetric: bool,
    overwrite: bool,
) -> Map<Seq<char>, Stored> {
    let forward = apply_command(keys, forward_command(entry, !overwrite));
    if symmetric {
        apply_command(forward, reverse_command(entry, !overwrite))
    } else {
        forward
    }
}

/// The writes of one entry take effect as the entry's own write followed,
/// where symmetric, by its reverse.
pub proof fn lemma_apply_entry(
    keys: Map<Seq<char>, Stored>,
    entry: EntryView,
    symmetric: bool,
    overwrite: bool,
)
    ensures
        apply_commands(keys, commands_for(entry, symmetric, overwrite)) == after_entry(
            keys,
            entry,
            symmetric,
            overwrite,
        ),
{
    let commands = commands_for(entry, symmetric, overwrite);
    let forward = forward_command(entry, !overwrite);
    if symmetric {
        assert(commands.drop_last() =~= seq![forward]);
        assert(seq![forward].drop_last() =~= Seq::<SetCommandView>::empty());
        assert(apply_commands(keys, Seq::<SetCommandView>::empty()) == keys);
        assert(apply_commands(keys, seq![forward]) == apply_command(keys, forward));
    } else {
        assert(commands.drop_last() =~= Seq::<SetCommandView>::empty());
        assert(apply_commands(keys, Seq::<SetCommandView>::empty()) == keys);
    }
}

/// The writes of a list of entries take effect entry by entry.
pub proof fn lemma_apply_entries(
    keys: Map<Seq<char>, Stored>,
    entries: Seq<EntryView>,
    symmetric: bool,
    overwrite: bool,
)
    requires
        entries.len() > 0,
    ensures
        apply_commands(keys, commands_for_all(entries, symmetric, overwrite)) == after_entry(
            apply_commands(keys, commands_for_all(entries.drop_last(), symmetric, overwrite)),
            entries.last(),
            symmetric,
            overwrite,
        ),
{
    lemma_apply_joined(
        keys,
        commands_for_all(entries.drop_last(), symmetric, overwrite),
        commands_for(entries.last(), symmetric, overwrite),
    );
    lemma_apply_entry(
        apply_commands(keys, commands_for_all(entries.drop_last(), symmetric, overwrite)),
        entries.last(),
        symmetric,
        overwrite,
    );
}

/// A symmetric, overwriting write of one entry leaves the value under the
/// key and the key under the value, each with the entry's time to live.
pub proof fn law_symmetric_write_both_ways(keys: Map<Seq<char>, Stored>, entry: EntryView)
    ensures
        ({
            let after = apply_commands(keys, commands_for(entry, true, true));
            &&& after.contains_key(entry.key)
            &&& after[entry.key] == (Stored { value: entry.value, expiry_sec: entry.expiry_sec })
            &&& after.contains_key(entry.value)
            &&& after[entry.value] == (Stored { value: entry.key, expiry_sec: entry.expiry_sec })
        }),
{
    lemma_apply_entry(keys, entry, true, true);
}

/// Whether no entry from place `from` on has `key` as its key or its value.
pub open spec fn untouched_from(entries: Seq<EntryView>, from: int, key: Seq<char>) -> bool {
    forall|j: int|
        from <= j < entries.len() ==> (#[trigger] entries[j]).key != key && entries[j].value
            != key
}

/// After a symmetric, overwriting write of a list of entries, each entry
/// whose key no later entry touches is found under its key, and each entry
/// whose value no later entry touches is found, reversed, under its value.
pub proof fn law_symmetric_writes_both_ways(
    keys: Map<Seq<char>, Stored>,
    entries: Seq<EntryView>,
    i: int,
)
    requires
        0 <= i < entries.len(),
    ensures
        ({
            let after = apply_commands(keys, commands_for_all(entries, true, true));
            let entry = entries[i];
            &&& untouched_from(entries, i + 1, entry.key) ==> after.contains_key(entry.key)
                && after[entry.key] == (Stored {
                value: entry.value,
                expiry_sec: entry.expiry_sec,
            })
            &&& untouched_from(entries, i + 1, entry.value) ==> after.contains_key(entry.value)
                && after[entry.value] == (Stored {
                value: entry.key,
                expiry_sec: entry.expiry_sec,
            })
        }),
    decreases entries.len(),
{
    lemma_apply_entries(keys, entries, true, true);
    let shorter = entries.drop_last();
    if i < entries.len() - 1 {
        law_symmetric_writes_both_ways(keys, shorter, i);
        let entry = entries[i];
        assert(shorter[i] == entry);
        if untouched_from(entries, i + 1, entry.key) {
            assert(entries[entries.len() - 1].key != entry.key);
            assert forall|j: int| i + 1 <= j < shorter.len() implies (#[trigger] shorter[j]).key
                != entry.key && shorter[j].value != entry.key by {
                assert(shorter[j] == entries[j]);
            }
        }
        if untouched_from(entries, i + 1, entry.value) {
            assert(entries[entries.len() - 1].key != entry.value);
            assert forall|j: int| i + 1 <= j < shorter.len() implies (#[trigger] shorter[j]).key
                != entry.value && shorter[j].value != entry.value by {
                assert(shorter[j] == entries[j]);
            }
        }
    }
}

/// Writes that do not overwrite leave every key that the store held with
/// the value and the time to live it had, symmetric or not.
pub proof fn law_no_overwrite_keeps_stored(
    keys: Map<Seq<char>, Stored>,
    entries: Seq<EntryView>,
    symmetric: bool,
    key: Seq<char>,
)
    requires
        keys.contains_key(key),
    ensures
        apply_commands(keys, commands_for_all(entries, symmetric, false)).contains_key(key),
        apply_commands(keys, commands_for_all(entries, symmetric, false))[key] == keys[key],
    decreases entries.len(),
{
    if entries.len() > 0 {
        law_no_overwrite_keeps_stored(keys, entries.drop_last(), symmetric, key);
        lemma_apply_entries(keys, entries, symmetric, false);
    }
}

/// The remote store as the laws see it: whether it can be reached, and what
/// it holds.
pub struct RemoteView {
    pub up: bool,
    pub keys: Map<Seq<char>, Stored>,
}

/// What the remote store makes of an action: the store afterwards and the
/// event it reports. A store that is up is reached, takes every write and
/// answers every read; one that is down is not reached, and every write
/// and read fails.
pub open spec fn answer(remote: RemoteView, action: ActionView) -> (RemoteView, EventView) {
    match action {
        ActionView::Send(commands) => if remote.up {
            (
                RemoteView { up: true, keys: apply_commands(remote.keys, commands) },
                EventView::Sent(true),
            )
        } else {
            (remote, EventView::Sent(false))
        },
        ActionView::Fetch(key) => if !remote.up {
            (remote, EventView::Fetched(Err(CacheErr::ConnectionLost)))
        } else if remote.keys.contains_key(key) {
            (remote, EventView::Fetched(Ok(remote.keys[key].value)))
        } else {
            (remote, EventView::Fetched(Err(CacheErr::NilResponse)))
        },
        _ => (remote, EventView::Connected(remote.up)),
    }
}

/// What is drawn while one request is served: the token an issue draws, the
/// token it draws again where it falls back to memory, and the order in
/// which the registry hands out its users where they are carried over.
pub struct Draws {
    pub fresh: Token,
    pub again: Token,
    pub users: Seq<u64>,
}

/// Whether the tokens drawn read back, as every token does that
/// [`Token::generate`] gives.
pub open spec fn fair(draws: Draws) -> bool {
    reads_back(draws.fresh) && reads_back(draws.again)
}

/// Whether an action ends a request.
pub open spec fn is_answer(action: ActionView) -> bool {
    action is Issued || action is Validated
}

/// What one step of a request is made of: the outcome of the action before
/// it, and what the step draws.
pub struct Turn {
    pub event: EventView,
    pub fresh: Token,
    pub migration: Seq<SetCommandView>,
}

/// The step that a turn leads to; an answer stays as it is, and so does
/// an action whose outcome the turn does not bring.
pub open spec fn follow(s: ServiceView, action: ActionView, turn: Turn) -> (
    ServiceView,
    ActionView,
) {
    if is_answer(action) {
        (s, action)
    } else {
        match resume(s, turn.event, turn.fresh, turn.migration) {
            Some(next) => next,
            None => (s, action),
        }
    }
}

/// One round with the remote store: the action is performed and the
/// service takes the outcome. An answer is left as it is.
pub open spec fn round(s: ServiceView, remote: RemoteView, action: ActionView, draws: Draws) -> (
    ServiceView,
    RemoteView,
    ActionView,
) {
    if is_answer(action) {
        (s, remote, action)
    } else {
        let (remote_after, event) = answer(remote, action);
        let turn = Turn {
            event,
            fresh: if s.pending is Storing {
                draws.again
            } else {
                draws.fresh
            },
            migration: commands_for_all(migration_entries(draws.users, s.tokens), true, true),
        };
        let next = follow(s, action, turn);
        (next.0, remote_after, next.1)
    }
}

/// A request served to its end against the remote store: the first step and
/// three rounds, which is as many as a request can take.
pub open spec fn run(s: ServiceView, remote: RemoteView, request: Request, draws: Draws) -> (
    ServiceView,
    RemoteView,
    ActionView,
) {
    let (first, action) = begin(s, request, draws.fresh);
    let one = round(first, remote, action, draws);
    let two = round(one.0, one.1, one.2, draws);
    round(two.0, two.1, two.2, draws)
}

/// The token that the remote store holds for a user, where it holds a value
/// under the user's key that reads as one.
pub open spec fn remote_token(keys: Map<Seq<char>, Stored>, user_id: u64) -> Option<Token> {
    if keys.contains_key(user_key(user_id)) {
        Token::parsed(keys[user_key(user_id)].value)
    } else {
        None
    }
}

/// Carrying a registry over leaves each of its users' tokens under the
/// user's key, in whatever order the users are taken.
pub proof fn lemma_migration_stores(
    keys: Map<Seq<char>, Stored>,
    users: Seq<u64>,
    tokens: Map<u64, Token>,
    user_id: u64,
)
    requires
        users.no_duplicates(),
        users.contains(user_id),
    ensures
        ({
            let after = apply_commands(
                keys,
                commands_for_all(migration_entries(users, tokens), true, true),
            );
            &&& after.contains_key(user_key(user_id))
            &&& after[user_key(user_id)] == (Stored {
                value: tokens[user_id].text(),
                expiry_sec: MIGRATION_EXPIRY,
            })
        }),
    decreases users.len(),
{
    let entries = migration_entries(users, tokens);
    let last = users.last();
    let rest = users.drop_last();
    assert(entries.drop_last() =~= migration_entries(rest, tokens));
    assert(entries.last() == migration_entry(last, tokens[last]));
    lemma_apply_entries(keys, entries, true, true);
    lemma_token_text_not_decimal(tokens[last], user_id as nat);
    if last != user_id {
        let at = choose|i: int| 0 <= i < users.len() && users[i] == user_id;
        assert(rest[at] == user_id);
        lemma_migration_stores(keys, rest, tokens, user_id);
        lemma_decimal_text_injective(last as nat, user_id as nat);
    }
}

/// Carrying a registry over leaves what the store held under the key of a
/// user who is not in the registry.
pub proof fn law_migration_spares_others(
    keys: Map<Seq<char>, Stored>,
    users: Seq<u64>,
    tokens: Map<u64, Token>,
    user_id: u64,
)
    requires
        !users.contains(user_id),
    ensures
        ({
            let after = apply_commands(
                keys,
                commands_for_all(migration_entries(users, tokens), true, true),
            );
            &&& after.contains_key(user_key(user_id)) == keys.contains_key(user_key(user_id))
            &&& after.contains_key(user_key(user_id)) ==> after[user_key(user_id)]
                == keys[user_key(user_id)]
        }),
    decreases users.len(),
{
    if users.len() > 0 {
        let entries = migration_entries(users, tokens);
        let last = users.last();
        let rest = users.drop_last();
        assert(entries.drop_last() =~= migration_entries(rest, tokens));
        assert(entries.last() == migration_entry(last, tokens[last]));
        lemma_apply_entries(keys, entries, true, true);
        lemma_token_text_not_decimal(tokens[last], user_id as nat);
        assert(users[users.len() - 1] == last);
        assert forall|i: int| 0 <= i < rest.len() implies rest[i] != user_id by {
            assert(users[i] == rest[i]);
        }
        law_migration_spares_others(keys, rest, tokens, user_id);
        lemma_decimal_text_injective(last as nat, user_id as nat);
    } else {
        assert(migration_entries(users, tokens) =~= Seq::<EntryView>::empty());
    }
}

/// Issuing a token remotely leaves the token under the user's key, and
/// leaves what the store held under every other user's key.
pub proof fn lemma_issue_stores(
    keys: Map<Seq<char>, Stored>,
    user_id: u64,
    token: Token,
    other: u64,
)
    ensures
        ({
            let after = apply_commands(keys, issue_commands(user_id, token));
            &&& after.contains_key(user_key(user_id))
            &&& after[user_key(user_id)] == (Stored {
                value: token.text(),
                expiry_sec: DAY_IN_SECONDS,
            })
            &&& other != user_id ==> after.contains_key(user_key(other)) == keys.contains_key(
                user_key(other),
            ) && (after.contains_key(user_key(other)) ==> after[user_key(other)]
                == keys[user_key(other)])
        }),
{
    lemma_apply_entry(keys, user_entry(user_id, token), true, true);
    lemma_token_text_not_decimal(token, user_id as nat);
    lemma_token_text_not_decimal(token, other as nat);
    lemma_decimal_text_injective(user_id as nat, other as nat);
}

/// Where an issue served to its end leaves the service and the store: the
/// request is answered with one of the tokens drawn, the service waits for
/// nothing, and the token is the user's token in the store that is then
/// active; the remote store is up or down as it was.
pub proof fn lemma_issue_run(s: ServiceView, remote: RemoteView, user_id: u64, draws: Draws)
    requires
        well_formed(s),
        lists(draws.users, s.tokens),
        fair(draws),
    ensures
        ({
            let (after, remote_after, action) = run(s, remote, Request::Issue { user_id }, draws);
            &&& well_formed(after)
            &&& after.pending is Idle
            &&& after.addr == s.addr
            &&& remote_after.up == remote.up
            &&& action is Issued
            &&& action->Issued_0 == draws.fresh || action->Issued_0 == draws.again
            &&& if after.online {
                &&& remote.up
                &&& remote_after.keys.contains_key(user_key(user_id))
                &&& remote_after.keys[user_key(user_id)].value == action->Issued_0.text()
            } else {
                &&& remote_after == remote
                &&& holds(after.tokens, user_id, action->Issued_0)
            }
        }),
{
    let migration = commands_for_all(migration_entries(draws.users, s.tokens), true, true);
    let migrated = apply_commands(remote.keys, migration);
    lemma_issue_stores(remote.keys, user_id, draws.fresh, user_id);
    lemma_issue_stores(migrated, user_id, draws.fresh, user_id);
}

/// The verdict that the remote store gives on a token of a user.
pub open spec fn remote_verdict(keys: Map<Seq<char>, Stored>, user_id: u64, token: Token) -> bool {
    remote_token(keys, user_id) == Some(token)
}

/// Where a validation served to its end leaves the service and the store,
/// and what its verdict is: that of the remote store where the service is
/// on it or goes back to it, that of the registry in memory where it stays
/// there, and none, as unavailable, where the remote store was active and
/// is down.
pub proof fn lemma_validate_run(
    s: ServiceView,
    remote: RemoteView,
    user_id: u64,
    token: Token,
    draws: Draws,
)
    requires
        well_formed(s),
    ensures
        ({
            let (after, remote_after, action) = run(
                s,
                remote,
                Request::Validate { user_id, token },
                draws,
            );
            let migrated = apply_commands(
                remote.keys,
                commands_for_all(migration_entries(draws.users, s.tokens), true, true),
            );
            &&& well_formed(after)
            &&& after.pending is Idle
            &&& remote_after.up == remote.up
            &&& if s.online {
                if remote.up {
                    &&& after.online
                    &&& remote_after == remote
                    &&& action == ActionView::Validated(
                        Ok(remote_verdict(remote.keys, user_id, token)),
                    )
                } else {
                    &&& !after.online
                    &&& after.tokens == Map::<u64, Token>::empty()
                    &&& after.misses == 1
                    &&& action == ActionView::Validated(Err(TokenError::BackendUnavailable))
                }
            } else if reconnect_due(s) && remote.up {
                &&& after.online
                &&& after.misses == 0
                &&& remote_after.keys == migrated
                &&& action == ActionView::Validated(Ok(remote_verdict(migrated, user_id, token)))
            } else {
                &&& !after.online
                &&& after.tokens == s.tokens
                &&& after.misses == s.misses + 1
                &&& remote_after == remote
                &&& action == ActionView::Validated(Ok(holds(s.tokens, user_id, token)))
            }
        }),
{
}

/// A token validates right after it was issued: for every user, whichever
/// store is active and whether the remote store is up or down, an issue
/// served to its end followed by a validation of the issued token for the
/// same user gives the verdict valid.
pub proof fn law_issued_token_validates(
    s: ServiceView,
    remote: RemoteView,
    user_id: u64,
    issue: Draws,
    check: Draws,
)
    requires
        well_formed(s),
        lists(issue.users, s.tokens),
        lists(check.users, run(s, remote, Request::Issue { user_id }, issue).0.tokens),
        fair(issue),
    ensures
        ({
            let (after, remote_after, issued) = run(
                s,
                remote,
                Request::Issue { user_id },
                issue,
            );
            &&& issued is Issued
            &&& run(
                after,
                remote_after,
                Request::Validate { user_id, token: issued->Issued_0 },
                check,
            ).2 == ActionView::Validated(Ok(true))
        }),
{
    let (after, remote_after, issued) = run(s, remote, Request::Issue { user_id }, issue);
    lemma_issue_run(s, remote, user_id, issue);
    let token = issued->Issued_0;
    lemma_validate_run(after, remote_after, user_id, token, check);
    if !after.online {
        lemma_migration_stores(remote_after.keys, check.users, after.tokens, user_id);
    }
}

/// A second issue invalidates the first token: for every user, whichever
/// store is active and whether the remote store is up or down, after two
/// issues served to their ends that gave different tokens, a validation of
/// the first token for the same user gives the verdict invalid.
pub proof fn law_second_issue_invalidates_first(
    s: ServiceView,
    remote: RemoteView,
    user_id: u64,
    first: Draws,
    second: Draws,
    check: Draws,
)
    requires
        well_formed(s),
        lists(first.users, s.tokens),
        ({
            let one = run(s, remote, Request::Issue { user_id }, first);
            let two = run(one.0, one.1, Request::Issue { user_id }, second);
            &&& lists(second.users, one.0.tokens)
            &&& lists(check.users, two.0.tokens)
            &&& one.2->Issued_0 != two.2->Issued_0
        }),
        fair(first),
        fair(second),
    ensures
        ({
            let one = run(s, remote, Request::Issue { user_id }, first);
            let two = run(one.0, one.1, Request::Issue { user_id }, second);
            &&& one.2 is Issued
            &&& two.2 is Issued
            &&& run(
                two.0,
                two.1,
                Request::Validate { user_id, token: one.2->Issued_0 },
                check,
            ).2 == ActionView::Validated(Ok(false))
        }),
{
    let one = run(s, remote, Request::Issue { user_id }, first);
    lemma_issue_run(s, remote, user_id, first);
    let two = run(one.0, one.1, Request::Issue { user_id }, second);
    lemma_issue_run(one.0, one.1, user_id, second);
    lemma_validate_run(two.0, two.1, user_id, one.2->Issued_0, check);
    if !two.0.online {
        lemma_migration_stores(two.1.keys, check.users, two.0.tokens, user_id);
    }
}

/// A probe is made exactly when a request arrives while the service is in
/// memory and the misses counted are a multiple of the reconnect
/// frequency; it is the first step of the request, bounded by the maximal
/// connect time, and no later step of the request probes again.
pub proof fn law_one_bounded_probe(
    s: ServiceView,
    request: Request,
    event: EventView,
    fresh: Token,
    migration: Seq<SetCommandView>,
)
    ensures
        begin(s, request, fresh).1 is Connect <==> reconnect_due(s),
        reconnect_due(s) ==> begin(s, request, fresh).1 == (ActionView::Connect {
            addr: s.addr,
            seconds: MAX_CONNECT_TIME,
        }),
        resume(s, event, fresh, migration) matches Some(next) ==> !(next.1 is Connect),
{
}

/// Tokens issued in memory validate right after the switch back: where a
/// probe is due and the remote store is up, the request that makes the
/// probe, served to its end, leaves the service on the remote store with no
/// miss counted, and a validation that follows gives the verdict valid for
/// every token that the registry held of a user for whom the request did
/// not issue another.
pub proof fn law_offline_tokens_survive_reconnect(
    s: ServiceView,
    remote: RemoteView,
    request: Request,
    user_id: u64,
    switch: Draws,
    check: Draws,
)
    requires
        well_formed(s),
        reconnect_due(s),
        remote.up,
        lists(switch.users, s.tokens),
        fair(switch),
        s.tokens.contains_key(user_id),
        request != (Request::Issue { user_id }),
    ensures
        ({
            let (after, remote_after, _) = run(s, remote, request, switch);
            &&& after.online
            &&& after.misses == 0
            &&& run(
                after,
                remote_after,
                Request::Validate { user_id, token: s.tokens[user_id] },
                check,
            ).2 == ActionView::Validated(Ok(true))
        }),
{
    let migrated = apply_commands(
        remote.keys,
        commands_for_all(migration_entries(switch.users, s.tokens), true, true),
    );
    lemma_migration_stores(remote.keys, switch.users, s.tokens, user_id);
    let (after, remote_after, _) = run(s, remote, request, switch);
    match request {
        Request::Issue { user_id: other } => {
            lemma_issue_stores(migrated, other, switch.fresh, user_id);
        },
        Request::Validate { .. } => {},
    }
    lemma_validate_run(after, remote_after, user_id, s.tokens[user_id], check);
}

/// Whether `event` is an outcome of `action`.
pub open spec fn reports(action: ActionView, event: EventView) -> bool {
    match action {
        ActionView::Connect { .. } => event is Connected,
        ActionView::Send(_) => event is Sent,
        ActionView::Fetch(_) => event is Fetched,
        _ => false,
    }
}

/// After every step the service waits for the outcomes of the action it
/// gave and for nothing else, and after an answer for nothing at all.
pub proof fn law_service_awaits_its_action(
    s: ServiceView,
    request: Request,
    event: EventView,
    fresh: Token,
    migration: Seq<SetCommandView>,
    outcome: EventView,
)
    requires
        well_formed(s),
    ensures
        awaits(begin(s, request, fresh).0, outcome) <==> reports(
            begin(s, request, fresh).1,
            outcome,
        ),
        resume(s, event, fresh, migration) matches Some(next) ==> (awaits(next.0, outcome)
            <==> reports(next.1, outcome)),
{
}

/// Every request is answered within three outcomes, whatever the remote
/// store does: an issue with a token, a validation with a verdict or the
/// error that the store was unavailable.
pub proof fn law_request_is_answered(
    s: ServiceView,
    request: Request,
    fresh: Token,
    one: Turn,
    two: Turn,
    three: Turn,
)
    requires
        well_formed(s),
        ({
            let first = begin(s, request, fresh);
            let second = follow(first.0, first.1, one);
            let third = follow(second.0, second.1, two);
            &&& !is_answer(first.1) ==> reports(first.1, one.event)
            &&& !is_answer(second.1) ==> reports(second.1, two.event)
            &&& !is_answer(third.1) ==> reports(third.1, three.event)
        }),
    ensures
        ({
            let first = begin(s, request, fresh);
            let second = follow(first.0, first.1, one);
            let third = follow(second.0, second.1, two);
            let last = follow(third.0, third.1, three);
            &&& request is Issue ==> last.1 is Issued
            &&& request is Validate ==> last.1 is Validated
            &&& last.0.pending is Idle
        }),
{
}

/// A value joined from a name and a user id separates into the two again,
/// where the name is not empty and holds no `!`.
pub proof fn law_joined_value_separates(name: Seq<char>, user_id: u64)
    requires
        name.len() > 0,
        !name.contains('!'),
    ensures
        token_result(joined(name, user_id)) == Some((name, user_id)),
{
    let numeral = decimal_text(user_id as nat);
    let value = joined(name, user_id);
    let at = name.len() as int;
    lemma_decimal_text_digits(user_id as nat);
    lemma_decimal_text_literal(user_id);
    assert forall|j: int| 0 <= j < value.len() && j != at implies value[j] != '!' by {
        if j < at {
            assert(name.contains(name[j]));
        } else {
            assert(is_digit(numeral[j - at - 1]));
        }
    }
    assert(is_separated(value, at));
    let chosen = choose|other: int| is_separated(value, other);
    assert(value[chosen] == '!');
    assert(value.skip(at + 1) =~= numeral);
    assert(value.take(at) =~= name);
}

} // verus!
