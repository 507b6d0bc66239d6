//! The token service: it serves each request from the remote store while
//! that store answers and from memory while it does not, probes for the
//! remote store on every so many requests served from memory, and carries
//! the tokens held in memory over before it goes back.
//!
//! The service never talks to the store itself. A request returns the next
//! [`Action`] for the caller to perform, and the caller hands the outcome
//! back as an [`Event`], until the action is the answer.

use vstd::prelude::*;
use vstd::std_specs::iter::IteratorSpec;
use crate::backup_auth::{holds, OfflineAuth};
use crate::cache::{
    commands_for_all, entry_views, read_result, Cache, CacheErr, Entry, EntryView, Failure,
    Pipe, SetCommandView,
};
use crate::redis_auth::{issue_commands, user_key, validation_of, RedisAuth};
use crate::text::decimal_string;
use crate::token::{is_random_v4, reads_back, Token};

verus! {

broadcast use vstd::std_specs::hash::group_hash_axioms;

/// The seconds that one attempt to reach the remote store may take.
pub const MAX_CONNECT_TIME: u64 = 1;

/// A probe for the remote store is made when the count of requests served
/// from memory is a multiple of this.
pub const RECONNECT_FREQUENCY: u64 = 1;

/// How long a token carried over from memory lives in the remote store, in
/// seconds.
pub const MIGRATION_EXPIRY: u64 = 120;

/// Why a validation gave no verdict.
#[derive(Clone, Copy, Debug, PartialEq, Eq, Structural)]
pub enum TokenError {
    /// The text given as token does not read as one.
    MalformedToken,
    /// The remote store could not be asked.
    BackendUnavailable,
}

/// The store that is active: exactly one of the two.
pub enum Store {
    Online(RedisAuth),
    Offline(OfflineAuth),
}

/// What a caller asks of the service.
#[derive(Clone, Copy, Debug, PartialEq, Eq, Structural)]
pub enum Request {
    Issue { user_id: u64 },
    Validate { user_id: u64, token: Token },
}

/// What the service waits for.
#[derive(Clone, Copy, Debug, PartialEq, Eq, Structural)]
pub enum Pending {
    /// Nothing: no request is under way.
    Idle,
    /// The outcome of a probe for the remote store, made before `0` is served.
    Probing(Request),
    /// The outcome of carrying the tokens over, made before `0` is served.
    Migrating(Request),
    /// The outcome of the writes that issue `token` to `user_id`.
    Storing { user_id: u64, token: Token },
    /// The reply to the read of the key of `user_id`, to validate `token`.
    Fetching { user_id: u64, token: Token },
}

/// What the caller is to do next.
pub enum Action {
    /// Try to reach the store at `addr` for no longer than `seconds`, and
    /// report [`Event::Connected`].
    Connect { addr: String, seconds: u64 },
    /// Send the pipeline to the store, and report [`Event::Sent`].
    Send(Pipe),
    /// Read the key from the store, and report [`Event::Fetched`].
    Fetch(String),
    /// The request is served: this token was issued.
    Issued(Token),
    /// The request is served: this is the verdict.
    Validated(Result<bool, TokenError>),
}

/// An [`Action`] as plain values.
pub enum ActionView {
    Connect { addr: Seq<char>, seconds: u64 },
    Send(Seq<SetCommandView>),
    Fetch(Seq<char>),
    Issued(Token),
    Validated(Result<bool, TokenError>),
}

impl View for Action {
    type V = ActionView;

    open spec fn view(&self) -> ActionView {
        match self {
            Action::Connect { addr, seconds } => ActionView::Connect {
                addr: addr@,
                seconds: *seconds,
            },
            Action::Send(pipe) => ActionView::Send(pipe@),
            Action::Fetch(key) => ActionView::Fetch(key@),
            Action::Issued(token) => ActionView::Issued(*token),
            Action::Validated(verdict) => ActionView::Validated(*verdict),
        }
    }
}

/// What came of the last [`Action`].
pub enum Event {
    /// Whether the store was reached in time.
    Connected(bool),
    /// Whether the pipeline was sent and answered.
    Sent(Result<(), Failure>),
    /// The value read, or why none came.
    Fetched(Result<String, Failure>),
}

/// An [`Event`] as plain values.
pub enum EventView {
    Connected(bool),
    Sent(bool),
    Fetched(Result<Seq<char>, CacheErr>),
}

impl View for Event {
    type V = EventView;

    open spec fn view(&self) -> EventView {
        match self {
            Event::Connected(reached) => EventView::Connected(*reached),
            Event::Sent(outcome) => EventView::Sent(outcome is Ok),
            Event::Fetched(reply) => EventView::Fetched(read_result(*reply)),
        }
    }
}

/// The state of the service as plain values.
pub struct ServiceView {
    /// Whether the remote store is the active one.
    pub online: bool,
    /// The tokens held in memory; none while the remote store is active.
    pub tokens: Map<u64, Token>,
    /// The requests served from memory since the service last left the
    /// remote store.
    pub misses: nat,
    pub pending: Pending,
    /// The address of the remote store.
    pub addr: Seq<char>,
}

/// Whether what the service waits for fits the store that is active: it
/// probes and carries over only from memory, and writes and reads only
/// remotely; while the remote store is active it holds no tokens; and the
/// text of every token that it holds or is about to issue reads back as
/// that token.
pub open spec fn well_formed(s: ServiceView) -> bool {
    &&& s.online ==> s.tokens == Map::<u64, Token>::empty()
    &&& forall|user_id: u64|
        s.tokens.contains_key(user_id) ==> reads_back(#[trigger] s.tokens[user_id])
    &&& match s.pending {
        Pending::Idle => true,
        Pending::Probing(_) | Pending::Migrating(_) => !s.online,
        Pending::Storing { token, .. } => s.online && reads_back(token),
        Pending::Fetching { .. } => s.online,
    }
}

/// Whether a service that is now in memory has room to count one more miss.
pub open spec fn can_count(s: ServiceView) -> bool {
    !s.online ==> s.misses < u64::MAX
}

/// Whether a request that arrives now is preceded by a probe.
pub open spec fn reconnect_due(s: ServiceView) -> bool {
    !s.online && s.misses % (RECONNECT_FREQUENCY as nat) == 0
}

/// The entry that carries the token of one user over to the remote store.
pub open spec fn migration_entry(user_id: u64, token: Token) -> EntryView {
    EntryView { key: user_key(user_id), value: token.text(), expiry_sec: MIGRATION_EXPIRY }
}

/// Whether `users` lists each user of the registry once.
pub open spec fn lists(users: Seq<u64>, tokens: Map<u64, Token>) -> bool {
    &&& users.no_duplicates()
    &&& forall|user_id: u64| users.contains(user_id) <==> tokens.contains_key(user_id)
}

/// The entries that carry over the tokens of `users`, in their order.
pub open spec fn migration_entries(users: Seq<u64>, tokens: Map<u64, Token>) -> Seq<EntryView> {
    Seq::new(users.len(), |i: int| migration_entry(users[i], tokens[users[i]]))
}

/// Whether `commands` carry a registry over: for each user once, in some
/// order, the unconditional writes of the user's entry and of its reverse.
pub open spec fn is_migration(tokens: Map<u64, Token>, commands: Seq<SetCommandView>) -> bool {
    exists|users: Seq<u64>| #[trigger]
        lists(users, tokens) && commands == commands_for_all(
            migration_entries(users, tokens),
            true,
            true,
        )
}

/// The service after it fell back to memory: a new, empty registry and one
/// miss counted.
pub open spec fn demoted(s: ServiceView) -> ServiceView {
    ServiceView {
        online: false,
        tokens: Map::empty(),
        misses: 1,
        pending: Pending::Idle,
        addr: s.addr,
    }
}

/// The service after it went back to the remote store: no tokens in memory
/// and no miss counted.
pub open spec fn promoted(s: ServiceView) -> ServiceView {
    ServiceView {
        online: true,
        tokens: Map::empty(),
        misses: 0,
        pending: Pending::Idle,
        addr: s.addr,
    }
}

/// Serving a request from the active store. From memory the request is
/// answered at once and a miss is counted; an issue registers `fresh`.
/// Remotely the answer waits for the store: an issue sends the writes for
/// `fresh`, a validation reads the user's key.
pub open spec fn serve(s: ServiceView, request: Request, fresh: Token) -> (
    ServiceView,
    ActionView,
) {
    if s.online {
        match request {
            Request::Issue { user_id } => (
                ServiceView { pending: Pending::Storing { user_id, token: fresh }, ..s },
                ActionView::Send(issue_commands(user_id, fresh)),
            ),
            Request::Validate { user_id, token } => (
                ServiceView { pending: Pending::Fetching { user_id, token }, ..s },
                ActionView::Fetch(user_key(user_id)),
            ),
        }
    } else {
        match request {
            Request::Issue { user_id } => (
                ServiceView {
                    tokens: s.tokens.insert(user_id, fresh),
                    misses: s.misses + 1,
                    pending: Pending::Idle,
                    ..s
                },
                ActionView::Issued(fresh),
            ),
            Request::Validate { user_id, token } => (
                ServiceView { misses: s.misses + 1, pending: Pending::Idle, ..s },
                ActionView::Validated(Ok(holds(s.tokens, user_id, token))),
            ),
        }
    }
}

/// The first step of a request: a probe where one is due, else the request
/// is served.
pub open spec fn begin(s: ServiceView, request: Request, fresh: Token) -> (
    ServiceView,
    ActionView,
) {
    if reconnect_due(s) {
        (
            ServiceView { pending: Pending::Probing(request), ..s },
            ActionView::Connect { addr: s.addr, seconds: MAX_CONNECT_TIME },
        )
    } else {
        serve(s, request, fresh)
    }
}

/// The step that follows an event, where the service waited for it.
///
/// After a probe that reached the store, the tokens in memory are sent over
/// by `migration`; after one that did not, the request is served from
/// memory. After the tokens were carried over, the service goes back to the
/// remote store and serves the request there; if carrying over failed, it
/// serves the request from memory. After the writes of an issue, the token
/// is issued; if they failed, the service falls back to memory and issues
/// `fresh` there. After the read of a validation, the verdict is given; if
/// the read failed, the service falls back to memory and the validation
/// fails as unavailable.
pub open spec fn resume(
    s: ServiceView,
    event: EventView,
    fresh: Token,
    migration: Seq<SetCommandView>,
) -> Option<(ServiceView, ActionView)> {
    match s.pending {
        Pending::Idle => None,
        Pending::Probing(request) => match event {
            EventView::Connected(true) => Some(
                (
                    ServiceView { pending: Pending::Migrating(request), ..s },
                    ActionView::Send(migration),
                ),
            ),
            EventView::Connected(false) => Some(serve(s, request, fresh)),
            _ => None,
        },
        Pending::Migrating(request) => match event {
            EventView::Sent(true) => Some(serve(promoted(s), request, fresh)),
            EventView::Sent(false) => Some(serve(s, request, fresh)),
            _ => None,
        },
        Pending::Storing { user_id, token } => match event {
            EventView::Sent(true) => Some(
                (ServiceView { pending: Pending::Idle, ..s }, ActionView::Issued(token)),
            ),
            EventView::Sent(false) => Some(
                (
                    ServiceView {
                        tokens: Map::<u64, Token>::empty().insert(user_id, fresh),
                        ..demoted(s)
                    },
                    ActionView::Issued(fresh),
                ),
            ),
            _ => None,
        },
        Pending::Fetching { user_id, token } => match event {
            EventView::Fetched(read) => match validation_of(read, token) {
                Ok(valid) => Some(
                    (
                        ServiceView { pending: Pending::Idle, ..s },
                        ActionView::Validated(Ok(valid)),
                    ),
                ),
                Err(_) => Some(
                    (demoted(s), ActionView::Validated(Err(TokenError::BackendUnavailable))),
                ),
            },
            _ => None,
        },
    }
}

/// The token that a step drew, where it drew one: the token it issued, or
/// the token whose writes it sent.
pub open spec fn minted(after: ServiceView, action: ActionView) -> Token {
    match action {
        ActionView::Issued(token) => token,
        _ => match after.pending {
            Pending::Storing { token, .. } => token,
            _ => Token { bits: 0 },
        },
    }
}

/// The writes that an action sends; none where it sends nothing.
pub open spec fn sent(action: ActionView) -> Seq<SetCommandView> {
    match action {
        ActionView::Send(commands) => commands,
        _ => Seq::empty(),
    }
}

/// Whether `after` and `action` are the first step of `request` from
/// `before`, with the token that the step drew.
pub open spec fn begins(
    before: ServiceView,
    request: Request,
    after: ServiceView,
    action: ActionView,
) -> bool {
    (after, action) == begin(before, request, minted(after, action))
}

/// Whether the service waits for an event of this kind.
pub open spec fn awaits(s: ServiceView, event: EventView) -> bool {
    match s.pending {
        Pending::Idle => false,
        Pending::Probing(_) => event is Connected,
        Pending::Migrating(_) | Pending::Storing { .. } => event is Sent,
        Pending::Fetching { .. } => event is Fetched,
    }
}

/// Whether `after` and `action` are the step that follows `event` from
/// `before`, with the token that the step drew and the writes it sent;
/// where the step carries tokens over, the writes carry the registry over.
pub open spec fn resumes(
    before: ServiceView,
    event: EventView,
    after: ServiceView,
    action: ActionView,
) -> bool {
    &&& resume(before, event, minted(after, action), sent(action)) == Some((after, action))
    &&& after.pending is Migrating ==> is_migration(before.tokens, sent(action))
}

/// The pipeline that carries the tokens held in memory over to the remote
/// store: for each user, in the order in which the registry hands them out,
/// the user's entry and its reverse, written whatever the store holds.
pub fn migrate_to_online(offline: &OfflineAuth, online: &Cache) -> (pipe: Pipe)
    ensures
        is_migration(offline@, pipe@),
{
    let mut entries: Vec<Entry> = Vec::new();
    let ghost pairs = vstd::std_specs::hash::spec_hash_map_iter(&offline.tokens).remaining();
    for pair in it: offline.tokens.iter()
        invariant
            it.seq() == pairs,
            entries@.len() == it.index(),
            forall|j: int|
                0 <= j < it.index() ==> (#[trigger] entries@[j])@ == migration_entry(
                    *pairs[j].0,
                    *pairs[j].1,
                ),
    {
        let (user_id, token) = pair;
        entries.push(Entry::new(decimal_string(*user_id), token.to_string(), MIGRATION_EXPIRY));
    }
    let pipe = online.set_multiple(entries, true, true);
    proof {
        let users = Seq::new(pairs.len(), |i: int| *pairs[i].0);
        assert(pairs.no_duplicates());
        assert forall|i: int, j: int| 0 <= i < users.len() && 0 <= j < users.len() && i != j
            implies users[i] != users[j] by {
            if users[i] == users[j] {
                assert(offline@[*pairs[i].0] == *pairs[i].1);
                assert(offline@[*pairs[j].0] == *pairs[j].1);
                assert(pairs[i] == pairs[j]);
            }
        }
        assert forall|user_id: u64| users.contains(user_id) <==> offline@.contains_key(
            user_id,
        ) by {
            if users.contains(user_id) {
                let i = choose|i: int| 0 <= i < users.len() && users[i] == user_id;
                assert(offline@.contains_key(*pairs[i].0));
            }
            if offline@.contains_key(user_id) {
                assert(pairs.contains((&user_id, &offline@[user_id])));
                let i = choose|i: int|
                    0 <= i < pairs.len() && pairs[i] == (&user_id, &offline@[user_id]);
                assert(users[i] == user_id);
            }
        }
        assert(lists(users, offline@));
        assert(entry_views(entries@) =~= migration_entries(users, offline@)) by {
            assert forall|i: int| 0 <= i < users.len() implies entry_views(entries@)[i]
                == migration_entries(users, offline@)[i] by {
                assert(offline@[*pairs[i].0] == *pairs[i].1);
            }
        }
    }
    pipe
}

/// The token service.
pub struct AuthService {
    store: Store,
    addr: String,
    misses: u64,
    pending: Pending,
}

impl View for AuthService {
    type V = ServiceView;

    closed spec fn view(&self) -> ServiceView {
        ServiceView {
            online: self.store is Online,
            tokens: match self.store {
                Store::Online(_) => Map::empty(),
                Store::Offline(offline) => offline@,
            },
            misses: self.misses as nat,
            pending: self.pending,
            addr: self.addr@,
        }
    }
}

impl AuthService {
    /// Whether the service is in a state that its own operations lead to;
    /// its plain values are then well formed.
    pub closed spec fn wf(&self) -> bool {
        &&& well_formed(self@)
        &&& self.store matches Store::Online(remote) ==> remote.redis_cache.url@ == self.addr@
    }

    /// Whether the service, where it is in memory, has room to count one
    /// more miss; a request can be begun or resumed only then.
    pub fn can_count(&self) -> (room: bool)
        ensures
            room == can_count(self@),
    {
        self.is_online() || self.misses < u64::MAX
    }

    /// A service for the remote store at `addr`. It starts on the remote
    /// store where the one probe made for it found the store `reachable`,
    /// and in memory where it did not.
    pub fn new(addr: &str, reachable: bool) -> (service: AuthService)
        ensures
            service.wf(),
            well_formed(service@),
            service@ == (ServiceView {
                online: reachable,
                tokens: Map::empty(),
                misses: 0,
                pending: Pending::Idle,
                addr: addr@,
            }),
    {
        let store = match Cache::new(addr, reachable) {
            Ok(redis_cache) => Store::Online(RedisAuth::new(redis_cache)),
            Err(_) => Store::Offline(OfflineAuth::new()),
        };
        AuthService { store, addr: addr.to_owned(), misses: 0, pending: Pending::Idle }
    }

    /// Whether the remote store is the active one.
    pub fn is_online(&self) -> (online: bool)
        ensures
            online == self@.online,
    {
        match &self.store {
            Store::Online(_) => true,
            Store::Offline(_) => false,
        }
    }

    /// The requests served from memory since the service last left the
    /// remote store.
    pub fn misses(&self) -> (misses: u64)
        ensures
            misses == self@.misses,
    {
        self.misses
    }

    /// What the service waits for.
    pub fn pending(&self) -> (pending: Pending)
        ensures
            pending == self@.pending,
    {
        self.pending
    }

    /// Starts a probe for the remote store where one is due before
    /// `request` is served.
    fn maybe_reconnect(&mut self, request: Request) -> (action: Option<Action>)
        requires
            old(self).wf(),
        ensures
            final(self).wf(),
            action is Some <==> reconnect_due(old(self)@),
            action is Some ==> (final(self)@, action->Some_0@) == begin(
                old(self)@,
                request,
                Token { bits: 0 },
            ),
            action is None ==> final(self)@ == old(self)@,
    {
        if self.is_online() || self.misses % RECONNECT_FREQUENCY != 0 {
            return None;
        }
        self.pending = Pending::Probing(request);
        assert(self@.tokens == old(self)@.tokens);
        Some(Action::Connect { addr: self.addr.clone(), seconds: MAX_CONNECT_TIME })
    }

    /// Serves `request` from the active store.
    fn serve(&mut self, request: Request) -> (action: Action)
        requires
            old(self).wf(),
            can_count(old(self)@),
        ensures
            final(self).wf(),
            (final(self)@, action@) == serve(
                old(self)@,
                request,
                minted(final(self)@, action@),
            ),
            request is Issue ==> is_random_v4(minted(final(self)@, action@).bits) && reads_back(
                minted(final(self)@, action@),
            ),
    {
        match &mut self.store {
            Store::Offline(offline) => {
                self.misses = self.misses + 1;
                self.pending = Pending::Idle;
                match request {
                    Request::Issue { user_id } => Action::Issued(
                        offline.generate_for_user(user_id),
                    ),
                    Request::Validate { user_id, token } => Action::Validated(
                        Ok(offline.validate(user_id, token)),
                    ),
                }
            },
            Store::Online(remote) => match request {
                Request::Issue { user_id } => {
                    let (token, pipe) = remote.generate_for_user(user_id);
                    self.pending = Pending::Storing { user_id, token };
                    Action::Send(pipe)
                },
                Request::Validate { user_id, token } => {
                    self.pending = Pending::Fetching { user_id, token };
                    Action::Fetch(remote.user_key(user_id))
                },
            },
        }
    }

    /// Falls back to memory, with a new and empty registry.
    fn demote(&mut self)
        ensures
            final(self).wf(),
            final(self)@ == demoted(old(self)@),
    {
        self.store = Store::Offline(OfflineAuth::new());
        self.misses = 1;
        self.pending = Pending::Idle;
    }

    /// Begins to issue a token for `user_id`. A request that was under way
    /// is given up.
    ///
    /// Where a probe is due, the action is the probe. Else, from memory, a
    /// fresh token is registered for the user in place of any earlier one
    /// and issued at once; remotely, the action sends the writes that issue
    /// a fresh token. The token comes with the [`Action::Issued`] that ends
    /// the request; an issue never fails.
    pub fn generate_user_token(&mut self, user_id: u64) -> (action: Action)
        requires
            old(self).wf(),
            can_count(old(self)@),
        ensures
            final(self).wf(),
            well_formed(final(self)@),
            begins(old(self)@, Request::Issue { user_id }, final(self)@, action@),
            !(action@ is Connect) ==> is_random_v4(minted(final(self)@, action@).bits)
                && reads_back(minted(final(self)@, action@)),
    {
        let request = Request::Issue { user_id };
        match self.maybe_reconnect(request) {
            Some(action) => action,
            None => self.serve(request),
        }
    }

    /// Begins to validate the text `token_str` as the token of `user_id`. A
    /// request that was under way is given up.
    ///
    /// A text that does not read as a token is refused at once as
    /// malformed, and the service stays as it was. Else, where a probe is
    /// due, the action is the probe; from memory, the verdict is given at
    /// once; remotely, the action reads the user's key.
    pub fn validate(&mut self, user_id: u64, token_str: &str) -> (action: Action)
        requires
            old(self).wf(),
            can_count(old(self)@),
        ensures
            final(self).wf(),
            well_formed(final(self)@),
            match Token::parsed(token_str@) {
                Some(token) => begins(
                    old(self)@,
                    Request::Validate { user_id, token },
                    final(self)@,
                    action@,
                ),
                None => final(self)@ == old(self)@ && action@ == ActionView::Validated(
                    Err(TokenError::MalformedToken),
                ),
            },
            token_str@.len() < 32 ==> action@ == ActionView::Validated(
                Err(TokenError::MalformedToken),
            ),
    {
        let token = match Token::parse_str(token_str) {
            Some(token) => token,
            None => return Action::Validated(Err(TokenError::MalformedToken)),
        };
        let request = Request::Validate { user_id, token };
        match self.maybe_reconnect(request) {
            Some(action) => action,
            None => self.serve(request),
        }
    }

    /// Takes the outcome of the last action and gives the next one, or
    /// nothing where the service did not wait for such an outcome; it then
    /// stays as it was.
    pub fn resume(&mut self, event: Event) -> (action: Option<Action>)
        requires
            old(self).wf(),
            can_count(old(self)@),
        ensures
            final(self).wf(),
            well_formed(final(self)@),
            action is Some <==> awaits(old(self)@, event@),
            action matches Some(next) ==> resumes(old(self)@, event@, final(self)@, next@),
            action is None ==> final(self)@ == old(self)@,
            action matches Some(Action::Issued(token)) ==> reads_back(token),
    {
        match (self.pending, event) {
            (Pending::Probing(request), Event::Connected(reached)) => {
                if reached {
                    let online = Cache { url: self.addr.clone() };
                    let pipe = match &self.store {
                        Store::Offline(offline) => migrate_to_online(offline, &online),
                        Store::Online(_) => Pipe::new(),
                    };
                    self.pending = Pending::Migrating(request);
                    Some(Action::Send(pipe))
                } else {
                    Some(self.serve(request))
                }
            },
            (Pending::Migrating(request), Event::Sent(outcome)) => {
                if outcome.is_ok() {
                    self.pending = Pending::Idle;
                    self.store = Store::Online(RedisAuth::new(Cache { url: self.addr.clone() }));
                    self.misses = 0;
                }
                Some(self.serve(request))
            },
            (Pending::Storing { user_id, token }, Event::Sent(outcome)) => {
                if outcome.is_ok() {
                    self.pending = Pending::Idle;
                    Some(Action::Issued(token))
                } else {
                    let mut offline = OfflineAuth::new();
                    let fresh = offline.generate_for_user(user_id);
                    self.store = Store::Offline(offline);
                    self.misses = 1;
                    self.pending = Pending::Idle;
                    Some(Action::Issued(fresh))
                }
            },
            (Pending::Fetching { user_id, token }, Event::Fetched(reply)) => {
                let verdict = match &self.store {
                    Store::Online(remote) => remote.validate(token, reply),
                    Store::Offline(_) => Err(()),
                };
                match verdict {
                    Ok(valid) => {
                        self.pending = Pending::Idle;
                        Some(Action::Validated(Ok(valid)))
                    },
                    Err(_) => {
                        self.demote();
                        Some(Action::Validated(Err(TokenError::BackendUnavailable)))
                    },
                }
            },
            _ => None,
        }
    }
}

} // verus!
