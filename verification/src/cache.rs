//! The key-value store client, as far as it decides anything: which writes a
//! request for one or many entries puts into a pipeline, and how a reply of
//! the store is read. Sending a pipeline and receiving a reply is left to the
//! caller.

use vstd::prelude::*;
use crate::token::Token;

verus! {

/// A key, a value and the number of seconds the pair is to live.
pub struct Entry {
    pub key: String,
    pub value: String,
    pub expiry_sec: u64,
}

/// An [`Entry`] as plain values.
pub struct EntryView {
    pub key: Seq<char>,
    pub value: Seq<char>,
    pub expiry_sec: u64,
}

impl View for Entry {
    type V = EntryView;

    open spec fn view(&self) -> EntryView {
        EntryView { key: self.key@, value: self.value@, expiry_sec: self.expiry_sec }
    }
}

impl Entry {
    pub fn new(key: String, value: String, expiry_sec: u64) -> (entry: Self)
        ensures
            entry.key == key,
            entry.value == value,
            entry.expiry_sec == expiry_sec,
    {
        Entry { key, value, expiry_sec }
    }
}

/// One write of a pipeline: set `key` to `value` for `expiry_sec` seconds;
/// with `if_absent`, only where the store holds nothing under `key`.
pub struct SetCommand {
    pub key: String,
    pub value: String,
    pub expiry_sec: u64,
    pub if_absent: bool,
}

/// A [`SetCommand`] as plain values.
pub struct SetCommandView {
    pub key: Seq<char>,
    pub value: Seq<char>,
    pub expiry_sec: u64,
    pub if_absent: bool,
}

impl View for SetCommand {
    type V = SetCommandView;

    open spec fn view(&self) -> SetCommandView {
        SetCommandView {
            key: self.key@,
            value: self.value@,
            expiry_sec: self.expiry_sec,
            if_absent: self.if_absent,
        }
    }
}

/// The write that stores `entry` as it stands.
pub open spec fn forward_command(entry: EntryView, if_absent: bool) -> SetCommandView {
    SetCommandView {
        key: entry.key,
        value: entry.value,
        expiry_sec: entry.expiry_sec,
        if_absent,
    }
}

/// The write that stores `entry` with key and value exchanged.
pub open spec fn reverse_command(entry: EntryView, if_absent: bool) -> SetCommandView {
    SetCommandView {
        key: entry.value,
        value: entry.key,
        expiry_sec: entry.expiry_sec,
        if_absent,
    }
}

/// The writes that one entry asks for: the entry itself and, where
/// `symmetric`, its reverse after it; each conditional unless `overwrite`.
pub open spec fn commands_for(entry: EntryView, symmetric: bool, overwrite: bool) -> Seq<
    SetCommandView,
> {
    if symmetric {
        seq![forward_command(entry, !overwrite), reverse_command(entry, !overwrite)]
    } else {
        seq![forward_command(entry, !overwrite)]
    }
}

/// The writes that a list of entries asks for, entry by entry in order.
pub open spec fn commands_for_all(entries: Seq<EntryView>, symmetric: bool, overwrite: bool) -> Seq<
    SetCommandView,
>
    decreases entries.len(),
{
    if entries.len() == 0 {
        Seq::empty()
    } else {
        commands_for_all(entries.drop_last(), symmetric, overwrite) + commands_for(
            entries.last(),
            symmetric,
            overwrite,
        )
    }
}

/// The entries of a vector as plain values.
pub open spec fn entry_views(entries: Seq<Entry>) -> Seq<EntryView> {
    Seq::new(entries.len(), |i: int| entries[i]@)
}

/// What the store holds under one key.
pub struct Stored {
    pub value: Seq<char>,
    pub expiry_sec: u64,
}

/// The store after one write.
pub open spec fn apply_command(keys: Map<Seq<char>, Stored>, command: SetCommandView) -> Map<
    Seq<char>,
    Stored,
> {
    if command.if_absent && keys.contains_key(command.key) {
        keys
    } else {
        keys.insert(command.key, Stored { value: command.value, expiry_sec: command.expiry_sec })
    }
}

/// The store after a sequence of writes, applied in order.
pub open spec fn apply_commands(keys: Map<Seq<char>, Stored>, commands: Seq<SetCommandView>) -> Map<
    Seq<char>,
    Stored,
>
    decreases commands.len(),
{
    if commands.len() == 0 {
        keys
    } else {
        apply_command(apply_commands(keys, commands.drop_last()), commands.last())
    }
}

/// A sequence of writes to be sent to the store in one go.
pub struct Pipe {
    pub commands: Vec<SetCommand>,
}

impl View for Pipe {
    type V = Seq<SetCommandView>;

    open spec fn view(&self) -> Seq<SetCommandView> {
        Seq::new(self.commands@.len(), |i: int| self.commands@[i]@)
    }
}

impl Pipe {
    /// A pipeline without writes.
    pub fn new() -> (pipe: Pipe)
        ensures
            pipe@ == Seq::<SetCommandView>::empty(),
    {
        let pipe = Pipe { commands: Vec::new() };
        assert(pipe@ =~= Seq::<SetCommandView>::empty());
        pipe
    }

    /// Appends one write.
    fn push(&mut self, command: SetCommand)
        ensures
            final(self)@ == old(self)@.push(command@),
    {
        self.commands.push(command);
        assert(self@ =~= old(self)@.push(command@));
    }

    /// Appends the unconditional write of `key` to `value`.
    pub fn set_ex(&mut self, key: String, value: String, expiry_sec: u64)
        ensures
            final(self)@ == old(self)@.push(
                SetCommandView { key: key@, value: value@, expiry_sec, if_absent: false },
            ),
    {
        self.push(SetCommand { key, value, expiry_sec, if_absent: false });
    }

    /// Appends the unconditional writes of `entry` and of its reverse.
    pub fn set_ex_symmetric(&mut self, entry: &Entry)
        ensures
            final(self)@ == old(self)@ + commands_for(entry@, true, true),
    {
        self.push(
            SetCommand {
                key: entry.key.clone(),
                value: entry.value.clone(),
                expiry_sec: entry.expiry_sec,
                if_absent: false,
            },
        );
        self.push(
            SetCommand {
                key: entry.value.clone(),
                value: entry.key.clone(),
                expiry_sec: entry.expiry_sec,
                if_absent: false,
            },
        );
        assert(self@ =~= old(self)@ + commands_for(entry@, true, true));
    }

    /// Appends the write of `entry` that takes effect only where its key is
    /// absent.
    pub fn set_ex_nx(&mut self, entry: &Entry)
        ensures
            final(self)@ == old(self)@ + commands_for(entry@, false, false),
    {
        self.push(
            SetCommand {
                key: entry.key.clone(),
                value: entry.value.clone(),
                expiry_sec: entry.expiry_sec,
                if_absent: true,
            },
        );
        assert(self@ =~= old(self)@ + commands_for(entry@, false, false));
    }

    /// Appends the writes of `entry` and of its reverse, each taking effect
    /// only where its key is absent.
    pub fn set_ex_nx_symmetric(&mut self, entry: &Entry)
        ensures
            final(self)@ == old(self)@ + commands_for(entry@, true, false),
    {
        self.push(
            SetCommand {
                key: entry.key.clone(),
                value: entry.value.clone(),
                expiry_sec: entry.expiry_sec,
                if_absent: true,
            },
        );
        self.push(
            SetCommand {
                key: entry.value.clone(),
                value: entry.key.clone(),
                expiry_sec: entry.expiry_sec,
                if_absent: true,
            },
        );
        assert(self@ =~= old(self)@ + commands_for(entry@, true, false));
    }
}

/// Appends to `pipe` the writes that `entry` asks for.
pub fn add_to_pipe(pipe: &mut Pipe, entry: &Entry, symmetric: bool, overwrite: bool)
    ensures
        final(pipe)@ == old(pipe)@ + commands_for(entry@, symmetric, overwrite),
{
    match (symmetric, overwrite) {
        (true, true) => pipe.set_ex_symmetric(entry),
        (true, false) => pipe.set_ex_nx_symmetric(entry),
        (false, true) => {
            pipe.set_ex(entry.key.clone(), entry.value.clone(), entry.expiry_sec);
            assert(pipe@ =~= old(pipe)@ + commands_for(entry@, false, true));
        },
        (false, false) => pipe.set_ex_nx(entry),
    }
}

/// What the logic reads of an error that the store's client reported.
#[derive(Clone, Copy, Debug, PartialEq, Eq, Structural)]
pub struct RedisFault {
    /// The connection was dropped.
    pub connection_dropped: bool,
    /// The client cannot recover from the error on this connection.
    pub unrecoverable: bool,
    /// The reply was not of the type asked for, as when the key is absent.
    pub type_error: bool,
}

/// Why a request did not bring a reply.
#[derive(Clone, Copy, Debug, PartialEq, Eq, Structural)]
pub enum Failure {
    /// No connection to the store could be had.
    Unconnected,
    /// The store's client reported an error.
    Fault(RedisFault),
}

/// The errors of the store client.
#[derive(Clone, Copy, Debug, PartialEq, Eq, Structural)]
pub enum CacheErr {
    /// The store holds nothing under the key.
    NilResponse,
    /// No connection to the store could be had.
    AsyncConnFailure,
    /// The connection is unusable.
    ConnectionLost,
    /// Any other error of the store.
    RedisErr,
}

impl CacheErr {
    /// The error that a fault stands for: a lost connection where the fault
    /// says dropped or unrecoverable, else an absent key where it says type
    /// error, else an error of the store.
    pub open spec fn of(value: RedisFault) -> CacheErr {
        if value.connection_dropped || value.unrecoverable {
            CacheErr::ConnectionLost
        } else if value.type_error {
            CacheErr::NilResponse
        } else {
            CacheErr::RedisErr
        }
    }

    pub fn from(value: RedisFault) -> (err: CacheErr)
        ensures
            err == CacheErr::of(value),
    {
        if value.connection_dropped || value.unrecoverable {
            return CacheErr::ConnectionLost;
        }
        if value.type_error {
            CacheErr::NilResponse
        } else {
            CacheErr::RedisErr
        }
    }

    /// The error that a failure stands for.
    pub open spec fn of_failure(failure: Failure) -> CacheErr {
        match failure {
            Failure::Unconnected => CacheErr::AsyncConnFailure,
            Failure::Fault(fault) => CacheErr::of(fault),
        }
    }
}

/// What a read of one key gives: the value, or the error in its place.
pub open spec fn read_result(reply: Result<String, Failure>) -> Result<Seq<char>, CacheErr> {
    match reply {
        Ok(value) => Ok(value@),
        Err(failure) => Err(CacheErr::of_failure(failure)),
    }
}

/// The client of one key-value store, known by its address.
pub struct Cache {
    pub url: String,
}

impl Cache {
    /// The client of the store at `url`, where a probe found it `reachable`.
    pub fn new(url: &str, reachable: bool) -> (cache: Result<Self, ()>)
        ensures
            cache is Ok <==> reachable,
            cache is Ok ==> cache->Ok_0.url@ == url@,
    {
        if reachable {
            Ok(Cache { url: url.to_owned() })
        } else {
            Err(())
        }
    }

    /// Reads the reply to a request for one key.
    pub fn get(&self, reply: Result<String, Failure>) -> (value: Result<String, CacheErr>)
        ensures
            value is Ok <==> reply is Ok,
            value is Ok ==> value->Ok_0 == reply->Ok_0,
            value is Err ==> value->Err_0 == CacheErr::of_failure(reply->Err_0),
    {
        match reply {
            Ok(value) => Ok(value),
            Err(Failure::Unconnected) => Err(CacheErr::AsyncConnFailure),
            Err(Failure::Fault(fault)) => Err(CacheErr::from(fault)),
        }
    }

    /// The pipeline that sets one key, whatever the store holds under it.
    pub fn set_key(&self, key: &str, value: &str, expiry_sec: u64) -> (pipe: Pipe)
        ensures
            pipe@ == seq![
                SetCommandView { key: key@, value: value@, expiry_sec, if_absent: false },
            ],
    {
        let mut pipe = Pipe::new();
        pipe.set_ex(key.to_owned(), value.to_owned(), expiry_sec);
        assert(pipe@ =~= seq![
            SetCommandView { key: key@, value: value@, expiry_sec, if_absent: false },
        ]);
        pipe
    }

    /// The pipeline that stores one entry: with `symmetric`, the entry and
    /// its reverse; without `overwrite`, only under keys that are absent.
    pub fn set_single(&self, entry: Entry, symmetric: bool, overwrite: bool) -> (pipe: Pipe)
        ensures
            pipe@ == commands_for(entry@, symmetric, overwrite),
    {
        let mut pipe = Pipe::new();
        add_to_pipe(&mut pipe, &entry, symmetric, overwrite);
        assert(pipe@ =~= commands_for(entry@, symmetric, overwrite));
        pipe
    }

    /// The pipeline that stores a list of entries, in their order: with
    /// `symmetric`, each entry and its reverse; without `overwrite`, only
    /// under keys that are absent.
    pub fn set_multiple(&self, entries: Vec<Entry>, symmetric: bool, overwrite: bool) -> (pipe:
        Pipe)
        ensures
            pipe@ == commands_for_all(entry_views(entries@), symmetric, overwrite),
    {
        let mut pipe = Pipe::new();
        let ghost views = entry_views(entries@);
        let mut i: usize = 0;
        while i < entries.len()
            invariant
                i <= entries.len(),
                views == entry_views(entries@),
                pipe@ == commands_for_all(views.take(i as int), symmetric, overwrite),
            decreases entries.len() - i,
        {
            proof {
                let longer = views.take(i + 1);
                assert(longer.drop_last() =~= views.take(i as int));
                assert(longer.last() == entries@[i as int]@);
            }
            add_to_pipe(&mut pipe, &entries[i], symmetric, overwrite);
            i += 1;
        }
        assert(views.take(i as int) =~= views);
        pipe
    }

    /// Reads the reply to a request for a user's token: the token, where the
    /// store gave a value that reads as one.
    pub fn get_token_by_user_id(&self, reply: Result<String, Failure>) -> (token: Result<Token, ()>)
        ensures
            token is Ok <==> reply is Ok && Token::parsed(reply->Ok_0@) is Some,
            token is Ok ==> Some(token->Ok_0) == Token::parsed(reply->Ok_0@),
    {
        match reply {
            Ok(text) => match Token::parse_str(text.as_str()) {
                Some(token) => Ok(token),
                None => Err(()),
            },
            Err(_) => Err(()),
        }
    }
}

} // verus!
