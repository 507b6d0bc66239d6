//! From the writes that the library decides on to the pipeline that the
//! store's client sends.

use vstd::prelude::*;
use vstd::utf8::encode_utf8;
use crate::cache::{Pipe, SetCommandView};
use crate::text::{decimal_string, decimal_text};

verus! {

/// The pipeline of the store's client, `redis::Pipeline`, of which nothing
/// is known but the commands it holds.
#[verifier::external_type_specification]
#[verifier::external_body]
pub struct ExPipeline(redis::Pipeline);

/// The commands that a pipeline of the store's client holds, in order; each
/// command is its arguments in order, the command's name first, and each
/// argument is its bytes.
pub uninterp spec fn queued(pipe: redis::Pipeline) -> Seq<Seq<Seq<u8>>>;

/// A pipeline of the store's client without commands. Trusted:
/// `redis::pipe` creates an empty pipeline.
#[verifier::external_body]
fn empty_pipeline() -> (pipe: redis::Pipeline)
    ensures
        queued(pipe) == Seq::<Seq<Seq<u8>>>::empty(),
{
    redis::pipe()
}

/// Starts a command. Trusted: `redis::Pipeline::cmd` appends a new command
/// whose only argument so far is the name, as its bytes.
#[verifier::external_body]
fn start_command(pipe: &mut redis::Pipeline, name: &str)
    ensures
        queued(*final(pipe)) == queued(*old(pipe)).push(seq![encode_utf8(name@)]),
{
    pipe.cmd(name);
}

/// Adds an argument to the command started last. Trusted:
/// `redis::Pipeline::arg` appends the bytes of a text as one argument to the
/// last command and leaves the commands before it as they were; on a
/// pipeline without commands it panics, so one is asked for.
#[verifier::external_body]
fn add_argument(pipe: &mut redis::Pipeline, arg: &str)
    requires
        queued(*old(pipe)).len() > 0,
    ensures
        queued(*final(pipe)) == queued(*old(pipe)).drop_last().push(
            queued(*old(pipe)).last().push(encode_utf8(arg@)),
        ),
{
    pipe.arg(arg);
}

/// One write as a command of the store: `SET key value EX seconds`, and
/// `NX` after it where the write is conditional.
pub open spec fn wire_command(command: SetCommandView) -> Seq<Seq<u8>> {
    let unconditional = seq![
        encode_utf8("SET"@),
        encode_utf8(command.key),
        encode_utf8(command.value),
        encode_utf8("EX"@),
        encode_utf8(decimal_text(command.expiry_sec as nat)),
    ];
    if command.if_absent {
        unconditional.push(encode_utf8("NX"@))
    } else {
        unconditional
    }
}

/// A sequence of writes as commands of the store, in the same order.
pub open spec fn wire_commands(commands: Seq<SetCommandView>) -> Seq<Seq<Seq<u8>>> {
    Seq::new(commands.len(), |i: int| wire_command(commands[i]))
}

impl Pipe {
    /// The pipeline of the store's client that holds these writes, one
    /// command for each, in order.
    pub fn to_redis(&self) -> (out: redis::Pipeline)
        ensures
            queued(out) == wire_commands(self@),
    {
        let mut out = empty_pipeline();
        let mut i: usize = 0;
        while i < self.commands.len()
            invariant
                i <= self.commands.len(),
                queued(out) == wire_commands(self@.take(i as int)),
            decreases self.commands.len() - i,
        {
            let command = &self.commands[i];
            let ghost before = queued(out);
            let ghost set = encode_utf8("SET"@);
            let ghost key = encode_utf8(command.key@);
            let ghost value = encode_utf8(command.value@);
            let ghost ex = encode_utf8("EX"@);
            let ghost seconds = encode_utf8(decimal_text(command.expiry_sec as nat));
            start_command(&mut out, "SET");
            add_argument(&mut out, command.key.as_str());
            assert(queued(out) =~~= before.push(seq![set, key]));
            add_argument(&mut out, command.value.as_str());
            assert(queued(out) =~~= before.push(seq![set, key, value]));
            add_argument(&mut out, "EX");
            assert(queued(out) =~~= before.push(seq![set, key, value, ex]));
            add_argument(&mut out, decimal_string(command.expiry_sec).as_str());
            assert(queued(out) =~~= before.push(seq![set, key, value, ex, seconds]));
            if command.if_absent {
                add_argument(&mut out, "NX");
                assert(queued(out) =~~= before.push(
                    seq![set, key, value, ex, seconds].push(encode_utf8("NX"@)),
                ));
            }
            proof {
                assert(self@.take(i + 1)[i as int] == command@);
                assert(queued(out) == before.push(wire_command(command@)));
                assert(queued(out) =~~= wire_commands(self@.take(i + 1)));
            }
            i += 1;
        }
        assert(self@.take(i as int) =~= self@);
        out
    }
}

} // verus!
