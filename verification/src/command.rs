//! The command facade: the exact wire line of each playback operation.
//!
//! The wire protocol is newline-delimited JSON of the shape
//! `{"command":[verb,arg...]}`.  Each facade operation here produces the
//! line (or lines) to write; the shell writes them through the channel and
//! discards the engine's acknowledgement.

use vstd::prelude::*;
use vstd::string::{StringExecFns, StrSliceExecFns};
use crate::numeral::{signed_dec, i64_to_dec};

verus! {

broadcast use vstd::seq::group_seq_axioms;

/// A path with backslash separators replaced by the engine's forward slashes.
pub open spec fn normalized_path(p: Seq<char>) -> Seq<char> {
    Seq::new(p.len(), |i: int| if p[i] == '\\' { '/' } else { p[i] })
}

/// Replace backslash separators before a path goes on the wire.
pub fn normalize_separators(path: &str) -> (r: String)
    ensures
        r@ == normalized_path(path@),
{
    let n = path.unicode_len();
    let mut out = String::new();
    let mut i: usize = 0;
    while i < n
        invariant
            n == path@.len(),
            i <= n,
            out@ == normalized_path(path@.subrange(0, i as int)),
        decreases n - i,
    {
        let c = path.get_char(i);
        if c == '\\' {
            out.append("/");
            proof {
                reveal_strlit("/");
                assert("/"@ =~= seq!['/']);
            }
        } else {
            let piece = path.substring_char(i, i + 1);
            proof {
                assert(piece@ =~= seq![path@[i as int]]);
            }
            out.append(piece);
        }
        proof {
            let c0 = if path@[i as int] == '\\' { '/' } else { path@[i as int] };
            assert(normalized_path(path@.subrange(0, i + 1)) =~= normalized_path(
                path@.subrange(0, i as int),
            ) + seq![c0]);
        }
        i = i + 1;
    }
    proof {
        assert(path@.subrange(0, n as int) =~= path@);
    }
    out
}

/// The clamped volume level: out-of-range input is pulled into [0, 100].
pub open spec fn clamped_volume(v: int) -> int {
    if v < 0 {
        0
    } else if v > 100 {
        100
    } else {
        v
    }
}

/// Clamp a requested volume level to the engine's closed range [0, 100].
pub fn clamp_volume(level: i64) -> (r: i64)
    ensures
        r as int == clamped_volume(level as int),
{
    if level < 0 {
        0
    } else if level > 100 {
        100
    } else {
        level
    }
}

/// The level actually sent for a requested volume `x` is
/// `min(100, max(0, x))`: out-of-range input is clamped, never rejected.
pub proof fn lemma_volume_clamp(x: int)
    ensures
        clamped_volume(x) == vstd::math::min(100, vstd::math::max(0, x)),
{
}

/// The JSON text of a boolean argument.
pub open spec fn flag_text(flag: bool) -> Seq<char> {
    if flag {
        "true"@
    } else {
        "false"@
    }
}

/// One argument of a command: quoted text, a number, or a flag.
pub enum CommandArg {
    Text(String),
    Number(i64),
    Flag(bool),
}

/// The JSON text of one argument.
pub open spec fn arg_text(a: CommandArg) -> Seq<char> {
    match a {
        CommandArg::Text(s) => seq!['"'] + s@ + seq!['"'],
        CommandArg::Number(n) => signed_dec(n as int),
        CommandArg::Flag(b) => flag_text(b),
    }
}

/// The JSON text of an argument list: each argument preceded by a comma,
/// so it can follow the verb inside the command array.
pub open spec fn args_text(args: Seq<CommandArg>) -> Seq<char>
    decreases args.len(),
{
    if args.len() == 0 {
        Seq::empty()
    } else {
        args_text(args.drop_last()) + seq![','] + arg_text(args.last())
    }
}

/// A request description: a verb and its ordered argument list.  It is
/// constructed per call, serialized to one wire line, and discarded.
pub struct Command {
    pub verb: String,
    pub args: Vec<CommandArg>,
}

/// The wire line of a command: `{"command":[verb,arg...]}`.
pub open spec fn command_line(verb: Seq<char>, args: Seq<CommandArg>) -> Seq<char> {
    "{\"command\":["@ + (seq!['"'] + verb + seq!['"']) + args_text(args) + "]}"@
}

/// Serialize one argument.
fn arg_to_text(a: &CommandArg) -> (r: String)
    ensures
        r@ == arg_text(*a),
{
    match a {
        CommandArg::Text(s) => {
            let mut q = String::from_str("\"");
            q.append(s.as_str());
            q.append("\"");
            proof {
                reveal_strlit("\"");
                assert("\""@ =~= seq!['"']);
            }
            q
        },
        CommandArg::Number(n) => i64_to_dec(*n),
        CommandArg::Flag(b) => {
            if *b {
                String::from_str("true")
            } else {
                String::from_str("false")
            }
        },
    }
}

impl Command {
    /// Serialize this command to its wire line.
    pub fn to_line(&self) -> (r: String)
        ensures
            r@ == command_line(self.verb@, self.args@),
    {
        let mut s = String::from_str("{\"command\":[\"");
        s.append(self.verb.as_str());
        s.append("\"");
        proof {
            reveal_strlit("{\"command\":[");
            reveal_strlit("{\"command\":[\"");
            reveal_strlit("\"");
            assert(s@ =~= "{\"command\":["@ + (seq!['"'] + self.verb@ + seq!['"']));
        }
        let ghost head = "{\"command\":["@ + (seq!['"'] + self.verb@ + seq!['"']);
        let n = self.args.len();
        let mut i: usize = 0;
        while i < n
            invariant
                n == self.args@.len(),
                i <= n,
                head == "{\"command\":["@ + (seq!['"'] + self.verb@ + seq!['"']),
                s@ == head + args_text(self.args@.subrange(0, i as int)),
            decreases n - i,
        {
            s.append(",");
            let piece = arg_to_text(&self.args[i]);
            s.append(piece.as_str());
            proof {
                reveal_strlit(",");
                assert(","@ =~= seq![',']);
                let taken = self.args@.subrange(0, i + 1);
                assert(taken.drop_last() =~= self.args@.subrange(0, i as int));
                assert(taken.last() == self.args@[i as int]);
                assert(s@ =~= head + args_text(taken));
            }
            i = i + 1;
        }
        s.append("]}");
        proof {
            assert(self.args@.subrange(0, n as int) =~= self.args@);
        }
        s
    }
}

/// The line that sets the engine's pause flag.
pub open spec fn set_pause_line(flag: bool) -> Seq<char> {
    "{\"command\":[\"set_property\",\"pause\","@ + flag_text(flag) + "]}"@
}

/// The line that loads one media path.
pub open spec fn load_line(path: Seq<char>) -> Seq<char> {
    "{\"command\":[\"loadfile\",\""@ + path + "\"]}"@
}

/// The line that seeks to an absolute position, in whole seconds.
pub open spec fn seek_line(seconds: int) -> Seq<char> {
    "{\"command\":[\"seek\","@ + signed_dec(seconds) + ",\"absolute\"]}"@
}

/// The line that sets the volume level.
pub open spec fn volume_line(level: int) -> Seq<char> {
    "{\"command\":[\"set_property\",\"volume\","@ + signed_dec(level) + "]}"@
}

/// The line that unloads the current media and halts playback.
pub open spec fn stop_line() -> Seq<char> {
    "{\"command\":[\"stop\"]}"@
}

/// The text of a one-element argument list.
proof fn lemma_args_text_one(args: Seq<CommandArg>)
    requires
        args.len() == 1,
    ensures
        args_text(args) == seq![','] + arg_text(args[0]),
{
    assert(args.drop_last() =~= Seq::<CommandArg>::empty());
    assert(args_text(Seq::<CommandArg>::empty()) == Seq::<char>::empty());
    assert(args.last() == args[0]);
    assert(args_text(args) =~= seq![','] + arg_text(args[0]));
}

/// The text of a two-element argument list.
proof fn lemma_args_text_two(args: Seq<CommandArg>)
    requires
        args.len() == 2,
    ensures
        args_text(args) == seq![','] + arg_text(args[0]) + seq![','] + arg_text(args[1]),
{
    assert(args.drop_last() =~= seq![args[0]]);
    lemma_args_text_one(seq![args[0]]);
    assert(args_text(args) =~= seq![','] + arg_text(args[0]) + seq![','] + arg_text(args[1]));
}

/// Build the line that sets the pause flag.
pub fn pause_command(flag: bool) -> (r: String)
    ensures
        r@ == set_pause_line(flag),
{
    let mut args: Vec<CommandArg> = Vec::new();
    args.push(CommandArg::Text(String::from_str("pause")));
    args.push(CommandArg::Flag(flag));
    let cmd = Command { verb: String::from_str("set_property"), args };
    let line = cmd.to_line();
    proof {
        lemma_args_text_two(cmd.args@);
        reveal_strlit("{\"command\":[");
        reveal_strlit("set_property");
        reveal_strlit("pause");
        reveal_strlit("{\"command\":[\"set_property\",\"pause\",");
        assert(line@ =~= set_pause_line(flag));
    }
    line
}

/// The single line sent by the pause operation.
pub fn pause() -> (r: String)
    ensures
        r@ == set_pause_line(true),
{
    pause_command(true)
}

/// The single line sent by the resume operation.
pub fn resume() -> (r: String)
    ensures
        r@ == set_pause_line(false),
{
    pause_command(false)
}

/// Build the load line for one path, separators normalized.
pub fn load_command(path: &str) -> (r: String)
    ensures
        r@ == load_line(normalized_path(path@)),
{
    let norm = normalize_separators(path);
    let mut args: Vec<CommandArg> = Vec::new();
    args.push(CommandArg::Text(norm));
    let cmd = Command { verb: String::from_str("loadfile"), args };
    let line = cmd.to_line();
    proof {
        lemma_args_text_one(cmd.args@);
        reveal_strlit("{\"command\":[");
        reveal_strlit("loadfile");
        reveal_strlit("{\"command\":[\"loadfile\",\"");
        reveal_strlit("\"]}");
        reveal_strlit("]}");
        assert(line@ =~= load_line(normalized_path(path@)));
    }
    line
}

/// The three lines sent by the play operation, in order: pause, load the
/// path (separators normalized), unpause — so the engine never auto-starts
/// partially loaded media.
pub fn play(path: &str) -> (cmds: Vec<String>)
    ensures
        cmds@.len() == 3,
        cmds@[0]@ == set_pause_line(true),
        cmds@[1]@ == load_line(normalized_path(path@)),
        cmds@[2]@ == set_pause_line(false),
{
    let mut cmds: Vec<String> = Vec::new();
    cmds.push(pause_command(true));
    cmds.push(load_command(path));
    cmds.push(pause_command(false));
    cmds
}

/// The single line sent by the absolute seek operation.
pub fn seek(seconds: i64) -> (r: String)
    ensures
        r@ == seek_line(seconds as int),
{
    let mut args: Vec<CommandArg> = Vec::new();
    args.push(CommandArg::Number(seconds));
    args.push(CommandArg::Text(String::from_str("absolute")));
    let cmd = Command { verb: String::from_str("seek"), args };
    let line = cmd.to_line();
    proof {
        lemma_args_text_two(cmd.args@);
        reveal_strlit("{\"command\":[");
        reveal_strlit("seek");
        reveal_strlit("absolute");
        reveal_strlit("{\"command\":[\"seek\",");
        reveal_strlit(",\"absolute\"]}");
        reveal_strlit("]}");
        assert(line@ =~= seek_line(seconds as int));
    }
    line
}

/// The single line sent by the set-volume operation: the requested level is
/// clamped into [0, 100] before it goes on the wire.
pub fn set_volume(level: i64) -> (r: String)
    ensures
        r@ == volume_line(clamped_volume(level as int)),
{
    let v = clamp_volume(level);
    let mut args: Vec<CommandArg> = Vec::new();
    args.push(CommandArg::Text(String::from_str("volume")));
    args.push(CommandArg::Number(v));
    let cmd = Command { verb: String::from_str("set_property"), args };
    let line = cmd.to_line();
    proof {
        lemma_args_text_two(cmd.args@);
        reveal_strlit("{\"command\":[");
        reveal_strlit("set_property");
        reveal_strlit("volume");
        reveal_strlit("{\"command\":[\"set_property\",\"volume\",");
        reveal_strlit("]}");
        assert(line@ =~= volume_line(clamped_volume(level as int)));
    }
    line
}

/// The single line sent by the stop operation.
pub fn stop() -> (r: String)
    ensures
        r@ == stop_line(),
{
    let cmd = Command { verb: String::from_str("stop"), args: Vec::new() };
    let line = cmd.to_line();
    proof {
        assert(cmd.args@ =~= Seq::<CommandArg>::empty());
        assert(args_text(Seq::<CommandArg>::empty()) == Seq::<char>::empty());
        reveal_strlit("{\"command\":[");
        reveal_strlit("stop");
        reveal_strlit("{\"command\":[\"stop\"]}");
        reveal_strlit("]}");
        assert(line@ =~= stop_line());
    }
    line
}

} // verus!
