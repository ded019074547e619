//! The command model: the closed set of recognized playback commands and
//! the total text-to-command parser.

use vstd::prelude::*;
use vstd::string::*;

use crate::text::str_eq;

verus! {

/// A playback command, as recognized by the command channel.
#[derive(Debug)]
pub enum Command {
    Unknown,
    Prev,
    Next,
    PlayPause,
    VolUp,
    VolDown,
    Load { spotify_id: String },
}

/// The mathematical shape of a command: `Load` carries its identifier as a
/// sequence of characters.
pub enum CommandModel {
    Unknown,
    Prev,
    Next,
    PlayPause,
    VolUp,
    VolDown,
    Load { spotify_id: Seq<char> },
}

impl View for Command {
    type V = CommandModel;

    open spec fn view(&self) -> CommandModel {
        match self {
            Command::Unknown => CommandModel::Unknown,
            Command::Prev => CommandModel::Prev,
            Command::Next => CommandModel::Next,
            Command::PlayPause => CommandModel::PlayPause,
            Command::VolUp => CommandModel::VolUp,
            Command::VolDown => CommandModel::VolDown,
            Command::Load { spotify_id } => CommandModel::Load { spotify_id: spotify_id@ },
        }
    }
}

/// Whether a line begins with the load prefix `"load:"`.
pub open spec fn is_load_line(s: Seq<char>) -> bool {
    s.len() >= 5 && s.subrange(0, 5) == "load:"@
}

/// What `parse_line` returns on a given line: the five exact literals map
/// to their commands, a line beginning with `"load:"` maps to `Load` with
/// exactly the rest of the line as identifier, and everything else maps to
/// `Unknown`.
pub open spec fn spec_parse_line(s: Seq<char>) -> CommandModel {
    if s == "PlayPause"@ {
        CommandModel::PlayPause
    } else if s == "Next"@ {
        CommandModel::Next
    } else if s == "Prev"@ {
        CommandModel::Prev
    } else if s == "VolUp"@ {
        CommandModel::VolUp
    } else if s == "VolDown"@ {
        CommandModel::VolDown
    } else if is_load_line(s) {
        CommandModel::Load { spotify_id: s.skip(5) }
    } else {
        CommandModel::Unknown
    }
}

/// Parses one line of input into a command. Total: every line maps to
/// exactly one command, unrecognized text to `Unknown`.
pub fn parse_line(line: String) -> (r: Command)
    ensures
        r@ == spec_parse_line(line@),
{
    let s = line.as_str();
    if str_eq(s, "PlayPause") {
        Command::PlayPause
    } else if str_eq(s, "Next") {
        Command::Next
    } else if str_eq(s, "Prev") {
        Command::Prev
    } else if str_eq(s, "VolUp") {
        Command::VolUp
    } else if str_eq(s, "VolDown") {
        Command::VolDown
    } else {
        let len = s.unicode_len();
        if len >= 5 && str_eq(s.substring_char(0, 5), "load:") {
            let id = s.substring_char(5, len).to_owned();
            proof {
                assert(id@ =~= line@.skip(5));
            }
            Command::Load { spotify_id: id }
        } else {
            Command::Unknown
        }
    }
}

/// Parses every line of one session in order. Models the per-session
/// guarantee of the transports: each input line yields exactly one command,
/// and relative order is preserved.
pub fn parse_session(lines: &Vec<String>) -> (cmds: Vec<Command>)
    ensures
        cmds@.len() == lines@.len(),
        forall|i: int| 0 <= i < lines@.len() ==> cmds@[i]@ == spec_parse_line(lines@[i]@),
{
    let mut cmds: Vec<Command> = Vec::new();
    let mut i: usize = 0;
    while i < lines.len()
        invariant
            0 <= i <= lines@.len(),
            cmds@.len() == i,
            forall|j: int| 0 <= j < i ==> cmds@[j]@ == spec_parse_line(lines@[j]@),
        decreases lines@.len() - i,
    {
        let cmd = parse_line(lines[i].clone());
        cmds.push(cmd);
        i += 1;
    }
    cmds
}

/// Whether `c` is an interleaving of `a` and `b`: every element of each
/// appears in `c` exactly once, and the relative order within each of `a`
/// and `b` is preserved.
pub open spec fn is_interleaving<T>(a: Seq<T>, b: Seq<T>, c: Seq<T>) -> bool
    decreases c.len(),
{
    if c.len() == 0 {
        a.len() == 0 && b.len() == 0
    } else {
        ||| (a.len() > 0 && a[0] == c[0] && is_interleaving(a.skip(1), b, c.skip(1)))
        ||| (b.len() > 0 && b[0] == c[0] && is_interleaving(a, b.skip(1), c.skip(1)))
    }
}

/// The parses of every line of a session, in order.
pub open spec fn spec_parse_all(lines: Seq<Seq<char>>) -> Seq<CommandModel> {
    lines.map_values(|s: Seq<char>| spec_parse_line(s))
}

/// Law: when the lines of two concurrent sessions interleave into the
/// queue, the parsed commands form exactly the same interleaving: every
/// line appears as a command exactly once, and each session's relative
/// order is preserved.
pub proof fn lemma_parse_preserves_interleaving(
    a: Seq<Seq<char>>,
    b: Seq<Seq<char>>,
    c: Seq<Seq<char>>,
)
    requires
        is_interleaving(a, b, c),
    ensures
        is_interleaving(spec_parse_all(a), spec_parse_all(b), spec_parse_all(c)),
    decreases c.len(),
{
    if c.len() == 0 {
        assert(spec_parse_all(a).len() == 0);
        assert(spec_parse_all(b).len() == 0);
        assert(spec_parse_all(c).len() == 0);
    } else if a.len() > 0 && a[0] == c[0] && is_interleaving(a.skip(1), b, c.skip(1)) {
        lemma_parse_preserves_interleaving(a.skip(1), b, c.skip(1));
        assert(spec_parse_all(a.skip(1)) =~= spec_parse_all(a).skip(1));
        assert(spec_parse_all(c.skip(1)) =~= spec_parse_all(c).skip(1));
        assert(spec_parse_all(a)[0] == spec_parse_all(c)[0]);
    } else {
        lemma_parse_preserves_interleaving(a, b.skip(1), c.skip(1));
        assert(spec_parse_all(b.skip(1)) =~= spec_parse_all(b).skip(1));
        assert(spec_parse_all(c.skip(1)) =~= spec_parse_all(c).skip(1));
        assert(spec_parse_all(b)[0] == spec_parse_all(c)[0]);
    }
}

/// Law: every line beginning with the load prefix parses to `Load`
/// carrying exactly the rest of the line, untrimmed.
pub proof fn lemma_parse_load_exact(s: Seq<char>)
    requires
        is_load_line(s),
    ensures
        spec_parse_line(s) == (CommandModel::Load { spotify_id: s.skip(5) }),
{
    reveal_strlit("load:");
    reveal_strlit("PlayPause");
    reveal_strlit("Next");
    reveal_strlit("Prev");
    reveal_strlit("VolUp");
    reveal_strlit("VolDown");
    assert(s.subrange(0, 5)[0] == s[0]);
    assert(s[0] == 'l');
    assert(s != "PlayPause"@);
    assert(s != "Next"@);
    assert(s != "Prev"@);
    assert(s != "VolUp"@);
    assert(s != "VolDown"@);
}

/// Law: a line that is none of the five literals and does not begin with
/// the load prefix parses to `Unknown`.
pub proof fn lemma_parse_unknown(s: Seq<char>)
    requires
        s != "PlayPause"@,
        s != "Next"@,
        s != "Prev"@,
        s != "VolUp"@,
        s != "VolDown"@,
        !is_load_line(s),
    ensures
        spec_parse_line(s) == CommandModel::Unknown,
{
}

} // verus!
