//! Colon-command definitions and their prefix resolution.
//!
//! The interactive loop itself reads lines and performs the actions; what
//! stands here is the decision logic: which registered command, if any, an
//! abbreviated `:` command denotes.

use vstd::prelude::*;
use vstd::string::*;
use vstd::seq_lib::*;

verus! {

/// A colon command that the interactive loop can dispatch, matched by
/// first unique prefix of its name.
pub struct ColonCommand {
    /// The name of the command.
    pub name: &'static str,
}

/// Does the abbreviation `p` denote the command at index `i`?
pub open spec fn prefix_matches(cmds: Seq<ColonCommand>, p: Seq<char>, i: int) -> bool {
    0 <= i < cmds.len() && p.is_prefix_of(cmds[i].name@)
}

/// The commands the interactive loop supports.  The loop performs their
/// actions; this list is what resolution runs against.
pub fn define_commands() -> (r: Vec<ColonCommand>)
    ensures
        r@.len() == 3,
        r@[0].name@ == "clear"@,
        r@[1].name@ == "history"@,
        r@[2].name@ == "quit"@,
{
    let mut commands: Vec<ColonCommand> = Vec::new();
    commands.push(ColonCommand { name: "clear" });
    commands.push(ColonCommand { name: "history" });
    commands.push(ColonCommand { name: "quit" });
    commands
}

/// The outcome of resolving an abbreviated command name.
#[derive(Debug, PartialEq, Eq, Structural)]
pub enum CommandMatch {
    /// No registered name starts with the abbreviation.
    NotFound,
    /// Exactly one registered name starts with the abbreviation: its index.
    Found(usize),
    /// At least two registered names start with the abbreviation: the two
    /// lowest matching indices.
    Ambiguous(usize, usize),
}

/// Is `p` a character-for-character prefix of `s`?
pub fn str_is_prefix(p: &str, s: &str) -> (r: bool)
    ensures
        r == p@.is_prefix_of(s@),
{
    let plen = p.unicode_len();
    let slen = s.unicode_len();
    if plen > slen {
        return false;
    }
    let mut i: usize = 0;
    while i < plen
        invariant
            plen == p@.len(),
            slen == s@.len(),
            plen <= slen,
            i <= plen,
            forall|j: int| 0 <= j < i ==> p@[j] == s@[j],
        decreases plen - i,
    {
        if p.get_char(i) != s.get_char(i) {
            return false;
        }
        i += 1;
    }
    proof {
        assert(p@ =~= s@.subrange(0, p@.len() as int));
    }
    true
}

/// Resolve an abbreviated command name against the registered commands.
/// The result names the unique command the abbreviation denotes, or reports
/// that none or several do.
pub fn resolve_command(commands: &Vec<ColonCommand>, prefix: &str) -> (r: CommandMatch)
    ensures
        match r {
            CommandMatch::NotFound => forall|j: int|
                !prefix_matches(commands@, prefix@, j),
            CommandMatch::Found(i) => prefix_matches(commands@, prefix@, i as int) && forall|
                j: int,
            |
                prefix_matches(commands@, prefix@, j) ==> j == i as int,
            CommandMatch::Ambiguous(i, j) => {
                &&& i < j
                &&& prefix_matches(commands@, prefix@, i as int)
                &&& prefix_matches(commands@, prefix@, j as int)
                &&& forall|k: int| 0 <= k < i as int ==> !prefix_matches(commands@, prefix@, k)
                &&& forall|k: int|
                    (i as int) < k && k < (j as int) ==> !prefix_matches(commands@, prefix@, k)
            },
        },
{
    let mut first: Option<usize> = None;
    let mut i: usize = 0;
    let n = commands.len();
    while i < n
        invariant
            n == commands@.len(),
            i <= n,
            match first {
                Option::None => forall|j: int| 0 <= j < i ==> !prefix_matches(
                    commands@,
                    prefix@,
                    j,
                ),
                Option::Some(k) => {
                    &&& k < i
                    &&& prefix_matches(commands@, prefix@, k as int)
                    &&& forall|j: int|
                        0 <= j < i && j != k as int ==> !prefix_matches(commands@, prefix@, j)
                },
            },
        decreases n - i,
    {
        if str_is_prefix(prefix, commands[i].name) {
            match first {
                Option::None => {
                    first = Some(i);
                },
                Option::Some(k) => {
                    return CommandMatch::Ambiguous(k, i);
                },
            }
        }
        i += 1;
    }
    match first {
        Option::None => CommandMatch::NotFound,
        Option::Some(k) => CommandMatch::Found(k),
    }
}

/// Take the command word off a line: if the line starts with a colon, the
/// word is what stands between the colon and the first space, or the rest
/// of the line when it has no space.  A line that does not start with a
/// colon carries no command.
pub fn parse_colon_command(line: &str) -> (r: Option<String>)
    ensures
        match r {
            Some(w) => {
                &&& line@.len() >= 1
                &&& line@[0] == ':'
                &&& 1 + w@.len() <= line@.len()
                &&& w@ == line@.subrange(1, 1 + w@.len() as int)
                &&& forall|j: int| 0 <= j < w@.len() ==> w@[j] != ' '
                &&& (1 + w@.len() == line@.len() || line@[1 + w@.len() as int] == ' ')
            },
            None => line@.len() == 0 || line@[0] != ':',
        },
{
    let len = line.unicode_len();
    if len == 0 || line.get_char(0) != ':' {
        return None;
    }
    let mut end: usize = 1;
    while end < len && line.get_char(end) != ' '
        invariant
            len == line@.len(),
            1 <= end <= len,
            forall|j: int| 1 <= j < end ==> line@[j] != ' ',
        decreases len - end,
    {
        end += 1;
    }
    let word = line.substring_char(1, end).to_owned();
    proof {
        assert(word@ =~= line@.subrange(1, 1 + word@.len() as int));
    }
    Some(word)
}

} // verus!
