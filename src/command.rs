use vstd::prelude::*;

use crate::outside::{trim, trimmed};

verus! {

/// Position of the first space in `t`; its length when it holds none.
pub open spec fn first_space(t: Seq<char>) -> nat
    decreases t.len(),
{
    if t.len() == 0 || t[0] == ' ' {
        0
    } else {
        1 + first_space(t.skip(1))
    }
}

/// `cmd` and `args` are `t` split at its first space, which neither keeps; text
/// without a space is all command.
pub open spec fn split_at_first_space(t: Seq<char>, cmd: Seq<char>, args: Seq<char>) -> bool {
    cmd == command_of(t) && args == arguments_of(t)
}

/// The text before the first space.
pub open spec fn command_of(t: Seq<char>) -> Seq<char> {
    t.take(first_space(t) as int)
}

/// The text after the first space; empty where there is none.
pub open spec fn arguments_of(t: Seq<char>) -> Seq<char> {
    if first_space(t) < t.len() {
        t.skip(first_space(t) as int + 1)
    } else {
        Seq::<char>::empty()
    }
}

proof fn lemma_first_space(t: Seq<char>, i: int)
    requires
        0 <= i <= t.len(),
        forall|j: int| 0 <= j < i ==> t[j] != ' ',
        i < t.len() ==> t[i] == ' ',
    ensures
        first_space(t) == i,
    decreases i,
{
    if i > 0 {
        let u = t.skip(1);
        assert forall|j: int| 0 <= j < i - 1 implies u[j] != ' ' by {
            assert(u[j] == t[j + 1]);
        }
        if i - 1 < u.len() {
            assert(u[i - 1] == t[i]);
        }
        lemma_first_space(u, i - 1);
    }
}

/// Splits trimmed text at its first space into command and arguments; text
/// without a space is all command.
pub fn split_command(t: &str) -> (r: (&str, &str))
    ensures
        split_at_first_space(t@, r.0@, r.1@),
{
    let n: usize = t.unicode_len();
    let mut i: usize = 0;
    while i < n
        invariant
            n == t@.len(),
            i <= n,
            forall|j: int| 0 <= j < i ==> t@[j] != ' ',
        decreases n - i,
    {
        if t.get_char(i) == ' ' {
            let cmd = t.substring_char(0, i);
            let args = t.substring_char(i + 1, n);
            assert(cmd@ =~= t@.take(i as int));
            assert(args@ =~= t@.skip(i + 1));
            proof {
                lemma_first_space(t@, i as int);
            }
            return (cmd, args);
        }
        i = i + 1;
    }
    proof {
        reveal_strlit("");
        lemma_first_space(t@, n as int);
        assert(t@.take(n as int) =~= t@);
        assert(""@ =~= Seq::<char>::empty());
    }
    (t, "")
}

/// Splits a control line into its command and the rest of the line. Lines that are
/// empty once trimmed hold no command.
pub fn parse_line(line: &str) -> (r: Option<(&str, &str)>)
    ensures
        r is None <==> trimmed(line@).len() == 0,
        r matches Some((cmd, args)) ==> split_at_first_space(trimmed(line@), cmd@, args@),
{
    let t = trim(line);
    if t.unicode_len() == 0 {
        return None;
    }
    Some(split_command(t))
}

/// What a control line asks of the agent.
#[derive(Debug, PartialEq, Eq)]
pub enum LineAction {
    /// No command on the line.
    Nothing,
    /// Replace the configuration with the one described by this text.
    Configure(String),
    /// Stop at once.
    Quit,
    /// A command that is not known.
    Unknown(String),
}

/// Whether two strings hold the same characters.
fn same_text(a: &str, b: &str) -> (r: bool)
    ensures
        r == (a@ == b@),
{
    let n: usize = a.unicode_len();
    if n != b.unicode_len() {
        return false;
    }
    let mut i: usize = 0;
    while i < n
        invariant
            n == a@.len(),
            n == b@.len(),
            i <= n,
            forall|j: int| 0 <= j < i ==> a@[j] == b@[j],
        decreases n - i,
    {
        if a.get_char(i) != b.get_char(i) {
            return false;
        }
        i = i + 1;
    }
    assert(a@ =~= b@);
    true
}

/// The action that a command with its arguments stands for.
pub open spec fn action_spec(cmd: Seq<char>, args: Seq<char>, r: LineAction) -> bool {
    if cmd == ".CONFIG"@ {
        r matches LineAction::Configure(text) && text@ == args
    } else if cmd == ".QUIT"@ {
        r is Quit
    } else {
        r matches LineAction::Unknown(name) && name@ == cmd
    }
}

/// Reads one control line: `.CONFIG <json>` asks to reconfigure, `.QUIT` to stop;
/// any other command is unknown, and a blank line asks nothing.
pub fn process_line(line: &str) -> (r: LineAction)
    ensures
        trimmed(line@).len() == 0 <==> r is Nothing,
        trimmed(line@).len() != 0 ==> action_spec(
            command_of(trimmed(line@)),
            arguments_of(trimmed(line@)),
            r,
        ),
{
    match parse_line(line) {
        None => LineAction::Nothing,
        Some((cmd, args)) => {
            let r = if same_text(cmd, ".CONFIG") {
                LineAction::Configure(args.to_owned())
            } else if same_text(cmd, ".QUIT") {
                LineAction::Quit
            } else {
                LineAction::Unknown(cmd.to_owned())
            };
            assert(action_spec(cmd@, args@, r));
            r
        },
    }
}

} // verus!
