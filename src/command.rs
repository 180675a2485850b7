//! How an instance definition becomes the program, arguments and working
//! directory of a child.
use vstd::prelude::*;

verus! {

/// How an instance is launched.
#[derive(PartialEq, Eq, Clone, Copy, Debug, Structural)]
pub enum StartupMethod {
    /// The launch command runs directly with the arguments.
    Default,
    /// The launch command runs inside a terminal-providing shell wrapper.
    Shell,
    /// Reserved for container launches; runs as `Default` here.
    Docker,
}

/// `text` cut at each `'\n'`: the pieces between separators, always at least
/// one (the last one may be empty).
pub open spec fn split_pieces(text: Seq<char>) -> Seq<Seq<char>>
    decreases text.len(),
{
    if text.len() == 0 {
        seq![Seq::<char>::empty()]
    } else {
        let before = split_pieces(text.drop_last());
        if text.last() == '\n' {
            before.push(Seq::<char>::empty())
        } else {
            before.update(before.len() - 1, before.last().push(text.last()))
        }
    }
}

/// A line that ended with `'\n'`, without a `'\r'` just before that end.
pub open spec fn strip_cr(line: Seq<char>) -> Seq<char> {
    if line.len() > 0 && line.last() == '\r' {
        line.drop_last()
    } else {
        line
    }
}

/// The lines of `text`: each `'\n'` (or `"\r\n"`) ends a line, and a final
/// piece after the last line end is a line only when it is not empty.
pub open spec fn lines(text: Seq<char>) -> Seq<Seq<char>> {
    let pieces = split_pieces(text);
    let ended = pieces.drop_last().map_values(|l: Seq<char>| strip_cr(l));
    if pieces.last().len() == 0 {
        ended
    } else {
        ended.push(pieces.last())
    }
}

proof fn lemma_split_pieces_nonempty(text: Seq<char>)
    ensures
        split_pieces(text).len() >= 1,
    decreases text.len(),
{
    if text.len() > 0 {
        lemma_split_pieces_nonempty(text.drop_last());
    }
}

/// An instance with an empty argument field is launched with no arguments
/// at all: the child sees only its program name as argv[0].
pub proof fn empty_arguments_pass_only_the_program()
    ensures
        lines(Seq::<char>::empty()) == Seq::<Seq<char>>::empty(),
{
    let pieces = split_pieces(Seq::<char>::empty());
    assert(pieces == seq![Seq::<char>::empty()]);
    assert(pieces.drop_last() =~= Seq::<Seq<char>>::empty());
    assert(pieces.drop_last().map_values(|l: Seq<char>| strip_cr(l)) =~= Seq::<Seq<char>>::empty());
}

/// Splits the newline-separated argument field of an instance into its
/// arguments, one per line.
pub fn split_arguments(text: &str) -> (r: Vec<String>)
    ensures
        r@.map_values(|a: String| a@) == lines(text@),
{
    let n = text.unicode_len();
    let mut done: Vec<String> = Vec::new();
    let mut start: usize = 0;
    let mut i: usize = 0;
    proof {
        assert(text@.subrange(0, 0) =~= Seq::<char>::empty());
    }
    while i < n
        invariant
            n == text@.len(),
            start <= i <= n,
            split_pieces(text@.subrange(0, i as int)).len() >= 1,
            done@.map_values(|a: String| a@) == split_pieces(
                text@.subrange(0, i as int),
            ).drop_last().map_values(|l: Seq<char>| strip_cr(l)),
            split_pieces(text@.subrange(0, i as int)).last() == text@.subrange(
                start as int,
                i as int,
            ),
        decreases n - i,
    {
        let c = text.get_char(i);
        let ghost prev = split_pieces(text@.subrange(0, i as int));
        proof {
            let t = text@.subrange(0, i + 1);
            assert(t.drop_last() =~= text@.subrange(0, i as int));
            assert(t.last() == c);
            lemma_split_pieces_nonempty(t);
        }
        if c == '\n' {
            let mut end = i;
            if end > start && text.get_char(end - 1) == '\r' {
                end = end - 1;
            }
            let line = text.substring_char(start, end);
            let ghost piece = text@.subrange(start as int, i as int);
            proof {
                assert(line@ =~= strip_cr(piece));
            }
            let ghost done_before = done@;
            done.push(String::from_str(line));
            proof {
                assert(done@.map_values(|a: String| a@) =~= done_before.map_values(|a: String| a@).push(
                    strip_cr(piece),
                ));
                assert(prev.map_values(|l: Seq<char>| strip_cr(l)) =~= prev.drop_last().map_values(
                    |l: Seq<char>| strip_cr(l),
                ).push(strip_cr(piece)));
                let next = split_pieces(text@.subrange(0, i + 1));
                assert(next == prev.push(Seq::<char>::empty()));
                assert(next.drop_last() =~= prev);
                assert(prev =~= prev.drop_last().push(piece));
                assert(done@.map_values(|a: String| a@) =~= next.drop_last().map_values(
                    |l: Seq<char>| strip_cr(l),
                ));
                assert(text@.subrange((i + 1) as int, (i + 1) as int) =~= Seq::<char>::empty());
            }
            start = i + 1;
        } else {
            proof {
                let next = split_pieces(text@.subrange(0, i + 1));
                assert(next == prev.update(prev.len() - 1, prev.last().push(c)));
                assert(next.drop_last() =~= prev.drop_last());
                assert(text@.subrange(start as int, i + 1) =~= text@.subrange(
                    start as int,
                    i as int,
                ).push(c));
            }
        }
        i = i + 1;
    }
    proof {
        assert(text@.subrange(0, n as int) =~= text@);
    }
    if start < n {
        let last = text.substring_char(start, n);
        done.push(String::from_str(last));
        proof {
            let pieces = split_pieces(text@);
            assert(done@.map_values(|a: String| a@) =~= pieces.drop_last().map_values(
                |l: Seq<char>| strip_cr(l),
            ).push(pieces.last()));
        }
    }
    done
}

/// The program, arguments and working directory that a child is started
/// with. `work_dir` is `None` where the child inherits the parent's.
pub struct CommandPlan {
    pub program: String,
    pub args: Vec<String>,
    pub work_dir: Option<String>,
}

/// The arguments given to the shell wrapper in front of the command and its
/// own arguments.
pub open spec fn shell_prefix() -> Seq<Seq<char>> {
    seq!["-q"@, "/dev/null"@, "/bin/bash"@, "-c"@]
}

/// The wrapper program of shell mode.
pub open spec fn shell_program() -> Seq<char> {
    "script"@
}

/// The views of a list of strings.
pub open spec fn views(v: Seq<String>) -> Seq<Seq<char>> {
    v.map_values(|a: String| a@)
}

/// A direct launch of `launch_command` with `arguments`.
pub fn generate_command(launch_command: String, arguments: Vec<String>) -> (r: CommandPlan)
    ensures
        r.program@ == launch_command@,
        views(r.args@) == views(arguments@),
        r.work_dir is None,
{
    CommandPlan { program: launch_command, args: arguments, work_dir: None }
}

/// A launch inside a shell wrapper that gives the child a terminal. The
/// wrapper is known on macOS (`script -q /dev/null /bin/bash -c ...`); on
/// other platforms the launch falls back to a direct one.
pub fn generate_command_with_shell(
    launch_command: String,
    arguments: Vec<String>,
    on_macos: bool,
) -> (r: CommandPlan)
    ensures
        on_macos ==> r.program@ == shell_program() && views(r.args@) == shell_prefix() + seq![
            launch_command@,
        ] + views(arguments@),
        !on_macos ==> r.program@ == launch_command@ && views(r.args@) == views(arguments@),
        r.work_dir is None,
{
    if on_macos {
        let mut args: Vec<String> = Vec::new();
        args.push(String::from_str("-q"));
        args.push(String::from_str("/dev/null"));
        args.push(String::from_str("/bin/bash"));
        args.push(String::from_str("-c"));
        args.push(launch_command);
        let mut rest = arguments;
        args.append(&mut rest);
        proof {
            assert(views(args@) =~= shell_prefix() + seq![launch_command@] + views(arguments@));
        }
        CommandPlan { program: String::from_str("script"), args, work_dir: None }
    } else {
        generate_command(launch_command, arguments)
    }
}

/// The plan for an instance: arguments split into lines, the launch mode
/// chosen by its startup method, and the working directory set only where
/// it is not empty.
pub fn plan_instance(
    launch_command: String,
    arguments: &str,
    work_dir: String,
    method: StartupMethod,
    on_macos: bool,
) -> (r: CommandPlan)
    ensures
        method == StartupMethod::Shell && on_macos ==> r.program@ == shell_program() && views(
            r.args@,
        ) == shell_prefix() + seq![launch_command@] + lines(arguments@),
        !(method == StartupMethod::Shell && on_macos) ==> r.program@ == launch_command@ && views(
            r.args@,
        ) == lines(arguments@),
        work_dir@.len() == 0 ==> r.work_dir is None,
        work_dir@.len() > 0 ==> (r.work_dir matches Some(d) && d@ == work_dir@),
{
    let args = split_arguments(arguments);
    let mut plan = if method == StartupMethod::Shell {
        generate_command_with_shell(launch_command, args, on_macos)
    } else {
        generate_command(launch_command, args)
    };
    if work_dir.unicode_len() > 0 {
        plan.work_dir = Some(work_dir);
    }
    plan
}

} // verus!
