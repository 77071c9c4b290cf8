//! Commands to run, how they are shown, and how a program is found.
use vstd::prelude::*;

use crate::env::{EnvEntries, EnvVars};
use crate::paths::{
    is_absolute, is_absolute_path, join_path, path_components, path_components_of, path_extension,
    path_extension_of, path_join,
};
use crate::text::{
    char_is_ascii_alnum, is_ascii_alnum, join_strings, join_with, opt_view, replace_char,
    str_replace_char, str_trim, strings_view, to_string, trim_white, clone_opt_string, clone_strings,
};

verus! {

/// A program with its arguments, working directory and extra environment.
#[derive(Debug)]
pub struct ProcessCommand {
    pub program: String,
    pub args: Vec<String>,
    pub cwd: Option<String>,
    pub env: EnvVars,
}

pub struct CommandView {
    pub program: Seq<char>,
    pub args: Seq<Seq<char>>,
    pub cwd: Option<Seq<char>>,
    pub env: EnvEntries,
}

impl View for ProcessCommand {
    type V = CommandView;

    open spec fn view(&self) -> CommandView {
        CommandView {
            program: self.program@,
            args: strings_view(self.args@),
            cwd: opt_view(&self.cwd),
            env: self.env@,
        }
    }
}

pub open spec fn command_of(program: Seq<char>) -> CommandView {
    CommandView { program, args: seq![], cwd: None, env: seq![] }
}

pub open spec fn with_arg(c: CommandView, a: Seq<char>) -> CommandView {
    CommandView { args: c.args.push(a), ..c }
}

pub open spec fn commands_view(v: Seq<ProcessCommand>) -> Seq<CommandView> {
    v.map_values(|c: ProcessCommand| c@)
}

impl ProcessCommand {
    /// A command that runs `program` with no arguments.
    pub fn new(program: &str) -> (r: Self)
        ensures
            r@ == command_of(program@),
    {
        let r = ProcessCommand {
            program: to_string(program),
            args: Vec::new(),
            cwd: None,
            env: EnvVars::new(),
        };
        assert(r@.args =~= Seq::<Seq<char>>::empty());
        r
    }

    /// Adds one argument.
    pub fn arg(self, arg: &str) -> (r: Self)
        ensures
            r@ == with_arg(self@, arg@),
    {
        let mut r = self;
        let a = to_string(arg);
        let ghost prev = r.args@;
        r.args.push(a);
        assert(strings_view(r.args@) =~= strings_view(prev).push(arg@));
        r
    }

    /// Adds the arguments in order.
    pub fn args(self, args: &Vec<String>) -> (r: Self)
        ensures
            r@ == (CommandView { args: self@.args + strings_view(args@), ..self@ }),
    {
        let mut r = self;
        let ghost start = strings_view(r.args@);
        let mut i: usize = 0;
        while i < args.len()
            invariant
                i <= args@.len(),
                r@.program == self@.program,
                r@.cwd == self@.cwd,
                r@.env == self@.env,
                strings_view(r.args@) =~= start + strings_view(args@).take(i as int),
                start == self@.args,
            decreases args@.len() - i,
        {
            let a = to_string(args[i].as_str());
            let ghost prev = r.args@;
            r.args.push(a);
            assert(strings_view(r.args@) =~= strings_view(prev).push(args@[i as int]@));
            assert(strings_view(args@).take(i + 1) =~= strings_view(args@).take(i as int).push(
                args@[i as int]@,
            ));
            i = i + 1;
        }
        assert(strings_view(args@).take(i as int) =~= strings_view(args@));
        r
    }

    /// Sets the working directory.
    pub fn cwd(self, cwd: &str) -> (r: Self)
        ensures
            r@ == (CommandView { cwd: Some(cwd@), ..self@ }),
    {
        let mut r = self;
        r.cwd = Some(to_string(cwd));
        r
    }

    /// Replaces the extra environment.
    pub fn envs(self, env: EnvVars) -> (r: Self)
        ensures
            r@ == (CommandView { env: env@, ..self@ }),
    {
        let mut r = self;
        r.env = env;
        r
    }

    /// A copy of this command.
    pub fn duplicate(&self) -> (r: Self)
        ensures
            r@ == self@,
    {
        ProcessCommand {
            program: to_string(self.program.as_str()),
            args: {
                let a = clone_strings(&self.args);
                assert(strings_view(a@) =~= strings_view(self.args@));
                a
            },
            cwd: clone_opt_string(&self.cwd),
            env: self.env.duplicate(),
        }
    }

    /// The command as a shell line: `cd <dir> &&`, then `KEY=value` pairs in
    /// key order, then the program and its arguments, each shown with
    /// `display_arg`.
    pub fn display(&self) -> (r: String)
        ensures
            r@ == display_of(self@),
    {
        let mut parts: Vec<String> = Vec::new();
        let ghost pv = self@;
        if let Some(cwd) = &self.cwd {
            let mut p = to_string("cd ");
            p.append(display_arg(cwd.as_str()).as_str());
            parts.push(p);
            parts.push(to_string("&&"));
        }
        assert(strings_view(parts@) =~= cwd_parts(pv.cwd));
        let n = self.env.len();
        let mut i: usize = 0;
        while i < n
            invariant
                n == pv.env.len(),
                pv == self@,
                i <= n,
                strings_view(parts@) =~= cwd_parts(pv.cwd) + env_parts(pv.env.take(i as int)),
            decreases n - i,
        {
            let (k, v) = self.env.entry(i);
            let mut p = to_string(k.as_str());
            p.append("=");
            p.append(display_arg(v.as_str()).as_str());
            let ghost prev = parts@;
            parts.push(p);
            proof {
                assert(strings_view(parts@) =~= strings_view(prev).push(p@));
                assert(pv.env.take(i + 1).drop_last() =~= pv.env.take(i as int));
            }
            i = i + 1;
        }
        assert(pv.env.take(n as int) =~= pv.env);
        let ghost before_program = strings_view(parts@);
        parts.push(display_arg(self.program.as_str()));
        assert(strings_view(parts@) =~= before_program.push(display_arg_of(pv.program)));
        let m = self.args.len();
        let mut j: usize = 0;
        while j < m
            invariant
                m == pv.args.len(),
                pv == self@,
                j <= m,
                strings_view(parts@) =~= before_program.push(display_arg_of(pv.program))
                    + pv.args.take(j as int).map_values(|a: Seq<char>| display_arg_of(a)),
            decreases m - j,
        {
            let d = display_arg(self.args[j].as_str());
            let ghost prev = parts@;
            parts.push(d);
            proof {
                assert(strings_view(parts@) =~= strings_view(prev).push(d@));
                assert(pv.args[j as int] == self.args@[j as int]@);
                assert(pv.args.take(j + 1).map_values(|a: Seq<char>| display_arg_of(a))
                    =~= pv.args.take(j as int).map_values(|a: Seq<char>| display_arg_of(a)).push(
                    display_arg_of(pv.args[j as int]),
                ));
            }
            j = j + 1;
        }
        assert(pv.args.take(m as int) =~= pv.args);
        assert(before_program =~= cwd_parts(pv.cwd) + env_parts(pv.env));
        assert(strings_view(parts@) =~= cwd_parts(pv.cwd) + env_parts(pv.env) + seq![
            display_arg_of(pv.program),
        ] + pv.args.map_values(|a: Seq<char>| display_arg_of(a)));
        join_strings(&parts, " ")
    }
}

pub open spec fn cwd_parts(cwd: Option<Seq<char>>) -> Seq<Seq<char>> {
    match cwd {
        Some(c) => seq!["cd "@ + display_arg_of(c), "&&"@],
        None => seq![],
    }
}

pub open spec fn env_parts(env: EnvEntries) -> Seq<Seq<char>> {
    env.map_values(|e: (Seq<char>, Seq<char>)| e.0 + "="@ + display_arg_of(e.1))
}

/// The shell line a command is shown as.
pub open spec fn display_of(c: CommandView) -> Seq<char> {
    join_with(
        cwd_parts(c.cwd) + env_parts(c.env) + seq![display_arg_of(c.program)] + c.args.map_values(
            |a: Seq<char>| display_arg_of(a),
        ),
        " "@,
    )
}

// ---------------------------------------------------------------------------
// Quoting for display
// ---------------------------------------------------------------------------

/// Wraps a value in single quotes, writing each `'` inside it as `'\''`.
pub open spec fn single_quoted(v: Seq<char>) -> Seq<char> {
    seq!['\''] + replace_char(v, '\'', "'\\''"@) + seq!['\'']
}

pub open spec fn display_safe_char(c: char) -> bool {
    is_ascii_alnum(c) || c == '_' || c == '-' || c == '.' || c == '/' || c == ':' || c == '\\'
}

/// How one word is shown: `''` when empty, as is when made of safe
/// characters, single-quoted otherwise.
pub open spec fn display_arg_of(v: Seq<char>) -> Seq<char> {
    if v.len() == 0 {
        "''"@
    } else if forall|i: int| 0 <= i < v.len() ==> display_safe_char(#[trigger] v[i]) {
        v
    } else {
        single_quoted(v)
    }
}

pub fn single_quote(value: &str) -> (r: String)
    ensures
        r@ == single_quoted(value@),
{
    proof {
        reveal_strlit("'");
        assert("'"@ =~= seq!['\'']);
    }
    let mut r = to_string("'");
    let inner = str_replace_char(value, '\'', "'\\''");
    r.append(inner.as_str());
    r.append("'");
    r
}

pub fn display_arg(value: &str) -> (r: String)
    ensures
        r@ == display_arg_of(value@),
{
    let n = value.unicode_len();
    if n == 0 {
        return to_string("''");
    }
    let mut i: usize = 0;
    while i < n
        invariant
            n == value@.len(),
            i <= n,
            forall|j: int| 0 <= j < i ==> display_safe_char(#[trigger] value@[j]),
        decreases n - i,
    {
        let c = value.get_char(i);
        if !(char_is_ascii_alnum(c) || c == '_' || c == '-' || c == '.' || c == '/' || c == ':'
            || c == '\\') {
            assert(!display_safe_char(value@[i as int]));
            return single_quote(value);
        }
        i = i + 1;
    }
    to_string(value)
}

// ---------------------------------------------------------------------------
// Finding programs
// ---------------------------------------------------------------------------

/// A program name with more than one path component names a file rather
/// than something to look up on `PATH`.
pub open spec fn program_has_path_spec(program: Seq<char>) -> bool {
    path_components_of(program).len() > 1
}

pub fn program_has_path(program: &str) -> (r: bool)
    ensures
        r == program_has_path_spec(program@),
{
    path_components(program).len() > 1
}

/// The names tried in each `PATH` directory: the name itself, and with WSL
/// interop a `.exe` form when the name has no extension.
pub open spec fn unix_candidates_of(program: Seq<char>, include_windows_interop: bool) -> Seq<
    Seq<char>,
> {
    if include_windows_interop && path_extension_of(program) is None {
        seq![program, program + ".exe"@]
    } else {
        seq![program]
    }
}

pub fn unix_candidate_program_names(program: &str, include_windows_interop: bool) -> (r: Vec<
    String,
>)
    ensures
        strings_view(r@) == unix_candidates_of(program@, include_windows_interop),
{
    let mut candidates = vec![to_string(program)];
    if include_windows_interop && path_extension(program).is_none() {
        let mut exe = to_string(program);
        exe.append(".exe");
        candidates.push(exe);
    }
    assert(strings_view(candidates@) =~= unix_candidates_of(program@, include_windows_interop));
    candidates
}

/// Where to look for a program.
#[derive(Debug)]
pub enum ProgramLookup {
    /// Check this one file.
    AtPath(String),
    /// Try these names in each `PATH` directory.
    OnSearchPath(Vec<String>),
}

pub enum ProgramLookupView {
    AtPath(Seq<char>),
    OnSearchPath(Seq<Seq<char>>),
}

impl View for ProgramLookup {
    type V = ProgramLookupView;

    open spec fn view(&self) -> ProgramLookupView {
        match self {
            ProgramLookup::AtPath(p) => ProgramLookupView::AtPath(p@),
            ProgramLookup::OnSearchPath(v) => ProgramLookupView::OnSearchPath(strings_view(v@)),
        }
    }
}

/// A program with a path is checked where it is (relative paths against the
/// working directory when there is one); a bare name is searched on `PATH`.
pub open spec fn program_lookup_of(
    program: Seq<char>,
    cwd: Option<Seq<char>>,
    include_windows_interop: bool,
) -> ProgramLookupView {
    if program_has_path_spec(program) {
        if is_absolute_path(program) {
            ProgramLookupView::AtPath(program)
        } else {
            match cwd {
                Some(d) => ProgramLookupView::AtPath(join_path(d, program)),
                None => ProgramLookupView::AtPath(program),
            }
        }
    } else {
        ProgramLookupView::OnSearchPath(unix_candidates_of(program, include_windows_interop))
    }
}

pub fn program_lookup(program: &str, cwd: &Option<String>, include_windows_interop: bool) -> (r:
    ProgramLookup)
    ensures
        r@ == program_lookup_of(program@, opt_view(cwd), include_windows_interop),
{
    if program_has_path(program) {
        if is_absolute(program) {
            ProgramLookup::AtPath(to_string(program))
        } else {
            match cwd {
                Some(d) => ProgramLookup::AtPath(path_join(d.as_str(), program)),
                None => ProgramLookup::AtPath(to_string(program)),
            }
        }
    } else {
        ProgramLookup::OnSearchPath(unix_candidate_program_names(program, include_windows_interop))
    }
}

/// What is reported for a program, given whether the lookup found it.
pub open spec fn program_availability_of(program: Seq<char>, cwd: Option<Seq<char>>, found: bool) -> Result<
    (),
    Seq<char>,
> {
    if found {
        Ok(())
    } else if program_has_path_spec(program) {
        match cwd {
            Some(d) => if !is_absolute_path(program) {
                Err("program `"@ + program + "` does not exist relative to `"@ + d + "`"@)
            } else {
                Err("program `"@ + program + "` does not exist"@)
            },
            None => Err("program `"@ + program + "` does not exist"@),
        }
    } else {
        Err("program `"@ + program + "` was not found on PATH"@)
    }
}

fn program_available_from(program: &str, cwd: &Option<String>, found: bool) -> (r: Result<
    (),
    String,
>)
    ensures
        match r {
            Ok(()) => program_availability_of(program@, opt_view(cwd), found) == Ok::<
                (),
                Seq<char>,
            >(()),
            Err(e) => program_availability_of(program@, opt_view(cwd), found) == Err::<
                (),
                Seq<char>,
            >(e@),
        },
{
    if found {
        return Ok(());
    }
    if program_has_path(program) {
        if let Some(d) = cwd {
            if !is_absolute(program) {
                let mut e = to_string("program `");
                e.append(program);
                e.append("` does not exist relative to `");
                e.append(d.as_str());
                e.append("`");
                return Err(e);
            }
        }
        let mut e = to_string("program `");
        e.append(program);
        e.append("` does not exist");
        return Err(e);
    }
    let mut e = to_string("program `");
    e.append(program);
    e.append("` was not found on PATH");
    Err(e)
}

/// Reports whether a program that is looked up on `PATH` (see
/// `program_lookup`) was found; `found` is the outcome of that lookup.
pub fn ensure_program_available(program: &str, found: bool) -> (r: Result<(), String>)
    ensures
        match r {
            Ok(()) => program_availability_of(program@, None, found) == Ok::<(), Seq<char>>(()),
            Err(e) => program_availability_of(program@, None, found) == Err::<(), Seq<char>>(e@),
        },
{
    program_available_from(program, &None, found)
}

/// The state of a command's working directory on disk.
#[derive(Clone, Copy, Debug, PartialEq, Eq, Structural)]
pub enum WorkingDirectory {
    IsDirectory,
    Missing,
    NotADirectory,
}

/// What is reported for a command before it starts: its working directory
/// must be a directory, then its program must be found.
pub open spec fn command_can_start_of(c: CommandView, dir: WorkingDirectory, found: bool) -> Result<
    (),
    Seq<char>,
> {
    match c.cwd {
        Some(d) => match dir {
            WorkingDirectory::Missing => Err(
                "working directory `"@ + d + "` does not exist for `"@ + display_of(c) + "`"@,
            ),
            WorkingDirectory::NotADirectory => Err(
                "working directory `"@ + d + "` is not a directory for `"@ + display_of(c) + "`"@,
            ),
            WorkingDirectory::IsDirectory => program_availability_of(c.program, c.cwd, found),
        },
        None => program_availability_of(c.program, c.cwd, found),
    }
}

/// Checks that a command can start, given the state of its working directory
/// and whether its program was found (see `program_lookup`).
pub fn ensure_command_can_start(command: &ProcessCommand, working_directory: WorkingDirectory, found: bool) -> (r:
    Result<(), String>)
    ensures
        match r {
            Ok(()) => command_can_start_of(command@, working_directory, found) == Ok::<
                (),
                Seq<char>,
            >(()),
            Err(e) => command_can_start_of(command@, working_directory, found) == Err::<
                (),
                Seq<char>,
            >(e@),
        },
{
    if let Some(d) = &command.cwd {
        match working_directory {
            WorkingDirectory::Missing => {
                let mut e = to_string("working directory `");
                e.append(d.as_str());
                e.append("` does not exist for `");
                e.append(command.display().as_str());
                e.append("`");
                return Err(e);
            },
            WorkingDirectory::NotADirectory => {
                let mut e = to_string("working directory `");
                e.append(d.as_str());
                e.append("` is not a directory for `");
                e.append(command.display().as_str());
                e.append("`");
                return Err(e);
            },
            WorkingDirectory::IsDirectory => {},
        }
    }
    program_available_from(command.program.as_str(), &command.cwd, found)
}

// ---------------------------------------------------------------------------
// Running commands
// ---------------------------------------------------------------------------

/// The error of a runner that cannot capture a command's output.
pub open spec fn unsupported_output_message(c: CommandView) -> Seq<char> {
    "runner does not support captured output for `"@ + display_of(c) + "`"@
}

/// Runs commands on behalf of the library.
pub trait CommandRunner {
    /// Runs a command to completion; an error says why it did not succeed.
    fn run(&self, command: &ProcessCommand) -> Result<(), String>;

    /// Runs a command and returns what it printed. A runner that does not
    /// provide this reports that it cannot capture output for the command.
    fn output(&self, command: &ProcessCommand) -> (r: Result<String, String>)
        default_ensures
            r matches Err(e) && e@ == unsupported_output_message(command@),
    {
        let mut e = to_string("runner does not support captured output for `");
        e.append(command.display().as_str());
        e.append("`");
        Err(e)
    }
}

/// How a command that exited unsuccessfully is reported: its exit status and
/// shell line, then what it printed on standard error, trimmed, if anything.
pub open spec fn command_failure_of(status: Seq<char>, c: CommandView, stderr: Seq<char>) -> Seq<char> {
    let head = "command failed with "@ + status + ": `"@ + display_of(c) + "`"@;
    if trim_white(stderr).len() == 0 {
        head
    } else {
        head + ": "@ + trim_white(stderr)
    }
}

pub fn command_failure_message(status: &str, command: &ProcessCommand, stderr: &str) -> (r: String)
    ensures
        r@ == command_failure_of(status@, command@, stderr@),
{
    let mut r = to_string("command failed with ");
    r.append(status);
    r.append(": `");
    r.append(command.display().as_str());
    r.append("`");
    let trimmed = str_trim(stderr);
    if trimmed.unicode_len() > 0 {
        r.append(": ");
        r.append(trimmed.as_str());
    }
    r
}

/// What the runner answered for `cmds`, run in order up to the first
/// failure: with `Ok`, every command ran and the runner answered `Ok` for
/// each; with `Err(e)`, the runner answered `Ok` for every command before
/// some command and `Err(e)` for that one.
pub open spec fn ran_in_order<R: CommandRunner>(runner: &R, cmds: Seq<ProcessCommand>, r: Result<(), String>) -> bool {
    match r {
        Ok(_) => forall|j: int|
            0 <= j < cmds.len() ==> #[trigger] call_ensures(R::run, (runner, &cmds[j]), Ok::<(), String>(())),
        Err(e) => exists|k: int|
            0 <= k < cmds.len() && #[trigger] call_ensures(R::run, (runner, &cmds[k]), Err::<(), String>(e))
                && forall|j: int|
                0 <= j < k ==> #[trigger] call_ensures(R::run, (runner, &cmds[j]), Ok::<(), String>(())),
    }
}

/// `ran_in_order` for commands known by their views.
pub open spec fn ran_views_in_order<R: CommandRunner>(runner: &R, views: Seq<CommandView>, r: Result<(), String>) -> bool {
    exists|cmds: Seq<ProcessCommand>| #[trigger] commands_view(cmds) == views && ran_in_order(runner, cmds, r)
}

/// Runs the commands in order and stops at the first one that fails: `Ok`
/// only when the runner answered `Ok` for every command, otherwise the
/// first failure's error; with no commands there is nothing to fail.
pub fn run_commands<R: CommandRunner>(runner: &R, commands: &Vec<ProcessCommand>) -> (r: Result<(), String>)
    ensures
        commands@.len() == 0 ==> r == Ok::<(), String>(()),
        ran_in_order(runner, commands@, r),
{
    let run = R::run;
    let mut i: usize = 0;
    while i < commands.len()
        invariant
            i <= commands@.len(),
            run == R::run,
            forall|j: int| 0 <= j < i ==> #[trigger] call_ensures(R::run, (runner, &commands@[j]), Ok::<(), String>(())),
        decreases commands@.len() - i,
    {
        match run(runner, &commands[i]) {
            Ok(u) => {
                assert(u == ());
            },
            Err(e) => {
                assert(call_ensures(R::run, (runner, &commands@[i as int]), Err::<(), String>(e)));
                return Err(e);
            },
        }
        i = i + 1;
    }
    Ok(())
}

} // verus!
