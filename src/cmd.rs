//! The command engine: what to run, how it is described, and how the lines
//! that a running command writes are echoed and collected.
//!
//! Spawning, the reader threads and waiting belong to the caller; this module
//! decides, for each step of a run, what happens and what is kept.

use crate::text::{append_joined, join, trim, trimmed, views};
use vstd::prelude::*;

verus! {

/// Engine configuration: whether commands are described and their output
/// echoed to the console while they run.
pub struct Settings {
    pub verbose: bool,
}

impl Settings {
    /// Quiet settings: nothing is described or echoed.
    pub fn new() -> (r: Settings)
        ensures
            !r.verbose,
    {
        Settings { verbose: false }
    }
}

/// Turns console verbosity on or off.
pub fn set_verbose(settings: &mut Settings, verbose: bool)
    ensures
        final(settings).verbose == verbose,
{
    settings.verbose = verbose;
}

/// Whether commands are described and echoed.
pub fn is_verbose(settings: &Settings) -> (r: bool)
    ensures
        r == settings.verbose,
{
    settings.verbose
}

/// An environment value for the spawned process. The library carries it
/// without reading it: only the code that sets the process environment
/// exposes it.
#[verifier::external_body]
pub struct SecretValue {
    pub secret: secrecy::SecretString,
}

/// One invocation of an external program.
pub struct Cmd {
    name: String,
    env_vars: Vec<(String, SecretValue)>,
    args: Vec<String>,
    current_dir: Option<String>,
    hide_stdout: bool,
    hide_stderr: bool,
    title: Option<String>,
}

/// What a [`Cmd`] holds, secrets left out.
pub struct CmdView {
    pub name: Seq<char>,
    pub args: Seq<Seq<char>>,
    pub env_names: Seq<Seq<char>>,
    pub current_dir: Option<Seq<char>>,
    pub hide_stdout: bool,
    pub hide_stderr: bool,
    pub title: Option<Seq<char>>,
}

pub open spec fn opt_view(o: Option<String>) -> Option<Seq<char>> {
    match o {
        Some(s) => Some(s@),
        None => None,
    }
}

pub open spec fn env_names(v: Seq<(String, SecretValue)>) -> Seq<Seq<char>> {
    v.map_values(|e: (String, SecretValue)| e.0@)
}

impl View for Cmd {
    type V = CmdView;

    closed spec fn view(&self) -> CmdView {
        CmdView {
            name: self.name@,
            args: views(self.args@),
            env_names: env_names(self.env_vars@),
            current_dir: opt_view(self.current_dir),
            hide_stdout: self.hide_stdout,
            hide_stderr: self.hide_stderr,
            title: opt_view(self.title),
        }
    }
}

/// `model`, or `fallback` when no model is named.
pub open spec fn model_or(model: Option<&str>, fallback: Seq<char>) -> Seq<char> {
    match model {
        Some(m) => m@,
        None => fallback,
    }
}

/// A model's invocation: standard output hidden, so that the answer is not
/// echoed, run in `dir`, described by `title`.
pub open spec fn model_invocation(
    name: Seq<char>,
    args: Seq<Seq<char>>,
    dir: Seq<char>,
    title: Seq<char>,
) -> CmdView {
    CmdView {
        name,
        args,
        env_names: Seq::empty(),
        current_dir: Some(dir),
        hide_stdout: true,
        hide_stderr: false,
        title: Some(title),
    }
}

/// The line printed before a command runs: its title, or the program and its
/// arguments, followed by the working directory when one is set.
pub open spec fn description(c: CmdView) -> Seq<char> {
    let head = match c.title {
        Some(t) => t,
        None => "🚀 "@ + c.name + " "@ + join(c.args, " "@),
    };
    match c.current_dir {
        Some(d) => head + " 👉 "@ + d,
        None => head,
    }
}

impl Cmd {
    /// A command with no directory, no title, both streams shown and no
    /// environment overlay.
    pub fn new(cmd_name: &str, args: &[&str]) -> (r: Cmd)
        ensures
            r@ == (CmdView {
                name: cmd_name@,
                args: args@.map_values(|a: &str| a@),
                env_names: Seq::empty(),
                current_dir: None,
                hide_stdout: false,
                hide_stderr: false,
                title: None,
            }),
    {
        let mut owned: Vec<String> = Vec::new();
        let mut i: usize = 0;
        while i < args.len()
            invariant
                i <= args@.len(),
                views(owned@) == args@.take(i as int).map_values(|a: &str| a@),
            decreases args.len() - i,
        {
            owned.push(String::from_str(args[i]));
            assert(args@.take(i + 1).map_values(|a: &str| a@) =~= args@.take(i as int).map_values(
                |a: &str| a@,
            ).push(args@[i as int]@));
            assert(views(owned@) =~= views(owned@).take(i as int).push(owned@[i as int]@));
            i += 1;
        }
        assert(args@.take(args.len() as int) =~= args@);
        let env_vars: Vec<(String, SecretValue)> = Vec::new();
        assert(env_names(env_vars@) =~= Seq::empty());
        Cmd {
            name: String::from_str(cmd_name),
            args: owned,
            current_dir: None,
            hide_stdout: false,
            hide_stderr: false,
            env_vars,
            title: None,
        }
    }

    pub fn name(&self) -> (r: &str)
        ensures
            r@ == self@.name,
    {
        self.name.as_str()
    }

    pub fn args(&self) -> (r: &Vec<String>)
        ensures
            views(r@) == self@.args,
    {
        &self.args
    }

    pub fn current_dir(&self) -> (r: Option<&str>)
        ensures
            match r {
                Some(d) => self@.current_dir == Some(d@),
                None => self@.current_dir is None,
            },
    {
        match &self.current_dir {
            Some(d) => Some(d.as_str()),
            None => None,
        }
    }

    /// The environment overlay, in the order the names were first set.
    pub fn env_vars(&self) -> (r: &Vec<(String, SecretValue)>)
        ensures
            env_names(r@) == self@.env_names,
    {
        &self.env_vars
    }

    pub fn with_current_dir(&mut self, dir: &str) -> (r: &mut Self)
        ensures
            r@ == (CmdView { current_dir: Some(dir@), ..old(self)@ }),
            *final(self) == *final(r),
    {
        self.current_dir = Some(String::from_str(dir));
        self
    }

    pub fn hide_stdout(&mut self) -> (r: &mut Self)
        ensures
            r@ == (CmdView { hide_stdout: true, ..old(self)@ }),
            *final(self) == *final(r),
    {
        self.hide_stdout = true;
        self
    }

    pub fn hide_stderr(&mut self) -> (r: &mut Self)
        ensures
            r@ == (CmdView { hide_stderr: true, ..old(self)@ }),
            *final(self) == *final(r),
    {
        self.hide_stderr = true;
        self
    }

    pub fn with_title(&mut self, title: &str) -> (r: &mut Self)
        ensures
            r@ == (CmdView { title: Some(title@), ..old(self)@ }),
            *final(self) == *final(r),
    {
        self.title = Some(String::from_str(title));
        self
    }

    /// Sets one environment variable of the spawned process, replacing an
    /// earlier value under the same name, so that names stay unique.
    pub fn with_env_var(&mut self, name: &str, value: SecretValue) -> (r: &mut Self)
        ensures
            r@ == (CmdView {
                env_names: if old(self)@.env_names.contains(name@) {
                    old(self)@.env_names
                } else {
                    old(self)@.env_names.push(name@)
                },
                ..old(self)@
            }),
            *final(self) == *final(r),
    {
        let key = String::from_str(name);
        let mut i: usize = 0;
        while i < self.env_vars.len()
            invariant
                i <= self.env_vars@.len(),
                self@ == old(self)@,
                key@ == name@,
                forall|k: int| 0 <= k < i ==> self.env_vars@[k].0@ != name@,
            decreases self.env_vars.len() - i,
        {
            if self.env_vars[i].0 == key {
                let ghost names = env_names(self.env_vars@);
                self.env_vars.remove(i);
                self.env_vars.insert(i, (key, value));
                assert(env_names(self.env_vars@) =~= names);
                assert(names[i as int] == name@);
                return self;
            }
            i += 1;
        }
        let ghost names = env_names(self.env_vars@);
        assert(!names.contains(name@));
        self.env_vars.push((key, value));
        assert(env_names(self.env_vars@) =~= names.push(name@));
        self
    }

    /// The line that describes this command before it runs.
    pub fn build_command_description(&self) -> (r: String)
        ensures
            r@ == description(self@),
    {
        let mut d = match &self.title {
            Some(t) => t.clone(),
            None => {
                let mut head = String::from_str("🚀 ");
                head.append(self.name.as_str());
                head.append(" ");
                append_joined(&mut head, &self.args, " ");
                head
            },
        };
        if let Some(dir) = &self.current_dir {
            d.append(" 👉 ");
            d.append(dir.as_str());
        }
        d
    }

    /// What to print before the command runs: its description when the
    /// settings are verbose, nothing otherwise.
    pub fn announcement(&self, settings: &Settings) -> (r: Option<String>)
        ensures
            settings.verbose ==> r is Some && r->Some_0@ == description(self@),
            !settings.verbose ==> r is None,
    {
        if settings.verbose {
            Some(self.build_command_description())
        } else {
            None
        }
    }
}

/// One of the two output streams of a command.
#[derive(Clone, Copy, Debug, PartialEq, Eq, Structural)]
pub enum Stream {
    Stdout,
    Stderr,
}

/// How a command ended. Both forms are final: a status exists only once the
/// process has terminated.
#[derive(Clone, Copy, Debug, PartialEq, Eq, Structural)]
pub enum ExitStatus {
    /// The process exited with this code.
    Exited { code: i32 },
    /// The process was ended by this signal.
    Signaled { signal: i32 },
}

impl ExitStatus {
    /// Whether the process exited with code zero.
    pub fn success(&self) -> (r: bool)
        ensures
            r == (*self == ExitStatus::Exited { code: 0 }),
    {
        match self {
            ExitStatus::Exited { code } => *code == 0,
            ExitStatus::Signaled { .. } => false,
        }
    }

    /// The exit code, when the process exited rather than being signaled.
    pub fn code(&self) -> (r: Option<i32>)
        ensures
            r == match *self {
                ExitStatus::Exited { code } => Some(code),
                ExitStatus::Signaled { .. } => None,
            },
    {
        match self {
            ExitStatus::Exited { code } => Some(*code),
            ExitStatus::Signaled { .. } => None,
        }
    }
}

/// The result of a finished command: its exit status and what it wrote.
#[derive(Debug)]
pub struct CmdOutput {
    status: ExitStatus,
    stdout: String,
    stderr: String,
}

pub struct OutputView {
    pub status: ExitStatus,
    pub stdout: Seq<char>,
    pub stderr: Seq<char>,
}

impl View for CmdOutput {
    type V = OutputView;

    closed spec fn view(&self) -> OutputView {
        OutputView { status: self.status, stdout: self.stdout@, stderr: self.stderr@ }
    }
}

impl CmdOutput {
    pub fn new(status: ExitStatus, stdout: String, stderr: String) -> (r: CmdOutput)
        ensures
            r@ == (OutputView { status, stdout: stdout@, stderr: stderr@ }),
    {
        CmdOutput { status, stdout, stderr }
    }

    pub fn status(&self) -> (r: &ExitStatus)
        ensures
            *r == self@.status,
    {
        &self.status
    }

    /// Everything written to standard output, without surrounding whitespace.
    pub fn stdout(&self) -> (r: &str)
        ensures
            r@ == trimmed(self@.stdout),
    {
        trim(self.stdout.as_str())
    }

    /// The trimmed standard output of a command that exited with code zero
    /// and wrote more than whitespace there; nothing otherwise.
    pub fn successful_stdout(&self) -> (r: Option<&str>)
        ensures
            self@.status == (ExitStatus::Exited { code: 0 }) && trimmed(self@.stdout).len() > 0
                <==> r is Some,
            r matches Some(text) ==> text@ == trimmed(self@.stdout),
    {
        let text = self.stdout();
        if self.status.success() && !text.is_empty() {
            Some(text)
        } else {
            None
        }
    }

    /// Everything written to standard error, without surrounding whitespace.
    pub fn stderr(&self) -> (r: &str)
        ensures
            r@ == trimmed(self@.stderr),
    {
        trim(self.stderr.as_str())
    }
}

/// Why a command produced no output.
#[derive(Debug)]
pub enum ExecError {
    /// The program could not be started.
    SpawnFailed { program: String, cause: String },
    /// A stream held text that is not UTF-8.
    StreamDecodeFailed { stream: Stream },
}

/// A line as it arrives from one of the streams.
pub type LineEvent = (Seq<char>, Stream);

/// What the collector has kept and echoed after some events.
pub struct Capture {
    pub stdout: Seq<char>,
    pub stderr: Seq<char>,
    /// The lines echoed to the console, in the order they were echoed.
    pub echoed: Seq<LineEvent>,
}

/// Whether a stream is echoed: only when verbose and not hidden.
pub open spec fn echoes(verbose: bool, hidden: bool) -> bool {
    verbose && !hidden
}

/// The collector's step on one line: it is echoed when its stream is echoed,
/// and kept, with a newline, in its stream's text either way.
pub open spec fn capture_step(
    c: Capture,
    echo_stdout: bool,
    echo_stderr: bool,
    line: Seq<char>,
    stream: Stream,
) -> Capture {
    let shown = match stream {
        Stream::Stdout => echo_stdout,
        Stream::Stderr => echo_stderr,
    };
    Capture {
        stdout: if stream == Stream::Stdout {
            c.stdout + line.push('\n')
        } else {
            c.stdout
        },
        stderr: if stream == Stream::Stderr {
            c.stderr + line.push('\n')
        } else {
            c.stderr
        },
        echoed: if shown {
            c.echoed.push((line, stream))
        } else {
            c.echoed
        },
    }
}

/// The collector's state after `events`, from an empty start.
pub open spec fn replay(events: Seq<LineEvent>, echo_stdout: bool, echo_stderr: bool) -> Capture
    decreases events.len(),
{
    if events.len() == 0 {
        Capture { stdout: Seq::empty(), stderr: Seq::empty(), echoed: Seq::empty() }
    } else {
        capture_step(
            replay(events.drop_last(), echo_stdout, echo_stderr),
            echo_stdout,
            echo_stderr,
            events.last().0,
            events.last().1,
        )
    }
}

/// The lines of `events` that came from `stream`, in arrival order.
pub open spec fn stream_lines(events: Seq<LineEvent>, stream: Stream) -> Seq<Seq<char>>
    decreases events.len(),
{
    if events.len() == 0 {
        Seq::empty()
    } else {
        let p = stream_lines(events.drop_last(), stream);
        if events.last().1 == stream {
            p.push(events.last().0)
        } else {
            p
        }
    }
}

/// `lines`, each followed by a newline.
pub open spec fn line_text(lines: Seq<Seq<char>>) -> Seq<char>
    decreases lines.len(),
{
    if lines.len() == 0 {
        Seq::empty()
    } else {
        line_text(lines.drop_last()) + lines.last().push('\n')
    }
}

/// Where a run stands.
pub struct SessionView {
    pub echo_stdout: bool,
    pub echo_stderr: bool,
    /// Every line received so far, in arrival order.
    pub events: Seq<LineEvent>,
    pub stdout_open: bool,
    pub stderr_open: bool,
    /// The first stream that held text that is not UTF-8.
    pub failure: Option<Stream>,
}

/// One run of a command, from the start of draining its streams to its
/// exit. The caller reads both streams concurrently and reports each line,
/// each stream's end and, once both have ended, the exit status.
pub struct Session {
    echo_stdout: bool,
    echo_stderr: bool,
    stdout: String,
    stderr: String,
    stdout_open: bool,
    stderr_open: bool,
    failure: Option<Stream>,
    events: Ghost<Seq<LineEvent>>,
}

impl View for Session {
    type V = SessionView;

    closed spec fn view(&self) -> SessionView {
        SessionView {
            echo_stdout: self.echo_stdout,
            echo_stderr: self.echo_stderr,
            events: self.events@,
            stdout_open: self.stdout_open,
            stderr_open: self.stderr_open,
            failure: self.failure,
        }
    }
}

impl Session {
    /// The kept texts are those that the received lines give.
    pub closed spec fn wf(&self) -> bool {
        let c = replay(self.events@, self.echo_stdout, self.echo_stderr);
        self.stdout@ == c.stdout && self.stderr@ == c.stderr
    }

    /// A run of `cmd` whose streams are both open and nothing received yet.
    pub fn start(cmd: &Cmd, settings: &Settings) -> (r: Session)
        ensures
            r.wf(),
            r@ == (SessionView {
                echo_stdout: echoes(settings.verbose, cmd@.hide_stdout),
                echo_stderr: echoes(settings.verbose, cmd@.hide_stderr),
                events: Seq::empty(),
                stdout_open: true,
                stderr_open: true,
                failure: None,
            }),
    {
        Session {
            echo_stdout: settings.verbose && !cmd.hide_stdout,
            echo_stderr: settings.verbose && !cmd.hide_stderr,
            stdout: String::new(),
            stderr: String::new(),
            stdout_open: true,
            stderr_open: true,
            failure: None,
            events: Ghost(Seq::empty()),
        }
    }

    /// Takes one line from `stream` and says whether to echo it to the
    /// console stream of the same kind.
    pub fn on_line(&mut self, line: &str, stream: Stream) -> (echo: bool)
        requires
            old(self).wf(),
        ensures
            final(self).wf(),
            final(self)@ == (SessionView {
                events: old(self)@.events.push((line@, stream)),
                ..old(self)@
            }),
            echo == match stream {
                Stream::Stdout => old(self)@.echo_stdout,
                Stream::Stderr => old(self)@.echo_stderr,
            },
    {
        let ghost events = self.events@.push((line@, stream));
        let ghost before_out = self.stdout@;
        let ghost before_err = self.stderr@;
        assert(events.drop_last() =~= self.events@);
        proof {
            reveal_strlit("\n");
        }
        let echo = match stream {
            Stream::Stdout => {
                self.stdout.append(line);
                self.stdout.append("\n");
                self.echo_stdout
            },
            Stream::Stderr => {
                self.stderr.append(line);
                self.stderr.append("\n");
                self.echo_stderr
            },
        };
        assert(before_out + line@ + "\n"@ =~= before_out + line@.push('\n'));
        assert(before_err + line@ + "\n"@ =~= before_err + line@.push('\n'));
        self.events = Ghost(events);
        echo
    }

    /// Records that `stream` has ended.
    pub fn on_closed(&mut self, stream: Stream)
        requires
            old(self).wf(),
        ensures
            final(self).wf(),
            final(self)@ == (SessionView {
                stdout_open: old(self)@.stdout_open && stream != Stream::Stdout,
                stderr_open: old(self)@.stderr_open && stream != Stream::Stderr,
                ..old(self)@
            }),
    {
        match stream {
            Stream::Stdout => self.stdout_open = false,
            Stream::Stderr => self.stderr_open = false,
        }
    }

    /// Records that `stream` held text that is not UTF-8; the first such
    /// stream is the one reported.
    pub fn on_decode_failure(&mut self, stream: Stream)
        requires
            old(self).wf(),
        ensures
            final(self).wf(),
            final(self)@ == (SessionView {
                failure: if old(self)@.failure is None {
                    Some(stream)
                } else {
                    old(self)@.failure
                },
                ..old(self)@
            }),
    {
        if self.failure.is_none() {
            self.failure = Some(stream);
        }
    }

    /// Whether both streams have ended, so that the caller may wait for the
    /// process to exit.
    pub fn is_drained(&self) -> (r: bool)
        ensures
            r == (!self@.stdout_open && !self@.stderr_open),
    {
        !self.stdout_open && !self.stderr_open
    }

    /// Ends the run once both streams are drained and the process has exited
    /// with `status`.
    pub fn finish(self, status: ExitStatus) -> (r: Result<CmdOutput, ExecError>)
        requires
            self.wf(),
            !self@.stdout_open,
            !self@.stderr_open,
        ensures
            match self@.failure {
                Some(stream) => r == Err::<CmdOutput, ExecError>(
                    ExecError::StreamDecodeFailed { stream },
                ),
                None => r is Ok && r->Ok_0@ == (OutputView {
                    status,
                    stdout: replay(self@.events, self@.echo_stdout, self@.echo_stderr).stdout,
                    stderr: replay(self@.events, self@.echo_stdout, self@.echo_stderr).stderr,
                }),
            },
    {
        match self.failure {
            Some(stream) => Err(ExecError::StreamDecodeFailed { stream }),
            None => Ok(CmdOutput { status, stdout: self.stdout, stderr: self.stderr }),
        }
    }
}

proof fn lemma_echoed_lines(events: Seq<LineEvent>, echo_stdout: bool, echo_stderr: bool)
    ensures
        stream_lines(replay(events, echo_stdout, echo_stderr).echoed, Stream::Stdout) == if echo_stdout {
            stream_lines(events, Stream::Stdout)
        } else {
            Seq::empty()
        },
        stream_lines(replay(events, echo_stdout, echo_stderr).echoed, Stream::Stderr) == if echo_stderr {
            stream_lines(events, Stream::Stderr)
        } else {
            Seq::empty()
        },
    decreases events.len(),
{
    if events.len() > 0 {
        lemma_echoed_lines(events.drop_last(), echo_stdout, echo_stderr);
        let prev = replay(events.drop_last(), echo_stdout, echo_stderr).echoed;
        let (line, stream) = events.last();
        assert(prev.push((line, stream)).drop_last() =~= prev);
    }
}

/// Each stream's kept text is that stream's lines, each with a newline, in
/// the order the command wrote them, whatever the lines of the other stream
/// and however the two streams interleaved.
pub proof fn lemma_stream_order(events: Seq<LineEvent>, echo_stdout: bool, echo_stderr: bool)
    ensures
        replay(events, echo_stdout, echo_stderr).stdout == line_text(
            stream_lines(events, Stream::Stdout),
        ),
        replay(events, echo_stdout, echo_stderr).stderr == line_text(
            stream_lines(events, Stream::Stderr),
        ),
    decreases events.len(),
{
    if events.len() > 0 {
        lemma_stream_order(events.drop_last(), echo_stdout, echo_stderr);
        let out = stream_lines(events.drop_last(), Stream::Stdout);
        let err = stream_lines(events.drop_last(), Stream::Stderr);
        let (line, _) = events.last();
        assert(out.push(line).drop_last() =~= out);
        assert(err.push(line).drop_last() =~= err);
    }
}

/// Two runs whose standard output received the same lines in the same order
/// keep the same standard output text, whatever their standard error did.
pub proof fn lemma_stdout_independent_of_stderr(
    a: Seq<LineEvent>,
    b: Seq<LineEvent>,
    echo_stdout: bool,
    echo_stderr: bool,
)
    requires
        stream_lines(a, Stream::Stdout) == stream_lines(b, Stream::Stdout),
    ensures
        replay(a, echo_stdout, echo_stderr).stdout == replay(b, echo_stdout, echo_stderr).stdout,
{
    lemma_stream_order(a, echo_stdout, echo_stderr);
    lemma_stream_order(b, echo_stdout, echo_stderr);
}

/// With verbosity on and both streams shown, every line is echoed, and the
/// lines echoed from a stream are, in order, the lines kept in its text.
pub proof fn lemma_echo_matches_capture(cmd: CmdView, events: Seq<LineEvent>)
    requires
        !cmd.hide_stdout,
        !cmd.hide_stderr,
    ensures
        ({
            let c = replay(events, echoes(true, cmd.hide_stdout), echoes(true, cmd.hide_stderr));
            &&& stream_lines(c.echoed, Stream::Stdout) == stream_lines(events, Stream::Stdout)
            &&& stream_lines(c.echoed, Stream::Stderr) == stream_lines(events, Stream::Stderr)
            &&& c.stdout == line_text(stream_lines(c.echoed, Stream::Stdout))
            &&& c.stderr == line_text(stream_lines(c.echoed, Stream::Stderr))
        }),
{
    lemma_echoed_lines(events, true, true);
    lemma_stream_order(events, true, true);
}

/// With standard output hidden, none of its lines is echoed, and all of them
/// are still kept.
pub proof fn lemma_hidden_stdout_kept(cmd: CmdView, verbose: bool, events: Seq<LineEvent>)
    requires
        cmd.hide_stdout,
    ensures
        ({
            let c = replay(
                events,
                echoes(verbose, cmd.hide_stdout),
                echoes(verbose, cmd.hide_stderr),
            );
            &&& stream_lines(c.echoed, Stream::Stdout) == Seq::<Seq<char>>::empty()
            &&& c.stdout == line_text(stream_lines(events, Stream::Stdout))
        }),
{
    lemma_echoed_lines(events, false, echoes(verbose, cmd.hide_stderr));
    lemma_stream_order(events, false, echoes(verbose, cmd.hide_stderr));
}

/// A command with a title is described by that title alone, followed by the
/// working directory when one is set.
pub proof fn lemma_title_description(cmd: CmdView, title: Seq<char>)
    requires
        cmd.title == Some(title),
    ensures
        description(cmd) == match cmd.current_dir {
            Some(d) => title + " 👉 "@ + d,
            None => title,
        },
{
}

} // verus!
