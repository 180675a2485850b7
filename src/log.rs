//! Per-instance log files: where they lie, and the recorder that appends a
//! child's output to one.
use crate::transfer::BinarySequence;
use vstd::prelude::*;

verus! {

/// The decimal digit `d` (below ten).
pub open spec fn digit_char(d: nat) -> char {
    if d == 0 {
        '0'
    } else if d == 1 {
        '1'
    } else if d == 2 {
        '2'
    } else if d == 3 {
        '3'
    } else if d == 4 {
        '4'
    } else if d == 5 {
        '5'
    } else if d == 6 {
        '6'
    } else if d == 7 {
        '7'
    } else if d == 8 {
        '8'
    } else {
        '9'
    }
}

/// `n` in decimal, without leading zeros.
pub open spec fn decimal(n: nat) -> Seq<char>
    decreases n,
{
    if n < 10 {
        seq![digit_char(n)]
    } else {
        decimal(n / 10).push(digit_char(n % 10))
    }
}

/// The file name of the log of instance `id`.
pub open spec fn log_file_name(id: u64) -> Seq<char> {
    decimal(id as nat) + ".log"@
}

/// `name` inside directory `dir`, with one `'/'` between them; an empty
/// directory is the current one.
pub open spec fn join_path(dir: Seq<char>, name: Seq<char>) -> Seq<char> {
    if dir.len() == 0 {
        name
    } else if dir.last() == '/' {
        dir + name
    } else {
        dir + seq!['/'] + name
    }
}

fn digit_str(d: u64) -> (r: &'static str)
    requires
        d < 10,
    ensures
        r@ == seq![digit_char(d as nat)],
{
    proof {
        reveal_strlit("0");
        reveal_strlit("1");
        reveal_strlit("2");
        reveal_strlit("3");
        reveal_strlit("4");
        reveal_strlit("5");
        reveal_strlit("6");
        reveal_strlit("7");
        reveal_strlit("8");
        reveal_strlit("9");
    }
    if d == 0 {
        "0"
    } else if d == 1 {
        "1"
    } else if d == 2 {
        "2"
    } else if d == 3 {
        "3"
    } else if d == 4 {
        "4"
    } else if d == 5 {
        "5"
    } else if d == 6 {
        "6"
    } else if d == 7 {
        "7"
    } else if d == 8 {
        "8"
    } else {
        "9"
    }
}

/// `n` written in decimal.
pub fn decimal_string(n: u64) -> (r: String)
    ensures
        r@ == decimal(n as nat),
{
    let mut acc = String::from_str(digit_str(n % 10));
    let mut m: u64 = n / 10;
    while m > 0
        invariant
            decimal(n as nat) == (if m > 0 {
                decimal(m as nat)
            } else {
                Seq::<char>::empty()
            }) + acc@,
        decreases m,
    {
        let d = String::from_str(digit_str(m % 10));
        proof {
            let rest = if m / 10 > 0 {
                decimal((m / 10) as nat)
            } else {
                Seq::<char>::empty()
            };
            assert(decimal(m as nat) =~= rest + seq![digit_char((m % 10) as nat)]);
            assert(rest + (d@ + acc@) =~= (rest + seq![digit_char((m % 10) as nat)]) + acc@);
        }
        acc = d.concat(acc.as_str());
        m = m / 10;
    }
    proof {
        assert(decimal(n as nat) =~= acc@);
    }
    acc
}

/// The path of the log of instance `id` inside directory `dir`.
fn log_path_in(dir: &String, id: u64) -> (r: String)
    ensures
        r@ == join_path(dir@, log_file_name(id)),
{
    let name = decimal_string(id).concat(".log");
    let len = dir.as_str().unicode_len();
    if len == 0 {
        name
    } else if dir.as_str().get_char(len - 1) == '/' {
        dir.clone().concat(name.as_str())
    } else {
        let with_sep = dir.clone().concat("/");
        proof {
            reveal_strlit("/");
        }
        with_sep.concat(name.as_str())
    }
}

/// Where the logs of all instances lie.
pub struct ProcessLogService {
    log_path: String,
}

impl ProcessLogService {
    /// The directory of the logs.
    pub closed spec fn dir(&self) -> Seq<char> {
        self.log_path@
    }

    pub fn new(log_path: String) -> (r: Self)
        ensures
            r.dir() == log_path@,
    {
        ProcessLogService { log_path }
    }

    /// `<dir>/<id>.log`.
    pub fn get_log_path(&self, id: u64) -> (r: String)
        ensures
            r@ == join_path(self.dir(), log_file_name(id)),
    {
        log_path_in(&self.log_path, id)
    }
}

/// Where the logs of all instances lie; the same layout as
/// `ProcessLogService`.
pub struct LogService {
    log_path: String,
}

impl LogService {
    /// The directory of the logs.
    pub closed spec fn dir(&self) -> Seq<char> {
        self.log_path@
    }

    pub fn new(log_path: String) -> (r: Self)
        ensures
            r.dir() == log_path@,
    {
        LogService { log_path }
    }

    /// `<dir>/<id>.log`.
    pub fn get_log_path(&self, id: u64) -> (r: String)
        ensures
            r@ == join_path(self.dir(), log_file_name(id)),
    {
        log_path_in(&self.log_path, id)
    }
}

/// One of a child's two output streams.
#[derive(PartialEq, Eq, Clone, Copy, Debug, Structural)]
pub enum OutputSource {
    Stdout,
    Stderr,
}

/// What a receive from one output broadcast gave the recorder.
pub enum LogEvent {
    /// A chunk of output.
    Chunk(BinarySequence),
    /// The recorder fell behind and this many chunks were lost to it.
    Lagged(u64),
    /// The broadcast closed: its relay has stopped.
    Closed,
}

/// What the recorder's task does next.
pub enum LogAction {
    /// Append these bytes to the log file.
    Append(BinarySequence),
    /// Nothing to write; receive again.
    Wait,
    /// Stop: both sources closed, or the file failed.
    Exit,
}

/// The state of one log recorder: which sources it still receives from,
/// whether the file failed, and how many bytes it has written.
pub struct LogRecorder {
    stdout_open: bool,
    stderr_open: bool,
    failed: bool,
    written: u64,
    logged: Ghost<Seq<u8>>,
}

/// `n` capped at the largest `u64`.
pub open spec fn capped(n: nat) -> u64 {
    if n > u64::MAX {
        u64::MAX
    } else {
        n as u64
    }
}

/// What every step of the recorder keeps: the bytes written before stay a
/// prefix of the bytes written after, and the size counts them.
pub open spec fn keeps_log(before: LogRecorder, after: LogRecorder) -> bool {
    &&& before.logged().is_prefix_of(after.logged())
    &&& after.wf()
}

impl LogRecorder {
    /// The bytes appended to the log file so far, in order.
    pub closed spec fn logged(&self) -> Seq<u8> {
        self.logged@
    }

    /// Whether the recorder still receives from `source`.
    pub closed spec fn is_open(&self, source: OutputSource) -> bool {
        !self.failed && match source {
            OutputSource::Stdout => self.stdout_open,
            OutputSource::Stderr => self.stderr_open,
        }
    }

    /// Whether the recorder's task goes on.
    pub open spec fn is_running(&self) -> bool {
        self.is_open(OutputSource::Stdout) || self.is_open(OutputSource::Stderr)
    }

    /// The byte count of the file: the bytes written, capped at `u64::MAX`.
    pub closed spec fn size(&self) -> u64 {
        self.written
    }

    pub open spec fn wf(&self) -> bool {
        self.size() == capped(self.logged().len())
    }

    /// A recorder for a child with the given output pipes, with nothing
    /// written yet.
    pub fn new(has_stdout: bool, has_stderr: bool) -> (r: Self)
        ensures
            r.wf(),
            r.logged() == Seq::<u8>::empty(),
            r.is_open(OutputSource::Stdout) == has_stdout,
            r.is_open(OutputSource::Stderr) == has_stderr,
    {
        LogRecorder {
            stdout_open: has_stdout,
            stderr_open: has_stderr,
            failed: false,
            written: 0,
            logged: Ghost(Seq::empty()),
        }
    }

    /// Whether to receive from `source`.
    pub fn listens(&self, source: OutputSource) -> (r: bool)
        ensures
            r == self.is_open(source),
    {
        !self.failed && match source {
            OutputSource::Stdout => self.stdout_open,
            OutputSource::Stderr => self.stderr_open,
        }
    }

    /// Whether the task goes on.
    pub fn running(&self) -> (r: bool)
        ensures
            r == self.is_running(),
    {
        self.listens(OutputSource::Stdout) || self.listens(OutputSource::Stderr)
    }

    /// The number of bytes written to the file so far.
    pub fn log_size(&self) -> (r: u64)
        ensures
            r == self.size(),
    {
        self.written
    }

    /// Decides what a receive from `source` leads to. A chunk is appended
    /// whole; a lag is passed over; a close stops receiving from that
    /// source, and the task ends once neither source is left.
    pub fn on_event(&mut self, source: OutputSource, event: LogEvent) -> (r: LogAction)
        requires
            old(self).wf(),
        ensures
            keeps_log(*old(self), *final(self)),
            final(self).logged() == old(self).logged(),
            !old(self).is_running() ==> r is Exit && *final(self) == *old(self),
            old(self).is_running() ==> match event {
                LogEvent::Chunk(c) => r matches LogAction::Append(a) && a@ == c@ && *final(self)
                    == *old(self),
                LogEvent::Lagged(_) => r is Wait && *final(self) == *old(self),
                LogEvent::Closed => {
                    &&& !final(self).is_open(source)
                    &&& final(self).is_open(other_source(source)) == old(self).is_open(
                        other_source(source),
                    )
                    &&& (r is Exit) == !final(self).is_running()
                    &&& (r is Wait) == final(self).is_running()
                },
            },
    {
        if !self.running() {
            return LogAction::Exit;
        }
        match event {
            LogEvent::Chunk(c) => LogAction::Append(c),
            LogEvent::Lagged(_) => LogAction::Wait,
            LogEvent::Closed => {
                match source {
                    OutputSource::Stdout => self.stdout_open = false,
                    OutputSource::Stderr => self.stderr_open = false,
                }
                if self.running() {
                    LogAction::Wait
                } else {
                    LogAction::Exit
                }
            },
        }
    }

    /// Records that `chunk` was appended to the file.
    pub fn on_written(&mut self, chunk: &BinarySequence)
        requires
            old(self).wf(),
        ensures
            keeps_log(*old(self), *final(self)),
            final(self).logged() == old(self).logged() + chunk@,
            final(self).is_open(OutputSource::Stdout) == old(self).is_open(OutputSource::Stdout),
            final(self).is_open(OutputSource::Stderr) == old(self).is_open(OutputSource::Stderr),
    {
        let len = chunk.len() as u64;
        self.written = self.written.saturating_add(len);
        self.logged = Ghost(self.logged@ + chunk@);
        proof {
            assert(old(self).logged().is_prefix_of(self.logged@)) by {
                assert(self.logged@.subrange(0, old(self).logged().len() as int) =~= old(
                    self,
                ).logged());
            }
        }
    }

    /// Records that writing to the file failed: the task ends, and the log
    /// stays cut at that point.
    pub fn on_write_failed(&mut self)
        requires
            old(self).wf(),
        ensures
            keeps_log(*old(self), *final(self)),
            final(self).logged() == old(self).logged(),
            !final(self).is_running(),
    {
        self.failed = true;
    }
}

/// The other output stream.
pub open spec fn other_source(source: OutputSource) -> OutputSource {
    match source {
        OutputSource::Stdout => OutputSource::Stderr,
        OutputSource::Stderr => OutputSource::Stdout,
    }
}

/// The log only grows: across any step of the recorder its size never goes
/// down, and it always counts exactly the bytes written (up to the `u64`
/// bound).
pub proof fn log_size_never_decreases(before: LogRecorder, after: LogRecorder)
    requires
        before.wf(),
        keeps_log(before, after),
    ensures
        before.size() <= after.size(),
        after.size() == capped(after.logged().len()),
{
}

} // verus!
