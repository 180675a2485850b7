//! A supervised child process: its liveness and the handles of its three
//! standard streams.
use tokio::process::Child;
use tokio::sync::broadcast;
use tokio::sync::mpsc;
use vstd::prelude::*;

verus! {

/// tokio's handle of a spawned child process, held opaque.
#[verifier::external_type_specification]
#[verifier::external_body]
pub struct ExChild(tokio::process::Child);

/// std's I/O error, carried opaque from a failed probe or kill to the caller.
#[verifier::external_type_specification]
#[verifier::external_body]
pub struct ExIoError(std::io::Error);

/// tokio's receiver of a broadcast channel, held opaque.
#[verifier::external_type_specification]
#[verifier::external_body]
#[verifier::reject_recursive_types(T)]
pub struct ExBroadcastReceiver<T>(tokio::sync::broadcast::Receiver<T>);

/// tokio's sender of a bounded mpsc channel, held opaque.
#[verifier::external_type_specification]
#[verifier::external_body]
#[verifier::reject_recursive_types(T)]
pub struct ExMpscSender<T>(tokio::sync::mpsc::Sender<T>);

/// Relies on tokio's broadcast::Receiver::resubscribe: a new receiver on the
/// same channel, which sees what is sent after this call.
pub assume_specification<T: Clone>[ tokio::sync::broadcast::Receiver::<T>::resubscribe ](
    r: &tokio::sync::broadcast::Receiver<T>,
) -> tokio::sync::broadcast::Receiver<T>;

/// Relies on tokio's mpsc::Sender::clone: one more sender on the same channel.
pub assume_specification<T>[ <tokio::sync::mpsc::Sender<T> as Clone>::clone ](
    s: &tokio::sync::mpsc::Sender<T>,
) -> tokio::sync::mpsc::Sender<T>;

/// Liveness of a child as seen by its record.
#[derive(PartialEq, Eq, Clone, Copy, Debug, Structural)]
pub enum ProcessState {
    Alive,
    Dead,
}

/// What one non-blocking wait on a child reported.
pub enum WaitOutcome {
    /// The child has not exited yet.
    Running,
    /// The child has exited.
    Exited,
    /// The status could not be read.
    Failed(std::io::Error),
}

/// Relies on tokio's Child::try_wait: `Ok(None)` while the child runs,
/// `Ok(Some(status))` once it has exited, `Err` when the status cannot be read.
#[verifier::external_body]
fn try_wait_child(child: &mut Child) -> (r: WaitOutcome) {
    match child.try_wait() {
        Ok(None) => WaitOutcome::Running,
        Ok(Some(_)) => WaitOutcome::Exited,
        Err(e) => WaitOutcome::Failed(e),
    }
}

/// Relies on tokio's Child::start_kill: sends the child a forced kill
/// (SIGKILL on Unix) without waiting for it to take effect.
#[verifier::external_body]
fn start_kill_child(child: &mut Child) -> (r: Result<(), std::io::Error>) {
    child.start_kill()
}

impl ProcessState {
    /// The state that a wait outcome stands for: only a child that is known
    /// to be running is alive.
    pub open spec fn of_wait(outcome: &WaitOutcome) -> ProcessState {
        match outcome {
            WaitOutcome::Running => ProcessState::Alive,
            _ => ProcessState::Dead,
        }
    }

    pub fn from_wait(outcome: &WaitOutcome) -> (r: ProcessState)
        ensures
            r == Self::of_wait(outcome),
    {
        match outcome {
            WaitOutcome::Running => ProcessState::Alive,
            _ => ProcessState::Dead,
        }
    }

    /// Probes the child once, without blocking: what the wait reported and
    /// the state it stands for.
    pub fn from_child(child: &mut Child) -> (r: (ProcessState, WaitOutcome))
        ensures
            r.0 == Self::of_wait(&r.1),
    {
        let outcome = try_wait_child(child);
        (Self::from_wait(&outcome), outcome)
    }
}

/// A running (or finished) child together with the receivers of its output
/// broadcasts and the sender of its input queue.
pub struct Process {
    child: Child,
    exited: bool,
    reaped: bool,
    signals: Ghost<nat>,
    stdout: Option<broadcast::Receiver<Vec<u8>>>,
    stderr: Option<broadcast::Receiver<Vec<u8>>>,
    stdin: Option<mpsc::Sender<Vec<u8>>>,
}

/// What holds between a record before and after `kill`, given whether the
/// call returned `Ok`.
pub open spec fn kill_post(before: Process, after: Process, ok: bool) -> bool {
    &&& before.is_dead() ==> ok
    &&& ok ==> after.is_dead()
    &&& !ok ==> after.is_dead() == before.is_dead()
    &&& before.is_dead() ==> after.is_dead()
    &&& ok && !before.is_dead() ==> after.is_reaped() || after.signals() == before.signals() + 1
    &&& after.signals() <= before.signals() + 1
    &&& after.streams() == before.streams()
}

/// What holds between a record before and after `state`, given its answer.
pub open spec fn state_post(before: Process, after: Process, r: ProcessState) -> bool {
    &&& before.is_dead() ==> r == ProcessState::Dead
    &&& (r == ProcessState::Dead) == after.is_dead()
    &&& after.streams() == before.streams()
}

impl Process {
    /// Whether the record has seen the child end (exit, failed probe or kill).
    pub closed spec fn is_dead(&self) -> bool {
        self.exited
    }

    /// Whether a wait has collected the child's exit status.
    pub closed spec fn is_reaped(&self) -> bool {
        self.reaped
    }

    /// How many kills the record has sent to the child.
    pub closed spec fn signals(&self) -> nat {
        self.signals@
    }

    /// Which of stdout, stderr and stdin the record holds a handle for.
    pub closed spec fn streams(&self) -> (bool, bool, bool) {
        (self.stdout.is_some(), self.stderr.is_some(), self.stdin.is_some())
    }

    /// Wraps a freshly spawned child whose pipes have been taken and wired to
    /// their relays.
    pub fn new(
        child: Child,
        stdout: Option<broadcast::Receiver<Vec<u8>>>,
        stderr: Option<broadcast::Receiver<Vec<u8>>>,
        stdin: Option<mpsc::Sender<Vec<u8>>>,
    ) -> (r: Process)
        ensures
            !r.is_dead(),
            !r.is_reaped(),
            r.signals() == 0,
            r.streams() == (stdout.is_some(), stderr.is_some(), stdin.is_some()),
    {
        Process { child, exited: false, reaped: false, signals: Ghost(0), stdout, stderr, stdin }
    }

    /// Takes in one wait outcome of the child. A record that has seen its
    /// child end answers `Dead` whatever the wait says; otherwise the answer
    /// is the state the outcome stands for, and a `Dead` answer is kept. An
    /// exit reported by the wait means the exit status has been collected.
    pub fn apply_wait(&mut self, outcome: &WaitOutcome) -> (r: ProcessState)
        ensures
            old(self).is_dead() ==> r == ProcessState::Dead,
            !old(self).is_dead() ==> r == ProcessState::of_wait(outcome),
            final(self).is_dead() == (r == ProcessState::Dead),
            final(self).is_reaped() == (old(self).is_reaped() || outcome is Exited),
            final(self).signals() == old(self).signals(),
            final(self).streams() == old(self).streams(),
    {
        if let WaitOutcome::Exited = outcome {
            self.reaped = true;
        }
        if self.exited {
            return ProcessState::Dead;
        }
        let r = ProcessState::from_wait(outcome);
        if r == ProcessState::Dead {
            self.exited = true;
        }
        r
    }

    /// Acts on one wait outcome for a kill. A running child is sent one kill,
    /// and the record counts it dead exactly when the kill was sent. A child
    /// that has exited is dead with nothing sent. A failed wait is returned
    /// as the error, and the record is left as it was.
    pub fn kill_step(&mut self, outcome: WaitOutcome) -> (r: Result<(), std::io::Error>)
        ensures
            match outcome {
                WaitOutcome::Running => {
                    &&& final(self).signals() == old(self).signals() + 1
                    &&& r is Ok ==> final(self).is_dead()
                    &&& r is Err ==> final(self).is_dead() == old(self).is_dead()
                    &&& final(self).is_reaped() == old(self).is_reaped()
                    &&& final(self).streams() == old(self).streams()
                },
                WaitOutcome::Exited => {
                    &&& r is Ok
                    &&& final(self).is_dead()
                    &&& final(self).is_reaped()
                    &&& final(self).signals() == old(self).signals()
                    &&& final(self).streams() == old(self).streams()
                },
                WaitOutcome::Failed(e) => r == Err::<(), std::io::Error>(e) && *final(self)
                    == *old(self),
            },
    {
        match outcome {
            WaitOutcome::Failed(e) => Err(e),
            WaitOutcome::Exited => {
                self.exited = true;
                self.reaped = true;
                Ok(())
            },
            WaitOutcome::Running => {
                self.signals = Ghost(self.signals@ + 1);
                match start_kill_child(&mut self.child) {
                    Ok(()) => {
                        self.exited = true;
                        Ok(())
                    },
                    Err(e) => Err(e),
                }
            },
        }
    }

    /// Non-blocking liveness probe: the answer of `apply_wait` on one wait
    /// of the child. Once the record reports `Dead` it keeps doing so; a
    /// killed child is still waited on until its exit status is collected.
    pub fn state(&mut self) -> (r: ProcessState)
        ensures
            state_post(*old(self), *final(self), r),
            final(self).signals() == old(self).signals(),
    {
        if self.exited && self.reaped {
            return ProcessState::Dead;
        }
        let (_, outcome) = ProcessState::from_child(&mut self.child);
        self.apply_wait(&outcome)
    }

    /// Kills the child unless it is already known to have ended. Killing an
    /// ended child succeeds and does nothing. A forced kill cannot be caught
    /// or ignored by the child, so once it has been sent the record counts
    /// the child as dead; the exit status is collected later.
    pub fn kill(&mut self) -> (r: Result<(), std::io::Error>)
        ensures
            kill_post(*old(self), *final(self), r is Ok),
    {
        if self.exited {
            return Ok(());
        }
        let (_, outcome) = ProcessState::from_child(&mut self.child);
        self.kill_step(outcome)
    }

    /// A new receiver of the child's stdout, starting at the current head.
    pub fn get_stdout(&self) -> (r: Option<broadcast::Receiver<Vec<u8>>>)
        ensures
            r is Some == self.streams().0,
    {
        match &self.stdout {
            Some(rx) => Some(rx.resubscribe()),
            None => None,
        }
    }

    /// A new receiver of the child's stderr, starting at the current head.
    pub fn get_stderr(&self) -> (r: Option<broadcast::Receiver<Vec<u8>>>)
        ensures
            r is Some == self.streams().1,
    {
        match &self.stderr {
            Some(rx) => Some(rx.resubscribe()),
            None => None,
        }
    }

    /// A sender into the child's stdin queue.
    pub fn get_stdin(&self) -> (r: Option<mpsc::Sender<Vec<u8>>>)
        ensures
            r is Some == self.streams().2,
    {
        match &self.stdin {
            Some(tx) => Some(tx.clone()),
            None => None,
        }
    }
}

/// Once `kill` has returned `Ok`, the record reports `Dead` at its very
/// next probe.
pub proof fn killed_process_reports_dead(
    p0: Process,
    p1: Process,
    p2: Process,
    r: ProcessState,
)
    requires
        kill_post(p0, p1, true),
        state_post(p1, p2, r),
    ensures
        r == ProcessState::Dead,
{
}

/// `kill` is idempotent: once a call has returned `Ok`, a second call
/// returns `Ok` too.
pub proof fn kill_is_idempotent(p0: Process, p1: Process, p2: Process, second_ok: bool)
    requires
        kill_post(p0, p1, true),
        kill_post(p1, p2, second_ok),
    ensures
        second_ok,
        p2.is_dead(),
{
}

/// A record never comes back to life: once it has reported `Dead`, every
/// later probe reports `Dead`.
pub proof fn dead_stays_dead(p0: Process, p1: Process, p2: Process, r1: ProcessState, r2: ProcessState)
    requires
        state_post(p0, p1, r1),
        r1 == ProcessState::Dead,
        state_post(p1, p2, r2),
    ensures
        r2 == ProcessState::Dead,
{
}

} // verus!
