//! What the background writer puts on disk for a write job.

use vstd::prelude::*;

verus! {

/// The bytes a write job writes: where formatting was asked for and the
/// formatter succeeded, its output; otherwise (formatting not asked for, or the
/// formatter failed for any reason) the job's original bytes, so that a file
/// the formatter cannot handle is still written.
pub fn bytes_to_write(format: bool, formatted: Option<Vec<u8>>, original: Vec<u8>) -> (res: Vec<u8>)
    ensures
        res@ == match formatted {
            Some(f) => if format { f@ } else { original@ },
            None => original@,
        },
{
    match formatted {
        Some(f) => if format { f } else { original },
        None => original,
    }
}

} // verus!

verus! {

/// Why the writer refused a write job.
#[derive(PartialEq, Eq, Structural, Debug, Clone, Copy)]
pub enum WriteRefused {
    /// `join` has run: the background task takes no more jobs.
    NotRunning,
}

/// What a call of `join` has left to do after signalling shutdown.
#[derive(PartialEq, Eq, Structural, Debug, Clone, Copy)]
pub enum JoinStep {
    /// The first `join`: wait for the background task to finish its writes.
    AwaitConsumer,
    /// A later `join`: an earlier one already waited, so return at once.
    NothingLeft,
}

/// What a write job gets from a writer that `joined` says is shut down or not.
pub open spec fn write_outcome(joined: bool) -> Result<(), WriteRefused> {
    if joined {
        Err(WriteRefused::NotRunning)
    } else {
        Ok(())
    }
}

/// What `join` has left to do on a writer that `joined` says is shut down or not.
pub open spec fn join_step(joined: bool) -> JoinStep {
    if joined {
        JoinStep::NothingLeft
    } else {
        JoinStep::AwaitConsumer
    }
}

/// Whether the writer still takes jobs, or `join` has shut it down.
pub struct Lifecycle {
    joined: bool,
}

impl Lifecycle {
    /// Whether `join` has been called.
    pub closed spec fn is_joined(&self) -> bool {
        self.joined
    }

    /// A writer that takes jobs.
    pub fn new() -> (res: Self)
        ensures
            !res.is_joined(),
    {
        Lifecycle { joined: false }
    }

    /// Whether a write job is taken: it is, until `join` has been called.
    pub fn accept_write(&self) -> (res: Result<(), WriteRefused>)
        ensures
            res == write_outcome(self.is_joined()),
    {
        if self.joined {
            Err(WriteRefused::NotRunning)
        } else {
            Ok(())
        }
    }

    /// Shuts the writer down; only the first call waits for the background task.
    pub fn join(&mut self) -> (step: JoinStep)
        ensures
            final(self).is_joined(),
            step == join_step(old(self).is_joined()),
    {
        let step = if self.joined {
            JoinStep::NothingLeft
        } else {
            JoinStep::AwaitConsumer
        };
        self.joined = true;
        step
    }
}

/// What the background task receives or sees finish.
#[derive(PartialEq, Eq, Structural, Debug, Clone, Copy)]
pub enum ConsumerEvent {
    /// A write job arrived.
    Job,
    /// `join` asked it to stop.
    Shutdown,
    /// Every sender is gone.
    Closed,
    /// One of its write jobs finished.
    Finished,
}

/// What the background task does on an event.
#[derive(PartialEq, Eq, Structural, Debug, Clone, Copy)]
pub enum ConsumerAction {
    /// Start the job, concurrently with the others.
    Spawn,
    /// Report how the finished job went, and keep receiving.
    Report,
    /// Stop receiving (closing the channel first on a shutdown), then drain
    /// the running jobs within the deadline.
    StopReceiving { close: bool },
}

/// The action for `event`: a job is started, a finished job reported, and a
/// shutdown or a closed channel ends the receiving.
pub open spec fn spec_consumer_action(event: ConsumerEvent) -> ConsumerAction {
    match event {
        ConsumerEvent::Job => ConsumerAction::Spawn,
        ConsumerEvent::Finished => ConsumerAction::Report,
        ConsumerEvent::Shutdown => ConsumerAction::StopReceiving { close: true },
        ConsumerEvent::Closed => ConsumerAction::StopReceiving { close: false },
    }
}

/// What the background task does on `event`.
pub fn consumer_action(event: ConsumerEvent) -> (action: ConsumerAction)
    ensures
        action == spec_consumer_action(event),
{
    match event {
        ConsumerEvent::Job => ConsumerAction::Spawn,
        ConsumerEvent::Finished => ConsumerAction::Report,
        ConsumerEvent::Shutdown => ConsumerAction::StopReceiving { close: true },
        ConsumerEvent::Closed => ConsumerAction::StopReceiving { close: false },
    }
}

/// Once `join` has run on a writer, every later write is refused and every
/// later `join` returns without waiting.
pub proof fn lemma_join_is_final(writer: Lifecycle)
    requires
        writer.is_joined(),
    ensures
        write_outcome(writer.is_joined()) == Err::<(), WriteRefused>(WriteRefused::NotRunning),
        join_step(writer.is_joined()) == JoinStep::NothingLeft,
{
}

} // verus!
