use vstd::prelude::*;
use vstd::pervasive::unreached;

verus! {

#[verifier::external_type_specification]
#[verifier::external_body]
pub struct ExIoError(std::io::Error);

/// Why relaying one command's output into another failed.
#[derive(Debug)]
pub enum PipeError {
    /// The producing command could not be run, or failed.
    TxCommandFailed(bossy::Error),
    /// The consuming command could not be started.
    RxCommandFailed(bossy::Error),
    /// The producer's output could not be written into the consumer's input.
    PipeFailed(std::io::Error),
    /// Waiting for the consumer to exit failed.
    WaitFailed(bossy::Error),
}

/// What the caller saw when it did the last action.
#[derive(Debug)]
pub enum RelayEvent {
    /// The producer ran to completion: its standard output, or its failure.
    Produced(Result<Vec<u8>, bossy::Error>),
    /// The consumer was started, or could not be.
    Launched(Result<(), bossy::Error>),
    /// The bytes were written into the consumer's input, which was then closed.
    Written(Result<(), std::io::Error>),
    /// The consumer was waited for.
    Waited(Result<(), bossy::Error>),
}

/// What the caller is to do next.
#[derive(Debug)]
pub enum RelayAction {
    /// Run the producer to completion, capturing its standard output.
    Produce,
    /// Start the consumer with its input piped from this process and its
    /// output going straight to the user.
    Launch,
    /// Write these bytes into the consumer's input and close it.
    Write(Vec<u8>),
    /// Wait for the consumer to exit.
    Wait,
    /// The relay is over, with this outcome: `Ok(false)` when the producer
    /// had nothing to say, `Ok(true)` when its output was relayed.
    Finish(Result<bool, PipeError>),
}

/// Where a relay of one command's output into another stands.
#[derive(Debug)]
pub enum Relay {
    /// Waiting for the producer's output.
    Producing,
    /// Waiting for the consumer to start; holds the output to hand it.
    Launching(Vec<u8>),
    /// Waiting for the output to be written.
    Writing,
    /// Waiting for the consumer to exit; holds how the write went.
    Waiting(Result<(), std::io::Error>),
    /// Over.
    Done,
}

/// Whether `event` is the answer to the action that led to `state`.
pub open spec fn accepts(state: Relay, event: RelayEvent) -> bool {
    match (state, event) {
        (Relay::Producing, RelayEvent::Produced(_)) => true,
        (Relay::Launching(_), RelayEvent::Launched(_)) => true,
        (Relay::Writing, RelayEvent::Written(_)) => true,
        (Relay::Waiting(_), RelayEvent::Waited(_)) => true,
        _ => false,
    }
}

/// The step of a relay. An empty output ends it at once, before any consumer
/// is started. The consumer is waited for whether or not the write went
/// through; a failed write is then reported before a failed wait.
pub open spec fn next(state: Relay, event: RelayEvent) -> (Relay, RelayAction) {
    match (state, event) {
        (Relay::Producing, RelayEvent::Produced(Err(e))) =>
            (Relay::Done, RelayAction::Finish(Err(PipeError::TxCommandFailed(e)))),
        (Relay::Producing, RelayEvent::Produced(Ok(out))) =>
            if out@.len() == 0 {
                (Relay::Done, RelayAction::Finish(Ok(false)))
            } else {
                (Relay::Launching(out), RelayAction::Launch)
            },
        (Relay::Launching(_), RelayEvent::Launched(Err(e))) =>
            (Relay::Done, RelayAction::Finish(Err(PipeError::RxCommandFailed(e)))),
        (Relay::Launching(out), RelayEvent::Launched(Ok(()))) =>
            (Relay::Writing, RelayAction::Write(out)),
        (Relay::Writing, RelayEvent::Written(w)) => (Relay::Waiting(w), RelayAction::Wait),
        (Relay::Waiting(Err(e)), RelayEvent::Waited(_)) =>
            (Relay::Done, RelayAction::Finish(Err(PipeError::PipeFailed(e)))),
        (Relay::Waiting(Ok(())), RelayEvent::Waited(Err(e))) =>
            (Relay::Done, RelayAction::Finish(Err(PipeError::WaitFailed(e)))),
        (Relay::Waiting(Ok(())), RelayEvent::Waited(Ok(()))) =>
            (Relay::Done, RelayAction::Finish(Ok(true))),
        // An event that does not answer the last action: never stepped on.
        (s, _) => (s, RelayAction::Finish(Ok(false))),
    }
}

impl Relay {
    /// A relay that has not begun, and its first action.
    pub fn start() -> (r: (Relay, RelayAction))
        ensures
            r.0 == Relay::Producing,
            r.1 == RelayAction::Produce,
    {
        (Relay::Producing, RelayAction::Produce)
    }

    /// Whether `event` answers the action that led here.
    pub fn accepts(&self, event: &RelayEvent) -> (r: bool)
        ensures
            r == accepts(*self, *event),
    {
        match (self, event) {
            (Relay::Producing, RelayEvent::Produced(_)) => true,
            (Relay::Launching(_), RelayEvent::Launched(_)) => true,
            (Relay::Writing, RelayEvent::Written(_)) => true,
            (Relay::Waiting(_), RelayEvent::Waited(_)) => true,
            _ => false,
        }
    }

    /// Takes the outcome of the last action and gives the next state and action.
    pub fn step(self, event: RelayEvent) -> (r: (Relay, RelayAction))
        requires
            accepts(self, event),
        ensures
            r == next(self, event),
    {
        match (self, event) {
            (Relay::Producing, RelayEvent::Produced(Err(e))) =>
                (Relay::Done, RelayAction::Finish(Err(PipeError::TxCommandFailed(e)))),
            (Relay::Producing, RelayEvent::Produced(Ok(out))) =>
                if out.len() == 0 {
                    (Relay::Done, RelayAction::Finish(Ok(false)))
                } else {
                    (Relay::Launching(out), RelayAction::Launch)
                },
            (Relay::Launching(_), RelayEvent::Launched(Err(e))) =>
                (Relay::Done, RelayAction::Finish(Err(PipeError::RxCommandFailed(e)))),
            (Relay::Launching(out), RelayEvent::Launched(Ok(()))) =>
                (Relay::Writing, RelayAction::Write(out)),
            (Relay::Writing, RelayEvent::Written(w)) => (Relay::Waiting(w), RelayAction::Wait),
            (Relay::Waiting(Err(e)), RelayEvent::Waited(_)) =>
                (Relay::Done, RelayAction::Finish(Err(PipeError::PipeFailed(e)))),
            (Relay::Waiting(Ok(())), RelayEvent::Waited(Err(e))) =>
                (Relay::Done, RelayAction::Finish(Err(PipeError::WaitFailed(e)))),
            (Relay::Waiting(Ok(())), RelayEvent::Waited(Ok(()))) =>
                (Relay::Done, RelayAction::Finish(Ok(true))),
            _ => unreached(),
        }
    }
}

/// A producer with no output ends the relay with `false`, and no consumer is
/// ever started.
pub proof fn lemma_empty_output_skips_consumer(out: Vec<u8>)
    requires
        out@.len() == 0,
    ensures
        next(Relay::Producing, RelayEvent::Produced(Ok(out)))
            == (Relay::Done, RelayAction::Finish(Ok(false))),
{
}

/// A producer with output, a consumer that starts, a write that goes through
/// and a wait that succeeds: the consumer is started, handed exactly that
/// output, waited for, and the relay ends with `true`.
pub proof fn lemma_relay_success(out: Vec<u8>)
    requires
        out@.len() > 0,
    ensures
        next(Relay::Producing, RelayEvent::Produced(Ok(out))) == (Relay::Launching(out), RelayAction::Launch),
        next(Relay::Launching(out), RelayEvent::Launched(Ok(()))) == (Relay::Writing, RelayAction::Write(out)),
        next(Relay::Writing, RelayEvent::Written(Ok(()))) == (Relay::Waiting(Ok(())), RelayAction::Wait),
        next(Relay::Waiting(Ok(())), RelayEvent::Waited(Ok(()))) == (Relay::Done, RelayAction::Finish(Ok(true))),
{
}

/// A failed write is followed by the wait all the same, and when the wait
/// fails too, the write's failure is the one reported.
pub proof fn lemma_write_failure_wins(write: std::io::Error, wait: bossy::Error)
    ensures
        next(Relay::Writing, RelayEvent::Written(Err(write))) == (Relay::Waiting(Err(write)), RelayAction::Wait),
        next(Relay::Waiting(Err(write)), RelayEvent::Waited(Err(wait)))
            == (Relay::Done, RelayAction::Finish(Err(PipeError::PipeFailed(write)))),
{
}

} // verus!
