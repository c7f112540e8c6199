//! A TLS connection that performs its handshake on first use.
//!
//! The stream holds either the handshake in progress or the encrypted channel
//! that the handshake gave, never both, and goes from the first to the second
//! once and for good. It does no I/O itself: for each operation it says what
//! must be done, and it is told what driving the handshake gave.

use vstd::prelude::*;

verus! {

/// What a stream holds: the handshake in progress, or the encrypted channel.
pub enum State<H, S> {
    /// The handshake is still in progress.
    Handshaking(H),
    /// The handshake is done.
    Streaming(S),
}

/// An operation of the byte stream.
#[derive(Clone, Copy, Debug, PartialEq, Eq, Structural)]
pub enum Operation {
    Read,
    Write,
    Flush,
    Shutdown,
}

/// What must be done to serve an operation.
#[derive(Clone, Copy, Debug, PartialEq, Eq, Structural)]
pub enum Step {
    /// Drive the handshake, report what it gave with
    /// [`TlsStream::handshake_polled`], and act on the reaction.
    DriveHandshake,
    /// Hand the operation to the encrypted channel.
    Delegate,
    /// Report success at once: there is nothing to do yet.
    Succeed,
}

/// What driving the handshake gave.
pub enum Handshake<S, E> {
    /// It cannot go on yet.
    Pending,
    /// It is done, and this is the encrypted channel.
    Completed(S),
    /// It failed.
    Failed(E),
}

/// How an operation that drove the handshake ends.
pub enum Reaction<E> {
    /// Report "not ready"; nothing of the caller's was consumed.
    NotReady,
    /// Hand the operation to the encrypted channel, in the same call.
    Delegate,
    /// Report this failure.
    Fail(E),
}

/// What must be done to serve `operation`. While the handshake is in progress
/// a read or a write drives it, and a flush or a shutdown succeeds at once; on
/// the encrypted channel every operation is delegated.
pub open spec fn step_for(streaming: bool, operation: Operation) -> Step {
    if streaming {
        Step::Delegate
    } else {
        match operation {
            Operation::Read => Step::DriveHandshake,
            Operation::Write => Step::DriveHandshake,
            Operation::Flush => Step::Succeed,
            Operation::Shutdown => Step::Succeed,
        }
    }
}

/// What a stream holds after its handshake was driven: the new channel if it
/// was handshaking and the handshake is done, and what it held in every other
/// case.
pub open spec fn state_after<H, S, E>(state: State<H, S>, outcome: Handshake<S, E>) -> State<H, S> {
    match (state, outcome) {
        (State::Handshaking(_), Handshake::Completed(channel)) => State::Streaming(channel),
        _ => state,
    }
}

/// How the operation that drove the handshake ends.
pub open spec fn reaction_to<S, E>(outcome: Handshake<S, E>) -> Reaction<E> {
    match outcome {
        Handshake::Pending => Reaction::NotReady,
        Handshake::Completed(_) => Reaction::Delegate,
        Handshake::Failed(error) => Reaction::Fail(error),
    }
}

/// A TLS connection: the handshake or the channel, and the peer's address,
/// which is captured once when the stream is made.
pub struct TlsStream<H, S, A> {
    state: State<H, S>,
    remote_addr: A,
}

impl<H, S, A> TlsStream<H, S, A> {
    /// What the stream holds.
    pub closed spec fn state(&self) -> State<H, S> {
        self.state
    }

    /// The peer's address.
    pub closed spec fn peer(&self) -> A {
        self.remote_addr
    }

    /// Whether the handshake is done.
    pub open spec fn spec_is_streaming(&self) -> bool {
        self.state() is Streaming
    }

    /// A stream that holds the handshake just begun on a raw connection, and
    /// the address that was read from that connection.
    pub fn new(handshake: H, remote_addr: A) -> (stream: Self)
        ensures
            stream.state() == State::<H, S>::Handshaking(handshake),
            stream.peer() == remote_addr,
    {
        TlsStream { state: State::Handshaking(handshake), remote_addr }
    }

    /// The peer's address, as captured when the stream was made.
    pub fn remote_addr(&self) -> (addr: Option<&A>)
        ensures
            addr == Some(&self.peer()),
    {
        Some(&self.remote_addr)
    }

    /// Whether the handshake is done.
    #[verifier::when_used_as_spec(spec_is_streaming)]
    pub fn is_streaming(&self) -> (streaming: bool)
        ensures
            streaming == self.spec_is_streaming(),
    {
        match &self.state {
            State::Handshaking(_) => false,
            State::Streaming(_) => true,
        }
    }

    /// What must be done to serve `operation`.
    pub fn plan(&self, operation: Operation) -> (step: Step)
        ensures
            step == step_for(self.spec_is_streaming(), operation),
    {
        match &self.state {
            State::Streaming(_) => Step::Delegate,
            State::Handshaking(_) => match operation {
                Operation::Read => Step::DriveHandshake,
                Operation::Write => Step::DriveHandshake,
                Operation::Flush => Step::Succeed,
                Operation::Shutdown => Step::Succeed,
            },
        }
    }

    /// The handshake, to be driven; none once it is done.
    pub fn handshake_mut(&mut self) -> (handshake: Option<&mut H>)
        ensures
            final(self).peer() == old(self).peer(),
            final(self).spec_is_streaming() == old(self).spec_is_streaming(),
            match handshake {
                Some(h) => old(self).state() == State::<H, S>::Handshaking(*h)
                    && final(self).state() == State::<H, S>::Handshaking(*final(h)),
                None => old(self).state() is Streaming && final(self).state() == old(self).state(),
            },
    {
        match &mut self.state {
            State::Handshaking(handshake) => Some(handshake),
            State::Streaming(_) => None,
        }
    }

    /// The encrypted channel; none while the handshake is in progress.
    pub fn channel_mut(&mut self) -> (channel: Option<&mut S>)
        ensures
            final(self).peer() == old(self).peer(),
            final(self).spec_is_streaming() == old(self).spec_is_streaming(),
            match channel {
                Some(c) => old(self).state() == State::<H, S>::Streaming(*c)
                    && final(self).state() == State::<H, S>::Streaming(*final(c)),
                None => old(self).state() is Handshaking
                    && final(self).state() == old(self).state(),
            },
    {
        match &mut self.state {
            State::Streaming(channel) => Some(channel),
            State::Handshaking(_) => None,
        }
    }

    /// Takes in what driving the handshake gave. A handshake that is done makes
    /// the stream hold its channel from here on; a handshake that is pending
    /// or has failed leaves the stream as it was. The address never changes.
    pub fn handshake_polled<E>(&mut self, outcome: Handshake<S, E>) -> (reaction: Reaction<E>)
        ensures
            reaction == reaction_to(outcome),
            final(self).state() == state_after(old(self).state(), outcome),
            final(self).peer() == old(self).peer(),
            old(self).spec_is_streaming() ==> final(self).spec_is_streaming(),
    {
        match outcome {
            Handshake::Pending => Reaction::NotReady,
            Handshake::Failed(error) => Reaction::Fail(error),
            Handshake::Completed(channel) => {
                if !self.is_streaming() {
                    self.state = State::Streaming(channel);
                }
                Reaction::Delegate
            },
        }
    }
}

/// A read or a write on a handshaking stream whose handshake cannot go on yet
/// ends as "not ready": no failure, and the stream is still handshaking, with
/// the same handshake.
pub proof fn lemma_pending_handshake_is_not_ready<H, S, E>(state: State<H, S>)
    requires
        state is Handshaking,
    ensures
        step_for(false, Operation::Read) == Step::DriveHandshake,
        step_for(false, Operation::Write) == Step::DriveHandshake,
        reaction_to(Handshake::<S, E>::Pending) == Reaction::<E>::NotReady,
        state_after(state, Handshake::<S, E>::Pending) == state,
{
}

/// A handshake that is done leaves the stream on its channel, and the
/// operation that drove it goes to that channel in the same call.
pub proof fn lemma_completed_handshake_streams<H, S, E>(state: State<H, S>, channel: S)
    requires
        state is Handshaking,
    ensures
        state_after(state, Handshake::<S, E>::Completed(channel)) == State::<H, S>::Streaming(
            channel,
        ),
        reaction_to(Handshake::<S, E>::Completed(channel)) == Reaction::<E>::Delegate,
{
}

/// A handshake that has failed leaves the stream handshaking, and the
/// operation that drove it reports the failure.
pub proof fn lemma_failed_handshake_stays<H, S, E>(state: State<H, S>, error: E)
    ensures
        state_after(state, Handshake::<S, E>::Failed(error)) == state,
        reaction_to(Handshake::<S, E>::Failed(error)) == Reaction::<E>::Fail(error),
{
}

/// Once a stream holds its channel it holds that channel for good, whatever
/// is reported to it, and every operation is delegated.
pub proof fn lemma_streaming_is_final<H, S, E>(
    state: State<H, S>,
    outcome: Handshake<S, E>,
    operation: Operation,
)
    requires
        state is Streaming,
    ensures
        state_after(state, outcome) == state,
        step_for(true, operation) == Step::Delegate,
{
}

} // verus!
