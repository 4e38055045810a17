//! The schedule of the datagram poll loop.
//!
//! One sweep is one receive attempt on each bound socket, in the order in
//! which they were bound, followed by one pause. The loop has no end. It is
//! a state machine like the others: [`PollLoop::next_action`] names the
//! socket to try or the pause to take, the caller does it and reports back.
//! Because the pause is part of every sweep, a loop without sockets does
//! nothing but pause.

use crate::addr::SocketAddress;
use vstd::prelude::*;

verus! {

/// The size of the buffer a datagram is received into, in bytes.
pub const NET_BUFF_SIZE: usize = 32535;

/// How one receive attempt ended.
#[derive(Clone, Copy, Debug, PartialEq, Eq, Structural)]
pub enum ReceiveOutcome {
    /// A datagram of `bytes` bytes arrived from `from`.
    Datagram { bytes: usize, from: SocketAddress },
    /// Nothing was waiting. This is the usual case and no error.
    WouldBlock,
    /// The attempt failed for another reason.
    Failed,
}

/// What the caller is to do next.
#[derive(Clone, Copy, Debug, PartialEq, Eq, Structural)]
pub enum PollAction {
    /// Try once, without waiting, to receive on socket `socket`.
    Receive { socket: usize },
    /// Pause for `nanos` nanoseconds.
    Sleep { nanos: u64 },
}

/// What to make of one receive attempt.
#[derive(Clone, Copy, Debug, PartialEq, Eq, Structural)]
pub enum Disposition {
    /// Hand the datagram to whoever deals with datagrams.
    Dispatch { socket: usize, bytes: usize, from: SocketAddress },
    /// Nothing to do.
    Skip,
    /// Report the failure; the socket stays and is tried again next sweep.
    Report { socket: usize },
}

/// Where the poll loop stands.
#[derive(Clone, Copy, Debug, PartialEq, Eq, Structural)]
pub struct PollLoop {
    /// The number of bound sockets.
    pub sockets: usize,
    /// The pause after each sweep, in nanoseconds.
    pub delay_ns: u64,
    /// The socket to try next; `sockets` once the sweep is through.
    pub cursor: usize,
}

impl PollLoop {
    /// The cursor never passes the end of the sockets.
    pub open spec fn wf(&self) -> bool {
        self.cursor <= self.sockets
    }

    /// A loop at the start of a sweep.
    pub open spec fn spec_new(sockets: usize, delay_ns: u64) -> PollLoop {
        PollLoop { sockets, delay_ns, cursor: 0 }
    }

    /// Whether the sweep is through and the pause is due.
    pub open spec fn pause_due(&self) -> bool {
        self.cursor >= self.sockets
    }

    /// What is asked of the caller in this state.
    pub open spec fn spec_next_action(&self) -> PollAction {
        if self.pause_due() {
            PollAction::Sleep { nanos: self.delay_ns }
        } else {
            PollAction::Receive { socket: self.cursor }
        }
    }

    /// The loop after a receive attempt: the next socket's turn. While the
    /// pause is due a report of a receive attempt changes nothing.
    pub open spec fn after_receive(&self) -> PollLoop {
        if self.pause_due() {
            *self
        } else {
            PollLoop { cursor: (self.cursor + 1) as usize, ..*self }
        }
    }

    /// The loop after a pause: the next sweep begins. While a socket's turn
    /// is due a report of a pause changes nothing.
    pub open spec fn after_sleep(&self) -> PollLoop {
        if self.pause_due() {
            PollLoop { cursor: 0, ..*self }
        } else {
            *self
        }
    }

    /// What to make of `outcome` on the socket whose turn it is: a datagram
    /// is dispatched, an empty socket is passed over in silence, and any
    /// other failure is reported.
    pub open spec fn disposition(&self, outcome: ReceiveOutcome) -> Disposition {
        if self.pause_due() {
            Disposition::Skip
        } else {
            match outcome {
                ReceiveOutcome::Datagram { bytes, from } => Disposition::Dispatch {
                    socket: self.cursor,
                    bytes,
                    from,
                },
                ReceiveOutcome::WouldBlock => Disposition::Skip,
                ReceiveOutcome::Failed => Disposition::Report { socket: self.cursor },
            }
        }
    }

    /// A loop over `sockets` sockets that pauses `delay_ns` nanoseconds
    /// after each sweep, at the start of its first sweep.
    pub fn new(sockets: usize, delay_ns: u64) -> (poll: PollLoop)
        ensures
            poll == Self::spec_new(sockets, delay_ns),
            poll.wf(),
    {
        PollLoop { sockets, delay_ns, cursor: 0 }
    }

    /// What the caller is to do next.
    #[verifier::when_used_as_spec(spec_next_action)]
    pub fn next_action(&self) -> (action: PollAction)
        ensures
            action == self.spec_next_action(),
    {
        if self.cursor >= self.sockets {
            PollAction::Sleep { nanos: self.delay_ns }
        } else {
            PollAction::Receive { socket: self.cursor }
        }
    }

    /// Takes in how the receive attempt last handed out ended, and says
    /// what to make of it.
    pub fn received(&mut self, outcome: ReceiveOutcome) -> (disposition: Disposition)
        ensures
            *final(self) == old(self).after_receive(),
            disposition == old(self).disposition(outcome),
            old(self).wf() ==> final(self).wf(),
    {
        if self.cursor >= self.sockets {
            return Disposition::Skip;
        }
        let socket = self.cursor;
        self.cursor = socket + 1;
        match outcome {
            ReceiveOutcome::Datagram { bytes, from } => Disposition::Dispatch {
                socket,
                bytes,
                from,
            },
            ReceiveOutcome::WouldBlock => Disposition::Skip,
            ReceiveOutcome::Failed => Disposition::Report { socket },
        }
    }

    /// Takes in that the pause last handed out has been taken.
    pub fn slept(&mut self)
        ensures
            *final(self) == old(self).after_sleep(),
            old(self).wf() ==> final(self).wf(),
    {
        if self.cursor >= self.sockets {
            self.cursor = 0;
        }
    }
}

/// The loop after `attempts` receive attempts in a row.
pub open spec fn after_receives(poll: PollLoop, attempts: nat) -> PollLoop
    decreases attempts,
{
    if attempts == 0 {
        poll
    } else {
        after_receives(poll.after_receive(), (attempts - 1) as nat)
    }
}

/// With no sockets at all, the loop asks for nothing but its pause, before
/// and after every report: it never spins.
pub proof fn idle_loop_only_sleeps(poll: PollLoop, outcome: ReceiveOutcome)
    requires
        poll.wf(),
        poll.sockets == 0,
    ensures
        poll.spec_next_action() == (PollAction::Sleep { nanos: poll.delay_ns }),
        poll.after_sleep().spec_next_action() == (PollAction::Sleep { nanos: poll.delay_ns }),
        poll.after_receive().spec_next_action() == (PollAction::Sleep { nanos: poll.delay_ns }),
        poll.disposition(outcome) == Disposition::Skip,
{
}

/// Every sweep ends in the pause: from any point of a sweep, once each
/// socket still to come has had its one attempt, the loop asks for the
/// pause of the configured length, whatever the attempts brought and however
/// many sockets there are; and after the pause the next sweep starts at the
/// first socket. Until then each socket is asked for in turn.
pub proof fn every_sweep_ends_in_sleep(poll: PollLoop, attempts: nat)
    requires
        poll.wf(),
        attempts <= poll.sockets - poll.cursor,
    ensures
        after_receives(poll, attempts).cursor == poll.cursor + attempts,
        after_receives(poll, attempts).sockets == poll.sockets,
        after_receives(poll, attempts).delay_ns == poll.delay_ns,
        attempts < poll.sockets - poll.cursor ==> after_receives(poll, attempts).spec_next_action()
            == (PollAction::Receive { socket: (poll.cursor + attempts) as usize }),
        attempts == poll.sockets - poll.cursor ==> after_receives(
            poll,
            attempts,
        ).spec_next_action() == (PollAction::Sleep { nanos: poll.delay_ns }) && after_receives(
            poll,
            attempts,
        ).after_sleep() == PollLoop::spec_new(poll.sockets, poll.delay_ns),
    decreases attempts,
{
    if attempts > 0 {
        every_sweep_ends_in_sleep(poll.after_receive(), (attempts - 1) as nat);
    }
}

} // verus!
