use vstd::prelude::*;
use std::collections::VecDeque;
use crate::event::{decode, DecodedEvent, Notification, RawMessage, SourceEvent, TransportError};

verus! {

/// Why the sending side of the channel ended.
#[derive(Debug, Clone, PartialEq, Eq)]
pub enum Termination {
    /// The protocol source reported a clean end of stream.
    SourceClosed,
    /// The protocol source reported a failure of the session.
    Transport(TransportError),
    /// The polling side went away without a terminal outcome.
    DriverLost,
}

/// A terminal error handed to the consumer.
#[derive(Debug, Clone, PartialEq, Eq)]
pub enum StreamError {
    /// The session failed; carries the source's description.
    Transport(TransportError),
    /// The polling side stopped delivering without reporting why.
    ChannelClosed,
}

/// What one pull of the notification stream yields.
#[derive(Debug, Clone, PartialEq, Eq)]
pub enum Pull {
    /// The next notification, in arrival order.
    Item(Notification),
    /// Nothing buffered yet and the stream is still open: wait and pull again.
    Pending,
    /// The stream ended cleanly. Handed out once.
    EndOfStream,
    /// The stream ended with an error. Handed out once.
    Failed(StreamError),
    /// The terminal outcome was already handed out; nothing more will come.
    Spent,
}

/// What the polling side does after handing an outcome to the bridge.
#[derive(Debug, Clone, Copy, PartialEq, Eq)]
pub enum DriverAction {
    /// Poll the source again.
    Continue,
    /// Stop polling and release the source.
    Stop,
}

/// Shutdown progress of a bridge.
#[derive(Debug, Clone, Copy, PartialEq, Eq)]
pub enum Phase {
    /// Polling goes on and the channel is open.
    Active,
    /// No new messages are taken in; buffered ones are still handed out.
    Draining,
    /// The terminal outcome was handed out and the polling side has exited.
    Closed,
}

/// Abstract state of a bridge.
pub ghost struct BridgeModel {
    /// The channel the bridge was created for.
    pub channel: Seq<char>,
    /// Messages taken in and not yet handed out, oldest first.
    pub queue: Seq<RawMessage>,
    /// How the sending side ended, once it has.
    pub end: Option<Termination>,
    /// Whether the consumer cancelled the stream.
    pub cancelled: bool,
    /// Whether the polling side has exited.
    pub driver_exited: bool,
    /// Whether the terminal outcome was handed to the consumer.
    pub reported: bool,
}

impl BridgeModel {
    /// Internal consistency: the polling side exits, and the terminal outcome
    /// is handed out, only once intake has stopped; the latter only with
    /// nothing left buffered.
    pub open spec fn wf(self) -> bool {
        &&& self.driver_exited ==> !self.running()
        &&& self.reported ==> !self.running() && self.queue.len() == 0
    }

    /// Whether messages are still taken in from the source.
    pub open spec fn running(self) -> bool {
        !self.cancelled && self.end is None
    }

    pub open spec fn phase(self) -> Phase {
        if self.running() {
            Phase::Active
        } else if self.driver_exited && self.reported {
            Phase::Closed
        } else {
            Phase::Draining
        }
    }

    /// The same state with nothing buffered.
    pub open spec fn emptied(self) -> BridgeModel {
        BridgeModel { queue: Seq::empty(), ..self }
    }
}

/// A freshly subscribed bridge.
pub open spec fn initial(channel: Seq<char>) -> BridgeModel {
    BridgeModel {
        channel,
        queue: Seq::empty(),
        end: None,
        cancelled: false,
        driver_exited: false,
        reported: false,
    }
}

/// Handing one poll outcome to the bridge. Once intake has stopped nothing is
/// taken in and the polling side is told to stop.
pub open spec fn deliver_spec(m: BridgeModel, ev: SourceEvent) -> (BridgeModel, DriverAction) {
    if !m.running() {
        (m, DriverAction::Stop)
    } else {
        match ev {
            SourceEvent::Message(raw) => (BridgeModel { queue: m.queue.push(raw), ..m }, DriverAction::Continue),
            SourceEvent::Closed => (BridgeModel { end: Some(Termination::SourceClosed), ..m }, DriverAction::Stop),
            SourceEvent::Error(e) => (BridgeModel { end: Some(Termination::Transport(e)), ..m }, DriverAction::Stop),
        }
    }
}

/// Cancellation by the consumer: intake stops, buffered messages stay.
pub open spec fn cancel_spec(m: BridgeModel) -> BridgeModel {
    BridgeModel { cancelled: true, ..m }
}

/// The polling side has exited. Without a terminal outcome or a cancellation
/// before it, that is a broken delivery.
pub open spec fn finish_driver_spec(m: BridgeModel) -> BridgeModel {
    BridgeModel {
        driver_exited: true,
        end: if m.running() { Some(Termination::DriverLost) } else { m.end },
        ..m
    }
}

/// The pull that reports how a stream ended.
pub open spec fn terminal_pull(end: Option<Termination>) -> Pull {
    match end {
        Some(Termination::Transport(e)) => Pull::Failed(StreamError::Transport(e)),
        Some(Termination::DriverLost) => Pull::Failed(StreamError::ChannelClosed),
        _ => Pull::EndOfStream,
    }
}

/// One pull: the oldest buffered notification, skipping other messages; else
/// the terminal outcome once intake has stopped; else nothing yet.
pub open spec fn next_spec(m: BridgeModel) -> (BridgeModel, Pull)
    decreases m.queue.len(),
{
    if m.queue.len() > 0 {
        let rest = BridgeModel { queue: m.queue.drop_first(), ..m };
        match m.queue[0] {
            RawMessage::Notification(n) => (rest, Pull::Item(n)),
            RawMessage::Other(_) => next_spec(rest),
        }
    } else if m.reported {
        (m, Pull::Spent)
    } else if !m.running() {
        (BridgeModel { reported: true, ..m }, terminal_pull(m.end))
    } else {
        (m, Pull::Pending)
    }
}

/// The bridge between one polling side and one consumer: an unbounded FIFO
/// of raw messages, together with the shutdown state of both sides.
///
/// Overflow policy: the channel is unbounded. A database connection cannot
/// be slowed down, so the polling side never waits on the consumer; memory
/// grows while the consumer does not pull.
pub struct Bridge {
    channel: String,
    queue: VecDeque<RawMessage>,
    end: Option<Termination>,
    cancelled: bool,
    driver_exited: bool,
    reported: bool,
}

impl View for Bridge {
    type V = BridgeModel;

    closed spec fn view(&self) -> BridgeModel {
        BridgeModel {
            channel: self.channel@,
            queue: self.queue@,
            end: self.end,
            cancelled: self.cancelled,
            driver_exited: self.driver_exited,
            reported: self.reported,
        }
    }
}

impl Bridge {
    /// A bridge for a channel whose subscription has been issued.
    pub fn new(channel: String) -> (r: Bridge)
        ensures
            r@ == initial(channel@),
            r@.wf(),
    {
        Bridge {
            channel,
            queue: VecDeque::new(),
            end: None,
            cancelled: false,
            driver_exited: false,
            reported: false,
        }
    }

    /// The channel this bridge was created for.
    pub fn subscribed_channel(&self) -> (r: &String)
        ensures
            r@ == self@.channel,
    {
        &self.channel
    }

    /// Whether the polling side should poll the source again.
    pub fn is_running(&self) -> (r: bool)
        ensures
            r == self@.running(),
    {
        !self.cancelled && self.end.is_none()
    }

    /// Number of raw messages taken in and not yet handed out.
    pub fn buffered_len(&self) -> (r: usize)
        ensures
            r == self@.queue.len(),
    {
        self.queue.len()
    }

    pub fn phase(&self) -> (r: Phase)
        ensures
            r == self@.phase(),
    {
        if self.is_running() {
            Phase::Active
        } else if self.driver_exited && self.reported {
            Phase::Closed
        } else {
            Phase::Draining
        }
    }

    /// Hands one poll outcome to the bridge and says whether to poll again.
    pub fn deliver(&mut self, ev: SourceEvent) -> (r: DriverAction)
        requires
            old(self)@.wf(),
        ensures
            (final(self)@, r) == deliver_spec(old(self)@, ev),
            final(self)@.wf(),
    {
        if !self.is_running() {
            return DriverAction::Stop;
        }
        match ev {
            SourceEvent::Message(raw) => {
                self.queue.push_back(raw);
                DriverAction::Continue
            },
            SourceEvent::Closed => {
                self.end = Some(Termination::SourceClosed);
                DriverAction::Stop
            },
            SourceEvent::Error(e) => {
                self.end = Some(Termination::Transport(e));
                DriverAction::Stop
            },
        }
    }

    /// Cancels the stream: no message is taken in afterwards. Idempotent.
    pub fn cancel(&mut self)
        requires
            old(self)@.wf(),
        ensures
            final(self)@ == cancel_spec(old(self)@),
            final(self)@.wf(),
    {
        self.cancelled = true;
    }

    /// Records that the polling side has exited, however it did.
    pub fn finish_driver(&mut self)
        requires
            old(self)@.wf(),
        ensures
            final(self)@ == finish_driver_spec(old(self)@),
            final(self)@.wf(),
    {
        if self.is_running() {
            self.end = Some(Termination::DriverLost);
        }
        self.driver_exited = true;
    }

    /// Pulls the next notification or the stream's outcome.
    pub fn next(&mut self) -> (r: Pull)
        requires
            old(self)@.wf(),
        ensures
            (final(self)@, r) == next_spec(old(self)@),
            final(self)@.wf(),
    {
        loop
            invariant
                next_spec(self@) == next_spec(old(self)@),
                self@.wf(),
            ensures
                next_spec(self@) == next_spec(old(self)@),
                self@.wf(),
                self@.queue.len() == 0,
            decreases self.queue@.len(),
        {
            let ghost before = self@;
            match self.queue.pop_front() {
                Some(raw) => {
                    assert(self@ == BridgeModel { queue: before.queue.drop_first(), ..before });
                    match decode(raw) {
                        DecodedEvent::Notification(n) => {
                            return Pull::Item(n);
                        },
                        DecodedEvent::Ignored(_) => {},
                    }
                },
                None => {
                    break ;
                },
            }
        }
        if self.reported {
            Pull::Spent
        } else if !self.is_running() {
            self.reported = true;
            match &self.end {
                Some(Termination::Transport(e)) => Pull::Failed(StreamError::Transport(e.duplicate())),
                Some(Termination::DriverLost) => Pull::Failed(StreamError::ChannelClosed),
                _ => Pull::EndOfStream,
            }
        } else {
            Pull::Pending
        }
    }
}

} // verus!
