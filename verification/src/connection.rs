//! One client connection: the state its four activities share, and the
//! supervisor that starts them together and stops them together.
//!
//! The activities themselves (timers, socket reads and writes, calls into
//! the host) run outside this crate. Each of them asks the connection what
//! to do with what it has, and reports back when it ends.

use crate::command::{decode_text, Command, CommandCell};
use crate::queue::{after_offer, after_take, BoundedQueue};
use crate::snapshot::{frame_text, MusicInfo};
use vstd::prelude::*;

verus! {

/// The number of snapshots the outbound queue holds by default.
pub const OUTBOUND_CAPACITY: usize = 10;

/// Where a connection stands in its life.
#[derive(Debug, Clone, Copy, PartialEq, Eq, Structural)]
pub enum Phase {
    Idle,
    Running,
    ShuttingDown,
    Closed,
}

/// The four activities of a connection.
#[derive(Debug, Clone, Copy, PartialEq, Eq, Structural)]
pub enum Activity {
    Poller,
    OutboundPump,
    InboundPump,
    Dispatcher,
}

/// How an activity came to its end.
#[derive(Debug, Clone, Copy, PartialEq, Eq, Structural)]
pub enum Exit {
    Finished,
    Failed,
    Cancelled,
}

/// Why a connection left `Running`.
#[derive(Debug, Clone, Copy, PartialEq, Eq, Structural)]
pub enum Cause {
    Exited(Activity, Exit),
    ParentCancelled,
}

/// What the supervisor asks of its caller after an event.
#[derive(Debug, Clone, Copy, PartialEq, Eq, Structural)]
pub enum Directive {
    /// Nothing to do.
    Nothing,
    /// Start the four activities.
    SpawnActivities,
    /// Stop every activity that is still live, whatever it is doing.
    StopActivities,
    /// Every activity has stopped: close the transport.
    CloseTransport,
}

/// Which activities are live.
#[derive(Debug, Clone, Copy, PartialEq, Eq, Structural)]
pub struct LiveSet {
    pub poller: bool,
    pub outbound_pump: bool,
    pub inbound_pump: bool,
    pub dispatcher: bool,
}

impl LiveSet {
    /// All four activities.
    pub open spec fn all() -> LiveSet {
        LiveSet { poller: true, outbound_pump: true, inbound_pump: true, dispatcher: true }
    }

    /// No activity.
    pub open spec fn none() -> LiveSet {
        LiveSet { poller: false, outbound_pump: false, inbound_pump: false, dispatcher: false }
    }

    /// Whether the activity `who` is among the live ones.
    pub open spec fn contains(self, who: Activity) -> bool {
        match who {
            Activity::Poller => self.poller,
            Activity::OutboundPump => self.outbound_pump,
            Activity::InboundPump => self.inbound_pump,
            Activity::Dispatcher => self.dispatcher,
        }
    }

    /// The live activities but for `who`.
    pub open spec fn without(self, who: Activity) -> LiveSet {
        match who {
            Activity::Poller => LiveSet { poller: false, ..self },
            Activity::OutboundPump => LiveSet { outbound_pump: false, ..self },
            Activity::InboundPump => LiveSet { inbound_pump: false, ..self },
            Activity::Dispatcher => LiveSet { dispatcher: false, ..self },
        }
    }

    /// Whether no activity is live.
    pub open spec fn is_empty(self) -> bool {
        self == LiveSet::none()
    }
}

/// What the connection answers when the poller offers a snapshot.
#[derive(Debug, Clone, PartialEq, Eq)]
pub enum Offer {
    /// The snapshot is queued.
    Queued,
    /// The queue is full: wait until the outbound pump has taken a frame,
    /// then offer the same snapshot again.
    Full(MusicInfo),
    /// The connection is not running: the poller ends.
    Stopped(MusicInfo),
}

/// What the connection answers when the outbound pump asks for work.
#[derive(Debug, Clone, PartialEq, Eq)]
pub enum Outbound {
    /// Write this frame next.
    Frame(String),
    /// Nothing is queued: wait for the poller.
    Empty,
    /// The connection is not running: the pump ends.
    Stopped,
}

/// One frame read from the transport.
#[derive(Debug, Clone, PartialEq, Eq)]
pub enum InboundFrame {
    Text(String),
    /// Binary data and control frames.
    Other,
}

/// What became of an inbound frame.
#[derive(Debug, Clone, Copy, PartialEq, Eq, Structural)]
pub enum Received {
    /// The frame held a command, which now waits for the dispatcher.
    Published(Command),
    /// The frame held nothing the protocol knows, and left no trace.
    Ignored,
    /// The connection is not running: the pump ends.
    Stopped,
}

/// What the connection answers when the dispatcher asks for work.
#[derive(Debug, Clone, Copy, PartialEq, Eq, Structural)]
pub enum Pending {
    /// Apply this command; it will not be handed out again.
    Command(Command),
    /// No new command: wait for the inbound pump.
    Empty,
    /// The connection is not running: the dispatcher ends.
    Stopped,
}

/// The mathematical value of a [`Connection`].
pub ghost struct ConnectionView {
    pub phase: Phase,
    pub live: LiveSet,
    pub cause: Option<Cause>,
    pub queue: Seq<MusicInfo>,
    pub capacity: nat,
    pub pending: Option<Command>,
}

impl ConnectionView {
    /// What every reachable connection satisfies: the queue keeps to its
    /// bound; before the start and after the end no activity is live; while
    /// running all four are; while shutting down at least one still is.
    pub open spec fn well_formed(self) -> bool {
        &&& self.queue.len() <= self.capacity
        &&& match self.phase {
            Phase::Idle => self.live == LiveSet::none() && self.cause is None,
            Phase::Running => self.live == LiveSet::all() && self.cause is None,
            Phase::ShuttingDown => !self.live.is_empty() && self.cause is Some,
            Phase::Closed => self.live == LiveSet::none() && self.cause is Some,
        }
    }

    /// A connection that shuts down with nothing left to stop is closed.
    pub open spec fn settled(self) -> ConnectionView {
        if self.phase == Phase::ShuttingDown && self.live.is_empty() {
            ConnectionView { phase: Phase::Closed, ..self }
        } else {
            self
        }
    }

    /// The connection after it was asked to start.
    pub open spec fn after_start(self) -> ConnectionView {
        if self.phase == Phase::Idle {
            ConnectionView { phase: Phase::Running, live: LiveSet::all(), ..self }
        } else {
            self
        }
    }

    /// The connection after the activity `who` ended. The first activity to
    /// end takes the connection out of `Running`; how it ended is recorded
    /// and changes nothing else.
    pub open spec fn after_exit(self, who: Activity, how: Exit) -> ConnectionView {
        if !self.live.contains(who) {
            self
        } else if self.phase == Phase::Running {
            ConnectionView {
                phase: Phase::ShuttingDown,
                live: self.live.without(who),
                cause: Some(Cause::Exited(who, how)),
                ..self
            }.settled()
        } else if self.phase == Phase::ShuttingDown {
            ConnectionView { live: self.live.without(who), ..self }.settled()
        } else {
            self
        }
    }

    /// The connection after the scope above it was cancelled.
    pub open spec fn after_cancel(self) -> ConnectionView {
        match self.phase {
            Phase::Idle => ConnectionView {
                phase: Phase::Closed,
                cause: Some(Cause::ParentCancelled),
                ..self
            },
            Phase::Running => ConnectionView {
                phase: Phase::ShuttingDown,
                cause: Some(Cause::ParentCancelled),
                ..self
            }.settled(),
            _ => self,
        }
    }

    /// The connection after the poller offered `snapshot`.
    pub open spec fn after_snapshot_offered(self, snapshot: MusicInfo) -> ConnectionView {
        if self.phase == Phase::Running {
            ConnectionView { queue: after_offer(self.queue, self.capacity, snapshot), ..self }
        } else {
            self
        }
    }

    /// The connection after the outbound pump asked for a frame.
    pub open spec fn after_frame_taken(self) -> ConnectionView {
        if self.phase == Phase::Running {
            ConnectionView { queue: after_take(self.queue), ..self }
        } else {
            self
        }
    }

    /// The connection after the inbound pump read a text frame.
    pub open spec fn after_text(self, text: Seq<char>) -> ConnectionView {
        match decode_text(text) {
            Some(command) if self.phase == Phase::Running => ConnectionView {
                pending: Some(command),
                ..self
            },
            _ => self,
        }
    }

    /// The connection after the dispatcher asked for a command.
    pub open spec fn after_command_taken(self) -> ConnectionView {
        if self.phase == Phase::Running {
            ConnectionView { pending: None, ..self }
        } else {
            self
        }
    }
}

/// What the supervisor asks for when an event took the connection from
/// `before` to `after`.
pub open spec fn directive_for(before: ConnectionView, after: ConnectionView) -> Directive {
    if before.phase == after.phase {
        Directive::Nothing
    } else {
        match after.phase {
            Phase::Idle => Directive::Nothing,
            Phase::Running => Directive::SpawnActivities,
            Phase::ShuttingDown => Directive::StopActivities,
            Phase::Closed => Directive::CloseTransport,
        }
    }
}

/// What the poller is told when it offers `snapshot`.
pub open spec fn offer_answer(s: ConnectionView, snapshot: MusicInfo) -> Offer {
    if s.phase != Phase::Running {
        Offer::Stopped(snapshot)
    } else if s.queue.len() < s.capacity {
        Offer::Queued
    } else {
        Offer::Full(snapshot)
    }
}

/// What the inbound pump is told about a frame it read.
pub open spec fn receive_answer(s: ConnectionView, frame: InboundFrame) -> Received {
    if s.phase != Phase::Running {
        Received::Stopped
    } else {
        match frame {
            InboundFrame::Text(text) => match decode_text(text@) {
                Some(command) => Received::Published(command),
                None => Received::Ignored,
            },
            InboundFrame::Other => Received::Ignored,
        }
    }
}

/// The connection after the inbound pump read `frame`.
pub open spec fn after_frame(s: ConnectionView, frame: InboundFrame) -> ConnectionView {
    match frame {
        InboundFrame::Text(text) => s.after_text(text@),
        InboundFrame::Other => s,
    }
}

/// What the dispatcher is told when it asks for a command.
pub open spec fn command_answer(s: ConnectionView) -> Pending {
    if s.phase != Phase::Running {
        Pending::Stopped
    } else {
        match s.pending {
            Some(command) => Pending::Command(command),
            None => Pending::Empty,
        }
    }
}

/// The state of one client connection.
pub struct Connection {
    phase: Phase,
    live: LiveSet,
    cause: Option<Cause>,
    outbound: BoundedQueue<MusicInfo>,
    inbound: CommandCell,
}

impl View for Connection {
    type V = ConnectionView;

    closed spec fn view(&self) -> ConnectionView {
        ConnectionView {
            phase: self.phase,
            live: self.live,
            cause: self.cause,
            queue: self.outbound@,
            capacity: self.outbound.spec_capacity(),
            pending: self.inbound@,
        }
    }
}

impl Connection {
    /// A connection that has not started, with an empty outbound queue of
    /// the given capacity.
    pub fn new(capacity: usize) -> (r: Connection)
        ensures
            r@ == (ConnectionView {
                phase: Phase::Idle,
                live: LiveSet::none(),
                cause: None,
                queue: Seq::empty(),
                capacity: capacity as nat,
                pending: None,
            }),
            r@.well_formed(),
    {
        Connection {
            phase: Phase::Idle,
            live: LiveSet {
                poller: false,
                outbound_pump: false,
                inbound_pump: false,
                dispatcher: false,
            },
            cause: None,
            outbound: BoundedQueue::new(capacity),
            inbound: CommandCell::new(),
        }
    }

    /// Where the connection stands.
    pub fn phase(&self) -> (r: Phase)
        ensures
            r == self@.phase,
    {
        self.phase
    }

    /// Whether the activity `who` is live.
    pub fn is_live(&self, who: Activity) -> (r: bool)
        ensures
            r == self@.live.contains(who),
    {
        match who {
            Activity::Poller => self.live.poller,
            Activity::OutboundPump => self.live.outbound_pump,
            Activity::InboundPump => self.live.inbound_pump,
            Activity::Dispatcher => self.live.dispatcher,
        }
    }

    /// Why the connection left `Running`, once it has.
    pub fn cause(&self) -> (r: Option<Cause>)
        ensures
            r == self@.cause,
    {
        self.cause
    }

    /// The number of snapshots that wait to be sent.
    pub fn queued(&self) -> (r: usize)
        ensures
            r == self@.queue.len(),
    {
        self.outbound.len()
    }

    /// The most snapshots that can wait at once.
    pub fn capacity(&self) -> (r: usize)
        ensures
            r == self@.capacity,
    {
        self.outbound.capacity()
    }

    /// Whether a command waits for the dispatcher.
    pub fn has_pending_command(&self) -> (r: bool)
        ensures
            r == (self@.pending is Some),
    {
        self.inbound.is_pending()
    }

    /// Closes the connection if it shuts down with nothing left to stop.
    fn settle(&mut self)
        ensures
            final(self)@ == old(self)@.settled(),
    {
        let empty = !self.live.poller && !self.live.outbound_pump && !self.live.inbound_pump
            && !self.live.dispatcher;
        if empty {
            match self.phase {
                Phase::ShuttingDown => {
                    self.phase = Phase::Closed;
                },
                _ => {},
            }
        }
    }

    /// Starts the connection: from `Idle` it goes to `Running` with all four
    /// activities live. In every other phase nothing changes.
    pub fn start(&mut self) -> (r: Directive)
        ensures
            final(self)@ == old(self)@.after_start(),
            r == directive_for(old(self)@, final(self)@),
            old(self)@.well_formed() ==> final(self)@.well_formed(),
    {
        match self.phase {
            Phase::Idle => {
                self.phase = Phase::Running;
                self.live = LiveSet {
                    poller: true,
                    outbound_pump: true,
                    inbound_pump: true,
                    dispatcher: true,
                };
                Directive::SpawnActivities
            },
            _ => Directive::Nothing,
        }
    }

    /// Records that the activity `who` has ended. The first end takes a
    /// running connection to `ShuttingDown` and asks for the others to be
    /// stopped; the last one closes the connection.
    pub fn on_exit(&mut self, who: Activity, how: Exit) -> (r: Directive)
        ensures
            final(self)@ == old(self)@.after_exit(who, how),
            r == directive_for(old(self)@, final(self)@),
            old(self)@.well_formed() ==> final(self)@.well_formed(),
    {
        if !self.is_live(who) {
            return Directive::Nothing;
        }
        let before = self.phase;
        match before {
            Phase::Running => {
                self.phase = Phase::ShuttingDown;
                self.cause = Some(Cause::Exited(who, how));
            },
            Phase::ShuttingDown => {},
            _ => {
                return Directive::Nothing;
            },
        }
        match who {
            Activity::Poller => {
                self.live.poller = false;
            },
            Activity::OutboundPump => {
                self.live.outbound_pump = false;
            },
            Activity::InboundPump => {
                self.live.inbound_pump = false;
            },
            Activity::Dispatcher => {
                self.live.dispatcher = false;
            },
        }
        self.settle();
        match self.phase {
            Phase::Closed => Directive::CloseTransport,
            _ => match before {
                Phase::Running => Directive::StopActivities,
                _ => Directive::Nothing,
            },
        }
    }

    /// Records that the scope above the connection was cancelled.
    pub fn cancel(&mut self) -> (r: Directive)
        ensures
            final(self)@ == old(self)@.after_cancel(),
            r == directive_for(old(self)@, final(self)@),
            old(self)@.well_formed() ==> final(self)@.well_formed(),
    {
        match self.phase {
            Phase::Idle => {
                self.phase = Phase::Closed;
                self.cause = Some(Cause::ParentCancelled);
                Directive::CloseTransport
            },
            Phase::Running => {
                self.phase = Phase::ShuttingDown;
                self.cause = Some(Cause::ParentCancelled);
                self.settle();
                match self.phase {
                    Phase::Closed => Directive::CloseTransport,
                    _ => Directive::StopActivities,
                }
            },
            _ => Directive::Nothing,
        }
    }

    /// Takes a snapshot from the poller. While the connection runs, the
    /// snapshot joins the end of the queue if there is room and comes back
    /// if there is none; it is never dropped and never displaces another.
    pub fn offer_snapshot(&mut self, snapshot: MusicInfo) -> (r: Offer)
        ensures
            final(self)@ == old(self)@.after_snapshot_offered(snapshot),
            r == offer_answer(old(self)@, snapshot),
            old(self)@.well_formed() ==> final(self)@.well_formed(),
    {
        match self.phase {
            Phase::Running => match self.outbound.try_push(snapshot) {
                Ok(()) => Offer::Queued,
                Err(snapshot) => Offer::Full(snapshot),
            },
            _ => Offer::Stopped(snapshot),
        }
    }

    /// Hands the outbound pump the frame of the oldest queued snapshot.
    pub fn next_frame(&mut self) -> (r: Outbound)
        ensures
            final(self)@ == old(self)@.after_frame_taken(),
            match r {
                Outbound::Frame(text) => {
                    &&& old(self)@.phase == Phase::Running
                    &&& old(self)@.queue.len() > 0
                    &&& text@ == frame_text(old(self)@.queue[0]@)
                },
                Outbound::Empty => old(self)@.phase == Phase::Running && old(self)@.queue.len()
                    == 0,
                Outbound::Stopped => old(self)@.phase != Phase::Running,
            },
            old(self)@.well_formed() ==> final(self)@.well_formed(),
    {
        match self.phase {
            Phase::Running => match self.outbound.pop() {
                Some(snapshot) => Outbound::Frame(snapshot.to_json()),
                None => Outbound::Empty,
            },
            _ => Outbound::Stopped,
        }
    }

    /// Takes a frame from the inbound pump. A text frame that holds a
    /// command replaces whatever command still waits; every other frame
    /// leaves the connection exactly as it was.
    pub fn receive(&mut self, frame: &InboundFrame) -> (r: Received)
        ensures
            final(self)@ == after_frame(old(self)@, *frame),
            r == receive_answer(old(self)@, *frame),
            old(self)@.well_formed() ==> final(self)@.well_formed(),
    {
        match self.phase {
            Phase::Running => match frame {
                InboundFrame::Text(text) => match Command::decode(text.as_str()) {
                    Some(command) => {
                        self.inbound.publish(command);
                        Received::Published(command)
                    },
                    None => Received::Ignored,
                },
                InboundFrame::Other => Received::Ignored,
            },
            _ => Received::Stopped,
        }
    }

    /// Hands the dispatcher the waiting command, once.
    pub fn next_command(&mut self) -> (r: Pending)
        ensures
            final(self)@ == old(self)@.after_command_taken(),
            r == command_answer(old(self)@),
            old(self)@.well_formed() ==> final(self)@.well_formed(),
    {
        match self.phase {
            Phase::Running => match self.inbound.take() {
                Some(command) => Pending::Command(command),
                None => Pending::Empty,
            },
            _ => Pending::Stopped,
        }
    }
}

} // verus!
