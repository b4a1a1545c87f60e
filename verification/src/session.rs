//! A session: a processor that is driven by a timer until it is cancelled.
//!
//! The session does no work outside itself. Its driver owns the timer, the
//! video source and the display; it tells the session what happened, as an
//! [`Event`], and does what the session answers, an [`Action`].

use crate::geometry::{
    checked_geometry, Geometry, GeometryError, HologramConfig, HOLOGRAM_FPS, HOLOGRAM_SIZE,
};
use crate::processor::{Processor, ProcessorState, RenderError};
use vstd::prelude::*;

verus! {

/// What the video source reports of itself.
#[derive(Clone, Copy, Debug, PartialEq, Eq)]
pub enum SourceStatus {
    Playing,
    Paused,
    Ended,
}

/// What happened outside the session.
#[derive(Debug)]
pub enum Event {
    /// The timer fired, and the source reported this status.
    Tick { status: SourceStatus },
    /// The source handed out its current image, scaled as asked for, as
    /// RGBA bytes.
    Captured { frame: Vec<u8> },
    /// The source could not hand out its image.
    CaptureFailed,
    /// The display did not take the picture.
    PresentFailed,
    /// The holder of the handle cancelled the session, or let go of it.
    Cancel,
}

/// What the driver is to do next.
#[derive(Clone, Copy, Debug, PartialEq, Eq)]
pub enum Action {
    /// Nothing, until the next event.
    Idle,
    /// Draw the source's current image, scaled to `width` by `height`
    /// pixels, and hand its bytes in as [`Event::Captured`].
    Capture { width: u32, height: u32 },
    /// Show the buffer on the display, over the whole square.
    Present,
    /// Stop the timer: no tick is wanted any more.
    StopTimer,
}

/// Where a session stands.
#[derive(Clone, Copy, Debug, PartialEq, Eq)]
pub enum SessionState {
    /// Ticks are answered.
    Running,
    /// The session was cancelled.
    Cancelled,
    /// A capture or a presentation failed, and the session stopped itself.
    Failed(RenderError),
}

/// The mathematical content of an [`IntervalHandle`].
pub struct Session {
    pub state: SessionState,
    pub processor: ProcessorState,
}

impl Session {
    /// The session in the given state, with the processor as it is.
    pub open spec fn with_state(self, state: SessionState) -> Session {
        Session { state, processor: self.processor }
    }

    /// The session after one event, and the action that answers the event.
    ///
    /// A running session answers a tick of a playing source by asking for a
    /// frame, and a frame by drawing it and asking for the presentation. A
    /// tick of a source that is paused or has ended is passed over. A failure
    /// and a cancellation stop the session. A stopped session answers nothing.
    pub open spec fn step(self, event: Event) -> (Session, Action) {
        if !(self.state is Running) {
            (self, Action::Idle)
        } else {
            match event {
                Event::Tick { status } => if status is Playing {
                    (
                        self,
                        Action::Capture {
                            width: self.processor.geometry.band_length as u32,
                            height: self.processor.geometry.band_width as u32,
                        },
                    )
                } else {
                    (self, Action::Idle)
                },
                Event::Captured { frame } => match self.processor.compute_frame(frame@) {
                    Ok(processor) => (
                        Session { state: SessionState::Running, processor },
                        Action::Present,
                    ),
                    Err(e) => (self.with_state(SessionState::Failed(e)), Action::StopTimer),
                },
                Event::CaptureFailed => (
                    self.with_state(SessionState::Failed(RenderError::CaptureFailed)),
                    Action::StopTimer,
                ),
                Event::PresentFailed => (
                    self.with_state(SessionState::Failed(RenderError::PresentFailed)),
                    Action::StopTimer,
                ),
                Event::Cancel => (self.with_state(SessionState::Cancelled), Action::StopTimer),
            }
        }
    }

    /// The session after the given events, in their order.
    pub open spec fn run(self, events: Seq<Event>) -> Session
        decreases events.len(),
    {
        if events.len() == 0 {
            self
        } else {
            self.run(events.drop_last()).step(events.last()).0
        }
    }

    /// The action that answers event `i` of the given events.
    pub open spec fn action(self, events: Seq<Event>, i: int) -> Action {
        self.run(events.take(i)).step(events[i]).1
    }
}

/// A stopped session stays as it is and answers every event with
/// [`Action::Idle`]: it asks for no frame and for no presentation.
pub proof fn lemma_stopped_is_final(session: Session, events: Seq<Event>)
    requires
        !(session.state is Running),
    ensures
        session.run(events) == session,
        forall|i: int| 0 <= i < events.len() ==> #[trigger] session.action(events, i) == Action::Idle,
    decreases events.len(),
{
    if events.len() > 0 {
        lemma_stopped_is_final(session, events.drop_last());
    }
    assert forall|i: int| 0 <= i < events.len() implies #[trigger] session.action(events, i)
        == Action::Idle by {
        lemma_stopped_is_final(session, events.take(i));
    }
}

/// After a cancellation nothing is presented any more: whatever events
/// follow, the session stays cancelled or failed as it was, its buffer stays
/// as it was, and every answer is [`Action::Idle`]. A second cancellation is
/// such an event, so cancelling twice is cancelling once.
pub proof fn lemma_cancel_is_final(session: Session, events: Seq<Event>)
    ensures
        ({
            let cancelled = session.step(Event::Cancel).0;
            &&& !(cancelled.state is Running)
            &&& cancelled.processor == session.processor
            &&& cancelled.run(events) == cancelled
            &&& forall|i: int|
                0 <= i < events.len() ==> #[trigger] cancelled.action(events, i) == Action::Idle
            &&& cancelled.step(Event::Cancel) == (cancelled, Action::Idle)
        }),
{
    lemma_stopped_is_final(session.step(Event::Cancel).0, events);
}

/// The handle of a session: the processor, and whether the session still
/// runs.
pub struct IntervalHandle {
    state: SessionState,
    processor: Processor,
}

impl View for IntervalHandle {
    type V = Session;

    closed spec fn view(&self) -> Session {
        Session { state: self.state, processor: self.processor@ }
    }
}

impl IntervalHandle {
    /// A running session around the given processor.
    pub fn new(processor: Processor) -> (handle: IntervalHandle)
        ensures
            handle@ == (Session { state: SessionState::Running, processor: processor@ }),
    {
        IntervalHandle { state: SessionState::Running, processor }
    }

    /// Takes one event and says what to do next.
    pub fn step(&mut self, event: Event) -> (action: Action)
        ensures
            (final(self)@, action) == old(self)@.step(event),
            !(old(self)@.state is Running) ==> final(self)@ == old(self)@ && action is Idle,
            event matches Event::Tick { status } && !(status is Playing) ==> final(self)@ == old(
                self,
            )@ && action is Idle,
    {
        match self.state {
            SessionState::Running => {},
            _ => {
                return Action::Idle;
            },
        }
        match event {
            Event::Tick { status } => match status {
                SourceStatus::Playing => Action::Capture {
                    width: self.processor.config().band_length(),
                    height: self.processor.config().band_width(),
                },
                _ => Action::Idle,
            },
            Event::Captured { frame } => match self.processor.compute_frame(frame.as_slice()) {
                Ok(()) => Action::Present,
                Err(e) => {
                    self.state = SessionState::Failed(e);
                    Action::StopTimer
                },
            },
            Event::CaptureFailed => {
                self.state = SessionState::Failed(RenderError::CaptureFailed);
                Action::StopTimer
            },
            Event::PresentFailed => {
                self.state = SessionState::Failed(RenderError::PresentFailed);
                Action::StopTimer
            },
            Event::Cancel => {
                self.state = SessionState::Cancelled;
                Action::StopTimer
            },
        }
    }

    /// Cancels the session. The first cancellation of a running session
    /// answers [`Action::StopTimer`]; any other answers [`Action::Idle`] and
    /// changes nothing.
    pub fn cancel(&mut self) -> (action: Action)
        ensures
            (final(self)@, action) == old(self)@.step(Event::Cancel),
            old(self)@.state is Running ==> final(self)@ == old(self)@.with_state(
                SessionState::Cancelled,
            ) && action is StopTimer,
            !(old(self)@.state is Running) ==> final(self)@ == old(self)@ && action is Idle,
    {
        self.step(Event::Cancel)
    }

    /// Where the session stands.
    pub fn state(&self) -> (state: SessionState)
        ensures
            state == self@.state,
    {
        self.state
    }

    /// Whether ticks are still answered.
    pub fn is_running(&self) -> (running: bool)
        ensures
            running == (self@.state is Running),
    {
        match self.state {
            SessionState::Running => true,
            _ => false,
        }
    }

    /// The failure that stopped the session, if one did.
    pub fn error(&self) -> (error: Option<RenderError>)
        ensures
            error == match self@.state {
                SessionState::Failed(e) => Some(e),
                _ => None,
            },
    {
        match self.state {
            SessionState::Failed(e) => Some(e),
            _ => None,
        }
    }

    /// The geometry of the session.
    pub fn config(&self) -> (config: &HologramConfig)
        ensures
            config@ == self@.processor.geometry,
            config.wf(),
    {
        self.processor.config()
    }

    /// The buffer: the picture to present.
    pub fn pixels(&self) -> (pixels: &[u8])
        ensures
            pixels@ == self@.processor.pixels,
            pixels@.len() == self@.processor.geometry.buffer_len(),
    {
        self.processor.pixels()
    }
}

impl Processor {
    /// Starts a session of `HOLOGRAM_SIZE` pixels a side and `HOLOGRAM_FPS`
    /// ticks per second with bands of the given thickness, for a source of
    /// the given height. A source without height is refused, whatever the
    /// thickness; so are bands that do not fit in the square. The session
    /// runs, and its buffer holds zeros.
    pub fn start(source_height: u32, band_width: u32) -> (result: Result<
        IntervalHandle,
        GeometryError,
    >)
        ensures
            match result {
                Ok(handle) => source_height > 0 && checked_geometry(
                    HOLOGRAM_SIZE as nat,
                    HOLOGRAM_FPS as nat,
                    band_width as nat,
                ) == Ok::<Geometry, GeometryError>(handle@.processor.geometry)
                    && handle@.state is Running && handle@.processor.pixels == Seq::new(
                    handle@.processor.geometry.buffer_len(),
                    |i: int| 0u8,
                ),
                Err(e) => if source_height == 0 {
                    e == GeometryError::ZeroSourceHeight
                } else {
                    checked_geometry(HOLOGRAM_SIZE as nat, HOLOGRAM_FPS as nat, band_width as nat)
                        == Err::<Geometry, GeometryError>(e)
                },
            },
    {
        if source_height == 0 {
            return Err(GeometryError::ZeroSourceHeight);
        }
        match HologramConfig::new(HOLOGRAM_SIZE, HOLOGRAM_FPS, band_width) {
            Ok(config) => Ok(IntervalHandle::new(Processor::new(config))),
            Err(e) => Err(e),
        }
    }
}

/// The entry point of the library.
pub struct PseudoHologram {}

impl PseudoHologram {
    /// Starts to draw a hologram with bands of the given thickness for a
    /// source of the given height: the session that [`Processor::start`]
    /// gives.
    pub fn draw(source_height: u32, band_width: u32) -> (result: Result<
        IntervalHandle,
        GeometryError,
    >)
        ensures
            match result {
                Ok(handle) => source_height > 0 && checked_geometry(
                    HOLOGRAM_SIZE as nat,
                    HOLOGRAM_FPS as nat,
                    band_width as nat,
                ) == Ok::<Geometry, GeometryError>(handle@.processor.geometry)
                    && handle@.state is Running && handle@.processor.pixels == Seq::new(
                    handle@.processor.geometry.buffer_len(),
                    |i: int| 0u8,
                ),
                Err(e) => if source_height == 0 {
                    e == GeometryError::ZeroSourceHeight
                } else {
                    checked_geometry(HOLOGRAM_SIZE as nat, HOLOGRAM_FPS as nat, band_width as nat)
                        == Err::<Geometry, GeometryError>(e)
                },
            },
    {
        Processor::start(source_height, band_width)
    }
}

} // verus!
