//! The frame driver: what to do next for each notification of the window and
//! for each report of the presentation layer.
//!
//! The driver makes no device call. It answers every event with the action
//! that its caller is to perform, and the caller hands back what came of it.

use crate::extent::{Extent, Grid};
use crate::surface::{FrameImage, InFlightToken, Surface, MIN_IMAGES};
use vstd::prelude::*;

verus! {

/// A condition that ends the process.
#[derive(Clone, Copy, Debug, PartialEq, Eq)]
pub enum Fatal {
    /// The presentation layer gave no surface of the extent asked for that
    /// buffers enough images.
    SurfaceUnavailable,
    /// Acquisition, submission or present failed for a reason other than a
    /// stale surface.
    DeviceLost,
    /// The presentation layer named an image that the surface does not have.
    UnknownImage,
}

/// How a redraw ended.
#[derive(Clone, Copy, Debug, PartialEq, Eq)]
pub enum FrameStatus {
    /// The window had no pixels; nothing was done.
    Skipped,
    /// The surface no longer matches the window; the next redraw rebuilds it.
    Stale,
    /// The dispatch was submitted and its image handed to the display.
    Presented,
}

/// What came of a rebuild of the surface.
#[derive(Clone, Copy, Debug, PartialEq, Eq)]
pub enum RebuildReport {
    /// A surface of the extent asked for, with this many images.
    Built { images: u32 },
    Failed,
}

/// What came of the acquisition of the next image.
#[derive(Clone, Copy, Debug, PartialEq, Eq)]
pub enum AcquireReport {
    /// An image is ready; `suboptimal` says that the surface is usable but no
    /// longer ideal for the window.
    Image { index: u32, suboptimal: bool },
    Stale,
    Failed,
}

/// What came of the submission of the dispatch and of its present request.
#[derive(Clone, Copy, Debug, PartialEq, Eq)]
pub enum SubmitReport {
    Presented,
    Stale,
    Failed,
}

/// What the driver reacts to.
#[derive(Clone, Copy, Debug, PartialEq, Eq)]
pub enum Event {
    /// The window was resized.
    Resized(Extent),
    /// The window is to be closed.
    CloseRequested,
    /// The window is to be painted; the extent is its present size.
    RedrawRequested(Extent),
    /// The completion check of the outstanding token was made.
    Retired,
    Rebuilt(RebuildReport),
    Acquired(AcquireReport),
    Submitted(SubmitReport),
}

/// What the caller is to do next.
#[derive(Clone, Copy, Debug, PartialEq, Eq)]
pub enum Action {
    /// Nothing, until the next notification.
    Wait,
    /// Stop the event loop; wait for the token, if there is one, before any
    /// resource is released.
    Exit { wait_on: Option<InFlightToken> },
    /// Check, without blocking, whether the work behind the outstanding token
    /// is complete, and reclaim what it held; then report `Retired`.
    Retire,
    /// Replace the surface by one of this extent; then report `Rebuilt`.
    Rebuild { extent: Extent },
    /// Acquire the next image, without a timeout; then report `Acquired`.
    Acquire,
    /// Submit one dispatch of the kernel of this size with `image` as its only
    /// output, after the acquisition's signal and the work behind `wait_on`,
    /// and request the present of `image` on its completion; then report
    /// `Submitted`.
    Submit { image: FrameImage, grid: Grid, wait_on: Option<InFlightToken> },
    /// The redraw is over.
    Finish(FrameStatus),
    /// Abort the process with a diagnostic.
    Abort(Fatal),
}

/// Where the driver stands within a redraw.
#[derive(Clone, Copy, Debug, PartialEq, Eq)]
pub enum Phase {
    /// Between two redraws.
    Idle,
    /// Waiting for `Retired`.
    Retiring { extent: Extent },
    /// Waiting for `Rebuilt`.
    Rebuilding { extent: Extent },
    /// Waiting for `Acquired`.
    Acquiring { extent: Extent },
    /// Waiting for `Submitted`.
    Submitting { image: FrameImage },
}

/// The state of a frame driver.
#[derive(Clone, Copy, Debug, PartialEq, Eq)]
pub struct DriverState {
    pub surface: Surface,
    /// Set when the surface has to be rebuilt before it is drawn to again.
    pub dirty: bool,
    pub phase: Phase,
    /// The token of the last submission, until the next submission waits on it.
    pub in_flight: Option<InFlightToken>,
}

impl DriverState {
    /// The state of a driver that was just made for a surface.
    pub open spec fn fresh(extent: Extent, images: u32) -> DriverState {
        DriverState {
            surface: Surface { extent, images, generation: 0 },
            dirty: false,
            phase: Phase::Idle,
            in_flight: None,
        }
    }

    /// What holds of every state that a driver is ever in.
    pub open spec fn wf(self) -> bool {
        &&& self.surface.usable()
        &&& match self.phase {
            Phase::Idle => true,
            Phase::Retiring { extent } => !extent.empty() && self.in_flight is Some,
            Phase::Rebuilding { extent } => !extent.empty() && self.dirty,
            Phase::Acquiring { extent } => !extent.empty(),
            Phase::Submitting { image } => self.surface.owns(image) && self.in_flight is None,
        }
    }

    /// The number of submissions whose completion has not been observed: the
    /// token that is held, and the submission that is being made.
    pub open spec fn outstanding(self) -> nat {
        (if self.in_flight is Some { 1nat } else { 0nat }) + (if self.phase is Submitting {
            1nat
        } else {
            0nat
        })
    }

    /// The window was resized.
    pub open spec fn resized(self) -> (DriverState, Action) {
        (DriverState { dirty: true, ..self }, Action::Wait)
    }

    /// The window is to be closed: whatever redraw was under way is given up,
    /// and the token goes to the caller, who waits for it.
    pub open spec fn closed(self) -> (DriverState, Action) {
        (
            DriverState { phase: Phase::Idle, in_flight: None, ..self },
            Action::Exit { wait_on: self.in_flight },
        )
    }

    /// The start of the work of a redraw, once the token has been looked at:
    /// a dirty surface is rebuilt first.
    pub open spec fn begun(self, extent: Extent) -> (DriverState, Action) {
        if self.dirty {
            (DriverState { phase: Phase::Rebuilding { extent }, ..self }, Action::Rebuild { extent })
        } else {
            (DriverState { phase: Phase::Acquiring { extent }, ..self }, Action::Acquire)
        }
    }

    /// The window is to be painted at `extent`.
    pub open spec fn redrawn(self, extent: Extent) -> (DriverState, Action) {
        if !(self.phase is Idle) {
            (self, Action::Wait)
        } else if extent.empty() {
            (self, Action::Finish(FrameStatus::Skipped))
        } else if self.in_flight is Some {
            (DriverState { phase: Phase::Retiring { extent }, ..self }, Action::Retire)
        } else {
            self.begun(extent)
        }
    }

    /// The completion check was made.
    pub open spec fn retired(self) -> (DriverState, Action) {
        match self.phase {
            Phase::Retiring { extent } => self.begun(extent),
            _ => (self, Action::Wait),
        }
    }

    /// The presentation layer reports on the rebuild.
    pub open spec fn rebuilt(self, report: RebuildReport) -> (DriverState, Action) {
        match self.phase {
            Phase::Rebuilding { extent } => match report {
                RebuildReport::Built { images } if images >= MIN_IMAGES => (
                    DriverState {
                        surface: self.surface.replaced(extent, images),
                        dirty: false,
                        phase: Phase::Acquiring { extent },
                        ..self
                    },
                    Action::Acquire,
                ),
                _ => (
                    DriverState { phase: Phase::Idle, ..self },
                    Action::Abort(Fatal::SurfaceUnavailable),
                ),
            },
            _ => (self, Action::Wait),
        }
    }

    /// The presentation layer reports on the acquisition.
    pub open spec fn acquired(self, report: AcquireReport) -> (DriverState, Action) {
        match self.phase {
            Phase::Acquiring { extent } => match report {
                AcquireReport::Image { index, suboptimal } => if index < self.surface.images {
                    (
                        DriverState {
                            dirty: self.dirty || suboptimal,
                            phase: Phase::Submitting { image: self.surface.image(index) },
                            in_flight: None,
                            ..self
                        },
                        Action::Submit {
                            image: self.surface.image(index),
                            grid: Grid::over(extent),
                            wait_on: self.in_flight,
                        },
                    )
                } else {
                    (DriverState { phase: Phase::Idle, ..self }, Action::Abort(Fatal::UnknownImage))
                },
                AcquireReport::Stale => (
                    DriverState { dirty: true, phase: Phase::Idle, ..self },
                    Action::Finish(FrameStatus::Stale),
                ),
                AcquireReport::Failed => (
                    DriverState { phase: Phase::Idle, ..self },
                    Action::Abort(Fatal::DeviceLost),
                ),
            },
            _ => (self, Action::Wait),
        }
    }

    /// The caller reports on the submission and its present request.
    pub open spec fn submitted(self, report: SubmitReport) -> (DriverState, Action) {
        match self.phase {
            Phase::Submitting { image } => match report {
                SubmitReport::Presented => (
                    DriverState { phase: Phase::Idle, in_flight: Some(InFlightToken {  }), ..self },
                    Action::Finish(FrameStatus::Presented),
                ),
                SubmitReport::Stale => (
                    DriverState { dirty: true, phase: Phase::Idle, in_flight: None, ..self },
                    Action::Finish(FrameStatus::Stale),
                ),
                SubmitReport::Failed => (
                    DriverState { phase: Phase::Idle, in_flight: None, ..self },
                    Action::Abort(Fatal::DeviceLost),
                ),
            },
            _ => (self, Action::Wait),
        }
    }

    /// The state after `event`, and the action that answers it.
    pub open spec fn next(self, event: Event) -> (DriverState, Action) {
        match event {
            Event::Resized(_) => self.resized(),
            Event::CloseRequested => self.closed(),
            Event::RedrawRequested(extent) => self.redrawn(extent),
            Event::Retired => self.retired(),
            Event::Rebuilt(report) => self.rebuilt(report),
            Event::Acquired(report) => self.acquired(report),
            Event::Submitted(report) => self.submitted(report),
        }
    }
}

/// Decides, event by event, how a window is repainted.
///
/// Every value of this type is in a well-formed state.
pub struct FrameDriver {
    state: DriverState,
}

impl View for FrameDriver {
    type V = DriverState;

    closed spec fn view(&self) -> DriverState {
        self.state
    }
}

impl FrameDriver {
    #[verifier::type_invariant]
    spec fn inv(self) -> bool {
        self.state.wf()
    }

    /// The driver of a surface that was just created with the given extent
    /// and number of images. A surface without pixels, or with fewer images
    /// than pacing needs, is no surface to drive.
    pub fn new(extent: Extent, images: u32) -> (r: Result<FrameDriver, Fatal>)
        ensures
            match r {
                Ok(driver) => !extent.empty() && images >= MIN_IMAGES && driver@
                    == DriverState::fresh(extent, images),
                Err(e) => (extent.empty() || images < MIN_IMAGES) && e == Fatal::SurfaceUnavailable,
            },
    {
        if extent.is_empty() || images < MIN_IMAGES {
            Err(Fatal::SurfaceUnavailable)
        } else {
            Ok(
                FrameDriver {
                    state: DriverState {
                        surface: Surface { extent, images, generation: 0 },
                        dirty: false,
                        phase: Phase::Idle,
                        in_flight: None,
                    },
                },
            )
        }
    }

    /// The state that the driver is in.
    pub fn state(&self) -> (s: DriverState)
        ensures
            s == self@,
            s.wf(),
    {
        proof {
            use_type_invariant(self);
        }
        self.state
    }

    /// Whether the surface is to be rebuilt before it is drawn to again.
    pub fn is_dirty(&self) -> (r: bool)
        ensures
            r == self@.dirty,
    {
        self.state.dirty
    }

    /// Whether the driver is between two redraws.
    pub fn is_idle(&self) -> (r: bool)
        ensures
            r == (self@.phase is Idle),
    {
        match self.state.phase {
            Phase::Idle => true,
            _ => false,
        }
    }

    /// The surface as the driver knows it.
    pub fn surface(&self) -> (s: Surface)
        ensures
            s == self@.surface,
            s.usable(),
    {
        proof {
            use_type_invariant(self);
        }
        self.state.surface
    }

    /// The token of the last submission, if no later submission has waited on
    /// it.
    pub fn in_flight(&self) -> (t: Option<InFlightToken>)
        ensures
            t == self@.in_flight,
    {
        self.state.in_flight
    }

    /// Notes that the window was resized: the surface is rebuilt at the next
    /// redraw. Nothing else changes, and a second call changes nothing.
    pub fn mark_dirty(&mut self)
        ensures
            final(self)@ == old(self)@.resized().0,
            final(self)@.dirty,
            final(self)@.wf(),
    {
        proof {
            use_type_invariant(&*self);
        }
        self.state = DriverState { dirty: true, ..self.state };
    }

    /// Notes that the window is to be closed, and hands the token out to be
    /// waited for.
    pub fn on_close(&mut self) -> (action: Action)
        ensures
            (final(self)@, action) == old(self)@.closed(),
            final(self)@.wf(),
    {
        proof {
            use_type_invariant(&*self);
        }
        let wait_on = self.state.in_flight;
        self.state = DriverState { phase: Phase::Idle, in_flight: None, ..self.state };
        Action::Exit { wait_on }
    }

    fn begin(&mut self, extent: Extent) -> (action: Action)
        requires
            !extent.empty(),
        ensures
            (final(self)@, action) == old(self)@.begun(extent),
            final(self)@.wf(),
    {
        proof {
            use_type_invariant(&*self);
        }
        if self.state.dirty {
            self.state = DriverState { phase: Phase::Rebuilding { extent }, ..self.state };
            Action::Rebuild { extent }
        } else {
            self.state = DriverState { phase: Phase::Acquiring { extent }, ..self.state };
            Action::Acquire
        }
    }

    /// Starts a redraw of a window of the given extent.
    ///
    /// A window without pixels is skipped: the driver stays as it is and no
    /// work is asked for. So is a redraw that comes while another is under
    /// way. Otherwise the outstanding token is looked at first, if there is
    /// one; then a dirty surface is rebuilt at `extent`, and a clean one is
    /// acquired from.
    pub fn on_redraw(&mut self, extent: Extent) -> (action: Action)
        ensures
            (final(self)@, action) == old(self)@.redrawn(extent),
            extent.empty() ==> final(self)@ == old(self)@ && !(action is Submit),
            final(self)@.wf(),
    {
        proof {
            use_type_invariant(&*self);
        }
        match self.state.phase {
            Phase::Idle => {
                if extent.is_empty() {
                    Action::Finish(FrameStatus::Skipped)
                } else if self.state.in_flight.is_some() {
                    self.state = DriverState { phase: Phase::Retiring { extent }, ..self.state };
                    Action::Retire
                } else {
                    self.begin(extent)
                }
            },
            _ => Action::Wait,
        }
    }

    /// Goes on with the redraw after the completion check.
    pub fn on_retired(&mut self) -> (action: Action)
        ensures
            (final(self)@, action) == old(self)@.retired(),
            final(self)@.wf(),
    {
        proof {
            use_type_invariant(&*self);
        }
        match self.state.phase {
            Phase::Retiring { extent } => self.begin(extent),
            _ => Action::Wait,
        }
    }

    /// Takes the report on a rebuild.
    ///
    /// A surface with enough images replaces the old one: it has the extent
    /// of this redraw and the next generation, the dirty flag is cleared, and
    /// an image is acquired from it. Anything else is fatal and leaves the
    /// flag set.
    pub fn on_rebuilt(&mut self, report: RebuildReport) -> (action: Action)
        ensures
            (final(self)@, action) == old(self)@.rebuilt(report),
            action == Action::Acquire ==> !final(self)@.dirty && final(self)@.surface.generation
                != old(self)@.surface.generation && (old(self)@.phase matches Phase::Rebuilding {
                extent,
            } && final(self)@.surface.extent == extent),
            action != Action::Acquire ==> final(self)@.surface == old(self)@.surface
                && final(self)@.dirty == old(self)@.dirty,
            final(self)@.wf(),
    {
        proof {
            use_type_invariant(&*self);
        }
        match self.state.phase {
            Phase::Rebuilding { extent } => {
                match report {
                    RebuildReport::Built { images } => {
                        if images >= MIN_IMAGES {
                            let generation = if self.state.surface.generation == u64::MAX {
                                0
                            } else {
                                self.state.surface.generation + 1
                            };
                            self.state = DriverState {
                                surface: Surface { extent, images, generation },
                                dirty: false,
                                phase: Phase::Acquiring { extent },
                                ..self.state
                            };
                            return Action::Acquire;
                        }
                    },
                    RebuildReport::Failed => {},
                }
                self.state = DriverState { phase: Phase::Idle, ..self.state };
                Action::Abort(Fatal::SurfaceUnavailable)
            },
            _ => Action::Wait,
        }
    }

    /// Takes the report on an acquisition.
    ///
    /// For an image of the surface the dispatch is asked for, over the extent
    /// of this redraw, and the token goes with it; a suboptimal acquisition
    /// also sets the dirty flag. A stale surface ends the redraw with the
    /// flag set and nothing submitted. An image that the surface does not
    /// have, and any other failure, is fatal.
    pub fn on_acquired(&mut self, report: AcquireReport) -> (action: Action)
        ensures
            (final(self)@, action) == old(self)@.acquired(report),
            old(self)@.phase is Acquiring && report is Stale ==> action == Action::Finish(
                FrameStatus::Stale,
            ) && final(self)@.dirty && final(self)@.phase is Idle,
            action matches Action::Submit { image, .. } ==> final(self)@.surface.owns(image)
                && final(self)@.surface == old(self)@.surface,
            final(self)@.wf(),
    {
        proof {
            use_type_invariant(&*self);
        }
        match self.state.phase {
            Phase::Acquiring { extent } => match report {
                AcquireReport::Image { index, suboptimal } => {
                    if index < self.state.surface.images {
                        let image = FrameImage {
                            index,
                            generation: self.state.surface.generation,
                        };
                        let wait_on = self.state.in_flight;
                        self.state = DriverState {
                            dirty: self.state.dirty || suboptimal,
                            phase: Phase::Submitting { image },
                            in_flight: None,
                            ..self.state
                        };
                        Action::Submit { image, grid: Grid::covering(extent), wait_on }
                    } else {
                        self.state = DriverState { phase: Phase::Idle, ..self.state };
                        Action::Abort(Fatal::UnknownImage)
                    }
                },
                AcquireReport::Stale => {
                    self.state = DriverState { dirty: true, phase: Phase::Idle, ..self.state };
                    Action::Finish(FrameStatus::Stale)
                },
                AcquireReport::Failed => {
                    self.state = DriverState { phase: Phase::Idle, ..self.state };
                    Action::Abort(Fatal::DeviceLost)
                },
            },
            _ => Action::Wait,
        }
    }

    /// Takes the report on a submission.
    ///
    /// A presented frame leaves its token with the driver. A stale surface
    /// sets the dirty flag; any other failure is fatal. Either way no token
    /// is left.
    pub fn on_submitted(&mut self, report: SubmitReport) -> (action: Action)
        ensures
            (final(self)@, action) == old(self)@.submitted(report),
            final(self)@.in_flight is Some ==> old(self)@.in_flight is Some || (old(self)@.phase
                is Submitting && report is Presented),
            final(self)@.surface == old(self)@.surface,
            final(self)@.wf(),
    {
        proof {
            use_type_invariant(&*self);
        }
        match self.state.phase {
            Phase::Submitting { image } => match report {
                SubmitReport::Presented => {
                    self.state = DriverState {
                        phase: Phase::Idle,
                        in_flight: Some(InFlightToken {  }),
                        ..self.state
                    };
                    Action::Finish(FrameStatus::Presented)
                },
                SubmitReport::Stale => {
                    self.state = DriverState {
                        dirty: true,
                        phase: Phase::Idle,
                        in_flight: None,
                        ..self.state
                    };
                    Action::Finish(FrameStatus::Stale)
                },
                SubmitReport::Failed => {
                    self.state = DriverState { phase: Phase::Idle, in_flight: None, ..self.state };
                    Action::Abort(Fatal::DeviceLost)
                },
            },
            _ => Action::Wait,
        }
    }

    /// Answers one event: the single entry point for a caller that keeps its
    /// events in one queue.
    pub fn step(&mut self, event: Event) -> (action: Action)
        ensures
            (final(self)@, action) == old(self)@.next(event),
            final(self)@.wf(),
    {
        match event {
            Event::Resized(_) => {
                self.mark_dirty();
                Action::Wait
            },
            Event::CloseRequested => self.on_close(),
            Event::RedrawRequested(extent) => self.on_redraw(extent),
            Event::Retired => self.on_retired(),
            Event::Rebuilt(report) => self.on_rebuilt(report),
            Event::Acquired(report) => self.on_acquired(report),
            Event::Submitted(report) => self.on_submitted(report),
        }
    }
}

} // verus!
