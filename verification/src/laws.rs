//! What holds of the frame driver over whole redraws and over every sequence
//! of events.

use crate::driver::{
    AcquireReport, Action, DriverState, Event, Fatal, FrameStatus, Phase, RebuildReport,
    SubmitReport,
};
use crate::extent::{Extent, Grid};
use crate::surface::{generation_after, MIN_IMAGES};
use vstd::prelude::*;

verus! {

/// What the presentation layer answers in the course of one redraw. A report
/// that the redraw does not come to ask for is not read.
pub struct Reports {
    pub rebuild: RebuildReport,
    pub acquire: AcquireReport,
    pub submit: SubmitReport,
}

/// The state after the events in `events`, taken in their order.
pub open spec fn run(s: DriverState, events: Seq<Event>) -> DriverState
    decreases events.len(),
{
    if events.len() == 0 {
        s
    } else {
        run(s, events.drop_last()).next(events.last()).0
    }
}

/// The event that reports on `action`, for the actions that ask for a report.
pub open spec fn reply(action: Action, reports: Reports) -> Option<Event> {
    match action {
        Action::Retire => Some(Event::Retired),
        Action::Rebuild { .. } => Some(Event::Rebuilt(reports.rebuild)),
        Action::Acquire => Some(Event::Acquired(reports.acquire)),
        Action::Submit { .. } => Some(Event::Submitted(reports.submit)),
        _ => None,
    }
}

/// One step of a caller that performs `action` and hands back its report; an
/// action without a report leaves the state as it is.
pub open spec fn performed(s: DriverState, action: Action, reports: Reports) -> (
    DriverState,
    Action,
) {
    match reply(action, reports) {
        Some(event) => s.next(event),
        None => (s, action),
    }
}

/// The actions of one whole redraw at `extent`, as a caller goes through it:
/// it starts with the notification and performs each action in turn.
pub open spec fn frame_actions(s: DriverState, extent: Extent, reports: Reports) -> Seq<Action> {
    let (s1, a1) = s.next(Event::RedrawRequested(extent));
    let (s2, a2) = performed(s1, a1, reports);
    let (s3, a3) = performed(s2, a2, reports);
    let (s4, a4) = performed(s3, a3, reports);
    seq![a1, a2, a3, a4, performed(s4, a4, reports).1]
}

/// The state in which one whole redraw at `extent` leaves the driver.
pub open spec fn frame(s: DriverState, extent: Extent, reports: Reports) -> DriverState {
    let (s1, a1) = s.next(Event::RedrawRequested(extent));
    let (s2, a2) = performed(s1, a1, reports);
    let (s3, a3) = performed(s2, a2, reports);
    let (s4, a4) = performed(s3, a3, reports);
    performed(s4, a4, reports).0
}

/// The number of dispatches that one whole redraw submits.
pub open spec fn submissions(s: DriverState, extent: Extent, reports: Reports) -> nat {
    frame_actions(s, extent, reports).filter(|a: Action| a is Submit).len()
}

/// Whether the rebuild gives a surface that buffers enough images.
pub open spec fn builds(report: RebuildReport) -> bool {
    report matches RebuildReport::Built { images } && images >= MIN_IMAGES
}

/// Whether the acquisition hands the redraw an image of a surface with
/// `images` images.
pub open spec fn acquires_image(report: AcquireReport, images: u32) -> bool {
    report matches AcquireReport::Image { index, .. } && index < images
}

/// Every event leaves a well-formed state well-formed.
pub proof fn lemma_next_keeps_wf(s: DriverState, event: Event)
    requires
        s.wf(),
    ensures
        s.next(event).0.wf(),
{
}

/// A driver stays well-formed whatever events reach it, in whatever order.
pub proof fn lemma_run_keeps_wf(s: DriverState, events: Seq<Event>)
    requires
        s.wf(),
    ensures
        run(s, events).wf(),
    decreases events.len(),
{
    if events.len() > 0 {
        lemma_run_keeps_wf(s, events.drop_last());
        lemma_next_keeps_wf(run(s, events.drop_last()), events.last());
    }
}

/// After five actions a redraw is over: the driver is idle again, and its
/// last action asks for no further report.
pub proof fn lemma_frame_ends(s: DriverState, extent: Extent, reports: Reports)
    requires
        s.wf(),
        s.phase is Idle,
    ensures
        frame(s, extent, reports).wf(),
        frame(s, extent, reports).phase is Idle,
        reply(frame_actions(s, extent, reports)[4], reports) is None,
        frame_actions(s, extent, reports)[4] is Finish || frame_actions(s, extent, reports)[4]
            is Abort,
{
}

/// A redraw of a window without pixels submits nothing and leaves the driver,
/// its dirty flag included, as it was.
pub proof fn lemma_empty_extent_is_skipped(s: DriverState, extent: Extent, reports: Reports)
    requires
        extent.empty(),
    ensures
        s.next(Event::RedrawRequested(extent)).0 == s,
        s.phase is Idle ==> s.next(Event::RedrawRequested(extent)).1 == Action::Finish(
            FrameStatus::Skipped,
        ),
        frame(s, extent, reports) == s,
        frame(s, extent, reports).dirty == s.dirty,
        submissions(s, extent, reports) == 0,
{
    let actions = frame_actions(s, extent, reports);
    assert(forall|i: int| 0 <= i < 5 ==> !(#[trigger] actions[i] is Submit));
    lemma_no_submit_among(actions);
}

/// After a resize, a redraw whose rebuild succeeds leaves the surface at the
/// extent of the redraw, one generation on. The dirty flag is cleared by the
/// rebuild, and is set at the end only if the presentation layer called the
/// new surface stale or suboptimal in this same redraw.
pub proof fn lemma_resize_then_redraw(
    s: DriverState,
    extent: Extent,
    images: u32,
    reports: Reports,
)
    requires
        s.wf(),
        s.phase is Idle,
        !extent.empty(),
        images >= MIN_IMAGES,
        reports.rebuild == (RebuildReport::Built { images }),
    ensures
        ({
            let after = frame(s.resized().0, extent, reports);
            &&& after.surface.extent == extent
            &&& after.surface.images == images
            &&& after.surface.generation == generation_after(s.surface.generation)
            &&& after.dirty <==> reports.acquire is Stale || (acquires_image(
                reports.acquire,
                images,
            ) && (reports.acquire->suboptimal || reports.submit is Stale))
        }),
        ({
            let actions = frame_actions(s.resized().0, extent, reports);
            let first: int = if s.in_flight is Some { 1 } else { 0 };
            &&& s.in_flight is Some ==> actions[0] == Action::Retire
            &&& actions[first] == (Action::Rebuild { extent })
            &&& actions[first + 1] == Action::Acquire
        }),
{
}

/// A stale acquisition ends the redraw: no dispatch is submitted, none is
/// asked for until the next redraw, and the dirty flag is set.
pub proof fn lemma_stale_acquisition_submits_nothing(
    s: DriverState,
    extent: Extent,
    reports: Reports,
)
    requires
        reports.acquire is Stale,
    ensures
        submissions(s, extent, reports) == 0,
        s.phase is Idle && !extent.empty() && (s.dirty ==> builds(reports.rebuild)) ==> frame(
            s,
            extent,
            reports,
        ).dirty && frame_actions(s, extent, reports)[4] == Action::Finish(FrameStatus::Stale),
{
    let actions = frame_actions(s, extent, reports);
    assert(forall|i: int| 0 <= i < 5 ==> !(#[trigger] actions[i] is Submit));
    lemma_no_submit_among(actions);
}

/// A redraw submits one dispatch at most, and exactly one if the window has
/// pixels, a due rebuild succeeds and the acquisition hands out an image of
/// the surface. That dispatch runs once for each pixel of the extent of the
/// redraw, on an image of the surface as it is then.
pub proof fn lemma_one_dispatch_per_frame(s: DriverState, extent: Extent, reports: Reports)
    requires
        s.wf(),
        s.phase is Idle,
    ensures
        submissions(s, extent, reports) <= 1,
        submissions(s, extent, reports) == 1 <==> {
            &&& !extent.empty()
            &&& s.dirty ==> builds(reports.rebuild)
            &&& acquires_image(
                reports.acquire,
                if s.dirty {
                    reports.rebuild->images
                } else {
                    s.surface.images
                },
            )
        },
        forall|i: int|
            0 <= i < 5 ==> (#[trigger] frame_actions(s, extent, reports)[i] matches Action::Submit {
                image,
                grid,
                wait_on,
            } ==> {
                &&& grid == Grid::over(extent)
                &&& wait_on == s.in_flight
                &&& frame(s, extent, reports).surface.owns(image)
                &&& s.dirty ==> grid.within(frame(s, extent, reports).surface.extent)
            }),
{
    let actions = frame_actions(s, extent, reports);
    if exists|k: int| 0 <= k < 5 && #[trigger] actions[k] is Submit {
        let k = choose|k: int| 0 <= k < 5 && #[trigger] actions[k] is Submit;
        assert(forall|i: int| 0 <= i < 5 && i != k ==> !(#[trigger] actions[i] is Submit));
        lemma_one_submit_among(actions, k);
    } else {
        lemma_no_submit_among(actions);
    }
}

/// At every instant at most one submission is outstanding: the driver holds
/// one token or none, and while a submission is being made it holds none.
pub proof fn lemma_single_in_flight(s: DriverState, events: Seq<Event>)
    requires
        s.wf(),
    ensures
        run(s, events).outstanding() <= 1,
        s.outstanding() <= 1,
{
    lemma_run_keeps_wf(s, events);
}

/// A submission takes the driver's token with it, no second submission is
/// asked for while one is being made, and a token comes to the driver only
/// from the submission that it was waiting for.
pub proof fn lemma_token_changes_hands(s: DriverState, event: Event)
    requires
        s.wf(),
    ensures
        ({
            let (t, action) = s.next(event);
            &&& action matches Action::Submit { wait_on, .. } ==> wait_on == s.in_flight
                && t.in_flight is None && t.phase is Submitting && !(s.phase is Submitting)
            &&& s.phase is Submitting ==> !(action is Submit)
            &&& t.in_flight is Some && s.in_flight is None ==> s.phase is Submitting && event
                == Event::Submitted(SubmitReport::Presented)
            &&& t.outstanding() <= 1
        }),
{
}

/// No image outlives its surface. Whatever the events, an image that a
/// dispatch is asked to write to belongs to the surface of that moment, the
/// image that the driver holds during a submission does too, and at the
/// moment a surface is replaced the driver holds no image at all.
pub proof fn lemma_no_stale_image(s: DriverState, events: Seq<Event>, event: Event)
    requires
        s.wf(),
    ensures
        ({
            let before = run(s, events);
            let (after, action) = before.next(event);
            &&& action matches Action::Submit { image, .. } ==> after.surface.owns(image)
                && after.surface == before.surface
            &&& after.phase matches Phase::Submitting { image } ==> after.surface.owns(image)
            &&& after.surface != before.surface ==> {
                &&& event matches Event::Rebuilt(RebuildReport::Built { images })
                &&& before.phase matches Phase::Rebuilding { extent }
                &&& after.surface == before.surface.replaced(extent, images)
                &&& after.surface.generation != before.surface.generation
                &&& after.phase is Acquiring
                &&& action == Action::Acquire
            }
        }),
{
    lemma_run_keeps_wf(s, events);
    lemma_next_keeps_wf(run(s, events), event);
}

/// A fatal answer comes for a failed report only, and ends the redraw.
pub proof fn lemma_abort_only_on_failure(s: DriverState, event: Event)
    requires
        s.wf(),
    ensures
        ({
            let (t, action) = s.next(event);
            action matches Action::Abort(fatal) ==> t.phase is Idle && match fatal {
                Fatal::SurfaceUnavailable => s.phase is Rebuilding && (event matches Event::Rebuilt(
                    report,
                ) && !builds(report)),
                Fatal::UnknownImage => s.phase is Acquiring && (event matches Event::Acquired(
                    AcquireReport::Image { index, .. },
                ) && index >= s.surface.images),
                Fatal::DeviceLost => (s.phase is Acquiring && event == Event::Acquired(
                    AcquireReport::Failed,
                )) || (s.phase is Submitting && event == Event::Submitted(SubmitReport::Failed)),
            }
        }),
{
}

proof fn lemma_no_submit_among(actions: Seq<Action>)
    requires
        forall|i: int| 0 <= i < actions.len() ==> !(#[trigger] actions[i] is Submit),
    ensures
        actions.filter(|a: Action| a is Submit).len() == 0,
    decreases actions.len(),
{
    reveal(Seq::filter);
    if actions.len() > 0 {
        lemma_no_submit_among(actions.drop_last());
    }
}

proof fn lemma_one_submit_among(actions: Seq<Action>, k: int)
    requires
        0 <= k < actions.len(),
        actions[k] is Submit,
        forall|i: int| 0 <= i < actions.len() && i != k ==> !(#[trigger] actions[i] is Submit),
    ensures
        actions.filter(|a: Action| a is Submit).len() == 1,
    decreases actions.len(),
{
    reveal(Seq::filter);
    if k == actions.len() - 1 {
        lemma_no_submit_among(actions.drop_last());
    } else {
        lemma_one_submit_among(actions.drop_last(), k);
    }
}

} // verus!
