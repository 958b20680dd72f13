//! When the viewer renders a new frame: a small state machine driven by the
//! user's edits, the per-frame tick and the completion of a render.
use vstd::prelude::*;

verus! {

/// Where the viewer stands with respect to rendering.
#[derive(Clone, Copy, Debug, PartialEq, Eq, Structural)]
pub enum MyAppState {
    /// The image on screen matches the camera; the controls are live.
    Idle,
    /// The camera moved; a render should start on the next frame.
    NeedsUpdate,
    /// A render has been handed to the GPU and has not come back.
    Updating,
}

/// What happens to the viewer.
#[derive(Clone, Copy, Debug, PartialEq, Eq, Structural)]
pub enum AppEvent {
    /// The camera position was changed: a typed coordinate was committed or a
    /// slider moved.
    RedrawRequested,
    /// A frame of the user interface is being drawn; `space_pressed` tells
    /// whether the space bar went down during it.
    Frame { space_pressed: bool },
    /// A render came back and its image was uploaded.
    RenderFinished,
}

/// What the viewer must do in response to an event.
#[derive(Clone, Copy, Debug, PartialEq, Eq, Structural)]
pub enum AppAction {
    Nothing,
    /// Start rendering the scene from the current camera.
    StartRender,
}

/// The state after `event`, and the action it calls for.
pub open spec fn spec_step(state: MyAppState, event: AppEvent) -> (MyAppState, AppAction) {
    match event {
        AppEvent::RedrawRequested => (MyAppState::NeedsUpdate, AppAction::Nothing),
        AppEvent::Frame { space_pressed } => {
            if space_pressed || state == MyAppState::NeedsUpdate {
                (MyAppState::Updating, AppAction::StartRender)
            } else {
                (state, AppAction::Nothing)
            }
        },
        AppEvent::RenderFinished => (MyAppState::Idle, AppAction::Nothing),
    }
}

impl MyAppState {
    /// The state of a freshly opened viewer: nothing has been drawn yet.
    pub fn initial() -> (state: MyAppState)
        ensures
            state == MyAppState::NeedsUpdate,
    {
        MyAppState::NeedsUpdate
    }

    /// Whether the camera controls accept input: only while no render is
    /// pending or running.
    pub fn inputs_enabled(&self) -> (enabled: bool)
        ensures
            enabled == (*self == MyAppState::Idle),
    {
        *self == MyAppState::Idle
    }

    /// Reacts to `event`: the next state and the action to perform.
    pub fn step(self, event: AppEvent) -> (next: (MyAppState, AppAction))
        ensures
            next == spec_step(self, event),
    {
        match event {
            AppEvent::RedrawRequested => (MyAppState::NeedsUpdate, AppAction::Nothing),
            AppEvent::Frame { space_pressed } => {
                let pending = space_pressed || self == MyAppState::NeedsUpdate;
                if pending {
                    (MyAppState::Updating, AppAction::StartRender)
                } else {
                    (self, AppAction::Nothing)
                }
            },
            AppEvent::RenderFinished => (MyAppState::Idle, AppAction::Nothing),
        }
    }
}

/// A frame starts a render exactly when one was asked for (a pending request,
/// or the space bar), and then the viewer is busy rendering.
pub proof fn law_frame_starts_render_iff_requested(state: MyAppState, space_pressed: bool)
    ensures
        (spec_step(state, AppEvent::Frame { space_pressed }).1 == AppAction::StartRender) <==> (
        space_pressed || state == MyAppState::NeedsUpdate),
        spec_step(state, AppEvent::Frame { space_pressed }).1 == AppAction::StartRender
            ==> spec_step(state, AppEvent::Frame { space_pressed }).0 == MyAppState::Updating,
{
}

/// No request outlives a frame: after a frame the viewer is never left
/// waiting to start a render.
pub proof fn law_frame_consumes_request(state: MyAppState, space_pressed: bool)
    ensures
        spec_step(state, AppEvent::Frame { space_pressed }).0 != MyAppState::NeedsUpdate,
{
}

/// Moving the camera while idle leads to a render on the very next frame.
pub proof fn law_edit_then_frame_renders(state: MyAppState)
    ensures
        spec_step(spec_step(state, AppEvent::RedrawRequested).0, AppEvent::Frame { space_pressed: false })
            == (MyAppState::Updating, AppAction::StartRender),
{
}

/// A finished render always returns the viewer to idle, with the controls live.
pub proof fn law_finish_returns_idle(state: MyAppState)
    ensures
        spec_step(state, AppEvent::RenderFinished) == (MyAppState::Idle, AppAction::Nothing),
{
}

/// An idle viewer with nothing asked of it stays idle and renders nothing.
pub proof fn law_idle_is_stable()
    ensures
        spec_step(MyAppState::Idle, AppEvent::Frame { space_pressed: false }) == (
        MyAppState::Idle,
        AppAction::Nothing,
        ),
{
}

/// The state after the viewer, starting in `start`, has gone through
/// `events` in order.
pub open spec fn spec_run(start: MyAppState, events: Seq<AppEvent>) -> MyAppState
    decreases events.len(),
{
    if events.len() == 0 {
        start
    } else {
        spec_step(spec_run(start, events.drop_last()), events.last()).0
    }
}

/// The moves the viewer's state can make in one event: an edit while idle
/// asks for a render; a frame starts the render that was asked for (or that
/// the space bar forces, also while one is running); a finished render
/// returns to idle, also when it lands while a newer request waits; anything
/// else leaves the state as it is.
pub open spec fn permitted_move(from: MyAppState, to: MyAppState) -> bool {
    ||| from == to && from != MyAppState::NeedsUpdate
    ||| from == MyAppState::Idle && to == MyAppState::NeedsUpdate
    ||| from == MyAppState::Idle && to == MyAppState::Updating
    ||| from == MyAppState::NeedsUpdate && to == MyAppState::Updating
    ||| from == MyAppState::NeedsUpdate && to == MyAppState::Idle
    ||| from == MyAppState::Updating && to == MyAppState::Idle
}

/// Whether `events`, applied from `start`, only edits the camera while the
/// controls are live (they are disabled in every other state).
pub open spec fn edits_only_when_idle(start: MyAppState, events: Seq<AppEvent>) -> bool {
    forall|i: int|
        0 <= i < events.len() && #[trigger] events[i] == AppEvent::RedrawRequested ==> spec_run(
            start,
            events.take(i),
        ) == MyAppState::Idle
}

proof fn lemma_step_is_permitted(state: MyAppState, event: AppEvent)
    requires
        event == AppEvent::RedrawRequested ==> state == MyAppState::Idle,
    ensures
        permitted_move(state, spec_step(state, event).0),
{
}

/// Over any run of the viewer in which the camera is edited only while the
/// controls are live, every event moves the state along the render cycle
/// Idle -> NeedsUpdate -> Updating -> Idle (with the shortcuts Idle ->
/// Updating by the space bar, and NeedsUpdate -> Idle by a render that
/// finishes after a newer request), or leaves it where it is; the state is
/// never left waiting in NeedsUpdate from one event to the next.
pub proof fn law_run_follows_render_cycle(start: MyAppState, events: Seq<AppEvent>)
    requires
        edits_only_when_idle(start, events),
    ensures
        forall|i: int|
            0 <= i < events.len() ==> permitted_move(
                #[trigger] spec_run(start, events.take(i)),
                spec_run(start, events.take(i + 1)),
            ),
{
    assert forall|i: int| 0 <= i < events.len() implies permitted_move(
        #[trigger] spec_run(start, events.take(i)),
        spec_run(start, events.take(i + 1)),
    ) by {
        let longer = events.take(i + 1);
        assert(longer.drop_last() =~= events.take(i));
        assert(longer.last() == events[i]);
        if events[i] == AppEvent::RedrawRequested {
            assert(spec_run(start, events.take(i)) == MyAppState::Idle);
        }
        lemma_step_is_permitted(spec_run(start, events.take(i)), events[i]);
    }
}

/// A fresh viewer wants a render, and its first frame starts it.
pub proof fn law_fresh_viewer_renders_first()
    ensures
        spec_run(MyAppState::NeedsUpdate, seq![AppEvent::Frame { space_pressed: false }])
            == MyAppState::Updating,
{
    let events = seq![AppEvent::Frame { space_pressed: false }];
    assert(events.drop_last() =~= Seq::<AppEvent>::empty());
    assert(spec_run(MyAppState::NeedsUpdate, events.drop_last()) == MyAppState::NeedsUpdate);
    assert(events.last() == AppEvent::Frame { space_pressed: false });
}

/// A camera edit always asks for a render, whatever the state, and does
/// nothing else yet.
pub proof fn law_edit_requests_render(state: MyAppState)
    ensures
        spec_step(state, AppEvent::RedrawRequested) == (MyAppState::NeedsUpdate, AppAction::Nothing),
{
}

/// A frame with nothing asked of it (no pending request, no space bar)
/// changes nothing and starts nothing.
pub proof fn law_quiet_frame_changes_nothing(state: MyAppState)
    requires
        state != MyAppState::NeedsUpdate,
    ensures
        spec_step(state, AppEvent::Frame { space_pressed: false }) == (state, AppAction::Nothing),
{
}

} // verus!
