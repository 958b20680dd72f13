use mandelbulb::{AppAction, AppEvent, MyAppState};

#[test]
fn viewer_starts_wanting_a_render() {
    assert_eq!(MyAppState::initial(), MyAppState::NeedsUpdate);
}

#[test]
fn controls_only_live_when_idle() {
    assert!(MyAppState::Idle.inputs_enabled());
    assert!(!MyAppState::NeedsUpdate.inputs_enabled());
    assert!(!MyAppState::Updating.inputs_enabled());
}

#[test]
fn first_frame_starts_a_render() {
    let (next, action) = MyAppState::initial().step(AppEvent::Frame { space_pressed: false });
    assert_eq!(next, MyAppState::Updating);
    assert_eq!(action, AppAction::StartRender);
}

#[test]
fn idle_frame_does_nothing() {
    let (next, action) = MyAppState::Idle.step(AppEvent::Frame { space_pressed: false });
    assert_eq!(next, MyAppState::Idle);
    assert_eq!(action, AppAction::Nothing);
}

#[test]
fn busy_frame_does_nothing() {
    let (next, action) = MyAppState::Updating.step(AppEvent::Frame { space_pressed: false });
    assert_eq!(next, MyAppState::Updating);
    assert_eq!(action, AppAction::Nothing);
}

#[test]
fn space_forces_a_render_even_while_busy() {
    for state in [MyAppState::Idle, MyAppState::NeedsUpdate, MyAppState::Updating] {
        let (next, action) = state.step(AppEvent::Frame { space_pressed: true });
        assert_eq!(next, MyAppState::Updating);
        assert_eq!(action, AppAction::StartRender);
    }
}

#[test]
fn edit_then_frame_renders() {
    let (requested, action) = MyAppState::Idle.step(AppEvent::RedrawRequested);
    assert_eq!(requested, MyAppState::NeedsUpdate);
    assert_eq!(action, AppAction::Nothing);
    let (next, action) = requested.step(AppEvent::Frame { space_pressed: false });
    assert_eq!(next, MyAppState::Updating);
    assert_eq!(action, AppAction::StartRender);
}

#[test]
fn finished_render_returns_to_idle() {
    for state in [MyAppState::Idle, MyAppState::NeedsUpdate, MyAppState::Updating] {
        let (next, action) = state.step(AppEvent::RenderFinished);
        assert_eq!(next, MyAppState::Idle);
        assert_eq!(action, AppAction::Nothing);
    }
}

#[test]
fn frame_never_leaves_a_request_pending() {
    for state in [MyAppState::Idle, MyAppState::NeedsUpdate, MyAppState::Updating] {
        for space_pressed in [false, true] {
            let (next, _) = state.step(AppEvent::Frame { space_pressed });
            assert_ne!(next, MyAppState::NeedsUpdate);
        }
    }
}

#[test]
fn run_follows_the_render_cycle() {
    let permitted = |from: MyAppState, to: MyAppState| {
        (from == to && from != MyAppState::NeedsUpdate)
            || (from, to) == (MyAppState::Idle, MyAppState::NeedsUpdate)
            || (from, to) == (MyAppState::Idle, MyAppState::Updating)
            || (from, to) == (MyAppState::NeedsUpdate, MyAppState::Updating)
            || (from, to) == (MyAppState::NeedsUpdate, MyAppState::Idle)
            || (from, to) == (MyAppState::Updating, MyAppState::Idle)
    };
    let events = [
        AppEvent::Frame { space_pressed: false },
        AppEvent::Frame { space_pressed: true },
        AppEvent::RenderFinished,
        AppEvent::RenderFinished,
        AppEvent::Frame { space_pressed: false },
        AppEvent::RedrawRequested,
        AppEvent::RenderFinished,
        AppEvent::RedrawRequested,
        AppEvent::Frame { space_pressed: false },
        AppEvent::Frame { space_pressed: true },
        AppEvent::RenderFinished,
    ];
    let mut state = MyAppState::initial();
    let mut renders = 0;
    for event in events {
        let (next, action) = state.step(event);
        assert!(permitted(state, next), "{state:?} -> {next:?}");
        if action == AppAction::StartRender {
            renders += 1;
        }
        state = next;
    }
    assert_eq!(state, MyAppState::Idle);
    assert_eq!(renders, 4);
}
