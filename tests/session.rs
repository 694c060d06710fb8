use rusteroids::frame::preferred_format_index;
use rusteroids::logic::Rotating;
use rusteroids::renderer::ResizeAction;
use rusteroids::session::{InputEvent, Key, Outcome, Session};

fn session() -> Session<u8, [f32; 16]> {
    Session::new(800, 600)
}

#[test]
fn close_and_escape_exit() {
    let mut s = session();
    assert_eq!(s.handle(InputEvent::CloseRequested), Outcome::Exit);
    assert_eq!(s.handle(InputEvent::Key { key: Key::Escape, pressed: true }), Outcome::Exit);
    assert_eq!(
        s.handle(InputEvent::Key { key: Key::Escape, pressed: false }),
        Outcome::KeysChanged
    );
}

#[test]
fn held_keys_drive_intents() {
    let mut s = session();
    s.handle(InputEvent::Key { key: Key::A, pressed: true });
    assert_eq!(s.game.player_is_rotating, Rotating::Left);
    s.handle(InputEvent::Key { key: Key::D, pressed: true });
    assert_eq!(s.game.player_is_rotating, Rotating::Still);
    s.handle(InputEvent::Key { key: Key::A, pressed: false });
    assert_eq!(s.game.player_is_rotating, Rotating::Right);
    s.handle(InputEvent::Key { key: Key::W, pressed: true });
    assert!(s.game.player_is_accelerating);
    assert!(s.w_pressed && !s.a_pressed && s.d_pressed);
}

#[test]
fn redraw_waits_for_first_resize() {
    let mut s = session();
    assert_eq!(s.handle(InputEvent::RedrawRequested), Outcome::NotConfigured);
    assert_eq!(
        s.handle(InputEvent::Resized { width: 800, height: 600 }),
        Outcome::Resized(ResizeAction::Reconfigure {
            width: 800,
            height: 600,
            upload_projection: false
        })
    );
    assert!(s.surface_configured);
    s.handle(InputEvent::Key { key: Key::W, pressed: true });
    s.handle(InputEvent::Key { key: Key::A, pressed: true });
    match s.handle(InputEvent::RedrawRequested) {
        Outcome::Frame(step) => {
            assert_eq!(step.angular_velocity, 180);
            assert_eq!(step.acceleration, 150);
            assert_eq!(step.elapsed_millis, s.game.timer.now - s.game.timer.last);
        }
        other => panic!("expected a frame, got {:?}", other),
    }
}

#[test]
fn minimised_window_still_configures() {
    let mut s = session();
    assert_eq!(
        s.handle(InputEvent::Resized { width: 0, height: 0 }),
        Outcome::Resized(ResizeAction::Ignore)
    );
    assert!(s.surface_configured);
    assert_eq!(s.renderer.get_size(), (800, 600));
}

#[test]
fn other_events_are_ignored() {
    let mut s = session();
    assert_eq!(s.handle(InputEvent::Other), Outcome::Ignored);
    assert_eq!(s.handle(InputEvent::Key { key: Key::Other, pressed: true }), Outcome::KeysChanged);
    assert_eq!(s.game.player_is_rotating, Rotating::Still);
}

#[test]
fn srgb_format_is_preferred() {
    assert_eq!(preferred_format_index(&vec![false, true, true]), 1);
    assert_eq!(preferred_format_index(&vec![true]), 0);
}

#[test]
fn first_format_without_srgb() {
    assert_eq!(preferred_format_index(&vec![false, false, false]), 0);
}

#[test]
fn new_session_state() {
    let s = session();
    assert!(!s.game.player_is_accelerating);
    assert_eq!(s.game.player_is_rotating, Rotating::Still);
    assert_eq!((s.renderer.camera.width, s.renderer.camera.height), (800, 600));
    assert!(!s.surface_configured);
}

#[test]
fn redraw_keeps_intents() {
    let mut s = session();
    s.handle(InputEvent::Resized { width: 800, height: 600 });
    s.handle(InputEvent::Key { key: Key::W, pressed: true });
    s.handle(InputEvent::Key { key: Key::D, pressed: true });
    s.handle(InputEvent::RedrawRequested);
    assert!(s.game.player_is_accelerating);
    assert_eq!(s.game.player_is_rotating, Rotating::Right);
}
