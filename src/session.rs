use vstd::prelude::*;
use crate::logic::{Rotating, Rusteroids, Step, rotation_intent, angular_velocity_of, acceleration_of};
use crate::renderer::{Renderer, ResizeAction, resize_action_of};
use crate::camera::resized;

verus! {

/// Keys the game reacts to.
#[derive(Clone, Copy, Debug, PartialEq, Eq, Structural)]
pub enum Key {
    W,
    A,
    D,
    Escape,
    Other,
}

/// A window event as the host delivers it.
#[derive(Clone, Copy, Debug, PartialEq, Eq, Structural)]
pub enum InputEvent {
    CloseRequested,
    Key { key: Key, pressed: bool },
    Resized { width: u32, height: u32 },
    RedrawRequested,
    Other,
}

/// What the host does after an event was handled.
#[derive(Clone, Copy, Debug, PartialEq, Eq, Structural)]
pub enum Outcome {
    /// Leave the event loop.
    Exit,
    /// Nothing to do.
    Ignored,
    /// The key state changed; the game's intents follow it.
    KeysChanged,
    /// The window was resized: derive the arena bounds from the new size and
    /// carry out the surface action.
    Resized(ResizeAction),
    /// A frame was established: integrate the ship over `Step`, then upload its
    /// transform and render.
    Frame(Step),
    /// A redraw came before the surface was first configured: no frame.
    NotConfigured,
}

/// The state the event loop keeps: game, renderer, which of the three game keys
/// are held, and whether the surface has been configured by a first resize.
pub struct Session<V, M> {
    pub game: Rusteroids,
    pub renderer: Renderer<V, M>,
    pub w_pressed: bool,
    pub a_pressed: bool,
    pub d_pressed: bool,
    pub surface_configured: bool,
}

/// Held state of the keys `(w, a, d)` after `key` went to `pressed`.
pub open spec fn keys_after(keys: (bool, bool, bool), key: Key, pressed: bool) -> (bool, bool, bool) {
    match key {
        Key::W => (pressed, keys.1, keys.2),
        Key::A => (keys.0, pressed, keys.2),
        Key::D => (keys.0, keys.1, pressed),
        _ => keys,
    }
}

impl<V, M> Session<V, M> {
    pub open spec fn wf(&self) -> bool {
        self.game.wf() && self.renderer.wf()
    }

    /// Everything but the meshes' contents is as in `other`.
    pub open spec fn same_state(&self, other: Session<V, M>) -> bool {
        &&& self.keys() == other.keys()
        &&& self.surface_configured == other.surface_configured
        &&& self.game == other.game
        &&& self.renderer.same_frame(other.renderer)
    }

    pub open spec fn keys(&self) -> (bool, bool, bool) {
        (self.w_pressed, self.a_pressed, self.d_pressed)
    }

    /// A session for a window of `width` x `height` pixels: no key held, surface
    /// not yet configured.
    pub fn new(width: u32, height: u32) -> (r: Session<V, M>)
        ensures
            r.wf(),
            r.keys() == (false, false, false),
            !r.game.player_is_accelerating,
            r.game.player_is_rotating == Rotating::Still,
            r.renderer.camera.width == width,
            r.renderer.camera.height == height,
            !r.surface_configured,
            r.renderer.width == width,
            r.renderer.height == height,
            r.renderer.meshes@.len() == 0,
    {
        Session {
            game: Rusteroids::new(),
            renderer: Renderer::new(width, height),
            w_pressed: false,
            a_pressed: false,
            d_pressed: false,
            surface_configured: false,
        }
    }

    /// Handles one window event.
    pub fn handle(&mut self, event: InputEvent) -> (r: Outcome)
        requires
            old(self).wf(),
        ensures
            final(self).wf(),
            final(self).renderer.meshes@ == old(self).renderer.meshes@,
            match event {
                InputEvent::CloseRequested => r == Outcome::Exit && final(self).same_state(*old(self)),
                InputEvent::Key { key: Key::Escape, pressed: true } => r == Outcome::Exit
                    && final(self).same_state(*old(self)),
                InputEvent::Key { key, pressed } => {
                    let k = keys_after(old(self).keys(), key, pressed);
                    &&& r == Outcome::KeysChanged
                    &&& final(self).keys() == k
                    &&& final(self).game.player_is_accelerating == k.0
                    &&& final(self).game.player_is_rotating == rotation_intent(k.1, k.2)
                    &&& final(self).game.timer == old(self).game.timer
                    &&& final(self).surface_configured == old(self).surface_configured
                    &&& final(self).renderer.same_frame(old(self).renderer)
                },
                InputEvent::Resized { width, height } => {
                    &&& final(self).surface_configured
                    &&& final(self).keys() == old(self).keys()
                    &&& final(self).game == old(self).game
                    &&& r == Outcome::Resized(resize_action_of(old(self).renderer, width, height))
                    &&& width > 0 && height > 0 ==> {
                        &&& final(self).renderer.width == width
                        &&& final(self).renderer.height == height
                        &&& final(self).renderer.camera == resized(old(self).renderer.camera, width, height)
                    }
                    &&& width == 0 || height == 0 ==> final(self).renderer.same_frame(old(self).renderer)
                },
                InputEvent::RedrawRequested => if old(self).surface_configured {
                    &&& final(self).game.timer.last == old(self).game.timer.now
                    &&& final(self).game.player_is_accelerating == old(self).game.player_is_accelerating
                    &&& final(self).game.player_is_rotating == old(self).game.player_is_rotating
                    &&& final(self).keys() == old(self).keys()
                    &&& final(self).surface_configured
                    &&& final(self).renderer.same_frame(old(self).renderer)
                    &&& r == Outcome::Frame(
                        Step {
                            elapsed_millis: (final(self).game.timer.now - final(self).game.timer.last) as i64,
                            angular_velocity: angular_velocity_of(old(self).game.player_is_rotating) as i32,
                            acceleration: acceleration_of(old(self).game.player_is_accelerating) as u32,
                        },
                    )
                } else {
                    r == Outcome::NotConfigured && final(self).same_state(*old(self))
                },
                InputEvent::Other => r == Outcome::Ignored && final(self).same_state(*old(self)),
            },
    {
        match event {
            InputEvent::CloseRequested => Outcome::Exit,
            InputEvent::Key { key, pressed } => {
                match key {
                    Key::Escape => {
                        if pressed {
                            return Outcome::Exit;
                        }
                    },
                    Key::W => self.w_pressed = pressed,
                    Key::A => self.a_pressed = pressed,
                    Key::D => self.d_pressed = pressed,
                    Key::Other => {},
                }
                self.game.update_keys(self.w_pressed, self.a_pressed, self.d_pressed);
                Outcome::KeysChanged
            },
            InputEvent::Resized { width, height } => {
                self.surface_configured = true;
                Outcome::Resized(self.renderer.resize(width, height))
            },
            InputEvent::RedrawRequested => {
                if !self.surface_configured {
                    Outcome::NotConfigured
                } else {
                    Outcome::Frame(self.game.tick())
                }
            },
            InputEvent::Other => Outcome::Ignored,
        }
    }
}

} // verus!
