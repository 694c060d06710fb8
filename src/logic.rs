use vstd::prelude::*;

verus! {

/// Turn rate of the ship while a rotation key is held, in degrees per second.
pub const TURN_RATE: i32 = 180;

/// Linear acceleration of the ship while thrusting, in units per second squared.
pub const THRUST: u32 = 150;

/// Largest speed any game element may reach, in units per second.
pub const MAX_VEL: u32 = 200;

/// Which way the player wants the ship to turn.
#[derive(Clone, Copy, Debug, PartialEq, Eq, Structural)]
pub enum Rotating {
    Left,
    Right,
    Still,
}

/// Rotation intent from the two turn keys: one of them alone turns, both or
/// neither cancel out.
pub open spec fn rotation_intent(a: bool, d: bool) -> Rotating {
    if a && !d {
        Rotating::Left
    } else if d && !a {
        Rotating::Right
    } else {
        Rotating::Still
    }
}

/// The rotation intents exclude each other: the ship turns left exactly when
/// only the left key is held, right exactly when only the right key is held,
/// and not at all otherwise.
pub proof fn lemma_rotation_intent_exclusive(a: bool, d: bool)
    ensures
        (rotation_intent(a, d) == Rotating::Left) <==> (a && !d),
        (rotation_intent(a, d) == Rotating::Right) <==> (d && !a),
        (rotation_intent(a, d) == Rotating::Still) <==> (a == d),
{
}

/// Angular velocity in degrees per second for a rotation intent (counter-clockwise
/// is positive).
pub open spec fn angular_velocity_of(r: Rotating) -> int {
    match r {
        Rotating::Left => 180,
        Rotating::Right => -180,
        Rotating::Still => 0,
    }
}

/// Acceleration magnitude for a thrust intent.
pub open spec fn acceleration_of(accelerating: bool) -> int {
    if accelerating {
        150
    } else {
        0
    }
}

impl Rotating {
    /// Angular velocity that this intent asks for.
    pub fn angular_velocity(&self) -> (r: i32)
        ensures
            r == angular_velocity_of(*self),
    {
        match self {
            Rotating::Left => TURN_RATE,
            Rotating::Right => -TURN_RATE,
            Rotating::Still => 0,
        }
    }
}

/// Acceleration magnitude that a thrust intent asks for.
pub fn acceleration(accelerating: bool) -> (r: u32)
    ensures
        r == acceleration_of(accelerating),
{
    if accelerating {
        THRUST
    } else {
        0
    }
}

/// Bound on the magnitude of any timestamp in milliseconds that chrono can
/// represent: its dates run from year -262143 to year 262142, about
/// 8.34 * 10^15 milliseconds either side of the Unix epoch.
pub const MILLIS_BOUND: i64 = 10_000_000_000_000_000;

/// Relies on chrono's `From<SystemTime> for DateTime<Utc>` and
/// `DateTime::timestamp_millis`: the current wall-clock time in milliseconds
/// since the Unix epoch (negative for a clock set before it). The value is a
/// `DateTime<Utc>`'s, so it lies within chrono's date range; the conversion
/// handles a clock before the epoch and unwraps only for a clock reading more
/// than 262,000 years away from it.
#[verifier::external_body]
fn now_millis() -> (r: i64)
    ensures
        -MILLIS_BOUND <= r <= MILLIS_BOUND,
{
    chrono::DateTime::<chrono::Utc>::from(std::time::SystemTime::now()).timestamp_millis()
}

/// The two most recent frame timestamps, in milliseconds since the Unix epoch,
/// each within chrono's date range.
pub struct Timer {
    pub last: i64,
    pub now: i64,
}

impl Timer {
    pub open spec fn wf(&self) -> bool {
        &&& -MILLIS_BOUND <= self.last <= MILLIS_BOUND
        &&& -MILLIS_BOUND <= self.now <= MILLIS_BOUND
    }

    /// Starts a timer with both timestamps at the current time.
    pub fn new() -> (r: Timer)
        ensures
            r.wf(),
    {
        let last = now_millis();
        let now = now_millis();
        Timer { last, now }
    }

    /// Establishes a new frame: the previous "now" becomes "last" and the clock
    /// is read again.
    pub fn tick(&mut self)
        requires
            old(self).wf(),
        ensures
            final(self).wf(),
            final(self).last == old(self).now,
    {
        self.last = self.now;
        self.now = now_millis();
    }

    /// Milliseconds between the last two frames (negative if the wall clock went
    /// backwards).
    pub fn elapsed_millis(&self) -> (r: i64)
        requires
            self.wf(),
        ensures
            r == self.now - self.last,
    {
        self.now - self.last
    }
}

/// What one simulation step needs from the game state: the time since the
/// previous frame and the rates the player's intents ask for.
#[derive(Clone, Copy, Debug, PartialEq, Eq, Structural)]
pub struct Step {
    pub elapsed_millis: i64,
    pub angular_velocity: i32,
    pub acceleration: u32,
}

/// The discrete part of the game state: frame timer and player intents.
pub struct Rusteroids {
    pub timer: Timer,
    pub player_is_accelerating: bool,
    pub player_is_rotating: Rotating,
}

impl Rusteroids {
    pub open spec fn wf(&self) -> bool {
        self.timer.wf()
    }

    /// A fresh game: timer started, no key held.
    pub fn new() -> (r: Rusteroids)
        ensures
            r.wf(),
            !r.player_is_accelerating,
            r.player_is_rotating == Rotating::Still,
    {
        Rusteroids {
            timer: Timer::new(),
            player_is_accelerating: false,
            player_is_rotating: Rotating::Still,
        }
    }

    /// Records the state of the thrust key `w` and the turn keys `a` and `d`.
    pub fn update_keys(&mut self, w: bool, a: bool, d: bool)
        ensures
            final(self).player_is_rotating == rotation_intent(a, d),
            final(self).player_is_accelerating == w,
            final(self).timer == old(self).timer,
    {
        self.player_is_rotating = if a && !d {
            Rotating::Left
        } else if d && !a {
            Rotating::Right
        } else {
            Rotating::Still
        };
        self.player_is_accelerating = w;
    }

    /// Establishes a new frame and returns what the kinematic update of this
    /// frame uses.
    pub fn tick(&mut self) -> (s: Step)
        requires
            old(self).wf(),
        ensures
            final(self).wf(),
            final(self).timer.last == old(self).timer.now,
            final(self).player_is_accelerating == old(self).player_is_accelerating,
            final(self).player_is_rotating == old(self).player_is_rotating,
            s.elapsed_millis == final(self).timer.now - final(self).timer.last,
            s.angular_velocity == angular_velocity_of(old(self).player_is_rotating),
            s.acceleration == acceleration_of(old(self).player_is_accelerating),
    {
        self.timer.tick();
        Step {
            elapsed_millis: self.timer.elapsed_millis(),
            angular_velocity: self.player_is_rotating.angular_velocity(),
            acceleration: acceleration(self.player_is_accelerating),
        }
    }
}

} // verus!
