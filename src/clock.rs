use vstd::prelude::*;

verus! {

/// Number of positions on the clock face.
pub const HOURS: u32 = 12;

/// A key whose press edge the handler is told about.
#[derive(Clone, Copy, Debug, PartialEq, Eq, Structural)]
pub enum Key {
    /// The one key that the clock reacts to.
    Space,
    /// Any other key.
    Other,
}

/// What the engine has to do after a key press.
#[derive(Clone, Copy, Debug, PartialEq, Eq, Structural)]
pub enum Action {
    /// Leave the engine as it is.
    Nothing,
    /// Switch the physics simulation on.
    StartPhysics,
    /// Drive the hinge motor to `hour` twelfths of a half turn
    /// (an angle of `hour * PI / 12`), with the highest stiffness the
    /// engine accepts and no damping.
    SetMotor { hour: u32 },
}

/// The mathematical state of the clock.
pub struct ClockState {
    pub active: bool,
    pub hour: nat,
}

/// Press-by-press state of the clock: whether the simulation runs, and
/// the hour that the hand was last sent to.
pub struct ClockControl {
    active: bool,
    hour: u32,
}

/// State before any key press.
pub open spec fn initial() -> ClockState {
    ClockState { active: false, hour: 0 }
}

/// States that a run of presses from the initial state can reach.
pub open spec fn valid(s: ClockState) -> bool {
    &&& s.hour < HOURS
    &&& !s.active ==> s.hour == 0
}

/// State after the press of `key` in state `s`.
pub open spec fn next(s: ClockState, key: Key) -> ClockState {
    match key {
        Key::Other => s,
        Key::Space => if !s.active {
            ClockState { active: true, hour: s.hour }
        } else {
            ClockState { active: true, hour: (s.hour + 1) % (HOURS as nat) }
        },
    }
}

/// What the engine is told to do on the press of `key` in state `s`.
pub open spec fn effect(s: ClockState, key: Key) -> Action {
    match key {
        Key::Other => Action::Nothing,
        Key::Space => if !s.active {
            Action::StartPhysics
        } else {
            Action::SetMotor { hour: ((s.hour + 1) % (HOURS as nat)) as u32 }
        },
    }
}

/// State after the presses of `keys`, in order, from state `s`.
pub open spec fn run(s: ClockState, keys: Seq<Key>) -> ClockState
    decreases keys.len(),
{
    if keys.len() == 0 {
        s
    } else {
        run(next(s, keys[0]), keys.drop_first())
    }
}

/// Number of presses of the space key in `keys`.
pub open spec fn presses(keys: Seq<Key>) -> nat
    decreases keys.len(),
{
    if keys.len() == 0 {
        0
    } else {
        (if keys[0] is Space { 1nat } else { 0nat }) + presses(keys.drop_first())
    }
}

impl View for ClockControl {
    type V = ClockState;

    closed spec fn view(&self) -> ClockState {
        ClockState { active: self.active, hour: self.hour as nat }
    }
}

impl ClockControl {
    pub open spec fn wf(&self) -> bool {
        valid(self@)
    }

    /// A clock with the simulation off and the hand at hour zero.
    pub fn new() -> (c: ClockControl)
        ensures
            c.wf(),
            c@ == initial(),
    {
        ClockControl { active: false, hour: 0 }
    }

    /// Whether the physics simulation has been switched on.
    pub fn is_active(&self) -> (r: bool)
        ensures
            r == self@.active,
    {
        self.active
    }

    /// The hour that the hand was last sent to (zero before any).
    pub fn hour(&self) -> (r: u32)
        ensures
            r == self@.hour,
    {
        self.hour
    }

    /// Handles the press edge of `key`: the first space press starts the
    /// simulation, each later one advances the hour modulo twelve and
    /// commands the motor to it; any other key changes nothing.
    pub fn handle_key(&mut self, key: Key) -> (a: Action)
        requires
            old(self).wf(),
        ensures
            final(self).wf(),
            final(self)@ == next(old(self)@, key),
            a == effect(old(self)@, key),
            key is Other ==> final(self)@ == old(self)@ && a is Nothing,
            key is Space ==> final(self)@.active,
            key is Space && !old(self)@.active ==> {
                &&& final(self)@.hour == old(self)@.hour
                &&& a is StartPhysics
            },
            key is Space && old(self)@.active ==> {
                &&& final(self)@.hour == (old(self)@.hour + 1) % (HOURS as nat)
                &&& a == (Action::SetMotor { hour: final(self)@.hour as u32 })
            },
    {
        match key {
            Key::Other => Action::Nothing,
            Key::Space => {
                if !self.active {
                    self.active = true;
                    Action::StartPhysics
                } else {
                    self.hour = (self.hour + 1) % HOURS;
                    Action::SetMotor { hour: self.hour }
                }
            },
        }
    }
}

} // verus!
