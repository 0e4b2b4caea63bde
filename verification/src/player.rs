//! The movement controller: four held keys, one velocity.

use vstd::prelude::*;
use crate::input::Key;
use crate::input::OsEvent;

verus! {

/// The speed at which the player moves along an axis, in ticks per second:
/// three units of the scene.
pub const MOVE_SPEED: i64 = 3_000_000;

/// A velocity in the plane, in ticks per second.
#[derive(Clone, Copy, Debug, PartialEq, Eq, Structural)]
pub struct Velocity2D {
    pub x: i64,
    pub y: i64,
}

/// The velocity along one axis, given whether the key for its positive
/// direction and the key for its negative direction are held: the full
/// speed towards the one that is held alone, and rest if both are held or
/// neither is.
pub open spec fn axis_velocity(positive: bool, negative: bool) -> int {
    if positive && !negative {
        MOVE_SPEED as int
    } else if negative && !positive {
        -(MOVE_SPEED as int)
    } else {
        0
    }
}

/// Which of the four movement keys are held at the moment.
#[derive(Clone, Copy, Debug, PartialEq, Eq, Structural)]
pub struct Player {
    pub move_left: bool,
    pub move_right: bool,
    pub move_up: bool,
    pub move_down: bool,
}

impl Default for Player {
    /// A player who holds no key.
    fn default() -> (player: Player)
        ensures
            player == Player::idle(),
    {
        Player { move_left: false, move_right: false, move_up: false, move_down: false }
    }
}

impl Player {
    /// A player who holds no key.
    pub open spec fn idle() -> Player {
        Player { move_left: false, move_right: false, move_up: false, move_down: false }
    }

    /// The player once `key` has gone down (`pressed`) or come up: `A`
    /// steers left, `D` right, `W` up and `S` down; no other key matters.
    pub open spec fn after_key(self, key: Key, pressed: bool) -> Player {
        match key {
            Key::A => Player { move_left: pressed, ..self },
            Key::D => Player { move_right: pressed, ..self },
            Key::W => Player { move_up: pressed, ..self },
            Key::S => Player { move_down: pressed, ..self },
            _ => self,
        }
    }

    /// The player once the host has delivered `event`.
    pub open spec fn after_event(self, event: OsEvent) -> Player {
        match event {
            OsEvent::KeyboardInput { key, pressed } => self.after_key(key, pressed),
            OsEvent::Other => self,
        }
    }

    /// The velocity that the held keys ask for. Left counts as the positive
    /// direction of `x`, up as that of `y`.
    pub open spec fn velocity(self) -> Velocity2D {
        Velocity2D {
            x: axis_velocity(self.move_left, self.move_right) as i64,
            y: axis_velocity(self.move_up, self.move_down) as i64,
        }
    }

    /// Records that `key` went down or came up.
    pub fn on_key_event(&mut self, key: Key, pressed: bool)
        ensures
            *final(self) == old(self).after_key(key, pressed),
    {
        match key {
            Key::A => self.move_left = pressed,
            Key::D => self.move_right = pressed,
            Key::W => self.move_up = pressed,
            Key::S => self.move_down = pressed,
            _ => (),
        }
    }

    /// Takes in an event of the window system. Only keyboard input changes
    /// anything.
    pub fn on_os_event(&mut self, event: &OsEvent)
        ensures
            *final(self) == old(self).after_event(*event),
    {
        match *event {
            OsEvent::KeyboardInput { key, pressed } => self.on_key_event(key, pressed),
            OsEvent::Other => (),
        }
    }

    /// The velocity to give the player's body in this frame.
    pub fn on_update(&self) -> (velocity: Velocity2D)
        ensures
            velocity == self.velocity(),
            velocity.x == axis_velocity(self.move_left, self.move_right),
            velocity.y == axis_velocity(self.move_up, self.move_down),
    {
        let x: i64 = match (self.move_left, self.move_right) {
            (true, false) => MOVE_SPEED,
            (false, true) => -MOVE_SPEED,
            _ => 0,
        };
        let y: i64 = match (self.move_up, self.move_down) {
            (true, false) => MOVE_SPEED,
            (false, true) => -MOVE_SPEED,
            _ => 0,
        };
        Velocity2D { x, y }
    }
}

/// Opposing keys cancel: with both keys of an axis held the player rests
/// along that axis, whatever the keys of the other axis do.
pub proof fn lemma_opposing_keys_cancel(player: Player)
    ensures
        player.move_left && player.move_right ==> player.velocity().x == 0,
        player.move_up && player.move_down ==> player.velocity().y == 0,
{
}

/// Every way of holding the keys gives the velocity it should: along each
/// axis the full speed towards the key that is held alone, and rest if
/// neither key is held.
pub proof fn lemma_velocity_by_keys(player: Player)
    ensures
        player.move_left && !player.move_right ==> player.velocity().x == MOVE_SPEED,
        !player.move_left && player.move_right ==> player.velocity().x == -MOVE_SPEED,
        !player.move_left && !player.move_right ==> player.velocity().x == 0,
        player.move_up && !player.move_down ==> player.velocity().y == MOVE_SPEED,
        !player.move_up && player.move_down ==> player.velocity().y == -MOVE_SPEED,
        !player.move_up && !player.move_down ==> player.velocity().y == 0,
{
}

} // verus!
