//! Gameplay rules of a small rhythm game, kept apart from the engine that
//! hosts them.
//!
//! Three scripts make up the game. A [`player::Player`] turns four held keys
//! into a velocity. A [`rhythm::RhythmBlock`] falls towards a marker and is
//! judged by how close to the marker it is when it is clicked. A
//! [`rhythm::ProgressBar`] turns the judgements into progress and decides
//! when the game is won or lost.
//!
//! Every script is a plain value. The host reads positions from its scene,
//! hands them to the script together with the events it has received, and
//! carries out what the script returns: a movement, a change of visibility,
//! a message to send.
//!
//! Lengths are whole numbers of ticks, [`TICKS_PER_UNIT`] of which make one
//! unit of the scene, so that every comparison against a threshold is exact.

use vstd::prelude::*;
use crate::bands::GOOD_DISTANCE;
use crate::bands::GREAT_DISTANCE;
use crate::bands::TOUCH_DISTANCE;
use crate::player::MOVE_SPEED;
use crate::rhythm::MOVE_AMOUNT;

pub mod bands;
pub mod input;
pub mod message;
pub mod player;
pub mod plugin;
pub mod rhythm;

verus! {

/// How many ticks make one unit of length in the scene.
pub const TICKS_PER_UNIT: i64 = 1_000_000;

/// The lengths that the standard game is played with, in units of the
/// scene: a block touches within one unit of its marker, is good within a
/// fifth and great within a tenth; the indicator of the progress bar moves
/// a twentieth of a unit for each point; the player moves three units a
/// second.
pub proof fn lemma_standard_lengths()
    ensures
        TOUCH_DISTANCE == TICKS_PER_UNIT,
        5 * GOOD_DISTANCE == TICKS_PER_UNIT,
        10 * GREAT_DISTANCE == TICKS_PER_UNIT,
        20 * MOVE_AMOUNT == TICKS_PER_UNIT,
        MOVE_SPEED == 3 * TICKS_PER_UNIT,
{
}

} // verus!
