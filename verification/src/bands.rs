//! The distance bands around the marker, and the flags that tell which of
//! them a falling block is in.
//!
//! A block's offset `dy` is its height above the marker, negative once it
//! has fallen past. Each band has one threshold. A block enters a band when
//! `dy` is at most the threshold and leaves it only when `dy` is at most the
//! negative of the threshold, so that a flag once set stays set all the way
//! through the marker and out on the other side.

use vstd::prelude::*;
use crate::message::HitQuality;

verus! {

/// The threshold of the outermost band, in ticks: one unit of the scene.
pub const TOUCH_DISTANCE: u64 = 1_000_000;

/// The threshold of the middle band, in ticks: a fifth of a unit.
pub const GOOD_DISTANCE: u64 = 200_000;

/// The threshold of the innermost band, in ticks: a tenth of a unit.
pub const GREAT_DISTANCE: u64 = 100_000;

/// The thresholds of the three bands, in ticks.
#[derive(Clone, Copy, Debug, PartialEq, Eq, Structural)]
pub struct Bands {
    pub touch: u64,
    pub good: u64,
    pub great: u64,
}

impl Bands {
    /// Whether each band lies within the next wider one.
    pub open spec fn nested(self) -> bool {
        self.great <= self.good && self.good <= self.touch
    }

    /// The bands of the standard game.
    pub open spec fn standard() -> Bands {
        Bands { touch: TOUCH_DISTANCE, good: GOOD_DISTANCE, great: GREAT_DISTANCE }
    }

    /// Bands with the given thresholds, if they are nested.
    pub fn new(touch: u64, good: u64, great: u64) -> (bands: Option<Bands>)
        ensures
            bands == (if great <= good && good <= touch {
                Some(Bands { touch, good, great })
            } else {
                None
            }),
            bands.is_some() ==> bands.unwrap().nested(),
    {
        if great <= good && good <= touch {
            Some(Bands { touch, good, great })
        } else {
            None
        }
    }
}

impl Default for Bands {
    /// The bands of the standard game.
    fn default() -> (bands: Bands)
        ensures
            bands == Bands::standard(),
            bands.nested(),
    {
        Bands { touch: TOUCH_DISTANCE, good: GOOD_DISTANCE, great: GREAT_DISTANCE }
    }
}

/// Which bands a block is in.
#[derive(Clone, Copy, Debug, PartialEq, Eq, Structural)]
pub struct Flags {
    pub touching: bool,
    pub good: bool,
    pub great: bool,
}

impl Default for Flags {
    /// No band entered.
    fn default() -> (flags: Flags)
        ensures
            flags == Flags::none(),
    {
        Flags { touching: false, good: false, great: false }
    }
}

impl Flags {
    /// No band entered.
    pub open spec fn none() -> Flags {
        Flags { touching: false, good: false, great: false }
    }

    /// The flags after a frame in which the block stands at offset `dy`.
    ///
    /// A flag is set when the block is within its band or was so before, and
    /// is cleared again, in the same frame if need be, when the block is as
    /// far below the marker as the band is wide. Coming within the great band
    /// sets `good`, not `great`: no frame sets `great`, a frame can only
    /// clear it.
    pub open spec fn after_frame(self, bands: Bands, dy: int) -> Flags {
        Flags {
            touching: (self.touching || dy <= bands.touch) && dy > -bands.touch,
            good: (self.good || dy <= bands.good || (!self.great && dy <= bands.great))
                && dy > -bands.good,
            great: self.great && dy > -bands.great,
        }
    }

    /// The flags after one frame at each offset of `dys`, in turn.
    pub open spec fn after_frames(self, bands: Bands, dys: Seq<int>) -> Flags
        decreases dys.len(),
    {
        if dys.len() == 0 {
            self
        } else {
            self.after_frames(bands, dys.drop_last()).after_frame(bands, dys.last())
        }
    }

    /// The quality of a click on a block with these flags: the innermost
    /// band that it is in decides, and a block in no band is a bad click.
    pub open spec fn quality(self) -> HitQuality {
        if self.great {
            HitQuality::Great
        } else if self.good {
            HitQuality::Good
        } else if self.touching {
            HitQuality::Okay
        } else {
            HitQuality::Bad
        }
    }

    /// Brings the flags up to date for a frame in which the block stands at
    /// offset `dy`.
    pub fn advance(&mut self, bands: &Bands, dy: i128)
        ensures
            *final(self) == old(self).after_frame(*bands, dy as int),
    {
        let touch: i128 = bands.touch as i128;
        let good: i128 = bands.good as i128;
        let great: i128 = bands.great as i128;
        if !self.touching && dy <= touch {
            self.touching = true;
        }
        if !self.good && dy <= good {
            self.good = true;
        }
        if !self.great && dy <= great {
            self.good = true;
        }
        if self.great && dy <= -great {
            self.great = false;
        }
        if self.good && dy <= -good {
            self.good = false;
        }
        if self.touching && dy <= -touch {
            self.touching = false;
        }
    }

    /// Computes [`Flags::quality`].
    pub fn judge(&self) -> (quality: HitQuality)
        ensures
            quality == self.quality(),
            self.great ==> quality == HitQuality::Great,
    {
        if self.great {
            HitQuality::Great
        } else if self.good {
            HitQuality::Good
        } else if self.touching {
            HitQuality::Okay
        } else {
            HitQuality::Bad
        }
    }
}

/// The better band wins: a block that is in the great band is judged
/// `Great` whatever its other flags say, one in the good band and not in
/// the great band `Good`, one that only touches `Okay`, and one in no band
/// `Bad`.
pub proof fn lemma_quality_precedence(flags: Flags)
    ensures
        flags.great ==> flags.quality() == HitQuality::Great,
        !flags.great && flags.good ==> flags.quality() == HitQuality::Good,
        !flags.great && !flags.good && flags.touching ==> flags.quality() == HitQuality::Okay,
        !flags.great && !flags.good && !flags.touching ==> flags.quality() == HitQuality::Bad,
{
}

/// A flag that is set is cleared by a frame exactly when the block is then
/// at least as far below the marker as the flag's band is wide. Reaching
/// the marker itself clears no flag of a band that has any width.
pub proof fn lemma_flag_clears_past_band(flags: Flags, bands: Bands, dy: int)
    ensures
        flags.touching ==> (flags.after_frame(bands, dy).touching <==> dy > -bands.touch),
        flags.good ==> (flags.after_frame(bands, dy).good <==> dy > -bands.good),
        flags.great ==> (flags.after_frame(bands, dy).great <==> dy > -bands.great),
        flags.touching && bands.touch > 0 ==> flags.after_frame(bands, 0).touching,
        flags.good && bands.good > 0 ==> flags.after_frame(bands, 0).good,
        flags.great && bands.great > 0 ==> flags.after_frame(bands, 0).great,
{
}

/// A flag that is set holds for as long as the block stays above the lower
/// edge of the flag's band, however the block moves in between: up, down,
/// or through the marker.
pub proof fn lemma_flag_holds_within_band(flags: Flags, bands: Bands, dys: Seq<int>)
    ensures
        flags.touching && (forall|k: int| 0 <= k < dys.len() ==> dys[k] > -bands.touch)
            ==> flags.after_frames(bands, dys).touching,
        flags.good && (forall|k: int| 0 <= k < dys.len() ==> dys[k] > -bands.good)
            ==> flags.after_frames(bands, dys).good,
        flags.great && (forall|k: int| 0 <= k < dys.len() ==> dys[k] > -bands.great)
            ==> flags.after_frames(bands, dys).great,
    decreases dys.len(),
{
    if dys.len() > 0 {
        let earlier = dys.drop_last();
        lemma_flag_holds_within_band(flags, bands, earlier);
        assert(forall|k: int| 0 <= k < earlier.len() ==> earlier[k] == dys[k]);
        assert(dys.last() == dys[dys.len() - 1]);
    }
}

/// Above the marker no flag is ever cleared: a frame with the block above
/// the marker can only add flags.
pub proof fn lemma_no_flag_clears_above_marker(flags: Flags, bands: Bands, dy: int)
    requires
        dy > 0,
    ensures
        flags.touching ==> flags.after_frame(bands, dy).touching,
        flags.good ==> flags.after_frame(bands, dy).good,
        flags.great ==> flags.after_frame(bands, dy).great,
{
}

/// With nested bands no band is skipped: if `good` is not set without
/// `touching` before a frame, it is not after the frame either, wherever the
/// block stands.
pub proof fn lemma_good_within_touching(flags: Flags, bands: Bands, dy: int)
    requires
        bands.nested(),
        flags.good ==> flags.touching,
    ensures
        flags.after_frame(bands, dy).good ==> flags.after_frame(bands, dy).touching,
{
}

/// With nested bands `good` is never set without `touching`, however the
/// block moves: what holds of the flags before the first frame holds after
/// the last.
pub proof fn lemma_good_within_touching_always(flags: Flags, bands: Bands, dys: Seq<int>)
    requires
        bands.nested(),
        flags.good ==> flags.touching,
    ensures
        flags.after_frames(bands, dys).good ==> flags.after_frames(bands, dys).touching,
    decreases dys.len(),
{
    if dys.len() > 0 {
        lemma_good_within_touching_always(flags, bands, dys.drop_last());
    }
}

/// Whether a block with these offsets, frame by frame, never rises.
pub open spec fn never_rises(dys: Seq<int>) -> bool {
    forall|i: int, j: int| 0 <= i <= j < dys.len() ==> dys[j] <= dys[i]
}

/// A block that starts with no flag set and never rises has, after every
/// frame, exactly the flags of the bands that its offset lies in. With
/// nested bands it therefore enters `touching` first and `good` second and
/// never has `good` without `touching`; coming within the great band changes
/// nothing further, and `great` is never set.
pub proof fn lemma_falling_block_flags(bands: Bands, dys: Seq<int>)
    requires
        bands.nested(),
        never_rises(dys),
        dys.len() > 0,
    ensures
        Flags::none().after_frames(bands, dys) == (Flags {
            touching: -bands.touch < dys.last() <= bands.touch,
            good: -bands.good < dys.last() <= bands.good,
            great: false,
        }),
        Flags::none().after_frames(bands, dys).good ==> Flags::none().after_frames(
            bands,
            dys,
        ).touching,
    decreases dys.len(),
{
    let earlier = dys.drop_last();
    if earlier.len() > 0 {
        assert(never_rises(earlier)) by {
            assert forall|i: int, j: int| 0 <= i <= j < earlier.len() implies earlier[j]
                <= earlier[i] by {
                assert(earlier[i] == dys[i] && earlier[j] == dys[j]);
            }
        }
        lemma_falling_block_flags(bands, earlier);
        assert(dys.last() <= earlier.last()) by {
            assert(earlier.last() == dys[dys.len() - 2]);
        }
    } else {
        assert(Flags::none().after_frames(bands, earlier) == Flags::none());
    }
}

/// A falling block gathers its flags in order and keeps them on the way
/// in: a flag that it has after `m` frames it still has after `n` frames,
/// `m` of them or more, unless it has by then fallen out of that flag's band
/// below the marker.
pub proof fn lemma_falling_block_keeps_flags(bands: Bands, dys: Seq<int>, m: int, n: int)
    requires
        bands.nested(),
        never_rises(dys),
        0 < m <= n <= dys.len(),
    ensures
        ({
            let early = Flags::none().after_frames(bands, dys.take(m));
            let late = Flags::none().after_frames(bands, dys.take(n));
            &&& early.touching && dys[n - 1] > -bands.touch ==> late.touching
            &&& early.good && dys[n - 1] > -bands.good ==> late.good
        }),
{
    assert(never_rises(dys.take(m))) by {
        assert forall|i: int, j: int| 0 <= i <= j < dys.take(m).len() implies dys.take(m)[j]
            <= dys.take(m)[i] by {
            assert(dys.take(m)[i] == dys[i] && dys.take(m)[j] == dys[j]);
        }
    }
    assert(never_rises(dys.take(n))) by {
        assert forall|i: int, j: int| 0 <= i <= j < dys.take(n).len() implies dys.take(n)[j]
            <= dys.take(n)[i] by {
            assert(dys.take(n)[i] == dys[i] && dys.take(n)[j] == dys[j]);
        }
    }
    lemma_falling_block_flags(bands, dys.take(m));
    lemma_falling_block_flags(bands, dys.take(n));
    assert(dys.take(m).last() == dys[m - 1]);
    assert(dys.take(n).last() == dys[n - 1]);
    assert(dys[n - 1] <= dys[m - 1]);
}

} // verus!
