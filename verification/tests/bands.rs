use game::bands::Bands;
use game::bands::Flags;
use game::bands::GOOD_DISTANCE;
use game::bands::GREAT_DISTANCE;
use game::bands::TOUCH_DISTANCE;
use game::message::HitQuality;
use game::message::Message;
use game::TICKS_PER_UNIT;

fn flags(touching: bool, good: bool, great: bool) -> Flags {
    Flags { touching, good, great }
}

fn ticks(units: f64) -> i128 {
    (units * TICKS_PER_UNIT as f64).round() as i128
}

#[test]
fn standard_bands_in_units() {
    assert_eq!(TOUCH_DISTANCE as i128, ticks(1.0));
    assert_eq!(GOOD_DISTANCE as i128, ticks(0.2));
    assert_eq!(GREAT_DISTANCE as i128, ticks(0.1));
    assert_eq!(
        Bands::default(),
        Bands { touch: 1_000_000, good: 200_000, great: 100_000 }
    );
}

#[test]
fn bands_must_be_nested() {
    assert_eq!(
        Bands::new(200_000, 100_000, 50_000),
        Some(Bands { touch: 200_000, good: 100_000, great: 50_000 })
    );
    assert_eq!(Bands::new(5, 5, 5), Some(Bands { touch: 5, good: 5, great: 5 }));
    assert_eq!(Bands::new(0, 0, 0), Some(Bands { touch: 0, good: 0, great: 0 }));
    assert_eq!(Bands::new(10, 20, 5), None);
    assert_eq!(Bands::new(30, 10, 20), None);
    assert_eq!(Bands::new(10, 20, 30), None);
}

#[test]
fn default_flags_are_clear() {
    assert_eq!(Flags::default(), flags(false, false, false));
}

#[test]
fn falling_block_enters_the_bands_in_order() {
    let bands = Bands::default();
    let mut state = Flags::default();
    let frames = [
        (1.5, flags(false, false, false)),
        (1.000001, flags(false, false, false)),
        (1.0, flags(true, false, false)),
        (0.6, flags(true, false, false)),
        (0.200001, flags(true, false, false)),
        (0.2, flags(true, true, false)),
        (0.15, flags(true, true, false)),
        (0.1, flags(true, true, false)),
        (0.05, flags(true, true, false)),
        (0.0, flags(true, true, false)),
    ];
    for (dy, expected) in frames {
        state.advance(&bands, ticks(dy));
        assert_eq!(state, expected);
    }
}

#[test]
fn fast_block_sets_both_flags_in_one_frame() {
    let mut state = Flags::default();
    state.advance(&Bands::default(), ticks(0.05));
    assert_eq!(state, flags(true, true, false));
}

#[test]
fn flags_clear_only_past_the_negative_threshold() {
    let bands = Bands::default();
    let mut state = flags(true, true, true);
    state.advance(&bands, 0);
    assert_eq!(state, flags(true, true, true));
    state.advance(&bands, -99_999);
    assert_eq!(state, flags(true, true, true));
    state.advance(&bands, -100_000);
    assert_eq!(state, flags(true, true, false));
    state.advance(&bands, -199_999);
    assert_eq!(state, flags(true, true, false));
    state.advance(&bands, -200_000);
    assert_eq!(state, flags(true, false, false));
    state.advance(&bands, -999_999);
    assert_eq!(state, flags(true, false, false));
    state.advance(&bands, -1_000_000);
    assert_eq!(state, flags(false, false, false));
}

#[test]
fn good_does_not_clear_at_the_marker() {
    let bands = Bands { touch: 1_000_000, good: 200_000, great: 100_000 };
    let mut state = Flags::default();
    state.advance(&bands, ticks(0.2));
    assert!(state.good);
    state.advance(&bands, ticks(0.0));
    assert!(state.good);
    state.advance(&bands, ticks(-0.1));
    assert!(state.good);
    state.advance(&bands, ticks(-0.2));
    assert!(!state.good);
    assert!(state.touching);
}

#[test]
fn flag_stays_set_while_the_block_rises_again() {
    let bands = Bands::default();
    let mut state = Flags::default();
    state.advance(&bands, ticks(0.1));
    assert_eq!(state, flags(true, true, false));
    state.advance(&bands, ticks(0.5));
    assert_eq!(state, flags(true, true, false));
    state.advance(&bands, ticks(3.0));
    assert_eq!(state, flags(true, true, false));
}

#[test]
fn block_below_every_band_has_no_flag() {
    let bands = Bands::default();
    let mut state = Flags::default();
    state.advance(&bands, ticks(-1.0));
    assert_eq!(state, flags(false, false, false));
    state.advance(&bands, ticks(-0.5));
    assert_eq!(state, flags(true, false, false));
    state.advance(&bands, ticks(-7.0));
    assert_eq!(state, flags(false, false, false));
}

#[test]
fn great_band_sets_good_and_never_great() {
    let wide_great = Bands { touch: 1_000_000, good: 100_000, great: 300_000 };
    let mut state = Flags::default();
    state.advance(&wide_great, 250_000);
    assert_eq!(state, flags(true, true, false));
    let mut inside = Flags::default();
    inside.advance(&Bands::default(), 0);
    assert!(!inside.great);
    let mut already_great = flags(false, false, true);
    already_great.advance(&wide_great, 250_000);
    assert_eq!(already_great, flags(true, false, true));
}

#[test]
fn extreme_offsets_are_judged() {
    let bands = Bands { touch: u64::MAX, good: u64::MAX, great: u64::MAX };
    let mut state = Flags::default();
    state.advance(&bands, i128::MAX);
    assert_eq!(state, flags(false, false, false));
    state.advance(&bands, u64::MAX as i128);
    assert_eq!(state, flags(true, true, false));
    state.advance(&bands, -(u64::MAX as i128));
    assert_eq!(state, flags(false, false, false));
    state.advance(&bands, i128::MIN);
    assert_eq!(state, flags(false, false, false));
}

#[test]
fn click_precedence() {
    assert_eq!(flags(true, true, true).judge(), HitQuality::Great);
    assert_eq!(flags(false, false, true).judge(), HitQuality::Great);
    assert_eq!(flags(true, false, true).judge(), HitQuality::Great);
    assert_eq!(flags(false, true, true).judge(), HitQuality::Great);
    assert_eq!(flags(true, true, false).judge(), HitQuality::Good);
    assert_eq!(flags(false, true, false).judge(), HitQuality::Good);
    assert_eq!(flags(true, false, false).judge(), HitQuality::Okay);
    assert_eq!(flags(false, false, false).judge(), HitQuality::Bad);
}

#[test]
fn scores_of_the_qualities() {
    assert_eq!(HitQuality::Great.score_delta(), 4);
    assert_eq!(HitQuality::Good.score_delta(), 2);
    assert_eq!(HitQuality::Okay.score_delta(), 1);
    assert_eq!(HitQuality::Bad.score_delta(), -1);
}

#[test]
fn qualities_and_their_messages() {
    let pairs = [
        (HitQuality::Great, Message::GreatClick),
        (HitQuality::Good, Message::GoodClick),
        (HitQuality::Okay, Message::OkClick),
        (HitQuality::Bad, Message::BadClick),
    ];
    for (quality, message) in pairs {
        assert_eq!(quality.to_message(), message);
        assert_eq!(message.hit_quality(), Some(quality));
    }
    assert_eq!(Message::Win.hit_quality(), None);
    assert_eq!(Message::Loss.hit_quality(), None);
}
