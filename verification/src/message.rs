//! The messages that the scripts send each other.

use vstd::prelude::*;

verus! {

/// How well a click on a falling block was timed, best first.
#[derive(Clone, Copy, Debug, PartialEq, Eq, Structural)]
pub enum HitQuality {
    Great,
    Good,
    Okay,
    Bad,
}

/// What travels over the host's message bus: the judgement of a click, or the
/// end of the game.
#[derive(Clone, Copy, Debug, PartialEq, Eq, Structural)]
pub enum Message {
    GreatClick,
    GoodClick,
    OkClick,
    BadClick,
    Win,
    Loss,
}

impl HitQuality {
    /// The change of progress that a click of this quality is worth.
    pub open spec fn score(self) -> int {
        match self {
            HitQuality::Great => 4,
            HitQuality::Good => 2,
            HitQuality::Okay => 1,
            HitQuality::Bad => -1,
        }
    }

    /// The message that announces a click of this quality.
    pub open spec fn message(self) -> Message {
        match self {
            HitQuality::Great => Message::GreatClick,
            HitQuality::Good => Message::GoodClick,
            HitQuality::Okay => Message::OkClick,
            HitQuality::Bad => Message::BadClick,
        }
    }

    /// Computes [`HitQuality::score`].
    pub fn score_delta(self) -> (delta: i64)
        ensures
            delta == self.score(),
    {
        match self {
            HitQuality::Great => 4,
            HitQuality::Good => 2,
            HitQuality::Okay => 1,
            HitQuality::Bad => -1,
        }
    }

    /// Computes [`HitQuality::message`].
    pub fn to_message(self) -> (message: Message)
        ensures
            message == self.message(),
    {
        match self {
            HitQuality::Great => Message::GreatClick,
            HitQuality::Good => Message::GoodClick,
            HitQuality::Okay => Message::OkClick,
            HitQuality::Bad => Message::BadClick,
        }
    }
}

impl Message {
    /// The judgement that a message carries; `None` for the two messages
    /// that end the game.
    pub open spec fn quality(self) -> Option<HitQuality> {
        match self {
            Message::GreatClick => Some(HitQuality::Great),
            Message::GoodClick => Some(HitQuality::Good),
            Message::OkClick => Some(HitQuality::Okay),
            Message::BadClick => Some(HitQuality::Bad),
            Message::Win => None,
            Message::Loss => None,
        }
    }

    /// Computes [`Message::quality`].
    pub fn hit_quality(self) -> (quality: Option<HitQuality>)
        ensures
            quality == self.quality(),
    {
        match self {
            Message::GreatClick => Some(HitQuality::Great),
            Message::GoodClick => Some(HitQuality::Good),
            Message::OkClick => Some(HitQuality::Okay),
            Message::BadClick => Some(HitQuality::Bad),
            Message::Win => None,
            Message::Loss => None,
        }
    }
}

/// A judgement survives the trip over the bus: the message that announces
/// a quality carries that quality, and no other message does.
pub proof fn lemma_message_carries_quality(quality: HitQuality, message: Message)
    ensures
        quality.message().quality() == Some(quality),
        message.quality() == Some(quality) <==> message == quality.message(),
{
}

} // verus!
