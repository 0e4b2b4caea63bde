//! The falling block and the progress bar.

use vstd::prelude::*;
use crate::bands::Bands;
use crate::bands::Flags;
use crate::input::Key;
use crate::input::OsEvent;
use crate::message::HitQuality;
use crate::message::Message;

verus! {

/// The number of frames in which a block falls as far as its speed says.
pub const FRAMES_PER_SPEED: u64 = 100;

/// The progress that a game starts with.
pub const START_PROGRESS: i64 = 5;

/// How far the indicator of a new progress bar moves for each point of
/// progress, in ticks: a twentieth of a unit.
pub const MOVE_AMOUNT: i64 = 50_000;

/// The two kinds of block.
#[derive(Clone, Copy, Debug, PartialEq, Eq, Structural)]
pub enum Variant {
    /// The block leaves play only when it is clicked.
    ClickRequired,
    /// The block also leaves play, unjudged and at no cost, once it has
    /// come down to the marker without a click.
    PassThrough,
}

/// What the host is to do after a frame of a block.
#[derive(Clone, Copy, Debug, PartialEq, Eq)]
pub struct BlockUpdate {
    /// How far to move the block down, in ticks.
    pub fall: u64,
    /// Whether to hide the block.
    pub hide: bool,
    /// The message to send to everyone, if any.
    pub message: Option<Message>,
}

/// A block that falls towards a marker and waits to be clicked.
#[derive(Clone, Copy, Debug, PartialEq, Eq)]
pub struct RhythmBlock {
    /// How far the block falls in [`FRAMES_PER_SPEED`] frames, in ticks.
    pub speed: u64,
    /// The thresholds that the block is judged by.
    pub bands: Bands,
    /// What becomes of the block if nobody clicks it.
    pub variant: Variant,
    /// The bands that the block is in.
    pub flags: Flags,
    /// Whether the click key is down.
    pub clicked: bool,
    /// Whether the block has left play.
    pub hidden: bool,
}

impl BlockUpdate {
    /// Nothing to do.
    pub open spec fn idle() -> BlockUpdate {
        BlockUpdate { fall: 0, hide: false, message: None }
    }
}

impl Default for RhythmBlock {
    /// A block of the standard game that does not move.
    fn default() -> (block: RhythmBlock)
        ensures
            block == RhythmBlock::fresh(0, Bands::standard(), Variant::ClickRequired),
    {
        RhythmBlock::new(0, Bands::default(), Variant::ClickRequired)
    }
}

impl RhythmBlock {
    /// A block in play, in no band and not clicked.
    pub open spec fn fresh(speed: u64, bands: Bands, variant: Variant) -> RhythmBlock {
        RhythmBlock { speed, bands, variant, flags: Flags::none(), clicked: false, hidden: false }
    }

    /// The block put back into play.
    pub open spec fn after_start(self) -> RhythmBlock {
        RhythmBlock::fresh(self.speed, self.bands, self.variant)
    }

    /// The block once `key` has gone down (`pressed`) or come up. The up
    /// arrow is the click; no other key matters.
    pub open spec fn after_key(self, key: Key, pressed: bool) -> RhythmBlock {
        match key {
            Key::ArrowUp => RhythmBlock { clicked: pressed, ..self },
            _ => self,
        }
    }

    /// The block once the host has delivered `event`.
    pub open spec fn after_event(self, event: OsEvent) -> RhythmBlock {
        match event {
            OsEvent::KeyboardInput { key, pressed } => self.after_key(key, pressed),
            OsEvent::Other => self,
        }
    }

    /// How far the block falls in one frame: a hundredth of its speed,
    /// rounded down to whole ticks.
    pub open spec fn fall(self) -> int {
        self.speed as int / FRAMES_PER_SPEED as int
    }

    /// The block's height above a marker at height `reference_y`, once it
    /// has fallen for one frame from height `own_y`.
    pub open spec fn offset(self, own_y: int, reference_y: int) -> int {
        own_y - self.fall() - reference_y
    }

    /// Whether the block leaves play by itself at offset `dy`.
    pub open spec fn passes(self, dy: int) -> bool {
        self.variant == Variant::PassThrough && dy <= 0
    }

    /// The block after a frame in which it was found at height `own_y` and
    /// its marker at height `reference_y`. A frame in which either is
    /// missing from the scene leaves the block as it is.
    ///
    /// Otherwise the block falls, its flags are brought up to date for
    /// where it then stands, and it leaves play if it is clicked or passes.
    pub open spec fn after_update(self, own_y: Option<i64>, reference_y: Option<i64>)
        -> RhythmBlock {
        if own_y is Some && reference_y is Some {
            let dy = self.offset(own_y->0 as int, reference_y->0 as int);
            RhythmBlock {
                flags: self.flags.after_frame(self.bands, dy),
                hidden: self.hidden || self.clicked || self.passes(dy),
                ..self
            }
        } else {
            self
        }
    }

    /// What the host is to do after such a frame: move the block down by
    /// its fall and, if the block leaves play in this frame, hide it. A
    /// block that leaves play by a click is judged by the flags that it has
    /// after the fall, and the judgement is sent to everyone. A block that
    /// has left play sends nothing more.
    pub open spec fn update_for(self, own_y: Option<i64>, reference_y: Option<i64>)
        -> BlockUpdate {
        if own_y is Some && reference_y is Some {
            let dy = self.offset(own_y->0 as int, reference_y->0 as int);
            BlockUpdate {
                fall: self.fall() as u64,
                hide: !self.hidden && (self.clicked || self.passes(dy)),
                message: if !self.hidden && self.clicked {
                    Some(self.flags.after_frame(self.bands, dy).quality().message())
                } else {
                    None
                },
            }
        } else {
            BlockUpdate::idle()
        }
    }

    /// A block in play, in no band and not clicked.
    pub fn new(speed: u64, bands: Bands, variant: Variant) -> (block: RhythmBlock)
        ensures
            block == RhythmBlock::fresh(speed, bands, variant),
    {
        RhythmBlock {
            speed,
            bands,
            variant,
            flags: Flags::default(),
            clicked: false,
            hidden: false,
        }
    }

    /// Puts the block back into play: in no band, not clicked, not hidden.
    pub fn on_start(&mut self)
        ensures
            *final(self) == old(self).after_start(),
    {
        self.flags = Flags::default();
        self.clicked = false;
        self.hidden = false;
    }

    /// Records that `key` went down or came up.
    pub fn on_key_event(&mut self, key: Key, pressed: bool)
        ensures
            *final(self) == old(self).after_key(key, pressed),
    {
        match key {
            Key::ArrowUp => self.clicked = pressed,
            _ => (),
        }
    }

    /// Takes in an event of the window system. Only keyboard input changes
    /// anything.
    pub fn on_os_event(&mut self, event: &OsEvent)
        ensures
            *final(self) == old(self).after_event(*event),
    {
        match *event {
            OsEvent::KeyboardInput { key, pressed } => self.on_key_event(key, pressed),
            OsEvent::Other => (),
        }
    }

    /// Runs one frame. `own_y` is the height at which the host found the
    /// block and `reference_y` that of its marker, in ticks; either is
    /// `None` if the host did not find it in the scene.
    pub fn on_update(&mut self, own_y: Option<i64>, reference_y: Option<i64>) -> (update:
        BlockUpdate)
        ensures
            *final(self) == old(self).after_update(own_y, reference_y),
            update == old(self).update_for(own_y, reference_y),
    {
        match (own_y, reference_y) {
            (Some(y), Some(reference)) => {
                let fall: u64 = self.speed / FRAMES_PER_SPEED;
                let dy: i128 = y as i128 - fall as i128 - reference as i128;
                let bands = self.bands;
                self.flags.advance(&bands, dy);
                let mut update = BlockUpdate { fall, hide: false, message: None };
                if !self.hidden {
                    if self.clicked {
                        update.hide = true;
                        update.message = Some(self.flags.judge().to_message());
                    } else if self.variant == Variant::PassThrough && dy <= 0 {
                        update.hide = true;
                    }
                }
                if update.hide {
                    self.hidden = true;
                }
                update
            },
            _ => BlockUpdate { fall: 0, hide: false, message: None },
        }
    }
}

/// A click is judged by the best band: a block in play that is clicked
/// while its `great` flag stands sends `GreatClick`, whatever its other
/// flags say, and hides. It sends exactly what its flags after the fall
/// are worth.
pub proof fn lemma_click_precedence(block: RhythmBlock, own_y: i64, reference_y: i64)
    requires
        block.clicked,
        !block.hidden,
    ensures
        ({
            let after = block.after_update(Some(own_y), Some(reference_y));
            let update = block.update_for(Some(own_y), Some(reference_y));
            &&& update.hide
            &&& after.hidden
            &&& update.message == Some(after.flags.quality().message())
            &&& after.flags.great ==> update.message == Some(Message::GreatClick)
        }),
{
}

/// A block sends at most one judgement: once it has left play no frame
/// sends a message or hides it again, however long the click key is held.
pub proof fn lemma_hidden_block_is_silent(
    block: RhythmBlock,
    own_y: Option<i64>,
    reference_y: Option<i64>,
)
    requires
        block.hidden,
    ensures
        block.update_for(own_y, reference_y).message is None,
        !block.update_for(own_y, reference_y).hide,
        block.after_update(own_y, reference_y).hidden,
{
}

/// A block that nobody clicks sends nothing. If it must be clicked it
/// stays in play for good; if it passes through it leaves play at the first
/// frame that finds it at or below the marker.
pub proof fn lemma_unclicked_block(block: RhythmBlock, own_y: i64, reference_y: i64)
    requires
        !block.clicked,
        !block.hidden,
    ensures
        ({
            let after = block.after_update(Some(own_y), Some(reference_y));
            let update = block.update_for(Some(own_y), Some(reference_y));
            let dy = block.offset(own_y as int, reference_y as int);
            &&& update.message is None
            &&& block.variant == Variant::ClickRequired ==> !after.hidden && !update.hide
            &&& block.variant == Variant::PassThrough ==> (after.hidden <==> dy <= 0) && (
            update.hide <==> dy <= 0)
        }),
{
}

/// What the host is to do after a frame of the progress bar.
#[derive(Clone, Copy, Debug, PartialEq, Eq)]
pub struct BarUpdate {
    /// How far to move the indicator up, in ticks; down if negative.
    pub rise: i64,
    /// The message to send to everyone, if any.
    pub message: Option<Message>,
}

/// The progress of the game, and the one change of it that is waiting to be
/// made.
#[derive(Clone, Copy, Debug, PartialEq, Eq)]
pub struct ProgressBar {
    /// The progress made so far.
    pub progress: i64,
    /// The change that the next frame will make; zero if none is waiting.
    pub pending: i64,
    /// How far the indicator moves for each point of progress, in ticks.
    pub move_amount: i64,
    /// Whether the end of the game has been announced.
    pub over: bool,
}

impl BarUpdate {
    /// Nothing to do.
    pub open spec fn idle() -> BarUpdate {
        BarUpdate { rise: 0, message: None }
    }
}

impl Default for ProgressBar {
    /// A bar with no progress, nothing waiting and an indicator that does
    /// not move.
    fn default() -> (bar: ProgressBar)
        ensures
            bar == (ProgressBar { progress: 0, pending: 0, move_amount: 0, over: false }),
    {
        ProgressBar { progress: 0, pending: 0, move_amount: 0, over: false }
    }
}

impl ProgressBar {
    /// The bar at the start of a game.
    pub open spec fn initial() -> ProgressBar {
        ProgressBar {
            progress: START_PROGRESS,
            pending: 0,
            move_amount: MOVE_AMOUNT,
            over: false,
        }
    }

    /// The bar once a click of the given quality has been announced: its
    /// score is waiting, and whatever was waiting before is forgotten.
    pub open spec fn after_signal(self, quality: HitQuality) -> ProgressBar {
        ProgressBar { pending: quality.score() as i64, ..self }
    }

    /// The bar once `message` has arrived. Only a judgement changes
    /// anything.
    pub open spec fn after_message(self, message: Message) -> ProgressBar {
        match message.quality() {
            Some(quality) => self.after_signal(quality),
            None => self,
        }
    }

    /// The bar once the messages of `messages` have arrived, first to last.
    pub open spec fn after_messages(self, messages: Seq<Message>) -> ProgressBar
        decreases messages.len(),
    {
        if messages.len() == 0 {
            self
        } else {
            self.after_messages(messages.drop_last()).after_message(messages.last())
        }
    }

    /// Whether a frame has a change to make: something is waiting, and the
    /// host has found both the indicator and its upper bound in the scene.
    pub open spec fn applies(self, own_y: Option<i64>, reference_y: Option<i64>) -> bool {
        self.pending != 0 && own_y is Some && reference_y is Some
    }

    /// How far the waiting change moves the indicator.
    pub open spec fn rise(self) -> int {
        self.pending * self.move_amount
    }

    /// Whether the next frame can be computed: both the progress and the
    /// indicator's movement that it would give fit the machine's numbers.
    pub open spec fn in_range(self) -> bool {
        &&& i64::MIN <= self.progress + self.pending <= i64::MAX
        &&& i64::MIN <= self.rise() <= i64::MAX
    }

    /// What a frame that has a change to make finds out about the end of
    /// the game: a win if the indicator is at or above its upper bound once
    /// it has moved from height `own_y`, or else a loss if no progress is
    /// left once the change is made. A bar whose game is over finds out
    /// nothing more.
    pub open spec fn outcome(self, own_y: int, reference_y: int) -> Option<Message> {
        if self.over {
            None
        } else if own_y + self.rise() >= reference_y {
            Some(Message::Win)
        } else if self.progress + self.pending <= 0 {
            Some(Message::Loss)
        } else {
            None
        }
    }

    /// The bar after a frame in which the indicator was found at height
    /// `own_y` and its upper bound at height `reference_y`: what was
    /// waiting is added to the progress, nothing is waiting any more, and
    /// the game is over if the frame finds it won or lost. A frame that has
    /// no change to make leaves the bar as it is.
    pub open spec fn after_update(self, own_y: Option<i64>, reference_y: Option<i64>)
        -> ProgressBar {
        if self.applies(own_y, reference_y) {
            ProgressBar {
                progress: (self.progress + self.pending) as i64,
                pending: 0,
                over: self.over || self.outcome(own_y->0 as int, reference_y->0 as int) is Some,
                ..self
            }
        } else {
            self
        }
    }

    /// What the host is to do after such a frame: move the indicator by
    /// the waiting change times the movement per point, and announce the
    /// end of the game if the frame finds it won or lost. A frame that has
    /// no change to make asks for nothing.
    pub open spec fn update_for(self, own_y: Option<i64>, reference_y: Option<i64>)
        -> BarUpdate {
        if self.applies(own_y, reference_y) {
            BarUpdate {
                rise: self.rise() as i64,
                message: self.outcome(own_y->0 as int, reference_y->0 as int),
            }
        } else {
            BarUpdate::idle()
        }
    }

    /// Sets the bar up for the start of a game.
    pub fn on_init(&mut self)
        ensures
            *final(self) == ProgressBar::initial(),
    {
        self.progress = START_PROGRESS;
        self.pending = 0;
        self.move_amount = MOVE_AMOUNT;
        self.over = false;
    }

    /// Takes in the judgement of a click. It replaces a judgement that is
    /// still waiting: the two do not add up.
    pub fn on_signal(&mut self, quality: HitQuality)
        ensures
            *final(self) == old(self).after_signal(quality),
    {
        self.pending = quality.score_delta();
    }

    /// Takes in a message from the bus.
    pub fn on_message(&mut self, message: Message)
        ensures
            *final(self) == old(self).after_message(message),
    {
        match message.hit_quality() {
            Some(quality) => self.on_signal(quality),
            None => (),
        }
    }

    /// Takes in a queue of messages from the bus, first to last.
    pub fn on_messages(&mut self, messages: &Vec<Message>)
        ensures
            *final(self) == old(self).after_messages(messages@),
    {
        let mut i: usize = 0;
        while i < messages.len()
            invariant
                i <= messages.len(),
                *self == old(self).after_messages(messages@.take(i as int)),
            decreases messages.len() - i,
        {
            proof {
                let taken = messages@.take(i + 1);
                assert(taken.drop_last() == messages@.take(i as int));
                assert(taken.last() == messages@[i as int]);
            }
            self.on_message(messages[i]);
            i = i + 1;
        }
        assert(messages@.take(i as int) == messages@);
    }

    /// Computes [`ProgressBar::in_range`].
    pub fn can_update(&self) -> (fits: bool)
        ensures
            fits == self.in_range(),
    {
        let progress: i128 = self.progress as i128 + self.pending as i128;
        assert(-0x4000_0000_0000_0000_0000_0000_0000_0000 <= self.pending * self.move_amount
            <= 0x4000_0000_0000_0000_0000_0000_0000_0000) by (nonlinear_arith)
            requires
                -0x8000_0000_0000_0000 <= self.pending <= 0x8000_0000_0000_0000,
                -0x8000_0000_0000_0000 <= self.move_amount <= 0x8000_0000_0000_0000,
        ;
        let rise: i128 = self.pending as i128 * self.move_amount as i128;
        i64::MIN as i128 <= progress && progress <= i64::MAX as i128 && i64::MIN as i128 <= rise
            && rise <= i64::MAX as i128
    }

    /// Runs one frame. `own_y` is the height at which the host found the
    /// indicator and `reference_y` that of its upper bound, in ticks;
    /// either is `None` if the host did not find it in the scene.
    pub fn on_update(&mut self, own_y: Option<i64>, reference_y: Option<i64>) -> (update:
        BarUpdate)
        requires
            old(self).in_range(),
        ensures
            *final(self) == old(self).after_update(own_y, reference_y),
            update == old(self).update_for(own_y, reference_y),
    {
        match (own_y, reference_y) {
            (Some(y), Some(reference)) => {
                if self.pending != 0 {
                    let rise: i64 = self.pending * self.move_amount;
                    self.progress = self.progress + self.pending;
                    self.pending = 0;
                    let message = if self.over {
                        None
                    } else if y as i128 + rise as i128 >= reference as i128 {
                        Some(Message::Win)
                    } else if self.progress <= 0 {
                        Some(Message::Loss)
                    } else {
                        None
                    };
                    if message.is_some() {
                        self.over = true;
                    }
                    BarUpdate { rise, message }
                } else {
                    BarUpdate { rise: 0, message: None }
                }
            },
            _ => BarUpdate { rise: 0, message: None },
        }
    }
}

/// The last judgement wins: of two judgements that arrive with no frame
/// between them only the second counts, so that the frame that follows
/// changes the bar and moves the indicator as if the first had never
/// arrived.
pub proof fn lemma_last_signal_wins(
    bar: ProgressBar,
    first: HitQuality,
    second: HitQuality,
    own_y: Option<i64>,
    reference_y: Option<i64>,
)
    ensures
        bar.after_signal(first).after_signal(second) == bar.after_signal(second),
        bar.after_signal(first).after_signal(second).after_update(own_y, reference_y)
            == bar.after_signal(second).after_update(own_y, reference_y),
        bar.after_signal(first).after_signal(second).update_for(own_y, reference_y)
            == bar.after_signal(second).update_for(own_y, reference_y),
        bar.after_signal(first).after_signal(second).pending == second.score(),
{
}

/// The last judgement among `messages`, if there is one.
pub open spec fn last_judgement(messages: Seq<Message>) -> Option<HitQuality>
    decreases messages.len(),
{
    if messages.len() == 0 {
        None
    } else if messages.last().quality() is Some {
        messages.last().quality()
    } else {
        last_judgement(messages.drop_last())
    }
}

/// Of any number of messages that arrive with no frame between them, only
/// the last judgement counts: the bar is as if that judgement alone had
/// arrived, and as it was if there was none among them.
pub proof fn lemma_last_judgement_wins(bar: ProgressBar, messages: Seq<Message>)
    ensures
        bar.after_messages(messages) == (match last_judgement(messages) {
            Some(quality) => bar.after_signal(quality),
            None => bar,
        }),
    decreases messages.len(),
{
    if messages.len() > 0 {
        lemma_last_judgement_wins(bar, messages.drop_last());
    }
}

/// A change is made once: after a frame for which the host found both the
/// indicator and its bound nothing is waiting, and a frame that comes before
/// the next judgement changes nothing, moves nothing and sends nothing.
pub proof fn lemma_change_is_made_once(
    bar: ProgressBar,
    own_y: i64,
    reference_y: i64,
    next_y: Option<i64>,
    next_reference_y: Option<i64>,
)
    ensures
        ({
            let after = bar.after_update(Some(own_y), Some(reference_y));
            &&& after.pending == 0
            &&& after.after_update(next_y, next_reference_y) == after
            &&& after.update_for(next_y, next_reference_y) == BarUpdate::idle()
        }),
{
}

/// The end of the game is announced once: the frame that announces it
/// leaves the game over, and a bar whose game is over stays so and announces
/// nothing, whatever judgements still arrive. Only a new start opens a new
/// game.
pub proof fn lemma_end_is_announced_once(
    bar: ProgressBar,
    own_y: Option<i64>,
    reference_y: Option<i64>,
    message: Message,
)
    ensures
        bar.update_for(own_y, reference_y).message is Some ==> !bar.over && bar.after_update(
            own_y,
            reference_y,
        ).over,
        bar.over ==> bar.update_for(own_y, reference_y).message is None && bar.after_update(
            own_y,
            reference_y,
        ).over && bar.after_message(message).over,
        !ProgressBar::initial().over,
{
}

/// A judgement changes the progress by its score and moves the indicator
/// by its score times the movement per point, in the frame that follows.
/// While the game is on, that frame announces a win exactly if the indicator
/// is then at or above its upper bound, and a loss exactly if it is not and
/// no progress is left.
pub proof fn lemma_signal_then_frame(
    bar: ProgressBar,
    quality: HitQuality,
    own_y: i64,
    reference_y: i64,
)
    requires
        bar.after_signal(quality).in_range(),
    ensures
        ({
            let after = bar.after_signal(quality).after_update(Some(own_y), Some(reference_y));
            let update = bar.after_signal(quality).update_for(Some(own_y), Some(reference_y));
            &&& after.progress == bar.progress + quality.score()
            &&& update.rise == quality.score() * bar.move_amount
            &&& !bar.over ==> (update.message == Some(Message::Win) <==> own_y + update.rise
                >= reference_y)
            &&& !bar.over ==> (update.message == Some(Message::Loss) <==> own_y + update.rise
                < reference_y && after.progress <= 0)
        }),
{
}

} // verus!
