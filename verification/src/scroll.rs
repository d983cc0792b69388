//! The scroll controller: a tick counter turned into a pixel offset.

use vstd::prelude::*;

verus! {

/// The default time between two ticks, in milliseconds.
pub const DEFAULT_PERIOD_MS: u32 = 50;

/// The default number of pixels scrolled per word.
pub const DEFAULT_PIXELS_PER_WORD: u32 = 20;

/// The product of the largest offset and the milliseconds in a minute: from
/// this many word-milliseconds-pixels on the offset is held at its maximum.
pub const SCALED_LIMIT: u128 = 128849018820000;

/// How fast and how far the prompter scrolls.
#[derive(Clone, Copy, Debug, PartialEq, Eq, Structural)]
pub struct ScrollConfig {
    /// The time between two ticks, in milliseconds.
    pub period_ms: u32,
    /// How many pixels the text moves for one word spoken.
    pub pixels_per_word: u32,
}

impl Default for ScrollConfig {
    /// The default configuration: a tick every 50 milliseconds, 20 pixels per
    /// word.
    fn default() -> (config: ScrollConfig)
        ensures
            config.period_ms == DEFAULT_PERIOD_MS,
            config.pixels_per_word == DEFAULT_PIXELS_PER_WORD,
    {
        ScrollConfig { period_ms: DEFAULT_PERIOD_MS, pixels_per_word: DEFAULT_PIXELS_PER_WORD }
    }
}

/// What one tick adds to the offset, in pixels times the milliseconds of a
/// minute: rate times period times pixels per word.
pub open spec fn step_size(wpm: nat, period_ms: nat, pixels_per_word: nat) -> nat {
    wpm * period_ms * pixels_per_word
}

/// The exact offset after `ticks` ticks, in pixels times the milliseconds of
/// a minute.
pub open spec fn scaled_offset(ticks: nat, wpm: nat, period_ms: nat, pixels_per_word: nat) -> nat {
    ticks * step_size(wpm, period_ms, pixels_per_word)
}

/// The offset in whole pixels after `ticks` ticks: the exact offset with its
/// fraction cut off, held at the largest `i32`.
pub open spec fn offset_after(ticks: nat, wpm: nat, period_ms: nat, pixels_per_word: nat) -> i32 {
    let pixels = scaled_offset(ticks, wpm, period_ms, pixels_per_word) / 60000;
    if pixels > i32::MAX {
        i32::MAX
    } else {
        pixels as i32
    }
}

/// The tick count that follows `ticks`; it stays at the largest `u64`.
pub open spec fn next_tick(ticks: u64) -> u64 {
    if ticks < u64::MAX {
        (ticks + 1) as u64
    } else {
        ticks
    }
}

/// The scroll controller as a mathematical value.
pub struct ScrollModel {
    pub config: ScrollConfig,
    pub active: bool,
    /// The rate taken at activation; it holds until the next activation.
    pub wpm: u32,
    /// The ticks since activation.
    pub ticks: u64,
    /// The offset applied last.
    pub offset: i32,
}

impl ScrollModel {
    /// An inactive controller at offset zero.
    pub open spec fn initial(config: ScrollConfig) -> ScrollModel {
        ScrollModel { config, active: false, wpm: 0, ticks: 0, offset: 0 }
    }

    /// The offset never lies above the top of the text.
    pub open spec fn well_formed(self) -> bool {
        self.offset >= 0
    }

    /// The state after an activation at rate `wpm`: counting starts anew.
    pub open spec fn activated(self, wpm: u32) -> ScrollModel {
        ScrollModel { active: true, wpm, ticks: 0, ..self }
    }

    /// The state after a deactivation: the count is gone, the offset stays
    /// where it was.
    pub open spec fn deactivated(self) -> ScrollModel {
        ScrollModel { active: false, ticks: 0, ..self }
    }

    /// The state after one tick. An inactive controller does not move.
    pub open spec fn ticked(self) -> ScrollModel {
        if self.active {
            let ticks = next_tick(self.ticks);
            ScrollModel {
                ticks,
                offset: offset_after(
                    ticks as nat,
                    self.wpm as nat,
                    self.config.period_ms as nat,
                    self.config.pixels_per_word as nat,
                ),
                ..self
            }
        } else {
            self
        }
    }

    /// The state after `n` ticks.
    pub open spec fn ticked_times(self, n: nat) -> ScrollModel
        decreases n,
    {
        if n == 0 {
            self
        } else {
            self.ticked_times((n - 1) as nat).ticked()
        }
    }
}

/// With a step of at least one, a count at or beyond the limit gives the
/// largest offset.
proof fn lemma_large_count_saturates(ticks: nat, step: nat)
    requires
        ticks >= 1,
        step >= 1,
        ticks >= SCALED_LIMIT || step >= SCALED_LIMIT,
    ensures
        (ticks * step) / 60000 >= i32::MAX,
{
    assert(ticks * step >= SCALED_LIMIT) by (nonlinear_arith)
        requires
            ticks >= 1,
            step >= 1,
            ticks >= SCALED_LIMIT || step >= SCALED_LIMIT,
    ;
}

/// Counting on beyond the largest `u64` would not change the offset.
proof fn lemma_count_cap_is_unseen(n: nat, wpm: nat, period_ms: nat, pixels_per_word: nat)
    requires
        n >= u64::MAX,
    ensures
        offset_after(n, wpm, period_ms, pixels_per_word) == offset_after(
            u64::MAX as nat,
            wpm,
            period_ms,
            pixels_per_word,
        ),
{
    let step = step_size(wpm, period_ms, pixels_per_word);
    if step == 0 {
        assert(n * step == 0 && (u64::MAX as nat) * step == 0) by (nonlinear_arith)
            requires
                step == 0,
        ;
    } else {
        lemma_large_count_saturates(n, step);
        lemma_large_count_saturates(u64::MAX as nat, step);
    }
}

/// After an activation at rate `wpm` and `n` ticks the offset is the exact
/// product of tick count, rate, period and pixels per word, over the
/// milliseconds of a minute, in whole pixels. It depends on the number of
/// ticks alone, not on what the controller did before the activation.
pub proof fn lemma_offset_after_ticks(model: ScrollModel, wpm: u32, n: nat)
    requires
        n >= 1,
    ensures
        model.activated(wpm).ticked_times(n).offset == offset_after(
            n,
            wpm as nat,
            model.config.period_ms as nat,
            model.config.pixels_per_word as nat,
        ),
        model.activated(wpm).ticked_times(n).active,
        model.activated(wpm).ticked_times(n).wpm == wpm,
        model.activated(wpm).ticked_times(n).config == model.config,
        model.activated(wpm).ticked_times(n).ticks == if n < u64::MAX {
            n
        } else {
            u64::MAX as nat
        },
    decreases n,
{
    let start = model.activated(wpm);
    if n == 1 {
        assert(start.ticked_times(0) == start);
    } else {
        lemma_offset_after_ticks(model, wpm, (n - 1) as nat);
        if n >= u64::MAX {
            lemma_count_cap_is_unseen(
                n,
                wpm as nat,
                model.config.period_ms as nat,
                model.config.pixels_per_word as nat,
            );
        }
    }
}

/// The whole-pixel offset is the exact offset with its fraction cut off,
/// wherever it is below the largest `i32`.
pub proof fn lemma_offset_is_exact(ticks: nat, wpm: nat, period_ms: nat, pixels_per_word: nat)
    ensures
        offset_after(ticks, wpm, period_ms, pixels_per_word) >= 0,
        offset_after(ticks, wpm, period_ms, pixels_per_word) < i32::MAX ==> {
            let offset = offset_after(ticks, wpm, period_ms, pixels_per_word);
            &&& offset * 60000 <= ticks * wpm * period_ms * pixels_per_word
            &&& ticks * wpm * period_ms * pixels_per_word < (offset + 1) * 60000
        },
{
    let step = step_size(wpm, period_ms, pixels_per_word);
    assert(ticks * wpm * period_ms * pixels_per_word == ticks * step) by (nonlinear_arith)
        requires
            step == wpm * period_ms * pixels_per_word,
    ;
}

/// No tick moves the offset above the top of the text.
pub proof fn lemma_tick_keeps_well_formed(model: ScrollModel)
    requires
        model.well_formed(),
    ensures
        model.ticked().well_formed(),
{
    lemma_offset_is_exact(
        next_tick(model.ticks) as nat,
        model.wpm as nat,
        model.config.period_ms as nat,
        model.config.pixels_per_word as nat,
    );
}

/// Going inactive and active again starts the count anew: one tick later
/// the offset is that of one tick after a first activation.
pub proof fn lemma_reactivation_restarts(model: ScrollModel, wpm: u32)
    ensures
        model.deactivated().activated(wpm).ticked().offset == ScrollModel::initial(
            model.config,
        ).activated(wpm).ticked().offset,
        model.deactivated().activated(wpm).ticks == 0,
{
}

/// The offset in whole pixels after `ticks` ticks.
pub fn offset_at(ticks: u64, wpm: u32, period_ms: u32, pixels_per_word: u32) -> (offset: i32)
    ensures
        offset == offset_after(ticks as nat, wpm as nat, period_ms as nat, pixels_per_word as nat),
{
    assert((wpm as nat) * (period_ms as nat) <= 0xFFFF_FFFF * 0xFFFF_FFFF) by (nonlinear_arith)
        requires
            wpm <= 0xFFFF_FFFF,
            period_ms <= 0xFFFF_FFFF,
    ;
    let area: u64 = (wpm as u64) * (period_ms as u64);
    assert((area as nat) * (pixels_per_word as nat) <= 0xFFFF_FFFF_FFFF_FFFF * 0xFFFF_FFFF)
        by (nonlinear_arith)
        requires
            area <= 0xFFFF_FFFF_FFFF_FFFF,
            pixels_per_word <= 0xFFFF_FFFF,
    ;
    let step: u128 = (area as u128) * (pixels_per_word as u128);
    assert(step == step_size(wpm as nat, period_ms as nat, pixels_per_word as nat));
    if ticks == 0 || step == 0 {
        assert((ticks as nat) * (step as nat) == 0) by (nonlinear_arith)
            requires
                ticks == 0 || step == 0,
        ;
        0
    } else if step >= SCALED_LIMIT || (ticks as u128) >= SCALED_LIMIT {
        proof {
            lemma_large_count_saturates(ticks as nat, step as nat);
        }
        i32::MAX
    } else {
        assert((ticks as nat) * (step as nat) <= SCALED_LIMIT * SCALED_LIMIT) by (nonlinear_arith)
            requires
                ticks < SCALED_LIMIT,
                step < SCALED_LIMIT,
        ;
        let scaled: u128 = (ticks as u128) * step;
        let pixels: u128 = scaled / 60000;
        if pixels > i32::MAX as u128 {
            i32::MAX
        } else {
            pixels as i32
        }
    }
}

/// The scroll controller.
#[derive(Debug)]
pub struct ScrollController {
    config: ScrollConfig,
    active: bool,
    wpm: u32,
    ticks: u64,
    offset: i32,
}

impl View for ScrollController {
    type V = ScrollModel;

    closed spec fn view(&self) -> ScrollModel {
        ScrollModel {
            config: self.config,
            active: self.active,
            wpm: self.wpm,
            ticks: self.ticks,
            offset: self.offset,
        }
    }
}

impl ScrollController {
    /// An inactive controller at offset zero.
    pub fn new(config: ScrollConfig) -> (controller: ScrollController)
        ensures
            controller@ == ScrollModel::initial(config),
    {
        ScrollController { config, active: false, wpm: 0, ticks: 0, offset: 0 }
    }

    /// The configuration the controller was made with.
    pub fn config(&self) -> (config: ScrollConfig)
        ensures
            config == self@.config,
    {
        self.config
    }

    /// Whether the controller is active.
    pub fn is_active(&self) -> (active: bool)
        ensures
            active == self@.active,
    {
        self.active
    }

    /// The offset applied last, in pixels.
    pub fn offset(&self) -> (offset: i32)
        ensures
            offset == self@.offset,
    {
        self.offset
    }

    /// The rate taken at the last activation.
    pub fn rate(&self) -> (wpm: u32)
        ensures
            wpm == self@.wpm,
    {
        self.wpm
    }

    /// The ticks counted since the last activation.
    pub fn ticks(&self) -> (ticks: u64)
        ensures
            ticks == self@.ticks,
    {
        self.ticks
    }

    /// Starts scrolling at rate `initial_wpm`, counting from zero. The rate
    /// holds until the next activation.
    pub fn activate(&mut self, initial_wpm: u32)
        ensures
            final(self)@ == old(self)@.activated(initial_wpm),
    {
        self.active = true;
        self.wpm = initial_wpm;
        self.ticks = 0;
    }

    /// Stops scrolling and forgets the count. The offset stays where it is.
    pub fn deactivate(&mut self)
        ensures
            final(self)@ == old(self)@.deactivated(),
    {
        self.active = false;
        self.ticks = 0;
    }

    /// One tick of the timer. While active, returns the offset to apply;
    /// while inactive, changes nothing and returns `None`.
    pub fn tick(&mut self) -> (applied: Option<i32>)
        ensures
            final(self)@ == old(self)@.ticked(),
            old(self)@.well_formed() ==> final(self)@.well_formed(),
            applied == if old(self)@.active {
                Some(final(self)@.offset)
            } else {
                None::<i32>
            },
    {
        if !self.active {
            return None;
        }
        proof {
            lemma_offset_is_exact(
                next_tick(self.ticks) as nat,
                self.wpm as nat,
                self.config.period_ms as nat,
                self.config.pixels_per_word as nat,
            );
        }
        if self.ticks < u64::MAX {
            self.ticks = self.ticks + 1;
        }
        self.offset = offset_at(
            self.ticks,
            self.wpm,
            self.config.period_ms,
            self.config.pixels_per_word,
        );
        Some(self.offset)
    }
}

} // verus!
