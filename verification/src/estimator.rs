//! The live words-per-minute estimate, derived from cumulative transcripts.

use vstd::prelude::*;
use vstd::string::StrSliceExecFns;
use vstd::string::StringExecFns;
use vstd::std_specs::iter::IteratorSpec;

verus! {

/// The estimate in force before any transcript has moved it.
pub const DEFAULT_WPM: u32 = 120;

/// The time from the start of the session, in milliseconds, that must have
/// passed before a transcript moves the estimate.
pub const WARMUP_MS: u64 = 1000;

/// Milliseconds in a minute.
pub const MS_PER_MINUTE: u64 = 60000;

/// Whether `c` is white space in the sense of Unicode's `White_Space`
/// property.
pub open spec fn is_space(c: char) -> bool {
    let code = c as u32;
    ||| 0x09 <= code <= 0x0D
    ||| code == 0x20
    ||| code == 0x85
    ||| code == 0xA0
    ||| code == 0x1680
    ||| 0x2000 <= code <= 0x200A
    ||| code == 0x2028
    ||| code == 0x2029
    ||| code == 0x202F
    ||| code == 0x205F
    ||| code == 0x3000
}

/// Whether a word begins at position `i` of `text`: a character that is not
/// white space, at the start or right after white space.
pub open spec fn word_begins(text: Seq<char>, i: int) -> bool {
    &&& 0 <= i < text.len()
    &&& !is_space(text[i])
    &&& (i == 0 || is_space(text[i - 1]))
}

/// The number of words that begin in the first `n` positions of `text`.
pub open spec fn words_before(text: Seq<char>, n: int) -> nat
    decreases n,
{
    if n <= 0 {
        0
    } else {
        words_before(text, n - 1) + if word_begins(text, n - 1) {
            1nat
        } else {
            0nat
        }
    }
}

/// The number of words in `text`: maximal runs of characters that are not
/// white space.
pub open spec fn word_count(text: Seq<char>) -> nat {
    words_before(text, text.len() as int)
}

/// No more words begin in a stretch of text than it has characters.
pub proof fn lemma_words_bounded(text: Seq<char>, n: int)
    requires
        0 <= n <= text.len(),
    ensures
        words_before(text, n) <= n,
    decreases n,
{
    if n > 0 {
        lemma_words_bounded(text, n - 1);
    }
}

/// Returns whether `c` is white space.
pub fn is_whitespace(c: char) -> (space: bool)
    ensures
        space == is_space(c),
{
    let code: u32 = c as u32;
    (0x09 <= code && code <= 0x0D) || code == 0x20 || code == 0x85 || code == 0xA0 || code
        == 0x1680 || (0x2000 <= code && code <= 0x200A) || code == 0x2028 || code == 0x2029
        || code == 0x202F || code == 0x205F || code == 0x3000
}

/// Counts the words of `text`.
pub fn count_words(text: &str) -> (words: usize)
    ensures
        words == word_count(text@),
{
    let n: usize = text.unicode_len();
    let mut chars = text.chars();
    let mut i: usize = 0;
    let mut words: usize = 0;
    let mut after_space: bool = true;
    proof {
        broadcast use vstd::string::axiom_spec_iter;
    }
    loop
        invariant
            n == text@.len(),
            i <= n,
            chars.obeys_prophetic_iter_laws(),
            chars.remaining() == text@.skip(i as int),
            words == words_before(text@, i as int),
            after_space == (i == 0 || is_space(text@[i - 1])),
        ensures
            i == n,
        decreases n - i,
    {
        let next = chars.next();
        proof {
            broadcast use vstd::string::next_postcondition;
        }
        match next {
            None => {
                assert(i == n);
                break;
            },
            Some(c) => {
                assert(c == text@[i as int]);
                let space = is_whitespace(c);
                proof {
                    lemma_words_bounded(text@, i as int);
                }
                if !space && after_space {
                    words += 1;
                }
                after_space = space;
                i += 1;
                assert(text@.skip(i - 1).drop_first() =~= text@.skip(i as int));
            },
        }
    }
    words
}

/// The results of one recognition event put together: every part followed
/// by one space.
pub open spec fn joined(parts: Seq<String>) -> Seq<char>
    decreases parts.len(),
{
    if parts.len() == 0 {
        Seq::<char>::empty()
    } else {
        joined(parts.drop_last()) + parts.last()@ + seq![' ']
    }
}

/// Puts the parts of one recognition event together into the cumulative
/// transcript: every part followed by one space.
pub fn assemble_transcript(parts: &Vec<String>) -> (transcript: String)
    ensures
        transcript@ == joined(parts@),
{
    let mut transcript = String::new();
    let mut i: usize = 0;
    while i < parts.len()
        invariant
            i <= parts@.len(),
            transcript@ == joined(parts@.take(i as int)),
        decreases parts@.len() - i,
    {
        transcript.append(parts[i].as_str());
        transcript.append(" ");
        i += 1;
        proof {
            reveal_strlit(" ");
            let taken = parts@.take(i as int);
            assert(taken.drop_last() =~= parts@.take(i - 1));
            assert(" "@ =~= seq![' ']);
        }
    }
    assert(parts@.take(i as int) =~= parts@);
    transcript
}

/// `words` words in `elapsed_ms` milliseconds as words per minute, rounded
/// to the nearest whole number, a half rounded up.
pub open spec fn rounded_rate(words: nat, elapsed_ms: nat) -> nat
    recommends
        elapsed_ms > 0,
{
    ((2 * MS_PER_MINUTE * words + elapsed_ms) as int / (2 * elapsed_ms) as int) as nat
}

/// `rate` as an estimate: rates beyond the largest `u32` are held at it.
pub open spec fn held_rate(rate: nat) -> u32 {
    if rate > u32::MAX {
        u32::MAX
    } else {
        rate as u32
    }
}

/// The estimate after a transcript of `words` words that arrived
/// `elapsed_ms` milliseconds into the session: the rounded rate once the
/// warm-up time is over, the previous estimate before.
pub open spec fn next_estimate(previous: u32, words: nat, elapsed_ms: nat) -> u32 {
    if elapsed_ms > WARMUP_MS {
        held_rate(rounded_rate(words, elapsed_ms))
    } else {
        previous
    }
}

/// The rounded rate is the whole number nearest to the exact rate
/// `words * 60000 / elapsed_ms`: it lies at most a half below the exact rate
/// and less than a half above it.
pub proof fn lemma_rate_is_nearest(words: nat, elapsed_ms: nat)
    requires
        elapsed_ms > 0,
    ensures
        2 * rounded_rate(words, elapsed_ms) * elapsed_ms - elapsed_ms <= 2 * MS_PER_MINUTE * words,
        2 * MS_PER_MINUTE * words < 2 * rounded_rate(words, elapsed_ms) * elapsed_ms + elapsed_ms,
{
    let a: int = (2 * MS_PER_MINUTE * words + elapsed_ms) as int;
    let b: int = (2 * elapsed_ms) as int;
    let q: int = a / b;
    assert(q * b <= a < q * b + b) by (nonlinear_arith)
        requires
            b > 0,
            q == a / b,
    ;
    assert(q * b == 2 * q * elapsed_ms) by (nonlinear_arith)
        requires
            b == 2 * elapsed_ms,
    ;
}

/// Before the warm-up time is over a transcript leaves the estimate as it
/// was, whatever it says.
pub proof fn lemma_warmup_keeps_estimate(previous: u32, words: nat, elapsed_ms: nat)
    requires
        elapsed_ms <= WARMUP_MS,
    ensures
        next_estimate(previous, words, elapsed_ms) == previous,
{
}

/// The estimate after a transcript of `words` words that arrived
/// `elapsed_ms` milliseconds into the session.
pub fn estimate(previous: u32, words: usize, elapsed_ms: u64) -> (wpm: u32)
    ensures
        wpm == next_estimate(previous, words as nat, elapsed_ms as nat),
{
    if elapsed_ms > WARMUP_MS {
        let twice_per_minute: u128 = 2 * (MS_PER_MINUTE as u128);
        let counted: u128 = words as u128;
        assert(twice_per_minute == 120000 && counted <= u64::MAX);
        let doubled: u128 = twice_per_minute * counted + (elapsed_ms as u128);
        assert(doubled == 2 * MS_PER_MINUTE * (words as nat) + (elapsed_ms as nat));
        let divisor: u128 = 2 * (elapsed_ms as u128);
        let rate: u128 = doubled / divisor;
        if rate > u32::MAX as u128 {
            u32::MAX
        } else {
            rate as u32
        }
    } else {
        previous
    }
}

/// The time from `start_ms` to `now_ms`; none if the clock reads earlier
/// than the start.
pub open spec fn elapsed_between(start_ms: u64, now_ms: u64) -> nat {
    if now_ms >= start_ms {
        (now_ms - start_ms) as nat
    } else {
        0
    }
}

/// Where speech recognition stands.
#[derive(Clone, Copy, Debug, PartialEq, Eq, Structural)]
pub enum RecognitionState {
    /// Recognition has not been asked for yet.
    NotStarted,
    /// Recognition runs and delivers transcripts.
    Listening,
    /// Recognition was released; late transcripts are ignored.
    Stopped,
    /// Recognition could not be had; the estimate stays at its default.
    Unavailable,
}

/// The estimator as a mathematical value.
pub struct EstimatorModel {
    pub state: RecognitionState,
    pub start_ms: u64,
    pub wpm: u32,
    pub text: Seq<char>,
}

impl EstimatorModel {
    /// The state of a fresh estimator.
    pub open spec fn initial() -> EstimatorModel {
        EstimatorModel {
            state: RecognitionState::NotStarted,
            start_ms: 0,
            wpm: DEFAULT_WPM,
            text: Seq::<char>::empty(),
        }
    }

    /// The state after the one start of recognition at `now_ms`. A second
    /// start changes nothing.
    pub open spec fn after_begin(self, now_ms: u64, available: bool) -> EstimatorModel {
        if self.state != RecognitionState::NotStarted {
            self
        } else if available {
            EstimatorModel { state: RecognitionState::Listening, start_ms: now_ms, ..self }
        } else {
            EstimatorModel { state: RecognitionState::Unavailable, ..self }
        }
    }

    /// The state after the cumulative transcript `text` arrived at `now_ms`.
    /// Without a running recognition nothing changes.
    pub open spec fn after_result(self, text: Seq<char>, now_ms: u64) -> EstimatorModel {
        if self.state != RecognitionState::Listening {
            self
        } else {
            EstimatorModel {
                text: text,
                wpm: next_estimate(
                    self.wpm,
                    word_count(text),
                    elapsed_between(self.start_ms, now_ms),
                ),
                ..self
            }
        }
    }

    /// The state after recognition was released.
    pub open spec fn after_teardown(self) -> EstimatorModel {
        if self.state == RecognitionState::Listening {
            EstimatorModel { state: RecognitionState::Stopped, ..self }
        } else {
            self
        }
    }
}

/// The words-per-minute estimator.
#[derive(Debug)]
pub struct TranscriptEstimator {
    state: RecognitionState,
    start_ms: u64,
    wpm: u32,
    text: String,
}

impl View for TranscriptEstimator {
    type V = EstimatorModel;

    closed spec fn view(&self) -> EstimatorModel {
        EstimatorModel {
            state: self.state,
            start_ms: self.start_ms,
            wpm: self.wpm,
            text: self.text@,
        }
    }
}

impl TranscriptEstimator {
    /// An estimator that has not started, with the default estimate.
    pub fn new() -> (estimator: TranscriptEstimator)
        ensures
            estimator@ == EstimatorModel::initial(),
    {
        TranscriptEstimator {
            state: RecognitionState::NotStarted,
            start_ms: 0,
            wpm: DEFAULT_WPM,
            text: String::new(),
        }
    }

    /// The current estimate in words per minute.
    pub fn wpm(&self) -> (wpm: u32)
        ensures
            wpm == self@.wpm,
    {
        self.wpm
    }

    /// Where recognition stands.
    pub fn state(&self) -> (state: RecognitionState)
        ensures
            state == self@.state,
    {
        self.state
    }

    /// The cumulative transcript received last.
    pub fn transcript(&self) -> (text: &str)
        ensures
            text@ == self@.text,
    {
        self.text.as_str()
    }

    /// Starts the estimator at `now_ms`, once: with recognition at hand it
    /// listens from then on, without it the estimate stays at its default
    /// for good. Returns whether the host has to start recognition.
    pub fn begin(&mut self, now_ms: u64, available: bool) -> (start: bool)
        ensures
            final(self)@ == old(self)@.after_begin(now_ms, available),
            start == (old(self)@.state == RecognitionState::NotStarted && available),
    {
        if self.state != RecognitionState::NotStarted {
            false
        } else if available {
            self.state = RecognitionState::Listening;
            self.start_ms = now_ms;
            true
        } else {
            self.state = RecognitionState::Unavailable;
            false
        }
    }

    /// Takes in the cumulative transcript that arrived at `now_ms`. Returns
    /// whether the estimate was computed anew.
    pub fn on_result(&mut self, transcript: &str, now_ms: u64) -> (recomputed: bool)
        ensures
            final(self)@ == old(self)@.after_result(transcript@, now_ms),
            recomputed == (old(self)@.state == RecognitionState::Listening && elapsed_between(
                old(self)@.start_ms,
                now_ms,
            ) > WARMUP_MS),
    {
        if self.state != RecognitionState::Listening {
            return false;
        }
        let words = count_words(transcript);
        let elapsed: u64 = if now_ms >= self.start_ms {
            now_ms - self.start_ms
        } else {
            0
        };
        self.text = transcript.to_owned();
        self.wpm = estimate(self.wpm, words, elapsed);
        elapsed > WARMUP_MS
    }

    /// Releases recognition. Returns whether the host has a running
    /// recognition to stop.
    pub fn teardown(&mut self) -> (release: bool)
        ensures
            final(self)@ == old(self)@.after_teardown(),
            release == (old(self)@.state == RecognitionState::Listening),
    {
        if self.state == RecognitionState::Listening {
            self.state = RecognitionState::Stopped;
            true
        } else {
            false
        }
    }
}

} // verus!
