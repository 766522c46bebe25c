//! A typing session: the reference text, the keystroke history matched
//! against it, the limit policy that ends it, and its statistics.

use vstd::prelude::*;

verus! {

/// How the reference text is presented while typing.
#[derive(Clone, Copy, Debug, PartialEq, Eq, Structural)]
pub enum GameMode {
    Normal,
    Rewrite,
}

/// The rule, besides typing the whole text, that ends a session.
#[derive(Clone, Copy, Debug, PartialEq, Eq, Structural)]
pub enum Limit {
    /// Ends once this many whole seconds have passed since the start.
    Time(u64),
    /// Ends once this many words of the reference have been completed.
    WordCount(u32),
    Unbounded,
}

/// Settings chosen before a session starts.
#[derive(Clone, Copy, Debug, PartialEq, Eq, Structural)]
pub struct GameConf {
    pub mode: GameMode,
    pub limit: Limit,
}

/// Number of seconds of the default time limit.
pub const DEFAULT_TIME_LIMIT_SECS: u64 = 30;

impl GameConf {
    /// Normal mode with a thirty second time limit.
    pub fn new() -> (r: GameConf)
        ensures
            r.mode == GameMode::Normal,
            r.limit == Limit::Time(DEFAULT_TIME_LIMIT_SECS),
    {
        GameConf { mode: GameMode::Normal, limit: Limit::Time(DEFAULT_TIME_LIMIT_SECS) }
    }
}

/// Classification of one position of the reference text.
#[derive(Clone, Copy, Debug, PartialEq, Eq, Structural)]
pub enum FieldState {
    Unfilled,
    Correct,
    Wrong,
}

/// One position of the reference text: the expected character and its state.
#[derive(Clone, Copy, Debug, PartialEq, Eq, Structural)]
pub struct Letter {
    pub c: char,
    pub state: FieldState,
}


/// Why a session could not be set up.
#[derive(Clone, Copy, Debug, PartialEq, Eq, Structural)]
pub enum GameError {
    /// The corpus is too long to model.
    CorpusTooLarge,
    /// The corpus has no space, so no word can follow another.
    CorpusWithoutSpaces,
    /// The generated text is too long for the word and stroke counters.
    TextTooLong,
}

/// Corpus length, in characters, from which the generator is not used.
pub const CORPUS_CHAR_LIMIT: usize = 0x7fff_fffe;

/// Text of `word_count - 1` words, each followed by one space, the words
/// holding no space themselves.
pub open spec fn generated_shape(t: Seq<char>, word_count: u32) -> bool {
    &&& space_count(t) == if word_count == 0 {
        0
    } else {
        word_count - 1
    }
    &&& word_count >= 2 ==> t.len() > 0 && t.last() == ' '
    &&& word_count <= 1 ==> t.len() == 0
}

/// Characters of the sample text that markov_rope generates from by default.
pub const MARKOV_SAMPLE_CHARS: usize = 1766;

/// Longest text written for `word_count` words drawn from a corpus of
/// `corpus_len` characters: each word is a piece of the corpus, followed by
/// one space.
pub open spec fn generated_len_bound(word_count: u32, corpus_len: nat) -> nat {
    if word_count == 0 {
        0
    } else {
        ((word_count - 1) * (corpus_len + 1)) as nat
    }
}

/// Relies on markov_rope::MarkovChain::default and
/// MarkovChain::generate_text: a chain built from the crate's sample text
/// always has a map, so generation succeeds and writes `word_count - 1`
/// words cut at spaces from that text, each followed by a space.
#[verifier::external_body]
fn generate_default_text(word_count: u32) -> (r: Result<Vec<char>, String>)
    ensures
        r is Ok,
        r matches Ok(t) ==> generated_shape(t@, word_count) && t@.len() <= generated_len_bound(
            word_count,
            MARKOV_SAMPLE_CHARS as nat,
        ),
{
    match markov_rope::MarkovChain::default().generate_text(word_count) {
        Ok(text) => Ok(text.chars().collect()),
        Err(e) => Err(e),
    }
}

/// Relies on markov_rope::MarkovChain::from_string and
/// MarkovChain::generate_text: a chain built from `corpus` always has a map,
/// so generation succeeds and writes `word_count - 1` words cut at spaces,
/// each followed by a space. Word choice panics on an empty map, which a
/// corpus without a space gives, unless at most one word is asked for.
#[verifier::external_body]
fn generate_text_from(corpus: &str, word_count: u32) -> (r: Result<Vec<char>, String>)
    requires
        corpus@.len() < CORPUS_CHAR_LIMIT,
        corpus@.contains(' ') || word_count <= 1,
    ensures
        r is Ok,
        r matches Ok(t) ==> generated_shape(t@, word_count) && t@.len() <= generated_len_bound(
            word_count,
            corpus@.len(),
        ),
{
    match markov_rope::MarkovChain::from_string(corpus).generate_text(word_count) {
        Ok(text) => Ok(text.chars().collect()),
        Err(e) => Err(e),
    }
}

/// Relies on str::chars: the characters of `s` in order.
#[verifier::external_body]
pub(crate) fn chars_of(s: &str) -> (r: Vec<char>)
    ensures
        r@ == s@,
{
    s.chars().collect()
}

/// Words asked of the generator for a session: one more than a word-count
/// limit (saturating), else `size`, cut to 32 bits.
pub open spec fn requested_words(size: usize, limit: Limit) -> u32 {
    match limit {
        Limit::WordCount(t) => if t == u32::MAX {
            t
        } else {
            (t + 1) as u32
        },
        _ => size as u32,
    }
}

/// The corpus handed to the generator: the given text, or none.
pub open spec fn corpus_of(text: Option<String>) -> Seq<char> {
    match text {
        Some(t) => t@,
        None => Seq::empty(),
    }
}

/// Length of the corpus the generator draws from: the given text, or the
/// generator's own sample when that is empty.
pub open spec fn generator_corpus_len(text: Option<String>) -> nat {
    if corpus_of(text).len() == 0 {
        MARKOV_SAMPLE_CHARS as nat
    } else {
        corpus_of(text).len()
    }
}

/// The corpus cannot be used: it is too long, or it has no space while
/// more than one word is asked for.
pub open spec fn corpus_rejected(size: usize, conf: GameConf, text: Option<String>) -> bool {
    ||| corpus_of(text).len() >= CORPUS_CHAR_LIMIT
    ||| (corpus_of(text).len() > 0 && !corpus_of(text).contains(' ') && requested_words(
        size,
        conf.limit,
    ) >= 2)
}

/// Starting a session cannot fail: the corpus is usable and even the
/// longest text it can give fits the counters.
pub open spec fn new_game_succeeds(size: usize, conf: GameConf, text: Option<String>) -> bool {
    &&& !corpus_rejected(size, conf, text)
    &&& generated_len_bound(requested_words(size, conf.limit), generator_corpus_len(text))
        < u32::MAX
}

/// Statistics of a session. The counters and the speed series are kept up
/// to date while typing; the word counts and `time_finished` are filled in
/// when a snapshot is taken.
#[derive(Clone, Debug)]
pub struct GameStat {
    pub correct_strokes: u32,
    pub wrong_strokes: u32,
    pub wrong_letters: u32,
    pub correct_words: u32,
    /// Words completed correctly since the previous sample, one entry per sample.
    pub speed_stat: Vec<u32>,
    pub total_words: u32,
    /// Milliseconds since the Unix epoch.
    pub time_started: u64,
    /// Milliseconds since the Unix epoch.
    pub time_finished: u64,
    pub intervals: i32,
}

/// One attempt at typing a reference text.
#[derive(Clone, Debug)]
pub struct Game {
    pub correct_text: Vec<char>,
    pub written_vec: Vec<Letter>,
    pub statistics: GameStat,
    pub game_conf: GameConf,
}

/// Number of letters of `h` in state `s`.
pub open spec fn count_state(h: Seq<Letter>, s: FieldState) -> nat
    decreases h.len(),
{
    if h.len() == 0 {
        0
    } else {
        count_state(h.drop_last(), s) + if h.last().state == s { 1nat } else { 0nat }
    }
}

/// Number of space characters in `t`.
pub open spec fn space_count(t: Seq<char>) -> nat
    decreases t.len(),
{
    if t.len() == 0 {
        0
    } else {
        space_count(t.drop_last()) + if t.last() == ' ' { 1nat } else { 0nat }
    }
}

/// Sum of a speed series.
pub open spec fn series_sum(s: Seq<u32>) -> nat
    decreases s.len(),
{
    if s.len() == 0 {
        0
    } else {
        series_sum(s.drop_last()) + s.last() as nat
    }
}

/// Every letter after the last space of the reference in `h` is correct.
pub open spec fn trailing_clean(h: Seq<Letter>) -> bool
    decreases h.len(),
{
    if h.len() == 0 || h.last().c == ' ' {
        true
    } else {
        h.last().state == FieldState::Correct && trailing_clean(h.drop_last())
    }
}

/// Number of words of `h` that end in a space and whose letters, that space
/// included, are all correct.
pub open spec fn closed_correct_words(h: Seq<Letter>) -> nat
    decreases h.len(),
{
    if h.len() == 0 {
        0
    } else {
        closed_correct_words(h.drop_last()) + if h.last().c == ' ' && h.last().state
            == FieldState::Correct && trailing_clean(h.drop_last()) {
            1nat
        } else {
            0nat
        }
    }
}

/// Correct words of a history over a reference of `text_len` characters:
/// the correct words that end in a space, plus the final word of the
/// reference when it does not end in a space, has been typed to its end,
/// and is all correct. A word still being typed does not count.
pub open spec fn correct_words(h: Seq<Letter>, text_len: nat) -> nat {
    closed_correct_words(h) + if h.len() == text_len && h.len() > 0 && h.last().c != ' '
        && trailing_clean(h) {
        1nat
    } else {
        0nat
    }
}

/// Words of the reference completed by typing its first `typed` characters.
pub open spec fn completed_words(text: Seq<char>, typed: nat) -> nat {
    space_count(text.subrange(0, typed as int))
}

/// Total words counted for a session: the completed words plus one for the
/// word under the cursor, which exists whenever the reference is not empty.
pub open spec fn total_words(text: Seq<char>, typed: nat) -> nat {
    completed_words(text, typed) + if text.len() > 0 { 1nat } else { 0nat }
}

/// The letter recorded for a keystroke `typed` where `expected` was due: it
/// always holds the expected character.
pub open spec fn typed_letter(expected: char, typed: char) -> Letter {
    Letter {
        c: expected,
        state: if expected == typed {
            FieldState::Correct
        } else {
            FieldState::Wrong
        },
    }
}

/// The history after one backspace: the last letter goes, if there is one.
pub open spec fn backspace_history(h: Seq<Letter>) -> Seq<Letter> {
    if h.len() == 0 {
        h
    } else {
        h.drop_last()
    }
}

/// Length of the longest prefix of `h` that is empty or ends in a correctly
/// typed space.
pub open spec fn word_boundary(h: Seq<Letter>) -> nat
    decreases h.len(),
{
    if h.len() == 0 {
        0
    } else if h.last().c == ' ' && h.last().state == FieldState::Correct {
        h.len()
    } else {
        word_boundary(h.drop_last())
    }
}

/// Length that undoing a word keeps of `h`: at least one letter goes, then
/// letters go until the history is empty or ends in a correct space.
pub open spec fn word_undo_len(h: Seq<Letter>) -> nat {
    if h.len() == 0 {
        0
    } else {
        word_boundary(h.drop_last())
    }
}

/// The sample registered when `count` words are correct and `series` was
/// recorded so far: the words gained since, or 0 when words were lost.
pub open spec fn speed_sample(series: Seq<u32>, count: nat) -> nat {
    if count >= series_sum(series) {
        (count - series_sum(series)) as nat
    } else {
        0
    }
}

/// The letter shown at position `i` of a session: the typed letter there,
/// or the reference character as an unfilled letter.
pub open spec fn rendered_at(text: Seq<char>, h: Seq<Letter>, i: int) -> Letter {
    if i < h.len() {
        h[i]
    } else {
        Letter { c: text[i], state: FieldState::Unfilled }
    }
}

/// Letters shown for a session: one per position of the reference.
pub open spec fn is_rendering(r: Seq<Letter>, text: Seq<char>, h: Seq<Letter>) -> bool {
    &&& r.len() == text.len()
    &&& forall|i: int| 0 <= i < r.len() ==> #[trigger] r[i] == rendered_at(text, h, i)
}

/// The letter for reference character `c` in state `state`.
fn make_letter(c: char, state: FieldState) -> (r: Letter)
    ensures
        r == (Letter { c, state }),
{
    Letter { c, state }
}

proof fn lemma_prefix_sum_le(s: Seq<u32>, i: int)
    requires
        0 <= i <= s.len(),
    ensures
        series_sum(s.subrange(0, i)) <= series_sum(s),
    decreases s.len(),
{
    if i < s.len() {
        assert(s.drop_last() =~= s.subrange(0, s.len() - 1));
        assert(s.drop_last().subrange(0, i) =~= s.subrange(0, i));
        lemma_prefix_sum_le(s.drop_last(), i);
    } else {
        assert(s.subrange(0, i) =~= s);
    }
}

proof fn lemma_count_state_le(h: Seq<Letter>, s: FieldState)
    ensures
        count_state(h, s) <= h.len(),
    decreases h.len(),
{
    if h.len() > 0 {
        lemma_count_state_le(h.drop_last(), s);
    }
}

proof fn lemma_word_boundary_le(h: Seq<Letter>)
    ensures
        word_boundary(h) <= h.len(),
    decreases h.len(),
{
    if h.len() > 0 {
        lemma_word_boundary_le(h.drop_last());
    }
}

/// The speed series recorded by registering a sample at each of `counts`,
/// the correct-word counts at successive word boundaries, from no sample.
pub open spec fn series_from(counts: Seq<nat>) -> Seq<u32>
    decreases counts.len(),
{
    if counts.len() == 0 {
        Seq::empty()
    } else {
        let prev = series_from(counts.drop_last());
        prev.push(speed_sample(prev, counts.last()) as u32)
    }
}

/// Backspace on an empty history changes nothing, however often it is
/// repeated.
pub proof fn backspace_on_empty_is_noop(h: Seq<Letter>)
    requires
        h.len() == 0,
    ensures
        backspace_history(h) == h,
        backspace_history(backspace_history(h)) == h,
{
}

/// A backspace right after a keystroke restores the history and the
/// correct-stroke counter; a wrong keystroke stays counted (below the
/// counter's largest value).
pub proof fn backspace_undoes_keystroke(g0: Game, g1: Game, g2: Game, c: char)
    requires
        g0.written_vec@.len() < g0.correct_text@.len(),
        g0.statistics.wrong_strokes < u32::MAX,
        g1.keystroke_of(&g0, c),
        g2.backspace_of(&g1),
    ensures
        g2.written_vec@ == g0.written_vec@,
        g2.statistics.correct_strokes == g0.statistics.correct_strokes,
        g2.statistics.wrong_strokes == g0.statistics.wrong_strokes + if c
            == g0.correct_text@[g0.written_vec@.len() as int] {
            0int
        } else {
            1int
        },
{
    assert(g1.written_vec@.drop_last() =~= g0.written_vec@);
}

/// A speed sample taken when the series sums to at most the correct-word
/// count brings the sum up to that count.
pub proof fn speed_sample_reaches_count(series: Seq<u32>, count: nat)
    requires
        series_sum(series) <= count,
        count <= u32::MAX,
    ensures
        series_sum(series.push(speed_sample(series, count) as u32)) == count,
{
    assert(series.push(speed_sample(series, count) as u32).drop_last() =~= series);
}

/// While words are only gained, the series sampled at each word boundary
/// sums, at every boundary, to the correct-word count there.
pub proof fn speed_series_tracks_correct_words(counts: Seq<nat>)
    requires
        forall|i: int, j: int| 0 <= i <= j < counts.len() ==> counts[i] <= counts[j],
        forall|i: int| 0 <= i < counts.len() ==> counts[i] <= u32::MAX,
    ensures
        forall|k: int|
            1 <= k <= counts.len() ==> series_sum(#[trigger] series_from(counts.take(k)))
                == counts[k - 1],
    decreases counts.len(),
{
    if counts.len() > 0 {
        let prev = counts.drop_last();
        speed_series_tracks_correct_words(prev);
        assert forall|k: int|
            1 <= k <= counts.len() implies series_sum(#[trigger] series_from(counts.take(k)))
                == counts[k - 1] by {
            if k < counts.len() {
                assert(prev.take(k) =~= counts.take(k));
            } else {
                assert(counts.take(k) =~= counts);
                assert(counts.drop_last() =~= prev);
                let s = series_from(prev);
                if prev.len() > 0 {
                    assert(prev.take(prev.len() as int) =~= prev);
                    assert(series_sum(s) == prev[prev.len() - 1]);
                }
                speed_sample_reaches_count(s, counts.last());
            }
        }
    }
}

/// Relies on std::time::SystemTime::now: the wall-clock time, read as
/// milliseconds since the Unix epoch (0 for a clock set before the epoch).
#[verifier::external_body]
fn now_millis() -> (r: u64) {
    match std::time::SystemTime::now().duration_since(std::time::UNIX_EPOCH) {
        Ok(d) => d.as_millis() as u64,
        Err(_) => 0,
    }
}

impl GameStat {
    /// All scalar statistics of `self` and `o` agree, except the stroke counters.
    pub open spec fn same_snapshot_fields(&self, o: &GameStat) -> bool {
        &&& self.wrong_letters == o.wrong_letters
        &&& self.correct_words == o.correct_words
        &&& self.total_words == o.total_words
        &&& self.time_started == o.time_started
        &&& self.time_finished == o.time_finished
        &&& self.intervals == o.intervals
    }

    /// `self` and `o` hold the same statistics.
    pub open spec fn same_as(&self, o: &GameStat) -> bool {
        &&& self.same_snapshot_fields(o)
        &&& self.correct_strokes == o.correct_strokes
        &&& self.wrong_strokes == o.wrong_strokes
        &&& self.speed_stat@ == o.speed_stat@
    }

    /// Milliseconds between the start and the end of the snapshot (0 if the
    /// clock went back).
    pub open spec fn spec_elapsed_ms(&self) -> nat {
        if self.time_finished >= self.time_started {
            (self.time_finished - self.time_started) as nat
        } else {
            0
        }
    }

    /// Percentage of correct strokes among all strokes, rounded to the
    /// nearest integer (halves up); 0 when there was no stroke.
    pub open spec fn spec_accuracy(&self) -> nat {
        let total = self.correct_strokes + self.wrong_strokes;
        if total == 0 {
            0
        } else {
            ((200 * self.correct_strokes + total) / (2 * total)) as nat
        }
    }

    /// Accuracy in percent (see `spec_accuracy`).
    pub fn accuracy(&self) -> (r: u32)
        ensures
            r == self.spec_accuracy(),
            r <= 100,
    {
        let c = self.correct_strokes as u64;
        let total = c + self.wrong_strokes as u64;
        if total == 0 {
            0
        } else {
            proof {
                assert((200 * (c as int) + (total as int)) / (2 * (total as int)) <= 100)
                    by (nonlinear_arith)
                    requires
                        c <= total,
                        total > 0,
                ;
            }
            ((200 * c + total) / (2 * total)) as u32
        }
    }

    /// Correct words per minute over the snapshot, rounded to the nearest
    /// integer (halves up); `None` when no time has passed.
    pub fn words_per_minute(&self) -> (r: Option<u64>)
        ensures
            self.spec_elapsed_ms() == 0 ==> r is None,
            self.spec_elapsed_ms() > 0 ==> r == Some(
                ((self.correct_words * 120000 + self.spec_elapsed_ms()) / (2
                    * self.spec_elapsed_ms() as int)) as u64,
            ),
    {
        let elapsed: u64 = if self.time_finished >= self.time_started {
            self.time_finished - self.time_started
        } else {
            0
        };
        if elapsed == 0 {
            None
        } else {
            let words = self.correct_words as u64;
            let e = elapsed as u128;
            let num = words as u128 * 120000 + e;
            let r = num / (2 * e);
            proof {
                assert(r as int <= (words as int) * 120000 + 1) by (nonlinear_arith)
                    requires
                        e > 0,
                        r == ((words as int) * 120000 + (e as int)) / (2 * (e as int)),
                ;
            }
            Some(r as u64)
        }
    }

    /// A copy of these statistics.
    pub fn copied(&self) -> (r: GameStat)
        ensures
            r.same_as(self),
    {
        GameStat {
            correct_strokes: self.correct_strokes,
            wrong_strokes: self.wrong_strokes,
            wrong_letters: self.wrong_letters,
            correct_words: self.correct_words,
            speed_stat: self.speed_stat.clone(),
            total_words: self.total_words,
            time_started: self.time_started,
            time_finished: self.time_finished,
            intervals: self.intervals,
        }
    }

    /// Empty statistics started now.
    pub fn new() -> (r: GameStat)
        ensures
            r.correct_strokes == 0,
            r.wrong_strokes == 0,
            r.wrong_letters == 0,
            r.correct_words == 0,
            r.total_words == 0,
            r.speed_stat@.len() == 0,
            r.time_finished == r.time_started,
            r.intervals == 0,
    {
        let now = now_millis();
        GameStat {
            correct_strokes: 0,
            wrong_strokes: 0,
            wrong_letters: 0,
            correct_words: 0,
            speed_stat: Vec::new(),
            total_words: 0,
            time_started: now,
            time_finished: now,
            intervals: 0,
        }
    }
}

impl Game {
    /// The history matches the reference letter by letter, never runs past
    /// it, and the counters agree with it.
    pub open spec fn wf(&self) -> bool {
        &&& self.written_vec@.len() <= self.correct_text@.len()
        &&& self.correct_text@.len() < u32::MAX
        &&& forall|i: int|
            0 <= i < self.written_vec@.len() ==> (#[trigger] self.written_vec@[i]).c
                == self.correct_text@[i] && self.written_vec@[i].state != FieldState::Unfilled
        &&& self.statistics.correct_strokes == count_state(self.written_vec@, FieldState::Correct)
        &&& series_sum(self.statistics.speed_stat@) <= u32::MAX
    }

    /// Correct words of the history.
    pub open spec fn spec_correct_words(&self) -> nat {
        correct_words(self.written_vec@, self.correct_text@.len())
    }

    /// Total words of the session so far.
    pub open spec fn spec_total_words(&self) -> nat {
        total_words(self.correct_text@, self.written_vec@.len())
    }

    /// `self` and `o` hold the same session.
    pub open spec fn same_as(&self, o: &Game) -> bool {
        &&& self.correct_text@ == o.correct_text@
        &&& self.written_vec@ == o.written_vec@
        &&& self.game_conf == o.game_conf
        &&& self.statistics.same_as(&o.statistics)
    }

    /// A copy of this session.
    pub fn copied(&self) -> (r: Game)
        ensures
            r.same_as(self),
    {
        Game {
            correct_text: self.correct_text.clone(),
            written_vec: self.written_vec.clone(),
            statistics: self.statistics.copied(),
            game_conf: self.game_conf,
        }
    }

    /// A session that has not started: nothing typed, no stroke, no sample.
    pub open spec fn is_fresh(&self, conf: GameConf) -> bool {
        &&& self.wf()
        &&& self.written_vec@.len() == 0
        &&& self.game_conf == conf
        &&& self.statistics.correct_strokes == 0
        &&& self.statistics.wrong_strokes == 0
        &&& self.statistics.wrong_letters == 0
        &&& self.statistics.correct_words == 0
        &&& self.statistics.total_words == 0
        &&& self.statistics.speed_stat@.len() == 0
        &&& self.statistics.time_finished == self.statistics.time_started
        &&& self.statistics.intervals == 0
    }

    /// A session over `correct_text` started at `started` (milliseconds since
    /// the Unix epoch). Fails only when the text is too long for the counters.
    pub fn with_text(correct_text: Vec<char>, conf: GameConf, started: u64) -> (r: Result<
        Game,
        GameError,
    >)
        ensures
            correct_text@.len() >= u32::MAX ==> r == Err::<Game, GameError>(GameError::TextTooLong),
            correct_text@.len() < u32::MAX ==> (r matches Ok(g) && g.is_fresh(conf)
                && g.correct_text@ == correct_text@ && g.statistics.time_started == started),
    {
        if correct_text.len() >= u32::MAX as usize {
            return Err(GameError::TextTooLong);
        }
        Ok(
            Game {
                correct_text,
                written_vec: Vec::new(),
                statistics: GameStat {
                    correct_strokes: 0,
                    wrong_strokes: 0,
                    wrong_letters: 0,
                    correct_words: 0,
                    speed_stat: Vec::new(),
                    total_words: 0,
                    time_started: started,
                    time_finished: started,
                    intervals: 0,
                },
                game_conf: conf,
            },
        )
    }

    /// Starts a session over text generated from `text` (or from the
    /// generator's own sample when there is none or it is empty): `size`
    /// words, or one more than a word-count limit.
    pub fn new(size: usize, conf: GameConf, text: Option<String>) -> (r: Result<Game, GameError>)
        ensures
            (r == Err::<Game, GameError>(GameError::CorpusTooLarge)) <==> corpus_of(text).len()
                >= CORPUS_CHAR_LIMIT,
            (r == Err::<Game, GameError>(GameError::CorpusWithoutSpaces)) <==> (corpus_of(text).len()
                < CORPUS_CHAR_LIMIT && corpus_of(text).len() > 0 && !corpus_of(text).contains(' ')
                && requested_words(size, conf.limit) >= 2),
            r matches Ok(g) ==> g.is_fresh(conf) && generated_shape(
                g.correct_text@,
                requested_words(size, conf.limit),
            ),
            new_game_succeeds(size, conf, text) ==> r is Ok,
    {
        let words: u32 = match conf.limit {
            Limit::WordCount(t) => t.saturating_add(1),
            _ => size as u32,
        };
        let generated = match text {
            Some(t) => {
                let corpus = chars_of(t.as_str());
                if corpus.len() >= CORPUS_CHAR_LIMIT {
                    return Err(GameError::CorpusTooLarge);
                }
                if corpus.len() == 0 {
                    generate_default_text(words)
                } else {
                    let mut has_space = false;
                    let mut i: usize = 0;
                    while i < corpus.len()
                        invariant
                            0 <= i <= corpus@.len(),
                            has_space == corpus@.subrange(0, i as int).contains(' '),
                        decreases corpus@.len() - i,
                    {
                        proof {
                            let a = corpus@.subrange(0, i as int);
                            let b = corpus@.subrange(0, i + 1);
                            assert(b =~= a.push(corpus@[i as int]));
                            assert(b.contains(' ') == (a.contains(' ') || corpus@[i as int] == ' '))
                                by {
                                if a.contains(' ') {
                                    let k = choose|k: int| 0 <= k < a.len() && a[k] == ' ';
                                    assert(b[k] == ' ');
                                }
                                if corpus@[i as int] == ' ' {
                                    assert(b[i as int] == ' ');
                                }
                                if b.contains(' ') && corpus@[i as int] != ' ' {
                                    let k = choose|k: int| 0 <= k < b.len() && b[k] == ' ';
                                    assert(a[k] == ' ');
                                }
                            }
                        }
                        if corpus[i] == ' ' {
                            has_space = true;
                        }
                        i = i + 1;
                    }
                    proof {
                        assert(corpus@.subrange(0, corpus@.len() as int) =~= corpus@);
                    }
                    if !has_space && words >= 2 {
                        return Err(GameError::CorpusWithoutSpaces);
                    }
                    generate_text_from(t.as_str(), words)
                }
            },
            None => generate_default_text(words),
        };
        let started = now_millis();
        match generated {
            Ok(chars) => Game::with_text(chars, conf, started),
            Err(_) => {
                proof {
                    assert(false);
                }
                Err(GameError::TextTooLong)
            },
        }
    }

    /// `self` and `o` share the reference, the settings and every statistic
    /// but the stroke counters and the speed series.
    pub open spec fn same_session(&self, o: &Game) -> bool {
        &&& self.correct_text@ == o.correct_text@
        &&& self.game_conf == o.game_conf
        &&& self.statistics.same_snapshot_fields(&o.statistics)
    }

    /// `self` is `old` after a keystroke of `c`: the letter for the expected
    /// character is appended, the matching stroke counter grows (the wrong
    /// one saturating), and a typed space registers a speed sample.
    pub open spec fn keystroke_of(&self, old: &Game, c: char) -> bool {
        let expected = old.correct_text@[old.written_vec@.len() as int];
        &&& self.same_session(old)
        &&& self.written_vec@ == old.written_vec@.push(typed_letter(expected, c))
        &&& self.written_vec@.last().c == expected
        &&& self.statistics.correct_strokes == old.statistics.correct_strokes + if c == expected {
            1int
        } else {
            0int
        }
        &&& self.statistics.wrong_strokes == if c == expected || old.statistics.wrong_strokes
            == u32::MAX {
            old.statistics.wrong_strokes as int
        } else {
            old.statistics.wrong_strokes + 1
        }
        &&& c != ' ' ==> self.statistics.speed_stat@ == old.statistics.speed_stat@
        &&& c == ' ' ==> self.statistics.speed_stat@ == old.statistics.speed_stat@.push(
            speed_sample(
                old.statistics.speed_stat@,
                correct_words(self.written_vec@, self.correct_text@.len()),
            ) as u32,
        )
    }

    /// `self` is `old` after a backspace: the last letter goes, if any, and
    /// with it its correct stroke; the wrong strokes and the speed series stay.
    pub open spec fn backspace_of(&self, old: &Game) -> bool {
        &&& self.same_session(old)
        &&& self.written_vec@ == backspace_history(old.written_vec@)
        &&& self.statistics.correct_strokes == if old.written_vec@.len() > 0
            && old.written_vec@.last().state == FieldState::Correct {
            old.statistics.correct_strokes - 1
        } else {
            old.statistics.correct_strokes as int
        }
        &&& self.statistics.wrong_strokes == old.statistics.wrong_strokes
        &&& self.statistics.speed_stat@ == old.statistics.speed_stat@
    }

    /// `self` is `old` after undoing a word (see `word_undo_len`); the wrong
    /// strokes and the speed series stay.
    pub open spec fn word_undo_of(&self, old: &Game) -> bool {
        &&& self.same_session(old)
        &&& self.written_vec@ == old.written_vec@.subrange(0, word_undo_len(old.written_vec@) as int)
        &&& self.statistics.wrong_strokes == old.statistics.wrong_strokes
        &&& self.statistics.speed_stat@ == old.statistics.speed_stat@
    }

    /// `self` is `old` with one more speed sample: the words gained since
    /// the previous samples.
    pub open spec fn sampled_of(&self, old: &Game) -> bool {
        &&& self.same_session(old)
        &&& self.written_vec@ == old.written_vec@
        &&& self.statistics.correct_strokes == old.statistics.correct_strokes
        &&& self.statistics.wrong_strokes == old.statistics.wrong_strokes
        &&& self.statistics.speed_stat@ == old.statistics.speed_stat@.push(
            speed_sample(old.statistics.speed_stat@, old.spec_correct_words()) as u32,
        )
    }

    /// Milliseconds from the start of the session to `now` (0 before the start).
    pub open spec fn elapsed_ms(&self, now: u64) -> nat {
        if now >= self.statistics.time_started {
            (now - self.statistics.time_started) as nat
        } else {
            0
        }
    }

    /// Whether the session is over at time `now`: the whole reference is
    /// typed, or the limit policy is met.
    pub open spec fn complete_at(&self, now: u64) -> bool {
        ||| self.written_vec@.len() == self.correct_text@.len()
        ||| match self.game_conf.limit {
            Limit::Time(secs) => self.elapsed_ms(now) >= secs * 1000,
            Limit::WordCount(n) => completed_words(self.correct_text@, self.written_vec@.len()) >= n,
            Limit::Unbounded => false,
        }
    }

    /// Records a keystroke of `c` at the next position of the reference. A
    /// space typed ends a word and registers a speed sample.
    pub fn char_key_pressed(&mut self, c: char)
        requires
            old(self).wf(),
            old(self).written_vec@.len() < old(self).correct_text@.len(),
        ensures
            final(self).wf(),
            final(self).keystroke_of(old(self), c),
    {
        let expected = self.correct_text[self.written_vec.len()];
        let ghost h0 = self.written_vec@;
        let ghost t0 = self.correct_text@;
        proof {
            lemma_count_state_le(h0, FieldState::Correct);
            assert(forall|i: int|
                0 <= i < h0.len() ==> (#[trigger] h0[i]).c == t0[i] && h0[i].state
                    != FieldState::Unfilled);
        }
        if expected == c {
            self.written_vec.push(make_letter(c, FieldState::Correct));
            self.statistics.correct_strokes = self.statistics.correct_strokes + 1;
        } else {
            self.written_vec.push(make_letter(expected, FieldState::Wrong));
            self.statistics.wrong_strokes = self.statistics.wrong_strokes.saturating_add(1);
        }
        proof {
            assert(self.written_vec@.drop_last() =~= h0);
            assert forall|i: int| 0 <= i < self.written_vec@.len() implies (#[trigger] self.written_vec@[
                i
            ]).c == self.correct_text@[i] && self.written_vec@[i].state != FieldState::Unfilled by {
                if i < h0.len() {
                    assert(self.written_vec@[i] == h0[i]);
                    assert(h0[i].c == t0[i]);
                }
            }
        }
        if c == ' ' {
            self.register_speed();
        }
    }

    /// Appends to the speed series the words gained since the last sample.
    pub fn register_speed(&mut self)
        requires
            old(self).wf(),
        ensures
            final(self).wf(),
            final(self).sampled_of(old(self)),
            series_sum(final(self).statistics.speed_stat@) == if old(self).spec_correct_words()
                >= series_sum(old(self).statistics.speed_stat@) {
                old(self).spec_correct_words()
            } else {
                series_sum(old(self).statistics.speed_stat@)
            },
    {
        let count = self.get_correct_words_count();
        let n = self.statistics.speed_stat.len();
        let mut sum: u32 = 0;
        let mut i: usize = 0;
        while i < n
            invariant
                n == self.statistics.speed_stat@.len(),
                series_sum(self.statistics.speed_stat@) <= u32::MAX,
                0 <= i <= n,
                sum == series_sum(self.statistics.speed_stat@.subrange(0, i as int)),
            decreases n - i,
        {
            proof {
                let s = self.statistics.speed_stat@;
                assert(s.subrange(0, i + 1).drop_last() =~= s.subrange(0, i as int));
                lemma_prefix_sum_le(s, i + 1);
            }
            sum = sum + self.statistics.speed_stat[i];
            i = i + 1;
        }
        proof {
            assert(self.statistics.speed_stat@.subrange(0, n as int) =~= self.statistics.speed_stat@);
        }
        let sample = if count >= sum {
            count - sum
        } else {
            0
        };
        let ghost s0 = self.statistics.speed_stat@;
        self.statistics.speed_stat.push(sample);
        proof {
            assert(self.statistics.speed_stat@.drop_last() =~= s0);
            assert(series_sum(self.statistics.speed_stat@) == series_sum(s0) + sample);
        }
    }

    /// Everything needed once a session ends: the final speed sample.
    pub fn stop_game(&mut self)
        requires
            old(self).wf(),
        ensures
            final(self).wf(),
            final(self).sampled_of(old(self)),
    {
        self.register_speed();
    }

    /// Backspace: removes the last letter, if any. Removing a correct letter
    /// takes back its correct stroke; a wrong stroke stays counted.
    pub fn clear_last_letter(&mut self)
        requires
            old(self).wf(),
        ensures
            final(self).wf(),
            final(self).backspace_of(old(self)),
    {
        let ghost h0 = self.written_vec@;
        let ghost t0 = self.correct_text@;
        proof {
            assert(forall|i: int|
                0 <= i < h0.len() ==> (#[trigger] h0[i]).c == t0[i] && h0[i].state
                    != FieldState::Unfilled);
        }
        let letter = self.written_vec.pop();
        match letter {
            Some(l) => {
                proof {
                    assert(h0.drop_last() =~= self.written_vec@);
                    assert forall|i: int| 0 <= i < self.written_vec@.len() implies (#[trigger] self.written_vec@[
                        i
                    ]).c == self.correct_text@[i] && self.written_vec@[i].state
                        != FieldState::Unfilled by {
                        assert(self.written_vec@[i] == h0[i]);
                        assert(h0[i].c == t0[i]);
                    }
                }
                if l.state == FieldState::Correct {
                    self.statistics.correct_strokes = self.statistics.correct_strokes - 1;
                }
            },
            None => {},
        }
    }

    /// Removes the word being typed: at least one letter, then letters until
    /// the history is empty or ends in a correctly typed space, so it never
    /// reaches past the previous completed word.
    pub fn clear_last_world(&mut self)
        requires
            old(self).wf(),
        ensures
            final(self).wf(),
            final(self).word_undo_of(old(self)),
    {
        let ghost h0 = self.written_vec@;
        let ghost target = word_undo_len(h0);
        self.clear_last_letter();
        proof {
            if h0.len() > 0 {
                lemma_word_boundary_le(h0.drop_last());
            }
        }
        while self.written_vec.len() > 0 && !(self.written_vec[self.written_vec.len() - 1].c == ' '
            && self.written_vec[self.written_vec.len() - 1].state == FieldState::Correct)
            invariant
                self.wf(),
                self.same_session(old(self)),
                self.statistics.wrong_strokes == old(self).statistics.wrong_strokes,
                self.statistics.speed_stat@ == old(self).statistics.speed_stat@,
                self.written_vec@.len() <= h0.len(),
                self.written_vec@ == h0.subrange(0, self.written_vec@.len() as int),
                word_boundary(self.written_vec@) == target,
                target <= self.written_vec@.len(),
            decreases self.written_vec@.len(),
        {
            proof {
                lemma_word_boundary_le(self.written_vec@.drop_last());
            }
            self.clear_last_letter();
        }
    }

    /// The letters to show: the history followed by the untyped rest of the
    /// reference as unfilled letters. The session is not changed.
    pub fn get_written_vec(&self) -> (r: Vec<Letter>)
        requires
            self.wf(),
        ensures
            is_rendering(r@, self.correct_text@, self.written_vec@),
    {
        let mut res: Vec<Letter> = Vec::new();
        let n = self.correct_text.len();
        let w = self.written_vec.len();
        let mut i: usize = 0;
        while i < n
            invariant
                self.wf(),
                n == self.correct_text@.len(),
                w == self.written_vec@.len(),
                0 <= i <= n,
                res@.len() == i,
                forall|j: int|
                    0 <= j < i ==> #[trigger] res@[j] == rendered_at(
                        self.correct_text@,
                        self.written_vec@,
                        j,
                    ),
            decreases n - i,
        {
            let ghost r0 = res@;
            if i < w {
                res.push(self.written_vec[i]);
            } else {
                res.push(make_letter(self.correct_text[i], FieldState::Unfilled));
            }
            proof {
                assert forall|j: int| 0 <= j < i + 1 implies #[trigger] res@[j] == rendered_at(
                    self.correct_text@,
                    self.written_vec@,
                    j,
                ) by {
                    if j < i {
                        assert(res@[j] == r0[j]);
                    }
                }
            }
            i = i + 1;
        }
        res
    }

    /// `r` is a snapshot of this session: the stroke counters and the speed
    /// series as kept, the letter and word counts of the history, and the
    /// start time.
    pub open spec fn snapshot_of(&self, r: &GameStat) -> bool {
        &&& r.correct_strokes == self.statistics.correct_strokes
        &&& r.wrong_strokes == self.statistics.wrong_strokes
        &&& r.wrong_letters == count_state(self.written_vec@, FieldState::Wrong)
        &&& r.correct_words == self.spec_correct_words()
        &&& r.total_words == self.spec_total_words()
        &&& r.speed_stat@ == self.statistics.speed_stat@
        &&& r.time_started == self.statistics.time_started
        &&& r.intervals == 0
    }

    fn build_snapshot(&self, now: u64) -> (r: GameStat)
        requires
            self.wf(),
        ensures
            self.snapshot_of(&r),
            r.time_finished == now,
    {
        let n = self.written_vec.len();
        let mut wrong: u32 = 0;
        let mut i: usize = 0;
        while i < n
            invariant
                self.wf(),
                n == self.written_vec@.len(),
                0 <= i <= n,
                wrong == count_state(self.written_vec@.subrange(0, i as int), FieldState::Wrong),
                wrong <= i,
            decreases n - i,
        {
            proof {
                let h = self.written_vec@.subrange(0, i + 1);
                assert(h.drop_last() =~= self.written_vec@.subrange(0, i as int));
            }
            if self.written_vec[i].state == FieldState::Wrong {
                wrong = wrong + 1;
            }
            i = i + 1;
        }
        proof {
            assert(self.written_vec@.subrange(0, n as int) =~= self.written_vec@);
        }
        GameStat {
            correct_strokes: self.statistics.correct_strokes,
            wrong_strokes: self.statistics.wrong_strokes,
            wrong_letters: wrong,
            correct_words: self.get_correct_words_count(),
            speed_stat: self.statistics.speed_stat.clone(),
            total_words: self.get_total_words_count(),
            time_started: self.statistics.time_started,
            time_finished: now,
            intervals: 0,
        }
    }

    /// Takes a snapshot of the statistics finished at `now`, stores it in the
    /// session and returns it.
    pub fn get_statistics_at(&mut self, now: u64) -> (r: GameStat)
        requires
            old(self).wf(),
        ensures
            final(self).wf(),
            final(self).correct_text@ == old(self).correct_text@,
            final(self).written_vec@ == old(self).written_vec@,
            final(self).game_conf == old(self).game_conf,
            old(self).snapshot_of(&r),
            r.time_finished == now,
            final(self).statistics.same_as(&r),
    {
        let r = self.build_snapshot(now);
        self.statistics = r.copied();
        r
    }

    /// Takes a snapshot of the statistics finished now, stores it in the
    /// session and returns it.
    pub fn get_statistics(&mut self) -> (r: GameStat)
        requires
            old(self).wf(),
        ensures
            final(self).wf(),
            final(self).correct_text@ == old(self).correct_text@,
            final(self).written_vec@ == old(self).written_vec@,
            final(self).game_conf == old(self).game_conf,
            old(self).snapshot_of(&r),
            final(self).statistics.same_as(&r),
    {
        let now = now_millis();
        self.get_statistics_at(now)
    }

    /// Counts the words of the reference completed by the history.
    fn completed_words_count(&self) -> (r: u32)
        requires
            self.wf(),
        ensures
            r == completed_words(self.correct_text@, self.written_vec@.len()),
            r <= self.written_vec@.len(),
    {
        let len = self.written_vec.len();
        let mut count: u32 = 0;
        let mut i: usize = 0;
        while i < len
            invariant
                self.wf(),
                len == self.written_vec@.len(),
                0 <= i <= len,
                count == space_count(self.correct_text@.subrange(0, i as int)),
                count <= i,
            decreases len - i,
        {
            proof {
                let t = self.correct_text@.subrange(0, i + 1);
                assert(t.drop_last() =~= self.correct_text@.subrange(0, i as int));
            }
            if self.correct_text[i] == ' ' {
                count = count + 1;
            }
            i = i + 1;
        }
        count
    }

    /// Whether the session is over at time `now` (see `complete_at`).
    pub fn is_complete_at(&self, now: u64) -> (r: bool)
        requires
            self.wf(),
        ensures
            r == self.complete_at(now),
    {
        if self.written_vec.len() == self.correct_text.len() {
            return true;
        }
        match self.game_conf.limit {
            Limit::Time(secs) => {
                let elapsed: u64 = if now >= self.statistics.time_started {
                    now - self.statistics.time_started
                } else {
                    0
                };
                proof {
                    let e = elapsed as int;
                    let s = secs as int;
                    assert((e / 1000 >= s) == (e >= s * 1000)) by (nonlinear_arith)
                        requires
                            e >= 0,
                            s >= 0,
                    ;
                }
                elapsed / 1000 >= secs
            },
            Limit::WordCount(n) => self.completed_words_count() >= n,
            Limit::Unbounded => false,
        }
    }

    /// Whether the session is over now. Apart from a time limit, the clock
    /// plays no part.
    pub fn is_complete(&self) -> (r: bool)
        requires
            self.wf(),
        ensures
            (exists|now: u64| r == self.complete_at(now)),
            (!(self.game_conf.limit is Time) ==> r == self.complete_at(0)),
            self.written_vec@.len() == self.correct_text@.len() ==> r,
    {
        let now = now_millis();
        self.is_complete_at(now)
    }

    /// Counts the correct words of the history (see `correct_words`).
    pub fn get_correct_words_count(&self) -> (r: u32)
        requires
            self.wf(),
        ensures
            r == self.spec_correct_words(),
    {
        let n = self.written_vec.len();
        let mut count: u32 = 0;
        let mut is_wrong = false;
        let mut i: usize = 0;
        while i < n
            invariant
                self.wf(),
                n == self.written_vec@.len(),
                0 <= i <= n,
                count == closed_correct_words(self.written_vec@.subrange(0, i as int)),
                count <= i,
                is_wrong == !trailing_clean(self.written_vec@.subrange(0, i as int)),
            decreases n - i,
        {
            let l = self.written_vec[i];
            proof {
                let h = self.written_vec@.subrange(0, i + 1);
                assert(h.drop_last() =~= self.written_vec@.subrange(0, i as int));
            }
            if l.state != FieldState::Correct {
                is_wrong = true;
            }
            if l.c == ' ' {
                if !is_wrong {
                    count = count + 1;
                }
                is_wrong = false;
            }
            i = i + 1;
        }
        proof {
            assert(self.written_vec@.subrange(0, n as int) =~= self.written_vec@);
        }
        if n == self.correct_text.len() && n > 0 && self.written_vec[n - 1].c != ' ' && !is_wrong {
            count = count + 1;
        }
        count
    }

    /// Counts the total words of the session so far (see `total_words`).
    pub fn get_total_words_count(&self) -> (r: u32)
        requires
            self.wf(),
        ensures
            r == self.spec_total_words(),
    {
        let len = self.written_vec.len();
        let mut count: u32 = 0;
        let mut i: usize = 0;
        while i < len
            invariant
                self.wf(),
                len == self.written_vec@.len(),
                0 <= i <= len,
                count == space_count(self.correct_text@.subrange(0, i as int)),
                count <= i,
            decreases len - i,
        {
            proof {
                let t = self.correct_text@.subrange(0, i + 1);
                assert(t.drop_last() =~= self.correct_text@.subrange(0, i as int));
            }
            if self.correct_text[i] == ' ' {
                count = count + 1;
            }
            i = i + 1;
        }
        if self.correct_text.len() > 0 {
            count = count + 1;
        }
        count
    }
}

} // verus!
