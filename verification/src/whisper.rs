//! Word detections: the lexical classifier that decides whether a
//! transcribed word is on the block-list, and the merger that collapses the
//! positive detections into time segments.

use crate::audio::{all_well_formed, AudioSegment};
use crate::error::{BabymodeError, ErrorModel, Result};
use crate::text::{
    all_in, chars_of, contains_chars, contains_run, is_unicode_whitespace, lemma_trimmed_unchanged,
    lemma_trimmed_wrapped, lowercase, same_chars, split_whitespace, string_of, trim_bounds,
    trimmed, views, words_of, CharClass,
};
use crate::tool::{step_model, tool_step, StepModel, ToolRun, ToolStep};
use vstd::prelude::*;
use vstd::string::*;

verus! {

/// One word of the transcript with its timing, after classification.
#[derive(Debug, Clone)]
pub struct WordDetection {
    /// The normalized word.
    pub word: String,
    /// Where the word begins, in milliseconds.
    pub start_time: u64,
    /// Where the word ends, in milliseconds.
    pub end_time: u64,
    /// The confidence of the transcription, in thousandths.
    pub confidence: u64,
    /// Whether the word is on the block-list.
    pub is_swear: bool,
}

impl WordDetection {
    /// The timing is valid: the word does not end before it begins.
    pub open spec fn well_formed(&self) -> bool {
        self.start_time <= self.end_time
    }

    /// The time window of the word.
    pub open spec fn span(&self) -> AudioSegment {
        AudioSegment::spanning(self.start_time as int, self.end_time as int)
    }

    /// Decides whether the timing is valid.
    pub fn is_well_formed(&self) -> (r: bool)
        ensures
            r == self.well_formed(),
    {
        self.start_time <= self.end_time
    }

    /// The time window of the word.
    pub fn to_audio_segment(&self) -> (segment: AudioSegment)
        requires
            self.well_formed(),
        ensures
            segment == self.span(),
            segment.well_formed(),
    {
        AudioSegment::new(self.start_time, self.end_time)
    }
}

/// The normal form of a transcribed word: without surrounding whitespace,
/// then without surrounding ASCII punctuation, in lowercase.
pub open spec fn clean_word_spec(word: Seq<char>) -> Seq<char> {
    lowercase(trimmed(trimmed(word, CharClass::Whitespace), CharClass::AsciiPunctuation))
}

/// The common short words that are never flagged.
pub open spec fn is_stop_word(word: Seq<char>) -> bool {
    ||| word == seq!['i']
    ||| word == seq!['a']
    ||| word == seq!['h', 'e']
    ||| word == seq!['i', 't']
    ||| word == seq!['i', 'n']
    ||| word == seq!['i', 's']
    ||| word == seq!['t', 'o']
    ||| word == seq!['o', 'r']
    ||| word == seq!['a', 's']
    ||| word == seq!['b', 'e']
    ||| word == seq!['w', 'e']
    ||| word == seq!['o', 'n']
    ||| word == seq!['s', 'o']
    ||| word == seq!['u', 'p']
    ||| word == seq!['a', 'n']
    ||| word == seq!['m', 'y']
    ||| word == seq!['a', 't']
    ||| word == seq!['g', 'o']
    ||| word == seq!['d', 'o']
    ||| word == seq!['i', 'f']
    ||| word == seq!['n', 'o']
    ||| word == seq!['m', 'e']
    ||| word == seq!['u', 's']
    ||| word == seq!['o', 'h']
}

/// A character that stands in for a letter in an obfuscated word.
pub open spec fn is_mask(c: char) -> bool {
    c == '*' || c == '#' || c == '@'
}

/// Whether position `i` of `word` agrees with `swear`: the characters are
/// equal, or the word has a mask character there.
pub open spec fn agrees_at(word: Seq<char>, swear: Seq<char>, i: int) -> bool {
    word[i] == swear[i] || is_mask(word[i])
}

/// The number of positions below `n` at which `word` agrees with `swear`.
pub open spec fn agreements(word: Seq<char>, swear: Seq<char>, n: nat) -> nat
    decreases n,
{
    if n == 0 {
        0
    } else {
        agreements(word, swear, (n - 1) as nat) + if agrees_at(word, swear, n - 1) {
            1nat
        } else {
            0nat
        }
    }
}

/// Whether `word` is an obfuscated spelling of `swear`: the two have the
/// same length and agree at more than half of the positions.
pub open spec fn is_censored_variation_spec(word: Seq<char>, swear: Seq<char>) -> bool {
    &&& word.len() == swear.len()
    &&& agreements(word, swear, word.len()) > word.len() / 2
}

/// Whether the block-list entry `entry` matches a word of `length`
/// characters whose lowercase form is `lower`: directly, by one containing
/// the other where both have four characters or more, or as an obfuscated
/// spelling.
pub open spec fn entry_matches(length: nat, lower: Seq<char>, entry: Seq<char>) -> bool {
    ||| lower == entry
    ||| length >= 4 && entry.len() >= 4 && (contains_run(lower, entry) || contains_run(
        entry,
        lower,
    ))
    ||| is_censored_variation_spec(lower, entry)
}

/// Whether `word` is blocked by `swear_words`: it has two characters or
/// more, its lowercase form is no stop word, and some entry matches it.
pub open spec fn is_swear_word_spec(word: Seq<char>, swear_words: Seq<Seq<char>>) -> bool {
    &&& word.len() >= 2
    &&& !is_stop_word(lowercase(word))
    &&& exists|i: int|
        0 <= i < swear_words.len() && entry_matches(
            word.len(),
            lowercase(word),
            #[trigger] swear_words[i],
        )
}

/// Whether the raw transcribed token `raw` is blocked by `swear_words`.
pub open spec fn classify_spec(raw: Seq<char>, swear_words: Seq<Seq<char>>) -> bool {
    is_swear_word_spec(clean_word_spec(raw), swear_words)
}

/// Whitespace around a token does not change its normal form.
pub proof fn lemma_clean_word_ignores_whitespace(
    before: Seq<char>,
    word: Seq<char>,
    after: Seq<char>,
)
    requires
        all_in(before, CharClass::Whitespace),
        all_in(after, CharClass::Whitespace),
    ensures
        clean_word_spec(before + word + after) == clean_word_spec(word),
{
    lemma_trimmed_wrapped(before, word, after, CharClass::Whitespace);
}

/// Punctuation around a word does not change its normal form: for a word
/// that neither begins nor ends with whitespace, and punctuation that is
/// no whitespace.
pub proof fn lemma_clean_word_ignores_punctuation(
    before: Seq<char>,
    word: Seq<char>,
    after: Seq<char>,
)
    requires
        all_in(before, CharClass::AsciiPunctuation),
        all_in(after, CharClass::AsciiPunctuation),
        forall|i: int| 0 <= i < before.len() ==> !is_unicode_whitespace(#[trigger] before[i]),
        forall|i: int| 0 <= i < after.len() ==> !is_unicode_whitespace(#[trigger] after[i]),
        word.len() > 0 ==> !is_unicode_whitespace(word[0]) && !is_unicode_whitespace(word.last()),
    ensures
        clean_word_spec(before + word + after) == clean_word_spec(word),
{
    let wrapped = before + word + after;
    lemma_trimmed_unchanged(wrapped, CharClass::Whitespace);
    lemma_trimmed_unchanged(word, CharClass::Whitespace);
    lemma_trimmed_wrapped(before, word, after, CharClass::AsciiPunctuation);
}

/// Classification is a function of the normal form and the block-list:
/// tokens that differ only in case, in the whitespace and in the
/// punctuation around them have the same normal form and are classified
/// alike.
pub proof fn lemma_classification_by_normal_form(
    a: Seq<char>,
    b: Seq<char>,
    swear_words: Seq<Seq<char>>,
)
    requires
        clean_word_spec(a) == clean_word_spec(b),
    ensures
        classify_spec(a, swear_words) == classify_spec(b, swear_words),
{
}

/// A word of fewer than two characters and a stop word are never blocked,
/// whatever the block-list holds.
pub proof fn lemma_short_and_stop_words_pass(word: Seq<char>, swear_words: Seq<Seq<char>>)
    requires
        word.len() < 2 || is_stop_word(lowercase(word)),
    ensures
        !is_swear_word_spec(word, swear_words),
{
}

/// A word of two characters or more that is no stop word is blocked by a
/// block-list that holds its lowercase form.
pub proof fn lemma_listed_word_is_blocked(word: Seq<char>, swear_words: Seq<Seq<char>>)
    requires
        word.len() >= 2,
        !is_stop_word(lowercase(word)),
        swear_words.contains(lowercase(word)),
    ensures
        is_swear_word_spec(word, swear_words),
{
}

/// Normalizes a transcribed word: trims whitespace, strips leading and
/// trailing ASCII punctuation, and converts to lowercase.
pub fn clean_word(word: &str) -> (cleaned: String)
    ensures
        cleaned@ == clean_word_spec(word@),
{
    let chars = chars_of(word);
    assert(chars@.subrange(0, chars@.len() as int) =~= chars@);
    let (from, to) = trim_bounds(&chars, 0, chars.len(), CharClass::Whitespace);
    let (from, to) = trim_bounds(&chars, from, to, CharClass::AsciiPunctuation);
    let core = string_of(&chars, from, to);
    core.as_str().to_lowercase()
}

/// Decides whether `word` is the two-letter word `first second`.
fn is_pair(word: &Vec<char>, first: char, second: char) -> (r: bool)
    requires
        word@.len() == 2,
    ensures
        r == (word@ == seq![first, second]),
{
    let r = word[0] == first && word[1] == second;
    proof {
        if r {
            assert(word@ =~= seq![first, second]);
        }
    }
    r
}

/// Decides whether `word` is one of the stop words.
fn is_stop(word: &Vec<char>) -> (r: bool)
    ensures
        r == is_stop_word(word@),
{
    if word.len() == 1 {
        let r = word[0] == 'i' || word[0] == 'a';
        proof {
            if word@[0] == 'i' {
                assert(word@ =~= seq!['i']);
            }
            if word@[0] == 'a' {
                assert(word@ =~= seq!['a']);
            }
        }
        r
    } else if word.len() == 2 {
        is_pair(word, 'h', 'e') || is_pair(word, 'i', 't') || is_pair(word, 'i', 'n') || is_pair(
            word,
            'i',
            's',
        ) || is_pair(word, 't', 'o') || is_pair(word, 'o', 'r') || is_pair(word, 'a', 's')
            || is_pair(word, 'b', 'e') || is_pair(word, 'w', 'e') || is_pair(word, 'o', 'n')
            || is_pair(word, 's', 'o') || is_pair(word, 'u', 'p') || is_pair(word, 'a', 'n')
            || is_pair(word, 'm', 'y') || is_pair(word, 'a', 't') || is_pair(word, 'g', 'o')
            || is_pair(word, 'd', 'o') || is_pair(word, 'i', 'f') || is_pair(word, 'n', 'o')
            || is_pair(word, 'm', 'e') || is_pair(word, 'u', 's') || is_pair(word, 'o', 'h')
    } else {
        false
    }
}

/// Decides whether `word` is an obfuscated spelling of `swear`.
fn is_variation(word: &Vec<char>, swear: &Vec<char>) -> (r: bool)
    ensures
        r == is_censored_variation_spec(word@, swear@),
{
    if word.len() != swear.len() {
        return false;
    }
    let mut matches: usize = 0;
    let mut i: usize = 0;
    while i < word.len()
        invariant
            word@.len() == swear@.len(),
            i <= word@.len(),
            matches == agreements(word@, swear@, i as nat),
            matches <= i,
        decreases word@.len() - i,
    {
        let c1 = word[i];
        if c1 == swear[i] || c1 == '*' || c1 == '#' || c1 == '@' {
            matches = matches + 1;
        }
        i = i + 1;
    }
    matches > word.len() / 2
}

/// Decides whether `word` is an obfuscated spelling of `swear`: the two have
/// the same number of characters, and at more than half of the positions
/// the characters are equal or the word has one of `*`, `#`, `@`.
pub fn is_censored_variation(word: &str, swear: &str) -> (r: bool)
    ensures
        r == is_censored_variation_spec(word@, swear@),
{
    let word_chars = chars_of(word);
    let swear_chars = chars_of(swear);
    is_variation(&word_chars, &swear_chars)
}

/// Decides whether `word` is blocked by `swear_words`.
pub fn is_swear_word(word: &str, swear_words: &[String]) -> (r: bool)
    ensures
        r == is_swear_word_spec(word@, views(swear_words@)),
{
    let chars = chars_of(word);
    if chars.len() < 2 {
        return false;
    }
    let lowered = word.to_lowercase();
    let lower = chars_of(lowered.as_str());
    if is_stop(&lower) {
        return false;
    }
    let ghost entries = views(swear_words@);
    let mut i: usize = 0;
    while i < swear_words.len()
        invariant
            i <= swear_words@.len(),
            entries == views(swear_words@),
            chars@ == word@,
            word@.len() >= 2,
            lower@ == lowercase(word@),
            !is_stop_word(lower@),
            forall|k: int| 0 <= k < i ==> !entry_matches(word@.len(), lower@, #[trigger] entries[k]),
        decreases swear_words@.len() - i,
    {
        let entry = chars_of(swear_words[i].as_str());
        assert(entry@ == entries[i as int]);
        let direct = same_chars(&lower, &entry);
        let partial = chars.len() >= 4 && entry.len() >= 4 && (contains_chars(&lower, &entry)
            || contains_chars(&entry, &lower));
        if direct || partial || is_variation(&lower, &entry) {
            return true;
        }
        i = i + 1;
    }
    false
}

/// Classifies a raw transcribed token: normalizes it and decides whether the
/// normal form is blocked by `swear_words`.
pub fn classify(raw: &str, swear_words: &[String]) -> (blocked: bool)
    ensures
        blocked == classify_spec(raw@, views(swear_words@)),
{
    let cleaned = clean_word(raw);
    is_swear_word(cleaned.as_str(), swear_words)
}

/// The time windows of a list of detections, in the same order.
pub open spec fn spans(detections: Seq<WordDetection>) -> Seq<AudioSegment> {
    detections.map_values(|d: WordDetection| d.span())
}

/// Whether the segments are in ascending order of their start times.
pub open spec fn ordered_by_start(segments: Seq<AudioSegment>) -> bool {
    forall|i: int, j: int|
        0 <= i <= j < segments.len() ==> (#[trigger] segments[i]).start_time <= (
        #[trigger] segments[j]).start_time
}

/// `sorted` with `segment` put behind every segment that starts no later
/// than it does.
pub open spec fn inserted(sorted: Seq<AudioSegment>, segment: AudioSegment) -> Seq<AudioSegment>
    decreases sorted.len(),
{
    if sorted.len() > 0 && sorted.last().start_time > segment.start_time {
        inserted(sorted.drop_last(), segment).push(sorted.last())
    } else {
        sorted.push(segment)
    }
}

/// The segments in ascending order of their start times; segments with the
/// same start time keep the order in which they came.
pub open spec fn sorted_by_start(segments: Seq<AudioSegment>) -> Seq<AudioSegment>
    decreases segments.len(),
{
    if segments.len() == 0 {
        Seq::empty()
    } else {
        inserted(sorted_by_start(segments.drop_last()), segments.last())
    }
}

/// The larger of two times.
pub open spec fn later(a: u64, b: u64) -> u64 {
    if a >= b {
        a
    } else {
        b
    }
}

/// The merged segments after one more segment, which starts no earlier than
/// those merged so far: if it starts no later than `gap` after the end of
/// the last merged segment it extends that segment, else it opens a new one.
pub open spec fn absorbed(before: Seq<AudioSegment>, next: AudioSegment, gap: int) -> Seq<
    AudioSegment,
> {
    if before.len() == 0 {
        seq![AudioSegment::spanning(next.start_time as int, next.end_time as int)]
    } else if next.start_time <= before.last().end_time + gap {
        before.drop_last().push(
            AudioSegment::spanning(
                before.last().start_time as int,
                later(before.last().end_time, next.end_time) as int,
            ),
        )
    } else {
        before.push(AudioSegment::spanning(next.start_time as int, next.end_time as int))
    }
}

/// The merge of segments that are in ascending order of their start times,
/// taken one after the other.
pub open spec fn merged_in_order(sorted: Seq<AudioSegment>, gap: int) -> Seq<AudioSegment>
    decreases sorted.len(),
{
    if sorted.len() == 0 {
        Seq::empty()
    } else {
        absorbed(merged_in_order(sorted.drop_last(), gap), sorted.last(), gap)
    }
}

/// The segments that cover a list of detections: the detections are sorted
/// by start time and merged wherever one begins within `gap` of the end of
/// the segment before it.
pub open spec fn merge_detections_spec(detections: Seq<WordDetection>, gap: int) -> Seq<
    AudioSegment,
> {
    merged_in_order(sorted_by_start(spans(detections)), gap)
}

/// Whether every segment ends more than `gap` before each later segment
/// starts.
pub open spec fn separated(segments: Seq<AudioSegment>, gap: int) -> bool {
    forall|i: int, j: int|
        0 <= i < j < segments.len() ==> (#[trigger] segments[i]).end_time + gap < (
        #[trigger] segments[j]).start_time
}

/// Whether the segments are in strictly ascending order of their start
/// times.
pub open spec fn ascending(segments: Seq<AudioSegment>) -> bool {
    forall|i: int, j: int|
        0 <= i < j < segments.len() ==> (#[trigger] segments[i]).start_time < (
        #[trigger] segments[j]).start_time
}

/// Whether `window` lies within one of the segments.
pub open spec fn covered(segments: Seq<AudioSegment>, window: AudioSegment) -> bool {
    exists|i: int|
        0 <= i < segments.len() && (#[trigger] segments[i]).start_time <= window.start_time
            && window.end_time <= segments[i].end_time
}

/// Whether `segment` begins where one of the windows begins and ends where
/// one of them ends.
pub open spec fn anchored(windows: Seq<AudioSegment>, segment: AudioSegment) -> bool {
    &&& exists|k: int|
        0 <= k < windows.len() && (#[trigger] windows[k]).start_time == segment.start_time
    &&& exists|k: int|
        0 <= k < windows.len() && (#[trigger] windows[k]).end_time == segment.end_time
}

/// Inserting into an ordered sequence puts the segment at the one position
/// behind everything that starts no later.
pub proof fn lemma_inserted_at(sorted: Seq<AudioSegment>, segment: AudioSegment, at: int)
    requires
        0 <= at <= sorted.len(),
        forall|i: int| at <= i < sorted.len() ==> (#[trigger] sorted[i]).start_time > segment.start_time,
        at > 0 ==> sorted[at - 1].start_time <= segment.start_time,
    ensures
        inserted(sorted, segment) == sorted.insert(at, segment),
    decreases sorted.len() - at,
{
    if at < sorted.len() {
        lemma_inserted_at(sorted.drop_last(), segment, at);
    }
}

/// The position at which `inserted` puts a segment.
pub open spec fn insertion_point(sorted: Seq<AudioSegment>, segment: AudioSegment) -> int
    decreases sorted.len(),
{
    if sorted.len() > 0 && sorted.last().start_time > segment.start_time {
        insertion_point(sorted.drop_last(), segment)
    } else {
        sorted.len() as int
    }
}

/// Inserting keeps the order and adds exactly the one segment.
pub proof fn lemma_inserted(sorted: Seq<AudioSegment>, segment: AudioSegment)
    requires
        ordered_by_start(sorted),
    ensures
        ordered_by_start(inserted(sorted, segment)),
        inserted(sorted, segment).len() == sorted.len() + 1,
        inserted(sorted, segment).to_multiset() == sorted.to_multiset().insert(segment),
        inserted(sorted, segment) == sorted.insert(insertion_point(sorted, segment), segment),
        0 <= insertion_point(sorted, segment) <= sorted.len(),
{
    let at = insertion_point(sorted, segment);
    lemma_insertion_point(sorted, segment);
    lemma_inserted_at(sorted, segment, at);
    vstd::seq_lib::to_multiset_insert(sorted, at, segment);
    let r = sorted.insert(at, segment);
    assert forall|i: int, j: int| 0 <= i <= j < r.len() implies (#[trigger] r[i]).start_time <= (
    #[trigger] r[j]).start_time by {
    }
}

/// Everything from the insertion point on starts later than the segment,
/// and what stands just before the point starts no later.
pub proof fn lemma_insertion_point(sorted: Seq<AudioSegment>, segment: AudioSegment)
    ensures
        0 <= insertion_point(sorted, segment) <= sorted.len(),
        forall|i: int|
            insertion_point(sorted, segment) <= i < sorted.len() ==> (#[trigger] sorted[i]).start_time
                > segment.start_time,
        insertion_point(sorted, segment) > 0 ==> sorted[insertion_point(sorted, segment)
            - 1].start_time <= segment.start_time,
    decreases sorted.len(),
{
    if sorted.len() > 0 && sorted.last().start_time > segment.start_time {
        let front = sorted.drop_last();
        lemma_insertion_point(front, segment);
        let at = insertion_point(front, segment);
        assert forall|i: int| at <= i < sorted.len() implies (#[trigger] sorted[i]).start_time
            > segment.start_time by {
            if i < front.len() {
                assert(sorted[i] == front[i]);
            }
        }
    }
}

/// Sorting by start time gives an ordered permutation of the segments.
pub proof fn lemma_sorted_by_start(segments: Seq<AudioSegment>)
    ensures
        ordered_by_start(sorted_by_start(segments)),
        sorted_by_start(segments).len() == segments.len(),
        sorted_by_start(segments).to_multiset() == segments.to_multiset(),
    decreases segments.len(),
{
    if segments.len() == 0 {
        assert(segments =~= Seq::empty());
    } else {
        lemma_sorted_by_start(segments.drop_last());
        lemma_inserted(sorted_by_start(segments.drop_last()), segments.last());
        vstd::seq_lib::to_multiset_build(segments.drop_last(), segments.last());
        assert(segments.drop_last().push(segments.last()) =~= segments);
    }
}

/// A segment stands in the sorted sequence exactly if it stands in the
/// sequence that was sorted.
pub proof fn lemma_sorted_same_members(segments: Seq<AudioSegment>, segment: AudioSegment)
    ensures
        sorted_by_start(segments).contains(segment) <==> segments.contains(segment),
{
    lemma_sorted_by_start(segments);
    vstd::seq_lib::to_multiset_contains(segments, segment);
    vstd::seq_lib::to_multiset_contains(sorted_by_start(segments), segment);
}

/// One more segment keeps the merged segments well formed, and the last of
/// them starts no later than the segment does.
pub proof fn lemma_absorbed_well_formed(before: Seq<AudioSegment>, next: AudioSegment, gap: int)
    requires
        all_well_formed(before),
        next.well_formed(),
        before.len() > 0 ==> before.last().start_time <= next.start_time,
    ensures
        all_well_formed(absorbed(before, next, gap)),
        absorbed(before, next, gap).len() > 0,
        absorbed(before, next, gap).len() <= before.len() + 1,
        absorbed(before, next, gap).last().start_time <= next.start_time,
{
    let r = absorbed(before, next, gap);
    if before.len() > 0 {
        assert forall|i: int| 0 <= i < r.len() implies (#[trigger] r[i]).well_formed() by {
        }
    }
}

/// One more segment keeps the merged segments more than `gap` apart.
pub proof fn lemma_absorbed_separated(before: Seq<AudioSegment>, next: AudioSegment, gap: int)
    requires
        gap >= 0,
        all_well_formed(before),
        separated(before, gap),
    ensures
        separated(absorbed(before, next, gap), gap),
{
    let r = absorbed(before, next, gap);
    if before.len() > 0 {
        assert forall|i: int, j: int| 0 <= i < j < r.len() implies (#[trigger] r[i]).end_time + gap
            < (#[trigger] r[j]).start_time by {
        }
    }
}

/// One more segment is covered by the merged segments, and so is whatever
/// was covered before.
pub proof fn lemma_absorbed_covers(
    before: Seq<AudioSegment>,
    next: AudioSegment,
    gap: int,
    window: AudioSegment,
)
    requires
        next.well_formed(),
        before.len() > 0 ==> before.last().start_time <= next.start_time,
        covered(before, window) || window == next,
    ensures
        covered(absorbed(before, next, gap), window),
{
    let r = absorbed(before, next, gap);
    let top = r.len() - 1;
    if covered(before, window) {
        let i = choose|i: int|
            0 <= i < before.len() && (#[trigger] before[i]).start_time <= window.start_time
                && window.end_time <= before[i].end_time;
        if i < before.len() - 1 || next.start_time > before.last().end_time + gap {
            assert(r[i] == before[i]);
        }
    } else {
        assert(r[top].start_time <= window.start_time);
    }
}

/// After one more segment, every merged segment still begins and ends where
/// one of the segments taken so far does.
pub proof fn lemma_absorbed_anchored(
    windows: Seq<AudioSegment>,
    before: Seq<AudioSegment>,
    gap: int,
    i: int,
)
    requires
        windows.len() > 0,
        windows.last().well_formed(),
        forall|k: int| 0 <= k < before.len() ==> anchored(windows.drop_last(), #[trigger] before[k]),
        0 <= i < absorbed(before, windows.last(), gap).len(),
    ensures
        anchored(windows, absorbed(before, windows.last(), gap)[i]),
{
}

/// What holds of ordered, well-formed segments holds of all but the last
/// of them, and the one before the last starts no later than the last.
pub proof fn lemma_front_in_order(sorted: Seq<AudioSegment>)
    requires
        sorted.len() > 0,
        ordered_by_start(sorted),
        all_well_formed(sorted),
    ensures
        ordered_by_start(sorted.drop_last()),
        all_well_formed(sorted.drop_last()),
        sorted.last().well_formed(),
        sorted.len() > 1 ==> sorted.drop_last().last().start_time <= sorted.last().start_time,
{
    let front = sorted.drop_last();
    assert forall|i: int, j: int| 0 <= i <= j < front.len() implies (#[trigger] front[i]).start_time
        <= (#[trigger] front[j]).start_time by {
    }
    assert forall|i: int| 0 <= i < front.len() implies (#[trigger] front[i]).well_formed() by {
    }
}

/// Merging ordered, well-formed segments gives at least one and at most as
/// many well-formed segments, more than `gap` apart, of which the last
/// starts no later than the last input segment.
pub proof fn lemma_merged_separated(sorted: Seq<AudioSegment>, gap: int)
    requires
        gap >= 0,
        ordered_by_start(sorted),
        all_well_formed(sorted),
    ensures
        merged_in_order(sorted, gap).len() <= sorted.len(),
        sorted.len() > 0 ==> merged_in_order(sorted, gap).len() > 0,
        sorted.len() > 0 ==> merged_in_order(sorted, gap).last().start_time
            <= sorted.last().start_time,
        all_well_formed(merged_in_order(sorted, gap)),
        separated(merged_in_order(sorted, gap), gap),
    decreases sorted.len(),
{
    if sorted.len() > 0 {
        lemma_front_in_order(sorted);
        lemma_merged_separated(sorted.drop_last(), gap);
        let before = merged_in_order(sorted.drop_last(), gap);
        lemma_absorbed_well_formed(before, sorted.last(), gap);
        lemma_absorbed_separated(before, sorted.last(), gap);
    }
}

/// The merge of ordered, well-formed segments covers every one of them.
pub proof fn lemma_merged_covers(sorted: Seq<AudioSegment>, gap: int, k: int)
    requires
        gap >= 0,
        ordered_by_start(sorted),
        all_well_formed(sorted),
        0 <= k < sorted.len(),
    ensures
        covered(merged_in_order(sorted, gap), sorted[k]),
    decreases sorted.len(),
{
    let front = sorted.drop_last();
    let before = merged_in_order(front, gap);
    lemma_front_in_order(sorted);
    lemma_merged_separated(front, gap);
    if k < front.len() {
        lemma_merged_covers(front, gap, k);
    }
    lemma_absorbed_covers(before, sorted.last(), gap, sorted[k]);
}

/// Every segment of the merge of ordered, well-formed segments begins
/// where one of them begins and ends where one of them ends.
pub proof fn lemma_merged_anchored(sorted: Seq<AudioSegment>, gap: int)
    requires
        gap >= 0,
        ordered_by_start(sorted),
        all_well_formed(sorted),
    ensures
        forall|i: int|
            0 <= i < merged_in_order(sorted, gap).len() ==> anchored(
                sorted,
                #[trigger] merged_in_order(sorted, gap)[i],
            ),
    decreases sorted.len(),
{
    if sorted.len() > 0 {
        let before = merged_in_order(sorted.drop_last(), gap);
        let r = merged_in_order(sorted, gap);
        lemma_front_in_order(sorted);
        lemma_merged_anchored(sorted.drop_last(), gap);
        assert forall|i: int| 0 <= i < r.len() implies anchored(sorted, #[trigger] r[i]) by {
            lemma_absorbed_anchored(sorted, before, gap, i);
        }
    }
}

/// Whether every detection has a valid timing.
pub open spec fn all_timed(detections: Seq<WordDetection>) -> bool {
    forall|i: int| 0 <= i < detections.len() ==> (#[trigger] detections[i]).well_formed()
}

/// Decides whether every detection has a valid timing.
pub fn all_well_timed(detections: &[WordDetection]) -> (r: bool)
    ensures
        r == all_timed(detections@),
{
    let mut i: usize = 0;
    while i < detections.len()
        invariant
            i <= detections@.len(),
            forall|k: int| 0 <= k < i ==> (#[trigger] detections@[k]).well_formed(),
        decreases detections@.len() - i,
    {
        if !detections[i].is_well_formed() {
            return false;
        }
        i = i + 1;
    }
    true
}

/// The sorted time windows of detections with valid timings are well formed.
pub proof fn lemma_sorted_spans_well_formed(detections: Seq<WordDetection>)
    requires
        all_timed(detections),
    ensures
        all_well_formed(sorted_by_start(spans(detections))),
{
    let windows = spans(detections);
    let sorted = sorted_by_start(windows);
    assert forall|i: int| 0 <= i < sorted.len() implies (#[trigger] sorted[i]).well_formed() by {
        lemma_sorted_same_members(windows, sorted[i]);
    }
}

/// The merged segments of a list of detections are well formed, lie in
/// ascending order more than `gap` apart from one another, cover every
/// detection, and begin and end where detections do. No detection gives no
/// segment.
pub proof fn lemma_merge_detections(detections: Seq<WordDetection>, gap: int)
    requires
        gap >= 0,
        all_timed(detections),
    ensures
        detections.len() == 0 ==> merge_detections_spec(detections, gap).len() == 0,
        detections.len() > 0 ==> merge_detections_spec(detections, gap).len() > 0,
        merge_detections_spec(detections, gap).len() <= detections.len(),
        all_well_formed(merge_detections_spec(detections, gap)),
        separated(merge_detections_spec(detections, gap), gap),
        ascending(merge_detections_spec(detections, gap)),
        forall|k: int|
            0 <= k < detections.len() ==> covered(
                merge_detections_spec(detections, gap),
                (#[trigger] detections[k]).span(),
            ),
        forall|i: int|
            0 <= i < merge_detections_spec(detections, gap).len() ==> anchored(
                spans(detections),
                #[trigger] merge_detections_spec(detections, gap)[i],
            ),
{
    let windows = spans(detections);
    let sorted = sorted_by_start(windows);
    let r = merged_in_order(sorted, gap);
    lemma_sorted_by_start(windows);
    lemma_sorted_spans_well_formed(detections);
    lemma_merged_separated(sorted, gap);
    lemma_merged_anchored(sorted, gap);
    assert forall|i: int, j: int| 0 <= i < j < r.len() implies (#[trigger] r[i]).start_time < (
    #[trigger] r[j]).start_time by {
    }
    assert forall|k: int| 0 <= k < detections.len() implies covered(
        r,
        (#[trigger] detections[k]).span(),
    ) by {
        lemma_sorted_same_members(windows, windows[k]);
        let m = choose|m: int| 0 <= m < sorted.len() && sorted[m] == windows[k];
        lemma_merged_covers(sorted, gap, m);
    }
    assert forall|i: int| 0 <= i < r.len() implies anchored(windows, #[trigger] r[i]) by {
        let ks = choose|k: int|
            0 <= k < sorted.len() && (#[trigger] sorted[k]).start_time == r[i].start_time;
        lemma_sorted_same_members(windows, sorted[ks]);
        let ke = choose|k: int|
            0 <= k < sorted.len() && (#[trigger] sorted[k]).end_time == r[i].end_time;
        lemma_sorted_same_members(windows, sorted[ke]);
    }
}

/// The time windows of the detections in ascending order of their start
/// times; windows with the same start keep the order in which they came.
fn sorted_spans(detections: &[WordDetection]) -> (sorted: Vec<AudioSegment>)
    requires
        all_timed(detections@),
    ensures
        sorted@ == sorted_by_start(spans(detections@)),
{
    let ghost windows = spans(detections@);
    let mut sorted: Vec<AudioSegment> = Vec::new();
    let mut i: usize = 0;
    while i < detections.len()
        invariant
            i <= detections@.len(),
            all_timed(detections@),
            windows == spans(detections@),
            sorted@ == sorted_by_start(windows.take(i as int)),
        decreases detections@.len() - i,
    {
        let window = detections[i].to_audio_segment();
        let mut at: usize = sorted.len();
        while at > 0 && sorted[at - 1].start_time > window.start_time
            invariant
                at <= sorted@.len(),
                forall|k: int|
                    at <= k < sorted@.len() ==> (#[trigger] sorted@[k]).start_time
                        > window.start_time,
            decreases at,
        {
            at = at - 1;
        }
        proof {
            lemma_inserted_at(sorted@, window, at as int);
            assert(windows.take(i + 1).drop_last() =~= windows.take(i as int));
        }
        sorted.insert(at, window);
        i = i + 1;
    }
    assert(windows.take(detections@.len() as int) =~= windows);
    sorted
}

/// Merges segments that are in ascending order of their start times.
fn merge_in_order(sorted: &Vec<AudioSegment>, merge_gap: u64) -> (segments: Vec<AudioSegment>)
    requires
        all_well_formed(sorted@),
    ensures
        segments@ == merged_in_order(sorted@, merge_gap as int),
{
    let ghost gap = merge_gap as int;
    let mut segments: Vec<AudioSegment> = Vec::new();
    if sorted.len() == 0 {
        return segments;
    }
    let mut current_start: u64 = sorted[0].start_time;
    let mut current_end: u64 = sorted[0].end_time;
    proof {
        let first = sorted@.take(1);
        assert(merged_in_order(first.drop_last(), gap) =~= Seq::<AudioSegment>::empty());
    }
    let mut i: usize = 1;
    while i < sorted.len()
        invariant
            1 <= i <= sorted@.len(),
            gap == merge_gap,
            all_well_formed(sorted@),
            current_start <= current_end,
            segments@.push(AudioSegment::spanning(current_start as int, current_end as int))
                == merged_in_order(sorted@.take(i as int), gap),
        decreases sorted@.len() - i,
    {
        let next = sorted[i];
        proof {
            assert(sorted@.take(i + 1).drop_last() =~= sorted@.take(i as int));
        }
        if next.start_time <= current_end || next.start_time - current_end <= merge_gap {
            if next.end_time > current_end {
                current_end = next.end_time;
            }
        } else {
            segments.push(AudioSegment::new(current_start, current_end));
            current_start = next.start_time;
            current_end = next.end_time;
        }
        i = i + 1;
    }
    segments.push(AudioSegment::new(current_start, current_end));
    assert(sorted@.take(sorted@.len() as int) =~= sorted@);
    segments
}

/// Merges the detections of a slice; see [`merge_detections`].
pub fn merge_detected(detections: &[WordDetection], merge_gap: u64) -> (segments: Vec<
    AudioSegment,
>)
    requires
        all_timed(detections@),
    ensures
        segments@ == merge_detections_spec(detections@, merge_gap as int),
        detections@.len() == 0 ==> segments@.len() == 0,
        all_well_formed(segments@),
        separated(segments@, merge_gap as int),
        ascending(segments@),
        forall|k: int|
            0 <= k < detections@.len() ==> covered(segments@, (#[trigger] detections@[k]).span()),
        forall|i: int|
            0 <= i < segments@.len() ==> anchored(spans(detections@), #[trigger] segments@[i]),
{
    let sorted = sorted_spans(detections);
    proof {
        lemma_sorted_spans_well_formed(detections@);
    }
    let segments = merge_in_order(&sorted, merge_gap);
    proof {
        lemma_merge_detections(detections@, merge_gap as int);
    }
    segments
}

/// Merges word detections into the segments to censor. The detections are
/// taken in ascending order of their start times; one that begins no later
/// than `merge_gap` milliseconds after the end of the segment before it
/// extends that segment, any other opens a new segment. The detections are
/// expected to be the blocked ones only.
pub fn merge_detections(detections: Vec<WordDetection>, merge_gap: u64) -> (segments: Vec<
    AudioSegment,
>)
    requires
        all_timed(detections@),
    ensures
        segments@ == merge_detections_spec(detections@, merge_gap as int),
        detections@.len() == 0 ==> segments@.len() == 0,
        all_well_formed(segments@),
        separated(segments@, merge_gap as int),
        ascending(segments@),
        forall|k: int|
            0 <= k < detections@.len() ==> covered(segments@, (#[trigger] detections@[k]).span()),
        forall|i: int|
            0 <= i < segments@.len() ==> anchored(spans(detections@), #[trigger] segments@[i]),
{
    merge_detected(detections.as_slice(), merge_gap)
}

/// The mathematical model of a [`WordDetection`].
pub struct DetectionModel {
    pub word: Seq<char>,
    pub start_time: u64,
    pub end_time: u64,
    pub confidence: u64,
    pub is_swear: bool,
}

impl View for WordDetection {
    type V = DetectionModel;

    open spec fn view(&self) -> DetectionModel {
        DetectionModel {
            word: self.word@,
            start_time: self.start_time,
            end_time: self.end_time,
            confidence: self.confidence,
            is_swear: self.is_swear,
        }
    }
}

/// The models of a list of detections, in the same order.
pub open spec fn detection_views(detections: Seq<WordDetection>) -> Seq<DetectionModel> {
    detections.map_values(|d: WordDetection| d@)
}

/// One word of the transcript with the timing that the engine gave it.
#[derive(Debug, Clone)]
pub struct TranscriptWord {
    /// The word as transcribed.
    pub word: String,
    /// Where the word begins, in milliseconds.
    pub start: u64,
    /// Where the word ends, in milliseconds.
    pub end: u64,
    /// The confidence of the engine, in thousandths.
    pub probability: u64,
}

/// One segment of the transcript.
#[derive(Debug, Clone)]
pub struct TranscriptSegment {
    /// Where the segment begins, in milliseconds.
    pub start: u64,
    /// Where the segment ends, in milliseconds.
    pub end: u64,
    /// The text of the segment.
    pub text: String,
    /// The words of the segment with their timings, where the engine
    /// gave them.
    pub words: Option<Vec<TranscriptWord>>,
}

/// The confidence of a detection whose timing is estimated, in
/// thousandths.
pub const ESTIMATED_CONFIDENCE: u64 = 800;

/// The detection for the raw token `raw` with the given timing.
pub open spec fn detection_of(
    raw: Seq<char>,
    start_time: u64,
    end_time: u64,
    confidence: u64,
    swear_words: Seq<Seq<char>>,
) -> DetectionModel {
    DetectionModel {
        word: clean_word_spec(raw),
        start_time,
        end_time,
        confidence,
        is_swear: classify_spec(raw, swear_words),
    }
}

/// `found`, with `detection` added if it is blocked.
pub open spec fn with_blocked(found: Seq<DetectionModel>, detection: DetectionModel) -> Seq<
    DetectionModel,
> {
    if detection.is_swear {
        found.push(detection)
    } else {
        found
    }
}

/// `found`, with the blocked ones among the first `n` timed words.
pub open spec fn timed_blocked(
    found: Seq<DetectionModel>,
    words: Seq<TranscriptWord>,
    swear_words: Seq<Seq<char>>,
    n: nat,
) -> Seq<DetectionModel>
    decreases n,
{
    if n == 0 {
        found
    } else {
        let word = words[n - 1];
        with_blocked(
            timed_blocked(found, words, swear_words, (n - 1) as nat),
            detection_of(word.word@, word.start, word.end, word.probability, swear_words),
        )
    }
}

/// Where token number `i` of `count` begins in a segment without word
/// timings: the tokens share the segment evenly.
pub open spec fn estimated_time(start: u64, end: u64, count: nat, i: nat) -> u64 {
    (start + (i * (end - start)) / (count as int)) as u64
}

/// `found`, with the blocked ones among the first `n` tokens of a segment
/// without word timings.
pub open spec fn estimated_blocked(
    found: Seq<DetectionModel>,
    tokens: Seq<Seq<char>>,
    start: u64,
    end: u64,
    swear_words: Seq<Seq<char>>,
    n: nat,
) -> Seq<DetectionModel>
    decreases n,
{
    if n == 0 {
        found
    } else {
        with_blocked(
            estimated_blocked(found, tokens, start, end, swear_words, (n - 1) as nat),
            detection_of(
                tokens[n - 1],
                estimated_time(start, end, tokens.len(), (n - 1) as nat),
                estimated_time(start, end, tokens.len(), n),
                ESTIMATED_CONFIDENCE,
                swear_words,
            ),
        )
    }
}

/// `found`, with the blocked detections of one segment.
pub open spec fn segment_blocked(
    found: Seq<DetectionModel>,
    segment: TranscriptSegment,
    swear_words: Seq<Seq<char>>,
) -> Seq<DetectionModel> {
    match segment.words {
        Some(words) => timed_blocked(found, words@, swear_words, words@.len()),
        None => estimated_blocked(
            found,
            words_of(segment.text@),
            segment.start,
            segment.end,
            swear_words,
            words_of(segment.text@).len(),
        ),
    }
}

/// The blocked detections of the first `n` segments of a transcript, in
/// the order of the transcript.
pub open spec fn transcript_blocked(
    segments: Seq<TranscriptSegment>,
    swear_words: Seq<Seq<char>>,
    n: nat,
) -> Seq<DetectionModel>
    decreases n,
{
    if n == 0 {
        Seq::empty()
    } else {
        segment_blocked(
            transcript_blocked(segments, swear_words, (n - 1) as nat),
            segments[n - 1],
            swear_words,
        )
    }
}

/// Whether the timings of a segment are valid: no timed word ends before it
/// begins, and neither does a segment without word timings.
pub open spec fn segment_timed(segment: TranscriptSegment) -> bool {
    match segment.words {
        Some(words) => forall|i: int|
            0 <= i < words@.len() ==> (#[trigger] words@[i]).start <= words@[i].end,
        None => segment.start <= segment.end,
    }
}

/// Whether the timings of a transcript are valid.
pub open spec fn transcript_timed(segments: Seq<TranscriptSegment>) -> bool {
    forall|i: int| 0 <= i < segments.len() ==> segment_timed(#[trigger] segments[i])
}

/// The error for a transcript with an invalid timing.
pub open spec fn malformed_transcript() -> ErrorModel {
    ErrorModel::MalformedTranscript { message: "a word or segment ends before it begins"@ }
}

/// Decides whether the timings of a segment are valid.
fn check_segment(segment: &TranscriptSegment) -> (r: bool)
    ensures
        r == segment_timed(*segment),
{
    match &segment.words {
        Some(words) => {
            let mut i: usize = 0;
            while i < words.len()
                invariant
                    i <= words@.len(),
                    segment.words == Some(*words),
                    forall|k: int| 0 <= k < i ==> (#[trigger] words@[k]).start <= words@[k].end,
                decreases words@.len() - i,
            {
                if words[i].start > words[i].end {
                    assert(segment.words->0@[i as int].start > segment.words->0@[i as int].end);
                    return false;
                }
                i = i + 1;
            }
            true
        },
        None => segment.start <= segment.end,
    }
}

/// Classifies the raw token `raw` and adds its detection to `found` if it
/// is blocked.
fn push_if_blocked(
    found: &mut Vec<WordDetection>,
    raw: &str,
    start_time: u64,
    end_time: u64,
    confidence: u64,
    swear_words: &[String],
)
    requires
        start_time <= end_time,
        all_timed(old(found)@),
    ensures
        detection_views(final(found)@) == with_blocked(
            detection_views(old(found)@),
            detection_of(raw@, start_time, end_time, confidence, views(swear_words@)),
        ),
        all_timed(final(found)@),
{
    let cleaned = clean_word(raw);
    let is_swear = is_swear_word(cleaned.as_str(), swear_words);
    if is_swear {
        let detection = WordDetection {
            word: cleaned,
            start_time,
            end_time,
            confidence,
            is_swear,
        };
        found.push(detection);
    }
}

/// Adds the blocked detections of one segment to `found`.
fn detect_in_segment(
    found: &mut Vec<WordDetection>,
    segment: &TranscriptSegment,
    swear_words: &[String],
)
    requires
        segment_timed(*segment),
        all_timed(old(found)@),
    ensures
        detection_views(final(found)@) == segment_blocked(
            detection_views(old(found)@),
            *segment,
            views(swear_words@),
        ),
        all_timed(final(found)@),
{
    let ghost start_views = detection_views(found@);
    match &segment.words {
        Some(words) => {
            let mut i: usize = 0;
            while i < words.len()
                invariant
                    i <= words@.len(),
                    segment.words == Some(*words),
                    segment_timed(*segment),
                    all_timed(found@),
                    detection_views(found@) == timed_blocked(
                        start_views,
                        words@,
                        views(swear_words@),
                        i as nat,
                    ),
                decreases words@.len() - i,
            {
                let word = &words[i];
                assert(segment.words->0@[i as int].start <= segment.words->0@[i as int].end);
                push_if_blocked(
                    found,
                    word.word.as_str(),
                    word.start,
                    word.end,
                    word.probability,
                    swear_words,
                );
                i = i + 1;
            }
        },
        None => {
            let tokens = split_whitespace(segment.text.as_str());
            let count = tokens.len();
            let duration: u64 = segment.end - segment.start;
            let mut i: usize = 0;
            while i < count
                invariant
                    i <= count == tokens@.len(),
                    views(tokens@) == words_of(segment.text@),
                    segment.start <= segment.end,
                    duration == segment.end - segment.start,
                    all_timed(found@),
                    detection_views(found@) == estimated_blocked(
                        start_views,
                        views(tokens@),
                        segment.start,
                        segment.end,
                        views(swear_words@),
                        i as nat,
                    ),
                decreases count - i,
            {
                let word_start = estimate(segment.start, duration, count, i);
                let word_end = estimate(segment.start, duration, count, i + 1);
                push_if_blocked(
                    found,
                    tokens[i].as_str(),
                    word_start,
                    word_end,
                    ESTIMATED_CONFIDENCE,
                    swear_words,
                );
                i = i + 1;
            }
        },
    }
}

/// Where token number `i` of `count` begins in a segment of `duration`
/// milliseconds that begins at `start`.
fn estimate(start: u64, duration: u64, count: usize, i: usize) -> (time: u64)
    requires
        start + duration <= u64::MAX,
        i <= count,
        count > 0,
    ensures
        time == estimated_time(start, (start + duration) as u64, count as nat, i as nat),
        start <= time <= start + duration,
        i < count ==> time <= estimated_time(
            start,
            (start + duration) as u64,
            count as nat,
            (i + 1) as nat,
        ),
{
    assert(i * duration <= u128::MAX) by (nonlinear_arith)
        requires
            0 <= i <= u64::MAX,
            0 <= duration <= u64::MAX,
    ;
    let offset: u128 = i as u128 * duration as u128 / count as u128;
    proof {
        assert(i * duration / (count as int) <= duration) by (nonlinear_arith)
            requires
                0 <= i <= count,
                count > 0,
                duration >= 0,
        ;
        assert(i * duration / (count as int) >= 0) by (nonlinear_arith)
            requires
                0 <= i,
                count > 0,
                duration >= 0,
        ;
        if i < count {
            assert(i * duration / (count as int) <= (i + 1) * duration / (count as int))
                by (nonlinear_arith)
                requires
                    0 <= i,
                    count > 0,
                    duration >= 0,
            ;
            assert((i + 1) * duration / (count as int) <= duration) by (nonlinear_arith)
                requires
                    0 <= i + 1 <= count,
                    count > 0,
                    duration >= 0,
            ;
        }
    }
    start + offset as u64
}

/// Turns a transcript into the blocked detections. Each word is normalized
/// and classified against `swear_words`; the words of a segment without
/// word timings share the segment evenly. A transcript with an invalid
/// timing is rejected as a whole.
pub fn detect_swear_words(segments: &[TranscriptSegment], swear_words: &[String]) -> (r: Result<
    Vec<WordDetection>,
>)
    ensures
        transcript_timed(segments@) ==> (r matches Ok(found) && detection_views(found@)
            == transcript_blocked(segments@, views(swear_words@), segments@.len()) && all_timed(
            found@,
        )),
        !transcript_timed(segments@) ==> (r matches Err(e) && e@ == malformed_transcript()),
{
    let mut k: usize = 0;
    while k < segments.len()
        invariant
            k <= segments@.len(),
            forall|i: int| 0 <= i < k ==> segment_timed(#[trigger] segments@[i]),
        decreases segments@.len() - k,
    {
        if !check_segment(&segments[k]) {
            return Err(
                BabymodeError::MalformedTranscript {
                    message: "a word or segment ends before it begins".to_string(),
                },
            );
        }
        k = k + 1;
    }
    let mut found: Vec<WordDetection> = Vec::new();
    let mut i: usize = 0;
    while i < segments.len()
        invariant
            i <= segments@.len(),
            transcript_timed(segments@),
            all_timed(found@),
            detection_views(found@) == transcript_blocked(
                segments@,
                views(swear_words@),
                i as nat,
            ),
        decreases segments@.len() - i,
    {
        detect_in_segment(&mut found, &segments[i], swear_words);
        i = i + 1;
    }
    Ok(found)
}

/// The script that transcribes an audio file with word timings and writes
/// the segments as JSON. It takes the size of the model and the path of
/// the audio file.
pub const WHISPER_SCRIPT: &'static str = r#"
import sys
import json
import os
from faster_whisper import WhisperModel

def transcribe_audio(model_size, audio_path):
    try:
        # Check if audio file exists
        if not os.path.exists(audio_path):
            raise FileNotFoundError(f"Audio file not found: {audio_path}")
        
        print(f"Loading model: {model_size}", file=sys.stderr)
        # Load the model
        model = WhisperModel(model_size, device="cpu", compute_type="int8")
        
        print(f"Transcribing: {audio_path}", file=sys.stderr)
        # Transcribe with word-level timestamps
        segments, info = model.transcribe(
            audio_path,
            word_timestamps=True,
            language="en"  # Assuming English, could be auto-detected
        )
        
        # Convert segments to serializable format
        result = []
        for segment in segments:
            segment_data = {
                "start": segment.start,
                "end": segment.end,
                "text": segment.text,
                "words": []
            }
            
            if hasattr(segment, 'words') and segment.words:
                for word in segment.words:
                    word_data = {
                        "word": word.word,
                        "start": word.start,
                        "end": word.end,
                        "probability": word.probability
                    }
                    segment_data["words"].append(word_data)
            
            result.append(segment_data)
        
        print(f"Transcription complete: {len(result)} segments", file=sys.stderr)
        return result
    
    except Exception as e:
        print(f"Error in transcription: {e}", file=sys.stderr)
        return []

if __name__ == "__main__":
    if len(sys.argv) != 3:
        print("Usage: python script.py <model_size> <audio_path>", file=sys.stderr)
        sys.exit(1)
    
    model_size = sys.argv[1]
    audio_path = sys.argv[2]
    
    result = transcribe_audio(model_size, audio_path)
    print(json.dumps(result, indent=2))
"#;

/// The error for a transcription without audio file.
pub open spec fn audio_missing(audio: Seq<char>) -> ErrorModel {
    ErrorModel::Processing {
        message: "Audio file does not exist: "@ + crate::paths::debug_form(audio),
    }
}

/// The step that runs the transcription script on an audio file.
pub open spec fn transcription_step(script: Seq<char>, audio: Seq<char>, model: Seq<char>)
    -> StepModel {
    step_model(
        "python3"@,
        seq![script, model, audio],
        "Failed to spawn Python process. Make sure Python 3 and faster-whisper are installed."@,
        false,
        "Whisper transcription failed: "@,
    )
}

/// Plans the transcription of `audio_path` by the script at `script_path`
/// with the model `model_size`, given whether the audio file is there. A
/// missing audio file is an error.
pub fn run_whisper_transcription_with(
    script_path: &str,
    audio_path: &str,
    model_size: &str,
    audio_present: bool,
) -> (r: Result<ToolStep>)
    ensures
        audio_present ==> (r matches Ok(step) && step@ == transcription_step(
            script_path@,
            audio_path@,
            model_size@,
        )),
        !audio_present ==> (r matches Err(e) && e@ == audio_missing(audio_path@)),
{
    if !audio_present {
        let mut message = "Audio file does not exist: ".to_string();
        message.append(crate::paths::path_debug(audio_path).as_str());
        return Err(BabymodeError::Processing { message });
    }
    let args = [script_path, model_size, audio_path];
    assert(args@.map_values(|p: &str| p@) =~= seq![script_path@, model_size@, audio_path@]);
    Ok(
        tool_step(
            "python3",
            &args,
            "Failed to spawn Python process. Make sure Python 3 and faster-whisper are installed.",
            false,
            "Whisper transcription failed: ",
        ),
    )
}

/// Plans the transcription of `audio_path`, if the file is there at the
/// moment of the call.
pub fn run_whisper_transcription(script_path: &str, audio_path: &str, model_size: &str) -> (r:
    Result<ToolStep>)
    ensures
        r matches Ok(step) ==> step@ == transcription_step(script_path@, audio_path@, model_size@),
        r matches Err(e) ==> e@ == audio_missing(audio_path@),
{
    let audio_present = crate::paths::path_exists(audio_path);
    run_whisper_transcription_with(script_path, audio_path, model_size, audio_present)
}

/// The error for a transcript that is no UTF-8.
pub open spec fn transcript_not_text() -> ErrorModel {
    ErrorModel::Processing { message: "stream did not contain valid UTF-8"@ }
}

/// The text that a transcription wrote, judged by how the run ended: the
/// error of the step if the run failed, the text of the output stream if
/// it is UTF-8.
pub fn transcription_output(step: &ToolStep, run: ToolRun) -> (r: Result<String>)
    ensures
        match run {
            Err(reason) => r matches Err(e) && e@ == step.spawn_error(reason@),
            Ok(output) => if !output.success {
                r matches Err(e) && e@ == step.exit_error(output.stderr@)
            } else if vstd::utf8::valid_utf8(output.stdout@) {
                r matches Ok(text) && text@ == vstd::utf8::decode_utf8(output.stdout@)
            } else {
                r matches Err(e) && e@ == transcript_not_text()
            },
        },
{
    match step.conclude(&run) {
        Err(e) => {
            return Err(e);
        },
        Ok(_) => {},
    }
    match run {
        Ok(output) => match crate::tool::strict_text(output.stdout) {
            Some(text) => Ok(text),
            None => Err(crate::error::processing_error("stream did not contain valid UTF-8")),
        },
        Err(_) => Err(crate::error::processing_error("stream did not contain valid UTF-8")),
    }
}

} // verus!
