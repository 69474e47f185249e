//! Route patterns.
//!
//! A pattern is a list of segments, each written after a `/`: a literal
//! word, a named capture `:name` that takes one non-empty word, or a closing
//! catch-all `*name` that takes the non-empty rest of the path.

use crate::text::{chars_of, copy_range, lemma_word_len_bounds, spells, word_end, word_len};
use vstd::prelude::*;
use vstd::string::StrSliceExecFns;

verus! {

/// One segment of a route pattern.
#[derive(Clone, Debug, PartialEq, Eq)]
pub enum Segment {
    /// Matches exactly this word.
    Literal(Vec<char>),
    /// Matches any non-empty word, and captures it under this name.
    Param(String),
    /// Matches the non-empty rest of the path, and captures it under this name.
    CatchAll(String),
}

/// The mathematical value of a [`Segment`].
pub enum SegmentView {
    Literal(Seq<char>),
    Param(Seq<char>),
    CatchAll(Seq<char>),
}

impl View for Segment {
    type V = SegmentView;

    open spec fn view(&self) -> SegmentView {
        match self {
            Segment::Literal(word) => SegmentView::Literal(word@),
            Segment::Param(name) => SegmentView::Param(name@),
            Segment::CatchAll(name) => SegmentView::CatchAll(name@),
        }
    }
}

/// The captures of a match: pairs of name and captured text, in the order
/// of the pattern's segments.
pub type Captures = Seq<(Seq<char>, Seq<char>)>;

/// What `segments` capture from `path`, or `None` where `path` does not
/// match them.
pub open spec fn match_segments(segments: Seq<SegmentView>, path: Seq<char>) -> Option<Captures>
    decreases segments.len(),
{
    if segments.len() == 0 {
        if path.len() == 0 {
            Some(Seq::empty())
        } else {
            None
        }
    } else if path.len() == 0 || path[0] != '/' {
        None
    } else {
        let rest = path.skip(1);
        let n = word_len(rest) as int;
        match segments[0] {
            SegmentView::Literal(word) => {
                if rest.take(n) == word {
                    match_segments(segments.skip(1), rest.skip(n))
                } else {
                    None
                }
            },
            SegmentView::Param(name) => {
                if n > 0 {
                    after(
                        seq![(name, rest.take(n))],
                        match_segments(segments.skip(1), rest.skip(n)),
                    )
                } else {
                    None
                }
            },
            SegmentView::CatchAll(name) => {
                if segments.len() == 1 && rest.len() > 0 {
                    Some(seq![(name, rest)])
                } else {
                    None
                }
            },
        }
    }
}

/// The captures `found` so far, followed by what the remaining segments
/// capture; `None` where these do not match.
pub open spec fn after(found: Captures, remaining: Option<Captures>) -> Option<Captures> {
    match remaining {
        Some(more) => Some(found + more),
        None => None,
    }
}

/// The value that the last capture named `name` holds.
pub open spec fn lookup(captures: Captures, name: Seq<char>) -> Option<Seq<char>>
    decreases captures.len(),
{
    if captures.len() == 0 {
        None
    } else if captures.last().0 == name {
        Some(captures.last().1)
    } else {
        lookup(captures.drop_last(), name)
    }
}

/// The parameters that a matched route captured from the path.
#[derive(Clone, Debug, PartialEq, Eq)]
pub struct Params {
    pub entries: Vec<(String, String)>,
}

impl View for Params {
    type V = Captures;

    open spec fn view(&self) -> Captures {
        Seq::new(self.entries@.len(), |i: int| (self.entries@[i].0@, self.entries@[i].1@))
    }
}

impl Params {
    /// No parameters.
    pub fn new() -> (p: Params)
        ensures
            p@ == Captures::empty(),
    {
        let p = Params { entries: Vec::new() };
        assert(p@ =~= Captures::empty());
        p
    }

    /// Adds a capture behind those that are there.
    pub fn push(&mut self, name: String, value: String)
        ensures
            final(self)@ == old(self)@.push((name@, value@)),
    {
        self.entries.push((name, value));
        assert(self@ =~= old(self)@.push((name@, value@)));
    }

    /// The value captured under `name`; where the name was captured more
    /// than once, the last one.
    pub fn get(&self, name: &str) -> (value: Option<&String>)
        ensures
            match value {
                Some(v) => lookup(self@, name@) == Some(v@),
                None => lookup(self@, name@) is None,
            },
    {
        let key = name.to_owned();
        let mut i: usize = self.entries.len();
        assert(self@.take(i as int) =~= self@);
        while i > 0
            invariant
                i <= self.entries.len(),
                key@ == name@,
                lookup(self@, name@) == lookup(self@.take(i as int), name@),
            decreases i,
        {
            i -= 1;
            let ghost shorter = self@.take(i as int + 1);
            assert(shorter.last() == self@[i as int]);
            assert(shorter.drop_last() =~= self@.take(i as int));
            if self.entries[i].0 == key {
                return Some(&self.entries[i].1);
            }
        }
        None
    }
}

/// Why a text is no route pattern.
#[derive(Clone, Copy, Debug, PartialEq, Eq, Structural)]
pub enum PatternError {
    /// The text is empty or does not start with `/`.
    MissingSlash,
    /// A `:` or `*` that opens a segment is not followed by a name.
    Unnamed,
    /// A catch-all is followed by further segments.
    CatchAllNotLast,
}

/// The segment that `word` denotes: `:name` and `*name` are captures, any
/// other word stands for itself. `None` where the name is missing.
pub open spec fn segment_of(word: Seq<char>) -> Option<SegmentView> {
    if word.len() > 0 && (word[0] == ':' || word[0] == '*') {
        if word.len() == 1 {
            None
        } else if word[0] == ':' {
            Some(SegmentView::Param(word.skip(1)))
        } else {
            Some(SegmentView::CatchAll(word.skip(1)))
        }
    } else {
        Some(SegmentView::Literal(word))
    }
}

/// The segments `first` that were read so far, followed by those that the
/// rest of the text denotes, or the error found there.
pub open spec fn behind(
    first: Seq<SegmentView>,
    rest: Result<Seq<SegmentView>, PatternError>,
) -> Result<Seq<SegmentView>, PatternError> {
    match rest {
        Ok(more) => Ok(first + more),
        Err(e) => Err(e),
    }
}

/// The segments that `text` denotes, read from the left: each one is the
/// word after a `/`. The first fault found is the error.
pub open spec fn parse_segments(text: Seq<char>) -> Result<Seq<SegmentView>, PatternError>
    decreases text.len(),
{
    if text.len() == 0 {
        Ok(Seq::empty())
    } else if text[0] != '/' {
        Err(PatternError::MissingSlash)
    } else {
        let rest = text.skip(1);
        let n = word_len(rest) as int;
        match segment_of(rest.take(n)) {
            None => Err(PatternError::Unnamed),
            Some(segment) => {
                if segment is CatchAll && n < rest.len() {
                    Err(PatternError::CatchAllNotLast)
                } else {
                    proof {
                        lemma_word_len_bounds(rest);
                    }
                    behind(seq![segment], parse_segments(rest.skip(n)))
                }
            },
        }
    }
}

/// The pattern that `text` denotes. A pattern has at least one segment.
pub open spec fn parse_pattern(text: Seq<char>) -> Result<Seq<SegmentView>, PatternError> {
    if text.len() == 0 {
        Err(PatternError::MissingSlash)
    } else {
        parse_segments(text)
    }
}

/// How a segment is written.
pub open spec fn segment_text(segment: SegmentView) -> Seq<char> {
    match segment {
        SegmentView::Literal(word) => word,
        SegmentView::Param(name) => seq![':'] + name,
        SegmentView::CatchAll(name) => seq!['*'] + name,
    }
}

/// How a pattern is written: each segment after a `/`.
pub open spec fn pattern_text(segments: Seq<SegmentView>) -> Seq<char>
    decreases segments.len(),
{
    if segments.len() == 0 {
        Seq::empty()
    } else {
        seq!['/'] + segment_text(segments[0]) + pattern_text(segments.skip(1))
    }
}

/// Whether `s` holds no `/`.
pub open spec fn slash_free(s: Seq<char>) -> bool {
    forall|i: int| 0 <= i < s.len() ==> s[i] != '/'
}

/// A literal is a word that does not read as a capture; a capture has a
/// name, which is a non-empty word.
pub open spec fn segment_well_formed(segment: SegmentView) -> bool {
    match segment {
        SegmentView::Literal(word) => slash_free(word) && (word.len() > 0 ==> word[0] != ':'
            && word[0] != '*'),
        SegmentView::Param(name) => slash_free(name) && name.len() > 0,
        SegmentView::CatchAll(name) => slash_free(name) && name.len() > 0,
    }
}

/// Every segment is well-formed, and a catch-all comes last.
pub open spec fn segments_well_formed(segments: Seq<SegmentView>) -> bool {
    forall|i: int|
        0 <= i < segments.len() ==> segment_well_formed(#[trigger] segments[i]) && (
        segments[i] is CatchAll ==> i == segments.len() - 1)
}

/// A pattern has at least one segment, all of them well-formed, and a
/// catch-all only at its end.
pub open spec fn well_formed(segments: Seq<SegmentView>) -> bool {
    segments.len() > 0 && segments_well_formed(segments)
}

/// A route pattern.
#[derive(Clone, Debug, PartialEq, Eq)]
pub struct Pattern {
    pub segments: Vec<Segment>,
}

impl View for Pattern {
    type V = Seq<SegmentView>;

    open spec fn view(&self) -> Seq<SegmentView> {
        Seq::new(self.segments@.len(), |i: int| self.segments@[i]@)
    }
}

impl Pattern {
    /// Reads a pattern such as `/user/:name` or `/files/*rest`.
    pub fn parse(text: &str) -> (parsed: Result<Pattern, PatternError>)
        ensures
            match parsed {
                Ok(pattern) => parse_pattern(text@) == Ok::<Seq<SegmentView>, PatternError>(
                    pattern@,
                ),
                Err(e) => parse_pattern(text@) == Err::<Seq<SegmentView>, PatternError>(e),
            },
    {
        let chars = chars_of(text);
        let n = chars.len();
        if n == 0 {
            return Err(PatternError::MissingSlash);
        }
        let mut pattern = Pattern { segments: Vec::new() };
        let mut pos: usize = 0;
        proof {
            assert(text@.skip(0) =~= text@);
            assert(pattern@ =~= Seq::empty());
            lemma_behind_nothing(parse_segments(text@));
        }
        while pos < n
            invariant
                pos <= n,
                n == chars.len(),
                chars@ == text@,
                parse_segments(text@) == behind(pattern@, parse_segments(text@.skip(pos as int))),
            decreases n - pos,
        {
            let ghost left = text@.skip(pos as int);
            if chars[pos] != '/' {
                return Err(PatternError::MissingSlash);
            }
            let start = pos + 1;
            let end = word_end(&chars, start);
            proof {
                assert(left.skip(1) =~= text@.skip(start as int));
                assert(left.skip(1).take(end - start) =~= text@.subrange(start as int, end as int));
                assert(left.skip(1).skip(end - start) =~= text@.skip(end as int));
            }
            let ghost word = text@.subrange(start as int, end as int);
            let ghost before = pattern@;
            let segment = if start < end && (chars[start] == ':' || chars[start] == '*') {
                if end - start == 1 {
                    return Err(PatternError::Unnamed);
                }
                let name = text.substring_char(start + 1, end).to_owned();
                assert(name@ =~= word.skip(1));
                if chars[start] == ':' {
                    Segment::Param(name)
                } else {
                    if end < n {
                        return Err(PatternError::CatchAllNotLast);
                    }
                    Segment::CatchAll(name)
                }
            } else {
                Segment::Literal(copy_range(&chars, start, end))
            };
            assert(segment_of(word) == Some(segment@));
            pattern.segments.push(segment);
            proof {
                assert(pattern@ =~= before + seq![segment@]);
                lemma_behind_behind(before, seq![segment@], parse_segments(text@.skip(end as int)));
            }
            pos = end;
        }
        proof {
            assert(text@.skip(pos as int).len() == 0);
            assert(pattern@ + Seq::<SegmentView>::empty() =~= pattern@);
        }
        Ok(pattern)
    }

    /// Matches `path` against the pattern. Returns what the pattern's
    /// captures hold, or `None` where the path does not match.
    pub fn captures(&self, path: &str) -> (found: Option<Params>)
        ensures
            match found {
                Some(params) => match_segments(self@, path@) == Some(params@),
                None => match_segments(self@, path@) is None,
            },
    {
        let chars = chars_of(path);
        self.captures_in(path, &chars)
    }

    /// As [`Pattern::captures`], for a path whose characters are at hand.
    pub(crate) fn captures_in(&self, path: &str, chars: &Vec<char>) -> (found: Option<Params>)
        requires
            chars@ == path@,
        ensures
            match found {
                Some(params) => match_segments(self@, path@) == Some(params@),
                None => match_segments(self@, path@) is None,
            },
    {
        let n = chars.len();
        let mut params = Params::new();
        let mut pos: usize = 0;
        let mut k: usize = 0;
        proof {
            assert(self@.skip(0) =~= self@);
            assert(path@.skip(0) =~= path@);
            lemma_after_nothing(match_segments(self@, path@));
        }
        while k < self.segments.len()
            invariant
                k <= self.segments.len(),
                pos <= n,
                n == chars.len(),
                chars@ == path@,
                match_segments(self@, path@) == after(
                    params@,
                    match_segments(self@.skip(k as int), path@.skip(pos as int)),
                ),
            decreases self.segments.len() - k,
        {
            let ghost here = self@.skip(k as int);
            let ghost left = path@.skip(pos as int);
            assert(here[0] == self.segments@[k as int]@);
            if pos >= n || chars[pos] != '/' {
                return None;
            }
            let start = pos + 1;
            let end = word_end(chars, start);
            proof {
                assert(left.skip(1) =~= path@.skip(start as int));
                assert(left.skip(1).take(end - start) =~= path@.subrange(start as int, end as int));
                assert(left.skip(1).skip(end - start) =~= path@.skip(end as int));
                assert(here.skip(1) =~= self@.skip(k as int + 1));
            }
            match &self.segments[k] {
                Segment::Literal(word) => {
                    if !spells(chars, start, end, word) {
                        return None;
                    }
                },
                Segment::Param(name) => {
                    if end == start {
                        return None;
                    }
                    let ghost before = params@;
                    let value = path.substring_char(start, end).to_owned();
                    params.push(name.clone(), value);
                    proof {
                        lemma_after_after(
                            before,
                            seq![(name@, value@)],
                            match_segments(self@.skip(k as int + 1), path@.skip(end as int)),
                        );
                        assert(before + seq![(name@, value@)] =~= params@);
                    }
                },
                Segment::CatchAll(name) => {
                    if k + 1 != self.segments.len() || start >= n {
                        return None;
                    }
                    let ghost before = params@;
                    let value = path.substring_char(start, n).to_owned();
                    params.push(name.clone(), value);
                    proof {
                        assert(path@.subrange(start as int, n as int) =~= path@.skip(start as int));
                        assert(before + seq![(name@, value@)] =~= params@);
                    }
                    return Some(params);
                },
            }
            pos = end;
            k += 1;
        }
        proof {
            assert(self@.skip(k as int).len() == 0);
            if pos == n {
                assert(params@ + Captures::empty() =~= params@);
            }
        }
        if pos == n {
            Some(params)
        } else {
            None
        }
    }
}

/// Nothing found so far changes nothing.
pub proof fn lemma_after_nothing(remaining: Option<Captures>)
    ensures
        after(Captures::empty(), remaining) == remaining,
{
    if let Some(more) = remaining {
        assert(Captures::empty() + more =~= more);
    }
}

/// Captures found in two steps are the captures found in one.
pub proof fn lemma_after_after(first: Captures, second: Captures, remaining: Option<Captures>)
    ensures
        after(first, after(second, remaining)) == after(first + second, remaining),
{
    if let Some(more) = remaining {
        assert(first + (second + more) =~= (first + second) + more);
    }
}

/// No segments read so far change nothing.
pub proof fn lemma_behind_nothing(rest: Result<Seq<SegmentView>, PatternError>)
    ensures
        behind(Seq::empty(), rest) == rest,
{
    if let Ok(more) = rest {
        assert(Seq::<SegmentView>::empty() + more =~= more);
    }
}

/// Segments read in two steps are the segments read in one.
pub proof fn lemma_behind_behind(
    first: Seq<SegmentView>,
    second: Seq<SegmentView>,
    rest: Result<Seq<SegmentView>, PatternError>,
)
    ensures
        behind(first, behind(second, rest)) == behind(first + second, rest),
{
    if let Ok(more) = rest {
        assert(first + (second + more) =~= (first + second) + more);
    }
}

/// Reading the text of well-formed segments gives the segments back.
pub proof fn lemma_parse_segments_of_text(segments: Seq<SegmentView>)
    requires
        segments_well_formed(segments),
    ensures
        parse_segments(pattern_text(segments)) == Ok::<Seq<SegmentView>, PatternError>(segments),
    decreases segments.len(),
{
    if segments.len() > 0 {
        let first = segments[0];
        let tail = segments.skip(1);
        let word = segment_text(first);
        let text = pattern_text(segments);
        let rest = text.skip(1);
        assert(segment_well_formed(first));
        assert forall|i: int| 0 <= i < tail.len() implies segment_well_formed(#[trigger] tail[i])
            && (tail[i] is CatchAll ==> i == tail.len() - 1) by {
            assert(tail[i] == segments[i + 1]);
        }
        lemma_parse_segments_of_text(tail);
        assert(rest =~= word + pattern_text(tail));
        assert(slash_free(word));
        if tail.len() > 0 {
            assert(pattern_text(tail)[0] == '/');
            assert(rest[word.len() as int] == '/');
        } else {
            assert(rest.len() == word.len());
        }
        crate::text::lemma_word_len(rest, word.len() as int);
        assert(rest.take(word.len() as int) =~= word);
        assert(rest.skip(word.len() as int) =~= pattern_text(tail));
        match first {
            SegmentView::Literal(w) => {},
            SegmentView::Param(name) => {
                assert(word.skip(1) =~= name);
            },
            SegmentView::CatchAll(name) => {
                assert(word.skip(1) =~= name);
            },
        }
        assert(segment_of(word) == Some(first));
        assert(seq![first] + tail =~= segments);
    } else {
        assert(segments =~= Seq::empty());
    }
}

/// Reading the text that a well-formed pattern is written as gives the
/// pattern back.
pub proof fn lemma_parse_of_text(segments: Seq<SegmentView>)
    requires
        well_formed(segments),
    ensures
        parse_pattern(pattern_text(segments)) == Ok::<Seq<SegmentView>, PatternError>(segments),
{
    lemma_parse_segments_of_text(segments);
}

/// What a text is read as is well-formed and is written as that text.
pub proof fn lemma_text_of_parse_segments(text: Seq<char>, segments: Seq<SegmentView>)
    requires
        parse_segments(text) == Ok::<Seq<SegmentView>, PatternError>(segments),
    ensures
        segments_well_formed(segments),
        pattern_text(segments) == text,
    decreases text.len(),
{
    if text.len() > 0 {
        let rest = text.skip(1);
        let n = word_len(rest) as int;
        let word = rest.take(n);
        lemma_word_len_bounds(rest);
        let first = segment_of(word)->0;
        let more = parse_segments(rest.skip(n))->Ok_0;
        lemma_text_of_parse_segments(rest.skip(n), more);
        assert(segments =~= seq![first] + more);
        assert(segments.skip(1) =~= more);
        assert(slash_free(word));
        match first {
            SegmentView::Literal(w) => {},
            SegmentView::Param(name) => {
                assert(seq![':'] + name =~= word);
                assert forall|i: int| 0 <= i < name.len() implies name[i] != '/' by {
                    assert(name[i] == word[i + 1]);
                }
            },
            SegmentView::CatchAll(name) => {
                assert(seq!['*'] + name =~= word);
                assert forall|i: int| 0 <= i < name.len() implies name[i] != '/' by {
                    assert(name[i] == word[i + 1]);
                }
                assert(rest.skip(n).len() == 0);
            },
        }
        assert(segment_text(first) == word);
        assert(seq!['/'] + word + rest.skip(n) =~= text);
        assert forall|i: int| 0 <= i < segments.len() implies segment_well_formed(
            #[trigger] segments[i],
        ) && (segments[i] is CatchAll ==> i == segments.len() - 1) by {
            if i > 0 {
                assert(segments[i] == more[i - 1]);
            }
        }
    } else {
        assert(segments =~= Seq::empty());
    }
}

/// A pattern that was read from a text is well-formed and is written as
/// that text.
pub proof fn lemma_text_of_parse(text: Seq<char>, segments: Seq<SegmentView>)
    requires
        parse_pattern(text) == Ok::<Seq<SegmentView>, PatternError>(segments),
    ensures
        well_formed(segments),
        pattern_text(segments) == text,
{
    lemma_text_of_parse_segments(text, segments);
}

/// A pattern of one literal word matches the path of that word, and no
/// other path of one word.
pub proof fn lemma_match_word(literal: Seq<char>, word: Seq<char>)
    requires
        slash_free(word),
    ensures
        match_segments(seq![SegmentView::Literal(literal)], seq!['/'] + word) == if word
            == literal {
            Some(Captures::empty())
        } else {
            None
        },
{
    let segments = seq![SegmentView::Literal(literal)];
    let path = seq!['/'] + word;
    let rest = path.skip(1);
    assert(rest =~= word);
    crate::text::lemma_word_len(rest, word.len() as int);
    assert(rest.take(word.len() as int) =~= word);
    assert(rest.skip(word.len() as int) =~= Seq::empty());
    assert(segments.skip(1) =~= Seq::empty());
    assert(match_segments(segments.skip(1), rest.skip(word.len() as int)) == Some(
        Captures::empty(),
    ));
}

/// A pattern of one literal word matches no path of two words.
pub proof fn lemma_match_word_short(literal: Seq<char>, first: Seq<char>, second: Seq<char>)
    requires
        slash_free(first),
    ensures
        match_segments(
            seq![SegmentView::Literal(literal)],
            seq!['/'] + first + seq!['/'] + second,
        ) is None,
{
    let segments = seq![SegmentView::Literal(literal)];
    let path = seq!['/'] + first + seq!['/'] + second;
    let rest = path.skip(1);
    assert(rest =~= first + seq!['/'] + second);
    assert(rest[first.len() as int] == '/');
    crate::text::lemma_word_len(rest, first.len() as int);
    let left = rest.skip(first.len() as int);
    assert(left.len() > 0);
    assert(segments.skip(1) =~= Seq::empty());
    assert(match_segments(segments.skip(1), left) is None);
}

/// A pattern of a literal word and a named capture matches no path of one
/// word.
pub proof fn lemma_match_word_and_name_long(literal: Seq<char>, name: Seq<char>, word: Seq<char>)
    requires
        slash_free(word),
    ensures
        match_segments(
            seq![SegmentView::Literal(literal), SegmentView::Param(name)],
            seq!['/'] + word,
        ) is None,
{
    let segments = seq![SegmentView::Literal(literal), SegmentView::Param(name)];
    let path = seq!['/'] + word;
    let rest = path.skip(1);
    assert(rest =~= word);
    crate::text::lemma_word_len(rest, word.len() as int);
    assert(rest.skip(word.len() as int) =~= Seq::empty());
    assert(segments.skip(1).len() > 0);
    assert(match_segments(segments.skip(1), rest.skip(word.len() as int)) is None);
}

/// A pattern of a literal word and a named capture matches the paths of
/// that word and one more word that is not empty, and captures the second
/// word; it matches no other path of two words.
pub proof fn lemma_match_word_and_name(
    literal: Seq<char>,
    name: Seq<char>,
    first: Seq<char>,
    second: Seq<char>,
)
    requires
        slash_free(first),
        slash_free(second),
    ensures
        match_segments(
            seq![SegmentView::Literal(literal), SegmentView::Param(name)],
            seq!['/'] + first + seq!['/'] + second,
        ) == if first == literal && second.len() > 0 {
            Some(seq![(name, second)])
        } else {
            None
        },
{
    let segments = seq![SegmentView::Literal(literal), SegmentView::Param(name)];
    let path = seq!['/'] + first + seq!['/'] + second;
    let rest = path.skip(1);
    assert(rest =~= first + seq!['/'] + second);
    assert(rest[first.len() as int] == '/');
    crate::text::lemma_word_len(rest, first.len() as int);
    assert(rest.take(first.len() as int) =~= first);
    let left = rest.skip(first.len() as int);
    assert(left =~= seq!['/'] + second);
    let tail = segments.skip(1);
    assert(tail =~= seq![SegmentView::Param(name)]);
    assert(tail[0] == SegmentView::Param(name));
    let last = left.skip(1);
    assert(last =~= second);
    crate::text::lemma_word_len(last, second.len() as int);
    assert(last.take(second.len() as int) =~= second);
    assert(last.skip(second.len() as int) =~= Seq::empty());
    assert(tail.skip(1) =~= Seq::empty());
    assert(match_segments(tail.skip(1), last.skip(second.len() as int)) == Some(
        Captures::empty(),
    ));
    assert(seq![(name, second)] + Captures::empty() =~= seq![(name, second)]);
    if second.len() > 0 {
        assert(match_segments(tail, left) == Some(seq![(name, second)]));
    } else {
        assert(match_segments(tail, left) is None);
    }
}

} // verus!
