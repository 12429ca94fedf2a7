//! Characters, lines and trimming: the structural vocabulary that every
//! analysis pass shares.
//!
//! A document is modelled as its sequence of characters (`Seq<char>`), a line
//! as a contiguous piece of it. Executable code walks a `Vec<char>` copy of the
//! text and speaks of pieces by their bounds, a [`Span`].

use vstd::prelude::*;
use vstd::string::*;
use vstd::utf8::*;

verus! {

/// A half-open range `start..end` of character positions in a text.
#[derive(Clone, Copy, Debug, PartialEq, Eq, Structural)]
pub struct Span {
    pub start: usize,
    pub end: usize,
}

impl Span {
    /// `start <= end`, and both lie within a text of `len` characters.
    pub open spec fn within(self, len: nat) -> bool {
        self.start <= self.end <= len
    }

    /// The characters of `chars` that the span covers.
    pub open spec fn of(self, chars: Seq<char>) -> Seq<char> {
        chars.subrange(self.start as int, self.end as int)
    }
}

/// The characters of `s`, in order.
pub fn chars_of(s: &str) -> (chars: Vec<char>)
    ensures
        chars@ == s@,
{
    let mut chars: Vec<char> = Vec::new();
    for c in it: s.chars()
        invariant
            it.seq() == s@,
            chars@ == s@.take(it.index() as int),
    {
        proof {
            assert(s@.take(it.index() + 1) =~= s@.take(it.index() as int).push(c));
        }
        chars.push(c);
    }
    proof {
        assert(s@.take(s@.len() as int) =~= s@);
    }
    chars
}

/// Unicode white space: the characters that trimming removes.
pub open spec fn is_whitespace(c: char) -> bool {
    let u = c as u32;
    ||| 0x09 <= u <= 0x0D
    ||| u == 0x20
    ||| u == 0x85
    ||| u == 0xA0
    ||| u == 0x1680
    ||| 0x2000 <= u <= 0x200A
    ||| u == 0x2028
    ||| u == 0x2029
    ||| u == 0x202F
    ||| u == 0x205F
    ||| u == 0x3000
}

/// Executable form of [`is_whitespace`].
pub fn char_is_whitespace(c: char) -> (b: bool)
    ensures
        b == is_whitespace(c),
{
    let u: u32 = c as u32;
    (0x09 <= u && u <= 0x0D) || u == 0x20 || u == 0x85 || u == 0xA0 || u == 0x1680 || (0x2000 <= u
        && u <= 0x200A) || u == 0x2028 || u == 0x2029 || u == 0x202F || u == 0x205F || u == 0x3000
}

/// Position of the first `c` in `s`, or `s.len()` where `s` holds none.
pub open spec fn first_index(s: Seq<char>, c: char) -> int
    decreases s.len(),
{
    if s.len() == 0 || s[0] == c {
        0
    } else {
        1 + first_index(s.drop_first(), c)
    }
}

/// What [`first_index`] returns: nothing before it is `c`, and the character
/// at it is `c` unless `s` is exhausted.
pub proof fn lemma_first_index(s: Seq<char>, c: char)
    ensures
        0 <= first_index(s, c) <= s.len(),
        forall|j: int| 0 <= j < first_index(s, c) ==> s[j] != c,
        first_index(s, c) < s.len() ==> s[first_index(s, c)] == c,
        first_index(s, c) < s.len() <==> s.contains(c),
    decreases s.len(),
{
    if s.len() == 0 || s[0] == c {
        if s.len() > 0 {
            assert(s[0] == c);
        }
    } else {
        let rest = s.drop_first();
        lemma_first_index(rest, c);
        let k = first_index(rest, c);
        assert forall|j: int| 0 <= j < 1 + k implies s[j] != c by {
            if j > 0 {
                assert(rest[j - 1] == s[j]);
            }
        }
        if k < rest.len() {
            assert(rest[k] == s[k + 1]);
        }
        if s.contains(c) {
            let i = choose|i: int| 0 <= i < s.len() && s[i] == c;
            assert(rest[i - 1] == c);
        }
    }
}

/// A position with the two properties of [`lemma_first_index`] is the first index.
pub proof fn lemma_first_index_is(s: Seq<char>, c: char, k: int)
    requires
        0 <= k <= s.len(),
        forall|j: int| 0 <= j < k ==> s[j] != c,
        k < s.len() ==> s[k] == c,
    ensures
        first_index(s, c) == k,
{
    lemma_first_index(s, c);
}

/// `s` without its leading white space.
pub open spec fn trim_start(s: Seq<char>) -> Seq<char>
    decreases s.len(),
{
    if s.len() > 0 && is_whitespace(s[0]) {
        trim_start(s.drop_first())
    } else {
        s
    }
}

/// `s` without its trailing white space.
pub open spec fn trim_end(s: Seq<char>) -> Seq<char>
    decreases s.len(),
{
    if s.len() > 0 && is_whitespace(s.last()) {
        trim_end(s.drop_last())
    } else {
        s
    }
}

/// `s` without leading and trailing white space.
pub open spec fn trim(s: Seq<char>) -> Seq<char> {
    trim_end(trim_start(s))
}

/// Bounds of the trimmed content of `span`.
pub fn trim_span(chars: &Vec<char>, span: Span) -> (t: Span)
    requires
        span.within(chars@.len()),
    ensures
        span.start <= t.start <= t.end <= span.end,
        t.of(chars@) == trim(span.of(chars@)),
{
    let mut a: usize = span.start;
    while a < span.end && char_is_whitespace(chars[a])
        invariant
            span.within(chars@.len()),
            span.start <= a <= span.end,
            trim_start(span.of(chars@)) == trim_start(chars@.subrange(a as int, span.end as int)),
        decreases span.end - a,
    {
        proof {
            assert(chars@.subrange(a as int, span.end as int).drop_first() =~= chars@.subrange(
                a + 1,
                span.end as int,
            ));
        }
        a = a + 1;
    }
    let mut b: usize = span.end;
    while a < b && char_is_whitespace(chars[b - 1])
        invariant
            span.within(chars@.len()),
            span.start <= a <= b <= span.end,
            trim(span.of(chars@)) == trim_end(chars@.subrange(a as int, b as int)),
        decreases b - a,
    {
        proof {
            assert(chars@.subrange(a as int, b as int).drop_last() =~= chars@.subrange(
                a as int,
                b - 1,
            ));
        }
        b = b - 1;
    }
    Span { start: a, end: b }
}

/// Position of the first `c` within `span`, or `span.end` where it holds none.
pub fn find_char(chars: &Vec<char>, span: Span, c: char) -> (i: usize)
    requires
        span.within(chars@.len()),
    ensures
        span.start <= i <= span.end,
        i - span.start == first_index(span.of(chars@), c),
        i < span.end <==> span.of(chars@).contains(c),
{
    let mut i: usize = span.start;
    while i < span.end && chars[i] != c
        invariant
            span.within(chars@.len()),
            span.start <= i <= span.end,
            forall|j: int| span.start <= j < i ==> chars@[j] != c,
        decreases span.end - i,
    {
        i = i + 1;
    }
    proof {
        lemma_first_index_is(span.of(chars@), c, i - span.start);
        lemma_first_index(span.of(chars@), c);
    }
    i
}

/// `s` without one trailing carriage return, if it ends in one.
pub open spec fn strip_cr(s: Seq<char>) -> Seq<char> {
    if s.len() > 0 && s.last() == '\r' {
        s.drop_last()
    } else {
        s
    }
}

/// The lines of `text`. A line ends at a line feed, which is not part of it,
/// nor is a carriage return directly before that line feed. What follows the
/// last line feed is a line of its own unless it is empty.
pub open spec fn lines(text: Seq<char>) -> Seq<Seq<char>>
    decreases text.len(),
{
    if text.len() == 0 {
        Seq::empty()
    } else {
        let k = first_index(text, '\n');
        if 0 <= k < text.len() {
            seq![strip_cr(text.take(k))] + lines(text.skip(k + 1))
        } else {
            seq![text]
        }
    }
}

/// The pieces of `chars` that `spans` cover, in order.
pub open spec fn pieces(chars: Seq<char>, spans: Seq<Span>) -> Seq<Seq<char>> {
    Seq::new(spans.len(), |i: int| spans[i].of(chars))
}

/// Every span of `spans` lies within a text of `len` characters.
pub open spec fn all_within(spans: Seq<Span>, len: nat) -> bool {
    forall|i: int| 0 <= i < spans.len() ==> (#[trigger] spans[i]).within(len)
}

/// Bounds of the lines of `chars`.
pub fn split_lines(chars: &Vec<char>) -> (spans: Vec<Span>)
    ensures
        all_within(spans@, chars@.len()),
        pieces(chars@, spans@) == lines(chars@),
{
    let n: usize = chars.len();
    let mut spans: Vec<Span> = Vec::new();
    let mut pos: usize = 0;
    proof {
        assert(chars@.subrange(0, n as int) =~= chars@);
        assert(pieces(chars@, spans@) + lines(chars@) =~= lines(chars@));
    }
    while pos < n
        invariant
            n == chars@.len(),
            pos <= n,
            all_within(spans@, chars@.len()),
            pieces(chars@, spans@) + lines(chars@.subrange(pos as int, n as int)) == lines(chars@),
        decreases n - pos,
    {
        let ghost rest = chars@.subrange(pos as int, n as int);
        let ghost before = spans@;
        let stop: usize = find_char(chars, Span { start: pos, end: n }, '\n');
        if stop < n {
            let mut end: usize = stop;
            if end > pos && chars[end - 1] == '\r' {
                end = end - 1;
            }
            let line = Span { start: pos, end };
            spans.push(line);
            proof {
                let k = stop - pos;
                assert(rest.take(k) =~= chars@.subrange(pos as int, stop as int));
                assert(rest.skip(k + 1) =~= chars@.subrange(stop + 1, n as int));
                assert(line.of(chars@) =~= strip_cr(rest.take(k)));
                assert(pieces(chars@, spans@) =~= pieces(chars@, before) + seq![line.of(chars@)]);
                assert(pieces(chars@, spans@) + lines(rest.skip(k + 1)) =~= pieces(chars@, before)
                    + lines(rest));
            }
            pos = stop + 1;
        } else {
            let line = Span { start: pos, end: n };
            spans.push(line);
            proof {
                assert(lines(rest) =~= seq![rest]);
                assert(pieces(chars@, spans@) =~= pieces(chars@, before) + seq![rest]);
                assert(chars@.subrange(n as int, n as int) =~= Seq::<char>::empty());
                assert(pieces(chars@, spans@) + lines(chars@.subrange(n as int, n as int))
                    =~= pieces(chars@, before) + lines(rest));
            }
            pos = n;
        }
    }
    proof {
        assert(chars@.subrange(n as int, n as int) =~= Seq::<char>::empty());
        assert(pieces(chars@, spans@) + lines(chars@.subrange(pos as int, n as int)) =~= pieces(
            chars@,
            spans@,
        ));
    }
    spans
}

/// Length of `s` in bytes when encoded as UTF-8.
pub open spec fn utf8_len(s: Seq<char>) -> nat {
    encode_utf8(s).len()
}

/// Number of bytes that `c` takes in UTF-8.
pub open spec fn char_width(c: char) -> nat {
    if c as u32 <= 0x7F {
        1
    } else if c as u32 <= 0x7FF {
        2
    } else if c as u32 <= 0xFFFF {
        3
    } else {
        4
    }
}

/// The UTF-8 length of a concatenation is the sum of the lengths.
pub proof fn lemma_utf8_len_concat(a: Seq<char>, b: Seq<char>)
    ensures
        utf8_len(a + b) == utf8_len(a) + utf8_len(b),
    decreases a.len(),
{
    if a.len() == 0 {
        assert(a + b =~= b);
    } else {
        assert((a + b).drop_first() =~= a.drop_first() + b);
        lemma_utf8_len_concat(a.drop_first(), b);
    }
}

/// One more character adds its width.
pub proof fn lemma_utf8_len_push(a: Seq<char>, c: char)
    ensures
        utf8_len(a.push(c)) == utf8_len(a) + char_width(c),
{
    let one = seq![c];
    assert(a.push(c) =~= a + one);
    lemma_utf8_len_concat(a, one);
    char_is_scalar(c);
    assert(one.drop_first() =~= Seq::<char>::empty());
    assert(encode_utf8(one) =~= encode_scalar(c as u32)) by {
        assert(encode_utf8(one.drop_first()) =~= Seq::<u8>::empty());
    }
}

/// A piece of a text is no longer in UTF-8 than the text.
pub proof fn lemma_utf8_len_subrange(s: Seq<char>, from: int, to: int)
    requires
        0 <= from <= to <= s.len(),
    ensures
        utf8_len(s.subrange(from, to)) <= utf8_len(s),
{
    let head = s.subrange(0, from);
    let mid = s.subrange(from, to);
    let tail = s.subrange(to, s.len() as int);
    assert(s =~= head + (mid + tail));
    lemma_utf8_len_concat(head, mid + tail);
    lemma_utf8_len_concat(mid, tail);
}

/// Executable form of [`char_width`].
pub fn width_of(c: char) -> (w: usize)
    ensures
        w == char_width(c),
        1 <= w <= 4,
{
    let u: u32 = c as u32;
    if u <= 0x7F {
        1
    } else if u <= 0x7FF {
        2
    } else if u <= 0xFFFF {
        3
    } else {
        4
    }
}

/// UTF-8 length of the piece of `chars` that `span` covers.
pub fn span_utf8_len(chars: &Vec<char>, span: Span) -> (len: usize)
    requires
        span.within(chars@.len()),
        utf8_len(chars@) <= usize::MAX,
    ensures
        len == utf8_len(span.of(chars@)),
{
    let mut len: usize = 0;
    let mut i: usize = span.start;
    proof {
        assert(chars@.subrange(span.start as int, span.start as int) =~= Seq::<char>::empty());
    }
    while i < span.end
        invariant
            span.within(chars@.len()),
            utf8_len(chars@) <= usize::MAX,
            span.start <= i <= span.end,
            len == utf8_len(chars@.subrange(span.start as int, i as int)),
        decreases span.end - i,
    {
        let w: usize = width_of(chars[i]);
        proof {
            let done = chars@.subrange(span.start as int, i as int);
            assert(chars@.subrange(span.start as int, i + 1) =~= done.push(chars@[i as int]));
            lemma_utf8_len_push(done, chars@[i as int]);
            lemma_utf8_len_subrange(chars@, span.start as int, i + 1);
        }
        len = len + w;
        i = i + 1;
    }
    len
}

/// Whether the piece of `chars` that `span` covers reads exactly `word`.
pub fn span_is(chars: &Vec<char>, span: Span, word: &str) -> (b: bool)
    requires
        span.within(chars@.len()),
    ensures
        b == (span.of(chars@) == word@),
{
    let letters = chars_of(word);
    if letters.len() != span.end - span.start {
        return false;
    }
    let mut i: usize = 0;
    while i < letters.len()
        invariant
            span.within(chars@.len()),
            letters@ == word@,
            letters@.len() == span.end - span.start,
            i <= letters@.len(),
            forall|j: int| 0 <= j < i ==> span.of(chars@)[j] == word@[j],
        decreases letters@.len() - i,
    {
        if chars[span.start + i] != letters[i] {
            proof {
                assert(span.of(chars@)[i as int] != word@[i as int]);
            }
            return false;
        }
        i = i + 1;
    }
    proof {
        assert(span.of(chars@) =~= word@);
    }
    true
}

/// A text together with its characters and the bounds of its lines, computed
/// once and shared by the passes over it.
pub struct TextIndex<'a> {
    pub text: &'a str,
    pub chars: Vec<char>,
    pub lines: Vec<Span>,
    pub byte_len: usize,
}

impl<'a> TextIndex<'a> {
    /// The characters, the line bounds and the length in bytes are those of
    /// the text.
    pub open spec fn wf(&self) -> bool {
        &&& self.chars@ == self.text@
        &&& all_within(self.lines@, self.chars@.len())
        &&& pieces(self.chars@, self.lines@) == lines(self.text@)
        &&& self.byte_len == utf8_len(self.text@)
    }

    /// Line `i` of the text.
    pub open spec fn line(&self, i: int) -> Seq<char> {
        lines(self.text@)[i]
    }

    /// Indexes `text`.
    pub fn new(text: &'a str) -> (index: Self)
        ensures
            index.wf(),
            index.text@ == text@,
    {
        let chars = chars_of(text);
        let lines = split_lines(&chars);
        let byte_len: usize = text.as_bytes().len();
        TextIndex { text, chars, lines, byte_len }
    }

    /// Number of lines.
    pub fn line_count(&self) -> (n: usize)
        requires
            self.wf(),
        ensures
            n == lines(self.text@).len(),
    {
        self.lines.len()
    }

    /// Bounds of line `i`.
    pub fn line_span(&self, i: usize) -> (span: Span)
        requires
            self.wf(),
            i < lines(self.text@).len(),
        ensures
            span.within(self.chars@.len()),
            span.of(self.chars@) == self.line(i as int),
    {
        proof {
            assert(pieces(self.chars@, self.lines@)[i as int] == self.lines@[i as int].of(
                self.chars@,
            ));
        }
        self.lines[i]
    }

    /// Length in UTF-8 bytes of the piece that `span` covers.
    pub fn width(&self, span: Span) -> (len: usize)
        requires
            self.wf(),
            span.within(self.chars@.len()),
        ensures
            len == utf8_len(span.of(self.chars@)),
    {
        span_utf8_len(&self.chars, span)
    }

    /// The piece of the text that `span` covers, as a string slice.
    pub fn slice(&self, span: Span) -> (piece: &'a str)
        requires
            self.wf(),
            span.within(self.chars@.len()),
        ensures
            piece@ == span.of(self.chars@),
    {
        self.text.substring_char(span.start, span.end)
    }
}

} // verus!
