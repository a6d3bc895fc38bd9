//! Source positions.

use vstd::prelude::*;

verus! {

/// A half-open range `[start, end)` of character offsets into the source.
#[derive(Clone, Copy, Debug, PartialEq, Eq, Structural)]
pub struct Span {
    start: usize,
    end: usize,
}

impl Span {
    /// Every span that the program holds is ordered: it does not end before
    /// it starts.
    #[verifier::type_invariant]
    closed spec fn ordered(self) -> bool {
        self.start <= self.end
    }

    /// The span from offset `lo` to offset `hi`.
    pub closed spec fn at(lo: int, hi: int) -> Span {
        Span { start: lo as usize, end: hi as usize }
    }

    /// The offset of the first character covered.
    pub closed spec fn lo(self) -> int {
        self.start as int
    }

    /// The offset just behind the last character covered.
    pub closed spec fn hi(self) -> int {
        self.end as int
    }

    /// The invariant of a span: it does not end before it starts.
    pub open spec fn wf(self) -> bool {
        self.lo() <= self.hi()
    }

    /// The smallest span that covers both `self` and `other`.
    pub closed spec fn join_spec(self, other: Span) -> Span {
        Span {
            start: if self.start <= other.start { self.start } else { other.start },
            end: if self.end >= other.end { self.end } else { other.end },
        }
    }

    /// A span is determined by its two offsets, and `at` builds the span
    /// that has the given offsets.
    pub broadcast proof fn lemma_at(lo: int, hi: int)
        requires
            0 <= lo <= usize::MAX,
            0 <= hi <= usize::MAX,
        ensures
            (#[trigger] Span::at(lo, hi)).lo() == lo,
            Span::at(lo, hi).hi() == hi,
    {
    }

    /// A joined span is the smallest span that covers both: it starts at
    /// the smaller start and ends at the larger end. It is well-formed where
    /// one of the two is.
    pub broadcast proof fn lemma_join(self, other: Span)
        ensures
            (#[trigger] self.join_spec(other)).lo() == if self.lo() <= other.lo() {
                self.lo()
            } else {
                other.lo()
            },
            self.join_spec(other).hi() == if self.hi() >= other.hi() {
                self.hi()
            } else {
                other.hi()
            },
            self.wf() || other.wf() ==> self.join_spec(other).wf(),
    {
    }

    pub fn new(start: usize, end: usize) -> (span: Self)
        requires
            start <= end,
        ensures
            span == Span::at(start as int, end as int),
            span.lo() == start,
            span.hi() == end,
            span.wf(),
    {
        Self { start, end }
    }

    /// The offsets as a range, which does not end before it starts.
    pub fn range(self) -> (r: std::ops::Range<usize>)
        ensures
            r.start == self.lo(),
            r.end == self.hi(),
            r.start <= r.end,
            self.wf(),
    {
        proof {
            use_type_invariant(self);
        }
        self.start..self.end
    }

    pub fn join(self, other: Self) -> (span: Self)
        ensures
            span == self.join_spec(other),
            span.wf(),
    {
        proof {
            use_type_invariant(self);
            use_type_invariant(other);
        }
        let start = if self.start <= other.start { self.start } else { other.start };
        let end = if self.end >= other.end { self.end } else { other.end };
        Self { start, end }
    }
}

impl From<Span> for std::ops::Range<usize> {
    fn from(span: Span) -> (range: Self) {
        span.range()
    }
}

impl vstd::std_specs::convert::FromSpecImpl<Span> for std::ops::Range<usize> {
    open spec fn obeys_from_spec() -> bool {
        true
    }

    open spec fn from_spec(span: Span) -> Self {
        std::ops::Range { start: span.lo() as usize, end: span.hi() as usize }
    }
}

/// Syntax tree nodes, each of which knows where in the source it stands.
pub trait HasSpan {
    /// The span of the node.
    spec fn span_spec(&self) -> Span;

    fn span(&self) -> (span: Span)
        ensures
            span == self.span_spec(),
    ;
}

/// The characters of `text`, each at the offset that spans count by.
pub fn stream_from_str(text: &str) -> (stream: Vec<char>)
    ensures
        stream@ == text@,
{
    let mut stream: Vec<char> = Vec::new();
    for c in it: text.chars()
        invariant
            it.seq() == text@,
            stream@ == it.seq().take(it.index()),
    {
        stream.push(c);
        assert(stream@ =~= it.seq().take(it.index() + 1));
    }
    assert(stream@ =~= text@);
    stream
}

impl<T> HasSpan for (T, Span) {
    open spec fn span_spec(&self) -> Span {
        self.1
    }

    fn span(&self) -> (span: Span) {
        self.1
    }
}

} // verus!
