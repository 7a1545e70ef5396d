//! Font styling over a document, kept as an additive record of spans.
//!
//! Spans are presentation only: nothing here reaches the text that a save
//! writes, and replacing the text (Load, New) leaves the record as it is.

use vstd::prelude::*;

verus! {

/// The part of the document a span covers.
#[derive(Clone, Copy, Debug, PartialEq, Eq, Structural)]
pub enum StyleRange {
    /// The whole document, whatever its length.
    Whole,
    /// The character offsets `start <= i < end`.
    Span { start: usize, end: usize },
}

impl StyleRange {
    /// Whether the range covers character offset `offset`.
    pub open spec fn covers(self, offset: int) -> bool {
        match self {
            StyleRange::Whole => true,
            StyleRange::Span { start, end } => start <= offset < end,
        }
    }

    /// Whether the range covers character offset `offset`.
    pub fn contains(&self, offset: usize) -> (r: bool)
        ensures
            r == self.covers(offset as int),
    {
        match self {
            StyleRange::Whole => true,
            StyleRange::Span { start, end } => *start <= offset && offset < *end,
        }
    }
}

/// A font descriptor applied over a range. The descriptor is opaque here:
/// only its identity matters.
#[derive(Debug)]
pub struct StyleSpan {
    pub descriptor: String,
    pub range: StyleRange,
}

impl View for StyleSpan {
    type V = (Seq<char>, StyleRange);

    open spec fn view(&self) -> (Seq<char>, StyleRange) {
        (self.descriptor@, self.range)
    }
}

/// The descriptor in force at `offset`: that of the last span covering it.
pub open spec fn descriptor_in_force(spans: Seq<(Seq<char>, StyleRange)>, offset: int) -> Option<
    Seq<char>,
>
    decreases spans.len(),
{
    if spans.len() == 0 {
        None
    } else if spans.last().1.covers(offset) {
        Some(spans.last().0)
    } else {
        descriptor_in_force(spans.drop_last(), offset)
    }
}

/// Applying a span decides the descriptor at each offset it covers, and
/// leaves every other offset as it was.
pub proof fn lemma_last_applied_wins(
    spans: Seq<(Seq<char>, StyleRange)>,
    descriptor: Seq<char>,
    range: StyleRange,
    offset: int,
)
    ensures
        range.covers(offset) ==> descriptor_in_force(spans.push((descriptor, range)), offset)
            == Some(descriptor),
        !range.covers(offset) ==> descriptor_in_force(spans.push((descriptor, range)), offset)
            == descriptor_in_force(spans, offset),
{
    assert(spans.push((descriptor, range)).drop_last() =~= spans);
}

/// The styling record of one document: every span applied, oldest first.
pub struct StyleApplier {
    spans: Vec<StyleSpan>,
}

impl View for StyleApplier {
    type V = Seq<(Seq<char>, StyleRange)>;

    closed spec fn view(&self) -> Seq<(Seq<char>, StyleRange)> {
        self.spans@.map_values(|s: StyleSpan| s@)
    }
}

impl StyleApplier {
    /// A record with no spans.
    pub fn new() -> (r: StyleApplier)
        ensures
            r@ == Seq::<(Seq<char>, StyleRange)>::empty(),
    {
        let r = StyleApplier { spans: Vec::new() };
        assert(r@ =~= Seq::<(Seq<char>, StyleRange)>::empty());
        r
    }

    /// Records `descriptor` over the whole document, after every earlier
    /// span. An empty descriptor records nothing; the result says whether a
    /// span was recorded.
    pub fn apply(&mut self, descriptor: String) -> (r: bool)
        ensures
            r == (descriptor@.len() > 0),
            r ==> final(self)@ == old(self)@.push((descriptor@, StyleRange::Whole)),
            !r ==> final(self)@ == old(self)@,
    {
        self.apply_range(descriptor, StyleRange::Whole)
    }

    /// Records `descriptor` over `range`, after every earlier span. An empty
    /// descriptor, or a span whose start lies past its end, records nothing;
    /// the result says whether a span was recorded. Offsets past the end of
    /// the text cover nothing.
    pub fn apply_range(&mut self, descriptor: String, range: StyleRange) -> (r: bool)
        ensures
            r == (descriptor@.len() > 0 && (range matches StyleRange::Span { start, end } ==> start
                <= end)),
            r ==> final(self)@ == old(self)@.push((descriptor@, range)),
            !r ==> final(self)@ == old(self)@,
    {
        if descriptor.as_str().is_empty() {
            return false;
        }
        if let StyleRange::Span { start, end } = range {
            if start > end {
                return false;
            }
        }
        let span = StyleSpan { descriptor, range };
        self.spans.push(span);
        assert(self@ =~= old(self)@.push((span@)));
        true
    }

    /// The number of spans recorded.
    pub fn len(&self) -> (r: usize)
        ensures
            r == self@.len(),
    {
        self.spans.len()
    }

    /// The span applied `i`-th, counting from the oldest.
    pub fn span(&self, i: usize) -> (r: &StyleSpan)
        requires
            i < self@.len(),
        ensures
            r@ == self@[i as int],
    {
        &self.spans[i]
    }

    /// The descriptor in force at character offset `offset`: that of the
    /// last span applied over it, if any.
    pub fn descriptor_at(&self, offset: usize) -> (r: Option<&str>)
        ensures
            r is Some <==> descriptor_in_force(self@, offset as int) is Some,
            r is Some ==> r->0@ == descriptor_in_force(self@, offset as int)->0,
    {
        let mut i: usize = self.spans.len();
        assert(self@.take(i as int) =~= self@);
        while i > 0
            invariant
                i <= self.spans@.len(),
                descriptor_in_force(self@, offset as int) == descriptor_in_force(
                    self@.take(i as int),
                    offset as int,
                ),
            decreases i,
        {
            let ghost prefix = self@.take(i as int);
            assert(prefix.drop_last() =~= self@.take(i - 1));
            assert(prefix.last() == self.spans@[i - 1]@);
            i = i - 1;
            if self.spans[i].range.contains(offset) {
                return Some(self.spans[i].descriptor.as_str());
            }
        }
        assert(self@.take(0).len() == 0);
        None
    }
}

} // verus!
