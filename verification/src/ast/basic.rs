//! Trivia, identifiers and bounded separated lists.

use vstd::prelude::*;

use crate::span::{HasSpan, Span};

verus! {

/// One line of trivia between two tokens.
#[derive(Debug)]
pub enum Line {
    /// A line break with nothing but whitespace before it.
    Empty,
    /// A comment, without its `#` and without the line break that ends it.
    Comment(String),
}

/// The model of a [`Line`].
pub enum LineView {
    Empty,
    Comment(Seq<char>),
}

impl View for Line {
    type V = LineView;

    open spec fn view(&self) -> LineView {
        match self {
            Line::Empty => LineView::Empty,
            Line::Comment(text) => LineView::Comment(text@),
        }
    }
}

/// Whitespace and comments between two significant tokens.
#[derive(Debug)]
pub struct Space {
    pub lines: Vec<Line>,
    pub span: Span,
}

/// The model of a [`Space`].
pub struct SpaceView {
    pub lines: Seq<LineView>,
    pub span: Span,
}

impl SpaceView {
    /// Trivia without any line.
    pub open spec fn empty(span: Span) -> SpaceView {
        SpaceView { lines: Seq::empty(), span }
    }

    /// The trivia with one more line at its end.
    pub open spec fn then_line(self, line: LineView) -> SpaceView {
        SpaceView { lines: self.lines.push(line), span: self.span }
    }

    /// The lines of `self` followed by those of `other`, over the span that
    /// covers both.
    pub open spec fn then_space(self, other: SpaceView) -> SpaceView {
        SpaceView { lines: self.lines + other.lines, span: self.span.join_spec(other.span) }
    }
}

impl View for Space {
    type V = SpaceView;

    open spec fn view(&self) -> SpaceView {
        SpaceView { lines: self.lines@.map_values(|line: Line| line@), span: self.span }
    }
}

impl HasSpan for Space {
    open spec fn span_spec(&self) -> Span {
        self@.span
    }

    fn span(&self) -> (span: Span) {
        self.span
    }
}

impl Space {
    pub fn empty(span: Span) -> (space: Self)
        ensures
            space@ == SpaceView::empty(span),
    {
        let space = Self { lines: Vec::new(), span };
        assert(space@.lines =~= Seq::empty());
        space
    }

    pub fn then_line(self, line: Line) -> (space: Self)
        ensures
            space@ == self@.then_line(line@),
    {
        let mut lines = self.lines;
        lines.push(line);
        let space = Self { lines, span: self.span };
        assert(space@.lines =~= self@.lines.push(line@));
        space
    }

    pub fn then_space(self, other: Self) -> (space: Self)
        ensures
            space@ == self@.then_space(other@),
    {
        let mut lines = self.lines;
        let mut more = other.lines;
        lines.append(&mut more);
        let space = Self { lines, span: self.span.join(other.span) };
        assert(space@.lines =~= self@.lines + other@.lines);
        space
    }
}

/// A name, as written in the source.
#[derive(Debug)]
pub struct Ident {
    pub name: String,
    pub span: Span,
}

/// The model of an [`Ident`].
pub struct IdentView {
    pub name: Seq<char>,
    pub span: Span,
}

impl View for Ident {
    type V = IdentView;

    open spec fn view(&self) -> IdentView {
        IdentView { name: self.name@, span: self.span }
    }
}

impl HasSpan for Ident {
    open spec fn span_spec(&self) -> Span {
        self@.span
    }

    fn span(&self) -> (span: Span) {
        self.span
    }
}

impl Ident {
    pub fn new(name: &str, span: Span) -> (ident: Self)
        ensures
            ident@ == (IdentView { name: name@, span }),
    {
        Self { name: String::from_str(name), span }
    }
}

/// A list of elements between an opening and a closing token, separated by
/// a separator that may also follow the last element.
///
/// Each element stands between the trivia before it and the trivia behind
/// it. `trailing` holds the trivia behind a trailing separator, if the list
/// has one.
#[derive(Clone, Debug)]
pub struct BoundedSeparated<E> {
    pub elems: Vec<(Space, E, Space)>,
    pub trailing: Option<Space>,
    pub span: Span,
}

/// The model of a [`BoundedSeparated`] whose elements have the model `V`.
pub struct BoundedSeparatedView<V> {
    pub elems: Seq<(SpaceView, V, SpaceView)>,
    pub trailing: Option<SpaceView>,
    pub span: Span,
}

impl<V> BoundedSeparatedView<V> {
    /// The list without elements and without a trailing separator.
    pub open spec fn new(span: Span) -> Self {
        BoundedSeparatedView { elems: Seq::empty(), trailing: None, span }
    }

    /// The list with `elem` added at its end, without trivia around it.
    pub open spec fn then_elem(self, elem: V) -> Self {
        BoundedSeparatedView {
            elems: self.elems.push((SpaceView::empty(self.span), elem, SpaceView::empty(self.span))),
            trailing: self.trailing,
            span: self.span,
        }
    }
}

/// The model of optional trivia.
pub open spec fn opt_space_view(space: Option<Space>) -> Option<SpaceView> {
    match space {
        Some(space) => Some(space@),
        None => None,
    }
}

impl<E> HasSpan for BoundedSeparated<E> {
    open spec fn span_spec(&self) -> Span {
        self.span
    }

    fn span(&self) -> (span: Span) {
        self.span
    }
}

impl<E> BoundedSeparated<E> {
    /// The model of the list when `model` gives the model of an element.
    pub open spec fn view_with<V>(self, model: spec_fn(E) -> V) -> BoundedSeparatedView<V> {
        BoundedSeparatedView {
            elems: self.elems@.map_values(|t: (Space, E, Space)| (t.0@, model(t.1), t.2@)),
            trailing: opt_space_view(self.trailing),
            span: self.span,
        }
    }

    /// Whether a separator stands behind the last element of the list.
    pub fn has_trailing_separator(&self) -> (trailing: bool)
        ensures
            trailing == (self.trailing is Some && self.elems@.len() > 0),
    {
        self.trailing.is_some() && self.elems.len() > 0
    }

    pub fn new(span: Span) -> (list: Self)
        ensures
            list.elems@.len() == 0,
            list.trailing is None,
            list.span == span,
    {
        Self { elems: Vec::new(), trailing: None, span }
    }

    pub fn then_elem(self, elem: E) -> (list: Self)
        ensures
            list.span == self.span,
            list.trailing == self.trailing,
            list.elems@.len() == self.elems@.len() + 1,
            list.elems@.take(self.elems@.len() as int) == self.elems@,
            list.elems@.last().0@ == SpaceView::empty(self.span),
            list.elems@.last().1 == elem,
            list.elems@.last().2@ == SpaceView::empty(self.span),
    {
        let ghost before = self.elems@;
        let mut elems = self.elems;
        elems.push((Space::empty(self.span), elem, Space::empty(self.span)));
        assert(elems@.take(before.len() as int) =~= before);
        Self { elems, trailing: self.trailing, span: self.span }
    }
}

} // verus!

verus! {

impl Clone for Line {
    fn clone(&self) -> (copy: Self)
        ensures
            copy@ == self@,
    {
        match self {
            Line::Empty => Line::Empty,
            Line::Comment(text) => Line::Comment(text.clone()),
        }
    }
}

impl Clone for Space {
    fn clone(&self) -> (copy: Self)
        ensures
            copy@ == self@,
    {
        let mut lines: Vec<Line> = Vec::new();
        let mut i: usize = 0;
        while i < self.lines.len()
            invariant
                0 <= i <= self.lines.len(),
                lines@.len() == i,
                forall|j: int| 0 <= j < i ==> (#[trigger] lines@[j])@ == self.lines@[j]@,
            decreases self.lines.len() - i,
        {
            lines.push(self.lines[i].clone());
            i += 1;
        }
        let copy = Space { lines, span: self.span };
        assert(copy@.lines =~= self@.lines);
        copy
    }
}

/// A copy of optional trivia.
pub fn clone_opt_space(space: &Option<Space>) -> (copy: Option<Space>)
    ensures
        opt_space_view(copy) == opt_space_view(*space),
{
    match space {
        Some(space) => Some(space.clone()),
        None => None,
    }
}

impl Clone for Ident {
    fn clone(&self) -> (copy: Self)
        ensures
            copy@ == self@,
    {
        Ident { name: self.name.clone(), span: self.span }
    }
}

} // verus!
