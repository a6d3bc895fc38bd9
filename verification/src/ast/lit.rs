//! Literals.

use vstd::prelude::*;

use crate::ast::basic::{
    opt_space_view, BoundedSeparated, BoundedSeparatedView, Ident, IdentView, Space, SpaceView,
};
use crate::ast::expr::{Expr, ExprView};
use crate::builtin::Builtin;
use crate::span::{HasSpan, Span};

verus! {

/// The digits of a number literal as they were written, underscores
/// included, without the prefix that selects the base.
#[derive(Debug)]
pub enum NumLitStr {
    /// - `0b_0001_1011`
    /// - `0b10`
    Bin(String),
    /// - `12_345`
    /// - `7`
    Dec(String),
    /// - `0x_c0_f3`
    /// - `0xB`
    Hex(String),
}

/// The model of a [`NumLitStr`].
pub enum NumLitStrView {
    Bin(Seq<char>),
    Dec(Seq<char>),
    Hex(Seq<char>),
}

impl View for NumLitStr {
    type V = NumLitStrView;

    open spec fn view(&self) -> NumLitStrView {
        match self {
            NumLitStr::Bin(text) => NumLitStrView::Bin(text@),
            NumLitStr::Dec(text) => NumLitStrView::Dec(text@),
            NumLitStr::Hex(text) => NumLitStrView::Hex(text@),
        }
    }
}

/// Positive number literal.
///
/// Possible bases are binary, decimal, hexadecimal. Underscores can be
/// inserted before and after any digit.
#[derive(Debug)]
pub struct NumLit {
    pub value: i64,
    pub str: NumLitStr,
    pub span: Span,
}

/// The model of a [`NumLit`].
pub struct NumLitView {
    pub value: i64,
    pub str: NumLitStrView,
    pub span: Span,
}

impl View for NumLit {
    type V = NumLitView;

    open spec fn view(&self) -> NumLitView {
        NumLitView { value: self.value, str: self.str@, span: self.span }
    }
}

impl HasSpan for NumLit {
    open spec fn span_spec(&self) -> Span {
        self@.span
    }

    fn span(&self) -> (span: Span) {
        self.span
    }
}

/// One element of a string literal.
#[derive(Debug)]
pub enum StringLitElem {
    /// Normal unescaped characters
    Plain(String),
    /// `\u{xxxx}`
    Unicode(char),
    /// `\\`
    Backslash,
    /// `\"`
    DoubleQuote,
    /// `\t`
    Tab,
    /// `\r`
    CarriageReturn,
    /// `\n`
    Newline,
}

/// The model of a [`StringLitElem`].
pub enum StringLitElemView {
    Plain(Seq<char>),
    Unicode(char),
    Backslash,
    DoubleQuote,
    Tab,
    CarriageReturn,
    Newline,
}

impl View for StringLitElem {
    type V = StringLitElemView;

    open spec fn view(&self) -> StringLitElemView {
        match self {
            StringLitElem::Plain(text) => StringLitElemView::Plain(text@),
            StringLitElem::Unicode(c) => StringLitElemView::Unicode(*c),
            StringLitElem::Backslash => StringLitElemView::Backslash,
            StringLitElem::DoubleQuote => StringLitElemView::DoubleQuote,
            StringLitElem::Tab => StringLitElemView::Tab,
            StringLitElem::CarriageReturn => StringLitElemView::CarriageReturn,
            StringLitElem::Newline => StringLitElemView::Newline,
        }
    }
}

/// - `"Hello world\n"`
/// - `""`
#[derive(Debug)]
pub struct StringLit {
    pub elems: Vec<StringLitElem>,
    pub span: Span,
}

/// The model of a [`StringLit`].
pub struct StringLitView {
    pub elems: Seq<StringLitElemView>,
    pub span: Span,
}

impl StringLitView {
    /// The string literal that spells the name of `ident`.
    pub open spec fn from_ident(ident: IdentView) -> StringLitView {
        StringLitView { elems: seq![StringLitElemView::Plain(ident.name)], span: ident.span }
    }
}

impl View for StringLit {
    type V = StringLitView;

    open spec fn view(&self) -> StringLitView {
        StringLitView {
            elems: self.elems@.map_values(|elem: StringLitElem| elem@),
            span: self.span,
        }
    }
}

impl HasSpan for StringLit {
    open spec fn span_spec(&self) -> Span {
        self@.span
    }

    fn span(&self) -> (span: Span) {
        self.span
    }
}

impl StringLit {
    pub fn from_ident(ident: Ident) -> (lit: Self)
        ensures
            lit@ == StringLitView::from_ident(ident@),
    {
        let ghost name = ident.name@;
        let mut elems = Vec::new();
        elems.push(StringLitElem::Plain(ident.name));
        let lit = Self { elems, span: ident.span };
        assert(lit@.elems =~= seq![StringLitElemView::Plain(name)]);
        lit
    }

    pub fn lit(self) -> (lit: Lit)
        ensures
            lit@ == LitView::String(self@),
    {
        Lit::String(self)
    }
}

/// One entry of a table literal.
#[derive(Debug)]
pub enum TableLitElem {
    /// `a`
    Positional(Box<Expr>),
    /// `foo: a`
    ///
    /// Structure: `name s0 : s1 value`
    Named { name: Ident, s0: Space, s1: Space, value: Box<Expr>, span: Span },
}

/// The model of a [`TableLitElem`].
pub enum TableLitElemView {
    Positional(Box<ExprView>),
    Named { name: IdentView, s0: SpaceView, s1: SpaceView, value: Box<ExprView>, span: Span },
}

impl TableLitElemView {
    /// The entry `name: value` without trivia.
    pub open spec fn named(name: IdentView, value: ExprView, span: Span) -> TableLitElemView {
        TableLitElemView::Named {
            name,
            s0: SpaceView::empty(span),
            s1: SpaceView::empty(span),
            value: Box::new(value),
            span,
        }
    }

    /// The expression that the entry holds.
    pub open spec fn value(self) -> ExprView {
        match self {
            TableLitElemView::Positional(value) => *value,
            TableLitElemView::Named { value, .. } => *value,
        }
    }

    pub open spec fn span(self) -> Span {
        match self {
            TableLitElemView::Positional(value) => value.span(),
            TableLitElemView::Named { span, .. } => span,
        }
    }
}

impl TableLitElem {
    /// The model of the node: the same tree over sequences.
    pub open spec fn model(self) -> TableLitElemView
        decreases self,
    {
        match self {
            TableLitElem::Positional(value) => TableLitElemView::Positional(
                Box::new((*value).model()),
            ),
            TableLitElem::Named { name, s0, s1, value, span } => TableLitElemView::Named {
                name: name@,
                s0: s0@,
                s1: s1@,
                value: Box::new((*value).model()),
                span,
            },
        }
    }

    pub fn named(name: Ident, value: Box<Expr>, span: Span) -> (elem: Self)
        ensures
            elem@ == TableLitElemView::named(name@, value@, span),
    {
        Self::Named { name, s0: Space::empty(span), s1: Space::empty(span), value, span }
    }
}

impl View for TableLitElem {
    type V = TableLitElemView;

    open spec fn view(&self) -> TableLitElemView {
        self.model()
    }
}

impl HasSpan for TableLitElem {
    open spec fn span_spec(&self) -> Span {
        self@.span()
    }

    fn span(&self) -> (span: Span) {
        match self {
            Self::Positional(value) => value.span(),
            Self::Named { span, .. } => *span,
        }
    }
}

impl BoundedSeparated<TableLitElem> {
    /// The model of the node: the same tree over sequences.
    pub open spec fn model(self) -> BoundedSeparatedView<TableLitElemView>
        decreases self,
    {
        BoundedSeparatedView {
            elems: Seq::new(
                self.elems.len() as nat,
                |i: int|
                    if 0 <= i < self.elems.len() {
                        (self.elems[i].0@, self.elems[i].1.model(), self.elems[i].2@)
                    } else {
                        arbitrary()
                    },
            ),
            trailing: opt_space_view(self.trailing),
            span: self.span,
        }
    }

    pub fn table_lit(self) -> (lit: TableLit)
        ensures
            lit@ == TableLitView(self@),
    {
        TableLit(self)
    }
}

impl View for BoundedSeparated<TableLitElem> {
    type V = BoundedSeparatedView<TableLitElemView>;

    open spec fn view(&self) -> BoundedSeparatedView<TableLitElemView> {
        self.model()
    }
}

/// `'{ a, foo: b }`
#[derive(Debug)]
pub struct TableLit(pub BoundedSeparated<TableLitElem>);

/// The model of a [`TableLit`].
pub struct TableLitView(pub BoundedSeparatedView<TableLitElemView>);

impl TableLit {
    /// The model of the node: the same tree over sequences.
    pub open spec fn model(self) -> TableLitView
        decreases self,
    {
        TableLitView(self.0.model())
    }

    pub fn lit(self) -> (lit: Lit)
        ensures
            lit@ == LitView::Table(self@),
    {
        Lit::Table(self)
    }
}

impl View for TableLit {
    type V = TableLitView;

    open spec fn view(&self) -> TableLitView {
        self.model()
    }
}

impl HasSpan for TableLit {
    open spec fn span_spec(&self) -> Span {
        self@.0.span
    }

    fn span(&self) -> (span: Span) {
        self.0.span()
    }
}

/// A literal.
#[derive(Debug)]
pub enum Lit {
    /// `nil`
    Nil(Span),
    /// - `true`
    /// - `false`
    Bool(bool, Span),
    /// - `'get`
    /// - `'destructure`
    Builtin(Builtin, Span),
    /// See [`NumLit`].
    Num(NumLit),
    /// See [`StringLit`]
    String(StringLit),
    /// See [`TableLit`].
    Table(TableLit),
}

/// The model of a [`Lit`].
pub enum LitView {
    Nil(Span),
    Bool(bool, Span),
    Builtin(Builtin, Span),
    Num(NumLitView),
    String(StringLitView),
    Table(TableLitView),
}

impl LitView {
    pub open spec fn span(self) -> Span {
        match self {
            LitView::Nil(span) => span,
            LitView::Bool(_, span) => span,
            LitView::Builtin(_, span) => span,
            LitView::Num(n) => n.span,
            LitView::String(s) => s.span,
            LitView::Table(t) => t.0.span,
        }
    }
}

impl Lit {
    /// The model of the node: the same tree over sequences.
    pub open spec fn model(self) -> LitView
        decreases self,
    {
        match self {
            Lit::Nil(span) => LitView::Nil(span),
            Lit::Bool(b, span) => LitView::Bool(b, span),
            Lit::Builtin(b, span) => LitView::Builtin(b, span),
            Lit::Num(n) => LitView::Num(n@),
            Lit::String(s) => LitView::String(s@),
            Lit::Table(t) => LitView::Table(t.model()),
        }
    }

    pub fn expr(self) -> (expr: Expr)
        ensures
            expr@ == ExprView::Lit(self@),
    {
        Expr::Lit(self)
    }
}

impl View for Lit {
    type V = LitView;

    open spec fn view(&self) -> LitView {
        self.model()
    }
}

impl HasSpan for Lit {
    open spec fn span_spec(&self) -> Span {
        self@.span()
    }

    fn span(&self) -> (span: Span) {
        match self {
            Self::Nil(span) => *span,
            Self::Bool(_, span) => *span,
            Self::Builtin(_, span) => *span,
            Self::Num(n) => n.span(),
            Self::String(s) => s.span(),
            Self::Table(t) => t.span(),
        }
    }
}

} // verus!

verus! {

impl Clone for NumLitStr {
    fn clone(&self) -> (copy: Self)
        ensures
            copy@ == self@,
    {
        match self {
            NumLitStr::Bin(text) => NumLitStr::Bin(text.clone()),
            NumLitStr::Dec(text) => NumLitStr::Dec(text.clone()),
            NumLitStr::Hex(text) => NumLitStr::Hex(text.clone()),
        }
    }
}

impl Clone for NumLit {
    fn clone(&self) -> (copy: Self)
        ensures
            copy@ == self@,
    {
        NumLit { value: self.value, str: self.str.clone(), span: self.span }
    }
}

impl Clone for StringLitElem {
    fn clone(&self) -> (copy: Self)
        ensures
            copy@ == self@,
    {
        match self {
            StringLitElem::Plain(text) => StringLitElem::Plain(text.clone()),
            StringLitElem::Unicode(c) => StringLitElem::Unicode(*c),
            StringLitElem::Backslash => StringLitElem::Backslash,
            StringLitElem::DoubleQuote => StringLitElem::DoubleQuote,
            StringLitElem::Tab => StringLitElem::Tab,
            StringLitElem::CarriageReturn => StringLitElem::CarriageReturn,
            StringLitElem::Newline => StringLitElem::Newline,
        }
    }
}

impl Clone for StringLit {
    fn clone(&self) -> (copy: Self)
        ensures
            copy@ == self@,
    {
        let mut elems: Vec<StringLitElem> = Vec::new();
        let mut i: usize = 0;
        while i < self.elems.len()
            invariant
                0 <= i <= self.elems.len(),
                elems@.len() == i,
                forall|j: int| 0 <= j < i ==> (#[trigger] elems@[j])@ == self.elems@[j]@,
            decreases self.elems.len() - i,
        {
            elems.push(self.elems[i].clone());
            i += 1;
        }
        let copy = StringLit { elems, span: self.span };
        assert(copy@.elems =~= self@.elems);
        copy
    }
}

impl TableLitElem {
    /// A copy of the entry and of all that it holds.
    pub fn deep_clone(&self) -> (copy: Self)
        ensures
            copy@ == self@,
        decreases self,
    {
        let copy = match self {
            TableLitElem::Positional(value) => TableLitElem::Positional(
                Box::new(value.deep_clone()),
            ),
            TableLitElem::Named { name, s0, s1, value, span } => TableLitElem::Named {
                name: name.clone(),
                s0: s0.clone(),
                s1: s1.clone(),
                value: Box::new(value.deep_clone()),
                span: *span,
            },
        };
        assert(copy@ is Positional || copy@ is Named);
        copy
    }
}

impl Clone for TableLitElem {
    fn clone(&self) -> (copy: Self)
        ensures
            copy@ == self@,
    {
        self.deep_clone()
    }
}

impl BoundedSeparated<TableLitElem> {
    /// A copy of the list and of all that it holds.
    pub fn deep_clone(&self) -> (copy: Self)
        ensures
            copy@ == self@,
        decreases self,
    {
        let mut elems: Vec<(Space, TableLitElem, Space)> = Vec::new();
        let mut i: usize = 0;
        assert(forall|j: int|
            0 <= j < self.elems@.len() ==> decreases_to!(self => (#[trigger] self.elems@[j]).1));
        while i < self.elems.len()
            invariant
                0 <= i <= self.elems.len(),
                elems@.len() == i,
                forall|j: int|
                    0 <= j < self.elems@.len() ==> decreases_to!(self => (#[trigger] self.elems@[j]).1),
                forall|j: int|
                    0 <= j < i ==> ((#[trigger] elems@[j]).0@, elems@[j].1@, elems@[j].2@) == (
                        self.elems@[j].0@,
                        self.elems@[j].1@,
                        self.elems@[j].2@,
                    ),
            decreases self.elems.len() - i,
        {
            let entry = &self.elems[i];
            elems.push((entry.0.clone(), entry.1.deep_clone(), entry.2.clone()));
            i += 1;
        }
        let copy = BoundedSeparated {
            elems,
            trailing: crate::ast::basic::clone_opt_space(&self.trailing),
            span: self.span,
        };
        assert(copy@.elems =~= self@.elems);
        copy
    }
}

impl TableLit {
    /// A copy of the table literal and of all that it holds.
    pub fn deep_clone(&self) -> (copy: Self)
        ensures
            copy@ == self@,
        decreases self,
    {
        self.0.deep_clone().table_lit()
    }
}

impl Clone for TableLit {
    fn clone(&self) -> (copy: Self)
        ensures
            copy@ == self@,
    {
        self.deep_clone()
    }
}

impl Lit {
    /// A copy of the literal and of all that it holds.
    pub fn deep_clone(&self) -> (copy: Self)
        ensures
            copy@ == self@,
        decreases self,
    {
        let copy = match self {
            Lit::Nil(span) => Lit::Nil(*span),
            Lit::Bool(b, span) => Lit::Bool(*b, *span),
            Lit::Builtin(builtin, span) => Lit::Builtin(*builtin, *span),
            Lit::Num(num) => Lit::Num(num.clone()),
            Lit::String(string) => Lit::String(string.clone()),
            Lit::Table(table) => Lit::Table(table.deep_clone()),
        };
        assert(copy@ is Nil || copy@ is Bool || copy@ is Builtin || copy@ is Num || copy@ is String
            || copy@ is Table);
        copy
    }
}

impl Clone for Lit {
    fn clone(&self) -> (copy: Self)
        ensures
            copy@ == self@,
    {
        self.deep_clone()
    }
}

} // verus!
