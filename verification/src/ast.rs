//! The syntax tree. Every node carries its span and the whitespace and
//! comments around its tokens, so that nothing of the source is lost.
//!
//! Each node type has a mathematical model, its view, in which vectors are
//! sequences and strings are sequences of characters. The contracts of the
//! parser and of the desugarer are stated over these views.

pub mod basic;
pub mod call;
pub mod expr;
pub mod field;
pub mod func_def;
pub mod lit;
pub mod program;
pub mod table_constr;
pub mod table_destr;
pub mod var;

pub use self::basic::{
    BoundedSeparated, BoundedSeparatedView, Ident, IdentView, Line, LineView, Space, SpaceView,
};
pub use self::call::{Call, CallView};
pub use self::expr::{Assoc, BinOp, Expr, ExprView};
pub use self::field::{Field, FieldView};
pub use self::func_def::{FuncDef, FuncDefView};
pub use self::lit::{
    Lit, LitView, NumLit, NumLitStr, NumLitStrView, NumLitView, StringLit, StringLitElem,
    StringLitElemView, StringLitView, TableLit, TableLitElem, TableLitElemView, TableLitView,
};
pub use self::program::{Program, ProgramView};
pub use self::table_constr::{TableConstr, TableConstrElem, TableConstrElemView, TableConstrView};
pub use self::table_destr::{
    TableDestr, TableDestrView, TablePattern, TablePatternElem, TablePatternElemView,
    TablePatternView,
};
pub use self::var::{Var, VarView};
