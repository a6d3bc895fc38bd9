//! The primitive operations that the core calculus treats as opaque.

use vstd::prelude::*;

verus! {

/// Built-in operations.
#[derive(Clone, Copy, Debug, PartialEq, Eq, Hash, Structural)]
pub enum Builtin {
    Get,
    SetField,
    GetRaw,
    SetRaw,
    GetMeta,
    SetMeta,
    Scope,
    Arg,
    Destructure,
    Neg,
    Not,
    Mul,
    Div,
    Mod,
    Add,
    Sub,
    Eq,
    Ne,
    Gt,
    Ge,
    Lt,
    Le,
    And,
    Or,
}

impl Builtin {
    /// The name of the operation as it is written in source text, without
    /// the leading quote.
    pub open spec fn name_spec(self) -> Seq<char> {
        match self {
            Builtin::Get => "get"@,
            Builtin::SetField => "set"@,
            Builtin::GetRaw => "getraw"@,
            Builtin::SetRaw => "setraw"@,
            Builtin::GetMeta => "getmeta"@,
            Builtin::SetMeta => "setmeta"@,
            Builtin::Scope => "scope"@,
            Builtin::Arg => "arg"@,
            Builtin::Destructure => "destructure"@,
            Builtin::Neg => "neg"@,
            Builtin::Not => "not"@,
            Builtin::Mul => "mul"@,
            Builtin::Div => "div"@,
            Builtin::Mod => "mod"@,
            Builtin::Add => "add"@,
            Builtin::Sub => "sub"@,
            Builtin::Eq => "eq"@,
            Builtin::Ne => "ne"@,
            Builtin::Gt => "gt"@,
            Builtin::Ge => "ge"@,
            Builtin::Lt => "lt"@,
            Builtin::Le => "le"@,
            Builtin::And => "and"@,
            Builtin::Or => "or"@,
        }
    }

    pub fn name(self) -> (name: &'static str)
        ensures
            name@ == self.name_spec(),
    {
        match self {
            Builtin::Get => "get",
            Builtin::SetField => "set",
            Builtin::GetRaw => "getraw",
            Builtin::SetRaw => "setraw",
            Builtin::GetMeta => "getmeta",
            Builtin::SetMeta => "setmeta",
            Builtin::Scope => "scope",
            Builtin::Arg => "arg",
            Builtin::Destructure => "destructure",
            Builtin::Neg => "neg",
            Builtin::Not => "not",
            Builtin::Mul => "mul",
            Builtin::Div => "div",
            Builtin::Mod => "mod",
            Builtin::Add => "add",
            Builtin::Sub => "sub",
            Builtin::Eq => "eq",
            Builtin::Ne => "ne",
            Builtin::Gt => "gt",
            Builtin::Ge => "ge",
            Builtin::Lt => "lt",
            Builtin::Le => "le",
            Builtin::And => "and",
            Builtin::Or => "or",
        }
    }
}

} // verus!
