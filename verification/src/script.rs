//! Script arguments and the script payload.

use move_core_types::language_storage::TypeTag;
use vstd::prelude::*;

use crate::account_address::AccountAddress;
use crate::stdlib_script::StdlibScript;

verus! {

/// The kind of a script argument, without its value.
#[derive(Clone, Copy, Debug, PartialEq, Eq, Structural, Hash)]
pub enum ArgumentKind {
    U64,
    Address,
    Bytes,
    Bool,
}

/// One value handed to a script.
#[derive(Clone, Debug, PartialEq, Eq, Hash)]
pub enum TransactionArgument {
    U64(u64),
    Address(AccountAddress),
    U8Vector(Vec<u8>),
    Bool(bool),
}

/// What a `TransactionArgument` stands for.
pub enum ArgumentValue {
    U64(u64),
    Address(Seq<u8>),
    U8Vector(Seq<u8>),
    Bool(bool),
}

impl ArgumentValue {
    /// The kind of this value.
    pub open spec fn kind(self) -> ArgumentKind {
        match self {
            ArgumentValue::U64(_) => ArgumentKind::U64,
            ArgumentValue::Address(_) => ArgumentKind::Address,
            ArgumentValue::U8Vector(_) => ArgumentKind::Bytes,
            ArgumentValue::Bool(_) => ArgumentKind::Bool,
        }
    }
}

impl View for TransactionArgument {
    type V = ArgumentValue;

    open spec fn view(&self) -> ArgumentValue {
        match *self {
            TransactionArgument::U64(value) => ArgumentValue::U64(value),
            TransactionArgument::Address(address) => ArgumentValue::Address(address@),
            TransactionArgument::U8Vector(bytes) => ArgumentValue::U8Vector(bytes@),
            TransactionArgument::Bool(value) => ArgumentValue::Bool(value),
        }
    }
}

impl TransactionArgument {
    /// The kind of this argument.
    pub fn kind(&self) -> (kind: ArgumentKind)
        ensures
            kind == self@.kind(),
    {
        match self {
            TransactionArgument::U64(_) => ArgumentKind::U64,
            TransactionArgument::Address(_) => ArgumentKind::Address,
            TransactionArgument::U8Vector(_) => ArgumentKind::Bytes,
            TransactionArgument::Bool(_) => ArgumentKind::Bool,
        }
    }
}

/// The values that a sequence of arguments stands for, in order.
pub open spec fn argument_values(args: Seq<TransactionArgument>) -> Seq<ArgumentValue> {
    args.map_values(|arg: TransactionArgument| arg@)
}

/// The kinds of a sequence of argument values, in order.
pub open spec fn argument_kinds(args: Seq<ArgumentValue>) -> Seq<ArgumentKind> {
    args.map_values(|arg: ArgumentValue| arg.kind())
}

/// What a `Script` stands for: bytecode, type arguments and arguments.
pub struct ScriptView {
    pub code: Seq<u8>,
    pub ty_args: Seq<TypeTag>,
    pub args: Seq<ArgumentValue>,
}

impl ScriptView {
    /// Whether the type arguments and arguments are what `script` takes: as many type
    /// arguments, and arguments of the same kinds in the same order.
    pub open spec fn conforms_to(self, script: StdlibScript) -> bool {
        script.accepts(self.ty_args.len(), argument_kinds(self.args))
    }
}

/// A transaction script: bytecode with the type arguments and arguments of one invocation.
#[derive(Clone, Debug, PartialEq, Eq, Hash)]
pub struct Script {
    code: Vec<u8>,
    ty_args: Vec<TypeTag>,
    args: Vec<TransactionArgument>,
}

impl View for Script {
    type V = ScriptView;

    closed spec fn view(&self) -> ScriptView {
        ScriptView {
            code: self.code@,
            ty_args: self.ty_args@,
            args: argument_values(self.args@),
        }
    }
}

impl Script {
    /// The script made of the three parts, unchanged and in the given order.
    pub fn new(code: Vec<u8>, ty_args: Vec<TypeTag>, args: Vec<TransactionArgument>) -> (script:
        Script)
        ensures
            script@ == (ScriptView {
                code: code@,
                ty_args: ty_args@,
                args: argument_values(args@),
            }),
    {
        Script { code, ty_args, args }
    }

    /// The bytecode.
    pub fn code(&self) -> (code: &[u8])
        ensures
            code@ == self@.code,
    {
        self.code.as_slice()
    }

    /// The type arguments.
    pub fn ty_args(&self) -> (ty_args: &[TypeTag])
        ensures
            ty_args@ == self@.ty_args,
    {
        self.ty_args.as_slice()
    }

    /// The arguments.
    pub fn args(&self) -> (args: &[TransactionArgument])
        ensures
            argument_values(args@) == self@.args,
    {
        self.args.as_slice()
    }

    /// The three parts of the script.
    pub fn into_inner(self) -> (parts: (Vec<u8>, Vec<TypeTag>, Vec<TransactionArgument>))
        ensures
            parts.0@ == self@.code,
            parts.1@ == self@.ty_args,
            argument_values(parts.2@) == self@.args,
    {
        (self.code, self.ty_args, self.args)
    }
}

} // verus!
