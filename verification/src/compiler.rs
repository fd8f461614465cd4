//! What the script compiler reports, and the hash that identifies a
//! compiled source.
use vstd::prelude::*;
use vstd::string::*;

use crate::text::{concat, decimal_string, decimal_text};

verus! {

pub const FNV_OFFSET_BASIS: u64 = 0xcbf2_9ce4_8422_2325;

pub const FNV_PRIME: u64 = 0x0000_0100_0000_01b3;

/// The 64-bit FNV-1a hash of `bytes`.
pub open spec fn fnv1a(bytes: Seq<u8>) -> u64
    decreases bytes.len(),
{
    if bytes.len() == 0 {
        FNV_OFFSET_BASIS
    } else {
        (fnv1a(bytes.drop_last()) ^ (bytes.last() as u64)).wrapping_mul(FNV_PRIME)
    }
}

/// The hash that identifies a compiled source: FNV-1a over its UTF-8 bytes.
pub fn source_hash(source: &str) -> (r: u64)
    ensures
        r == fnv1a(source.spec_bytes()),
{
    let bytes = source.as_bytes();
    let mut hash: u64 = FNV_OFFSET_BASIS;
    let mut i: usize = 0;
    assert(bytes@.take(0) =~= Seq::<u8>::empty());
    while i < bytes.len()
        invariant
            bytes@ == source.spec_bytes(),
            0 <= i <= bytes@.len(),
            hash == fnv1a(bytes@.take(i as int)),
        decreases bytes@.len() - i,
    {
        assert(bytes@.take(i + 1).drop_last() =~= bytes@.take(i as int));
        hash = (hash ^ (bytes[i] as u64)).wrapping_mul(FNV_PRIME);
        i = i + 1;
    }
    assert(bytes@.take(i as int) =~= bytes@);
    hash
}

/// Why a script could not be compiled.
#[derive(Debug, PartialEq, Eq)]
pub enum IrCompileError {
    Parse { path: String, message: String },
    UnsupportedStatement { path: String, kind: String, line: Option<usize>, column: Option<usize> },
    UnsupportedExpression { path: String, kind: String, line: Option<usize>, column: Option<usize> },
    UnsupportedCall { path: String, name: String, line: Option<usize>, column: Option<usize> },
    InvalidCall {
        path: String,
        name: String,
        message: String,
        line: Option<usize>,
        column: Option<usize>,
    },
}

/// An optional number as `{:?}` shows it.
pub open spec fn debug_number(n: Option<usize>) -> Seq<char> {
    match n {
        Some(v) => "Some("@ + decimal_text(v as u64) + ")"@,
        None => "None"@,
    }
}

pub fn debug_number_text(n: Option<usize>) -> (r: String)
    ensures
        r@ == debug_number(n),
{
    match n {
        Some(v) => {
            let digits = decimal_string(v as u64);
            let a = concat("Some(", digits.as_str());
            concat(a.as_str(), ")")
        },
        None => "None".to_string(),
    }
}

/// ` in `path` at line:column`.
pub open spec fn location(path: Seq<char>, line: Option<usize>, column: Option<usize>) -> Seq<char> {
    "` in `"@ + path + "` at "@ + debug_number(line) + ":"@ + debug_number(column)
}

fn location_text(path: &str, line: Option<usize>, column: Option<usize>) -> (r: String)
    ensures
        r@ == location(path@, line, column),
{
    let a = concat("` in `", path);
    let b = concat(a.as_str(), "` at ");
    let l = debug_number_text(line);
    let c = concat(b.as_str(), l.as_str());
    let d = concat(c.as_str(), ":");
    let k = debug_number_text(column);
    concat(d.as_str(), k.as_str())
}

/// The message of a compile error.
pub open spec fn compile_error_message(e: IrCompileError) -> Seq<char> {
    match e {
        IrCompileError::Parse { path, message } => "failed to parse `"@ + path@ + "`: "@ + message@,
        IrCompileError::UnsupportedStatement { path, kind, line, column } => "unsupported Rhai statement `"@
            + kind@ + location(path@, line, column),
        IrCompileError::UnsupportedExpression { path, kind, line, column } => "unsupported Rhai expression `"@
            + kind@ + location(path@, line, column),
        IrCompileError::UnsupportedCall { path, name, line, column } => "unsupported Rhai call `"@
            + name@ + location(path@, line, column),
        IrCompileError::InvalidCall { path, name, message, line, column } => "invalid Rhai call `"@
            + name@ + location(path@, line, column) + ": "@ + message@,
    }
}

impl IrCompileError {
    /// The error's message, as it is displayed.
    pub fn message(&self) -> (r: String)
        ensures
            r@ == compile_error_message(*self),
    {
        match self {
            IrCompileError::Parse { path, message } => {
                let a = concat("failed to parse `", path.as_str());
                let b = concat(a.as_str(), "`: ");
                concat(b.as_str(), message.as_str())
            },
            IrCompileError::UnsupportedStatement { path, kind, line, column } => {
                let a = concat("unsupported Rhai statement `", kind.as_str());
                let l = location_text(path.as_str(), *line, *column);
                concat(a.as_str(), l.as_str())
            },
            IrCompileError::UnsupportedExpression { path, kind, line, column } => {
                let a = concat("unsupported Rhai expression `", kind.as_str());
                let l = location_text(path.as_str(), *line, *column);
                concat(a.as_str(), l.as_str())
            },
            IrCompileError::UnsupportedCall { path, name, line, column } => {
                let a = concat("unsupported Rhai call `", name.as_str());
                let l = location_text(path.as_str(), *line, *column);
                concat(a.as_str(), l.as_str())
            },
            IrCompileError::InvalidCall { path, name, message, line, column } => {
                let a = concat("invalid Rhai call `", name.as_str());
                let l = location_text(path.as_str(), *line, *column);
                let b = concat(a.as_str(), l.as_str());
                let c = concat(b.as_str(), ": ");
                concat(c.as_str(), message.as_str())
            },
        }
    }
}

} // verus!
