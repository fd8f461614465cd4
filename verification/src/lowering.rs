//! Lowering the deterministic, command-only script subset into IR. The
//! script engine parses the source; its syntax tree arrives here as
//! `ScriptStmt` and `ScriptExpr` values, numeric literals as `f32` bits.
//! Statements become instructions; `if`, `while` and `loop` become branches
//! and jumps, with `break` jumps patched once their loop's end is known.
use vstd::prelude::*;
use vstd::string::*;

use crate::compiler::{fnv1a, source_hash, IrCompileError};
use crate::host::ScriptPosition;
use crate::ir::{
    instruction_ok, program_valid, IrCommand, IrExpression, IrExpressionId, IrInstruction, IrPc, IrProgram, IrWaitKind,
    IR_CURRENT_VERSION,
};
use crate::scene_api::F32_ONE_BITS;
use crate::text::strings_equal;

verus! {

broadcast use vstd::std_specs::vec::axiom_vec_decreases_to_view;

// ---------------------------------------------------------------------------
// The syntax tree
// ---------------------------------------------------------------------------
/// A call as the script wrote it: its name, its arguments and where it
/// stands.
#[derive(Debug)]
pub struct ScriptCall {
    pub name: String,
    pub args: Vec<ScriptExpr>,
    pub position: ScriptPosition,
}

/// An expression of the script.
#[derive(Debug)]
pub enum ScriptExpr {
    Bool(bool, ScriptPosition),
    Text(String, ScriptPosition),
    /// A numeric literal, as the bits of the `f32` it reads as.
    Number(u32, ScriptPosition),
    Variable(String, ScriptPosition),
    Call(ScriptCall),
    MethodCall(ScriptCall),
    /// `lhs.rhs`.
    Dot(Box<ScriptExpr>, Box<ScriptExpr>, ScriptPosition),
    /// Any other expression, with the kind its errors name.
    Other(String, ScriptPosition),
}

/// A statement of the script.
#[derive(Debug)]
pub enum ScriptStmt {
    Noop,
    Block(Vec<ScriptStmt>),
    Call(ScriptCall),
    /// A variable declaration.
    Let(ScriptPosition),
    Expr(ScriptExpr),
    If { condition: ScriptExpr, then_body: Vec<ScriptStmt>, else_body: Vec<ScriptStmt> },
    /// `while condition { body }`, or `loop { body }` without a condition.
    While { condition: Option<ScriptExpr>, body: Vec<ScriptStmt> },
    /// `break` or `continue`; `with_value` when it carries an expression.
    Break { with_value: bool, is_break: bool, position: ScriptPosition },
    /// Any other statement, with the kind its errors name.
    Other { kind: String, position: ScriptPosition },
}

// ---------------------------------------------------------------------------
// Views of what lowering builds
// ---------------------------------------------------------------------------
pub enum CommandView {
    Log(Seq<char>),
    ClearDialogue,
    Say { speaker: Seq<char>, text: Seq<char> },
    StopBgm,
    ReturnToTitle,
    SetBackground { texture: Seq<char> },
    ShowCharacter {
        actor_id: Seq<char>,
        character_name: Seq<char>,
        expressions: Seq<Seq<char>>,
        position_bits: [u32; 2],
        scale_bits: u32,
    },
}

pub enum InstrView {
    Emit(CommandView),
    Wait(IrWaitKind),
    Jump(IrPc),
    Branch { expression: IrExpressionId, then_pc: IrPc, else_pc: IrPc },
    Halt,
}

pub enum ExprView {
    BoolLiteral(bool),
    BoolVariable(Seq<char>),
}

pub enum ErrorView {
    Parse { path: Seq<char>, message: Seq<char> },
    UnsupportedStatement { path: Seq<char>, kind: Seq<char>, position: ScriptPosition },
    UnsupportedExpression { path: Seq<char>, kind: Seq<char>, position: ScriptPosition },
    UnsupportedCall { path: Seq<char>, name: Seq<char>, position: ScriptPosition },
    InvalidCall { path: Seq<char>, name: Seq<char>, message: Seq<char>, position: ScriptPosition },
}

pub open spec fn strings_view(v: Seq<String>) -> Seq<Seq<char>> {
    v.map_values(|s: String| s@)
}

pub open spec fn command_view(c: IrCommand) -> CommandView {
    match c {
        IrCommand::Log(m) => CommandView::Log(m@),
        IrCommand::ClearDialogue => CommandView::ClearDialogue,
        IrCommand::Say { speaker, text } => CommandView::Say { speaker: speaker@, text: text@ },
        IrCommand::StopBgm => CommandView::StopBgm,
        IrCommand::ReturnToTitle => CommandView::ReturnToTitle,
        IrCommand::SetBackground { texture } => CommandView::SetBackground { texture: texture@ },
        IrCommand::ShowCharacter { actor_id, character_name, expressions, position_bits, scale_bits } =>
            CommandView::ShowCharacter {
            actor_id: actor_id@,
            character_name: character_name@,
            expressions: strings_view(expressions@),
            position_bits,
            scale_bits,
        },
    }
}

pub open spec fn instr_view(i: IrInstruction) -> InstrView {
    match i {
        IrInstruction::Emit(c) => InstrView::Emit(command_view(c)),
        IrInstruction::Wait(w) => InstrView::Wait(w),
        IrInstruction::Jump(t) => InstrView::Jump(t),
        IrInstruction::Branch { expression, then_pc, else_pc } => InstrView::Branch {
            expression,
            then_pc,
            else_pc,
        },
        IrInstruction::Halt => InstrView::Halt,
    }
}

pub open spec fn instrs_view(v: Seq<IrInstruction>) -> Seq<InstrView> {
    v.map_values(|i: IrInstruction| instr_view(i))
}

pub open spec fn expr_view(e: IrExpression) -> ExprView {
    match e {
        IrExpression::BoolLiteral(b) => ExprView::BoolLiteral(b),
        IrExpression::BoolVariable(v) => ExprView::BoolVariable(v@),
    }
}

pub open spec fn exprs_view(v: Seq<IrExpression>) -> Seq<ExprView> {
    v.map_values(|e: IrExpression| expr_view(e))
}

pub open spec fn error_view(e: IrCompileError) -> ErrorView {
    match e {
        IrCompileError::UnsupportedStatement { path, kind, line, column } => ErrorView::UnsupportedStatement {
            path: path@,
            kind: kind@,
            position: ScriptPosition { line, column },
        },
        IrCompileError::UnsupportedExpression { path, kind, line, column } => ErrorView::UnsupportedExpression {
            path: path@,
            kind: kind@,
            position: ScriptPosition { line, column },
        },
        IrCompileError::UnsupportedCall { path, name, line, column } => ErrorView::UnsupportedCall {
            path: path@,
            name: name@,
            position: ScriptPosition { line, column },
        },
        IrCompileError::InvalidCall { path, name, message, line, column } => ErrorView::InvalidCall {
            path: path@,
            name: name@,
            message: message@,
            position: ScriptPosition { line, column },
        },
        IrCompileError::Parse { path, message } => ErrorView::Parse { path: path@, message: message@ },
    }
}

// ---------------------------------------------------------------------------
// Calls
// ---------------------------------------------------------------------------
pub open spec fn invalid(path: Seq<char>, c: ScriptCall, message: Seq<char>) -> ErrorView {
    ErrorView::InvalidCall { path, name: c.name@, message, position: c.position }
}

pub open spec fn unsupported_call(path: Seq<char>, c: ScriptCall) -> ErrorView {
    ErrorView::UnsupportedCall { path, name: c.name@, position: c.position }
}

/// A call without arguments.
pub open spec fn no_args(path: Seq<char>, c: ScriptCall) -> Result<(), ErrorView> {
    if c.args@.len() == 0 {
        Ok(())
    } else {
        Err(invalid(path, c, "does not accept arguments"@))
    }
}

/// The one string literal a call takes.
pub open spec fn one_string(path: Seq<char>, c: ScriptCall) -> Result<Seq<char>, ErrorView> {
    if !(c.args@.len() > 0 && c.args@[0] is Text) {
        Err(invalid(path, c, "requires one string literal argument"@))
    } else if c.args@.len() != 1 {
        Err(invalid(path, c, "requires exactly one argument"@))
    } else {
        Ok(c.args@[0]->Text_0@)
    }
}

/// The one numeric literal a call takes, as `f32` bits.
pub open spec fn one_number(path: Seq<char>, c: ScriptCall) -> Result<u32, ErrorView> {
    if c.args@.len() != 1 {
        Err(invalid(path, c, "requires exactly one argument"@))
    } else if !(c.args@[0] is Number) {
        Err(invalid(path, c, "requires a numeric literal"@))
    } else {
        Ok(c.args@[0]->Number_0)
    }
}

/// What a command call emits: a command, and the wait that follows it.
pub open spec fn command_call(path: Seq<char>, c: ScriptCall) -> Result<(CommandView, Option<IrWaitKind>), ErrorView> {
    let n = c.name@;
    if n == "log"@ {
        match one_string(path, c) {
            Ok(m) => Ok((CommandView::Log(m), None)),
            Err(e) => Err(e),
        }
    } else if n == "stop_bgm"@ {
        match no_args(path, c) {
            Ok(_) => Ok((CommandView::StopBgm, None)),
            Err(e) => Err(e),
        }
    } else if n == "return_to_title"@ {
        match no_args(path, c) {
            Ok(_) => Ok((CommandView::ReturnToTitle, None)),
            Err(e) => Err(e),
        }
    } else if n == "clear_text"@ {
        match no_args(path, c) {
            Ok(_) => Ok((CommandView::ClearDialogue, None)),
            Err(e) => Err(e),
        }
    } else if n == "narrate"@ {
        match one_string(path, c) {
            Ok(t) => Ok(
                (CommandView::Say { speaker: Seq::empty(), text: t }, Some(IrWaitKind::DialogueAdvance)),
            ),
            Err(e) => Err(e),
        }
    } else if n == "bg"@ {
        match one_string(path, c) {
            Ok(t) => Ok((CommandView::SetBackground { texture: t }, None)),
            Err(e) => Err(e),
        }
    } else {
        Err(unsupported_call(path, c))
    }
}

fn make_invalid(path: &str, c: &ScriptCall, message: &str) -> (e: IrCompileError)
    ensures
        error_view(e) == invalid(path@, *c, message@),
{
    IrCompileError::InvalidCall {
        path: path.to_owned(),
        name: c.name.clone(),
        message: message.to_owned(),
        line: c.position.line,
        column: c.position.column,
    }
}

fn make_unsupported_call(path: &str, c: &ScriptCall) -> (e: IrCompileError)
    ensures
        error_view(e) == unsupported_call(path@, *c),
{
    IrCompileError::UnsupportedCall {
        path: path.to_owned(),
        name: c.name.clone(),
        line: c.position.line,
        column: c.position.column,
    }
}

fn check_no_args(path: &str, c: &ScriptCall) -> (r: Result<(), IrCompileError>)
    ensures
        match no_args(path@, *c) {
            Ok(_) => r is Ok,
            Err(e) => r matches Err(x) && error_view(x) == e,
        },
{
    if c.args.len() == 0 {
        Ok(())
    } else {
        Err(make_invalid(path, c, "does not accept arguments"))
    }
}

fn take_one_string(path: &str, c: &ScriptCall) -> (r: Result<String, IrCompileError>)
    ensures
        match one_string(path@, *c) {
            Ok(s) => r matches Ok(x) && x@ == s,
            Err(e) => r matches Err(x) && error_view(x) == e,
        },
{
    if c.args.len() == 0 {
        return Err(make_invalid(path, c, "requires one string literal argument"));
    }
    let s = match &c.args[0] {
        ScriptExpr::Text(s, _) => s.clone(),
        _ => {
            return Err(make_invalid(path, c, "requires one string literal argument"));
        },
    };
    if c.args.len() != 1 {
        return Err(make_invalid(path, c, "requires exactly one argument"));
    }
    Ok(s)
}

fn take_one_number(path: &str, c: &ScriptCall) -> (r: Result<u32, IrCompileError>)
    ensures
        match one_number(path@, *c) {
            Ok(n) => r == Ok::<u32, IrCompileError>(n),
            Err(e) => r matches Err(x) && error_view(x) == e,
        },
{
    if c.args.len() != 1 {
        return Err(make_invalid(path, c, "requires exactly one argument"));
    }
    match &c.args[0] {
        ScriptExpr::Number(n, _) => Ok(*n),
        _ => Err(make_invalid(path, c, "requires a numeric literal")),
    }
}

fn lower_command(path: &str, c: &ScriptCall) -> (r: Result<(IrCommand, Option<IrWaitKind>), IrCompileError>)
    ensures
        match command_call(path@, *c) {
            Ok((cmd, w)) => r matches Ok((x, y)) && command_view(x) == cmd && y == w,
            Err(e) => r matches Err(x) && error_view(x) == e,
        },
{
    let n = c.name.as_str();
    proof {
        reveal_strlit("log");
        reveal_strlit("stop_bgm");
        reveal_strlit("return_to_title");
        reveal_strlit("clear_text");
        reveal_strlit("narrate");
        reveal_strlit("bg");
    }
    if strings_equal(n, "log") {
        match take_one_string(path, c) {
            Ok(m) => Ok((IrCommand::Log(m), None)),
            Err(e) => Err(e),
        }
    } else if strings_equal(n, "stop_bgm") {
        match check_no_args(path, c) {
            Ok(_) => Ok((IrCommand::StopBgm, None)),
            Err(e) => Err(e),
        }
    } else if strings_equal(n, "return_to_title") {
        match check_no_args(path, c) {
            Ok(_) => Ok((IrCommand::ReturnToTitle, None)),
            Err(e) => Err(e),
        }
    } else if strings_equal(n, "clear_text") {
        match check_no_args(path, c) {
            Ok(_) => Ok((IrCommand::ClearDialogue, None)),
            Err(e) => Err(e),
        }
    } else if strings_equal(n, "narrate") {
        match take_one_string(path, c) {
            Ok(t) => {
                let speaker = String::new();
                assert(speaker@ =~= Seq::<char>::empty());
                Ok((IrCommand::Say { speaker, text: t }, Some(IrWaitKind::DialogueAdvance)))
            },
            Err(e) => Err(e),
        }
    } else if strings_equal(n, "bg") {
        match take_one_string(path, c) {
            Ok(t) => Ok((IrCommand::SetBackground { texture: t }, None)),
            Err(e) => Err(e),
        }
    } else {
        Err(make_unsupported_call(path, c))
    }
}

// ---------------------------------------------------------------------------
// Expressions and character chains
// ---------------------------------------------------------------------------
/// The kind an unsupported expression's error names.
pub open spec fn expression_kind(e: ScriptExpr) -> Seq<char> {
    match e {
        ScriptExpr::Bool(..) => "boolean expression"@,
        ScriptExpr::Variable(..) => "variable expression"@,
        ScriptExpr::Call(_) => "function expression"@,
        ScriptExpr::MethodCall(_) => "function expression"@,
        ScriptExpr::Other(kind, _) => kind@,
        _ => "expression"@,
    }
}

pub open spec fn expression_position(e: ScriptExpr) -> ScriptPosition {
    match e {
        ScriptExpr::Bool(_, p) => p,
        ScriptExpr::Text(_, p) => p,
        ScriptExpr::Number(_, p) => p,
        ScriptExpr::Variable(_, p) => p,
        ScriptExpr::Call(c) => c.position,
        ScriptExpr::MethodCall(c) => c.position,
        ScriptExpr::Dot(_, _, p) => p,
        ScriptExpr::Other(_, p) => p,
    }
}

pub open spec fn unsupported_expression(path: Seq<char>, e: ScriptExpr) -> ErrorView {
    ErrorView::UnsupportedExpression { path, kind: expression_kind(e), position: expression_position(e) }
}

fn make_unsupported_expression(path: &str, e: &ScriptExpr) -> (r: IrCompileError)
    ensures
        error_view(r) == unsupported_expression(path@, *e),
{
    proof {
        reveal_strlit("boolean expression");
        reveal_strlit("variable expression");
        reveal_strlit("function expression");
        reveal_strlit("expression");
    }
    let (kind, position) = match e {
        ScriptExpr::Bool(_, p) => ("boolean expression".to_owned(), *p),
        ScriptExpr::Text(_, p) => ("expression".to_owned(), *p),
        ScriptExpr::Number(_, p) => ("expression".to_owned(), *p),
        ScriptExpr::Variable(_, p) => ("variable expression".to_owned(), *p),
        ScriptExpr::Call(c) => ("function expression".to_owned(), c.position),
        ScriptExpr::MethodCall(c) => ("function expression".to_owned(), c.position),
        ScriptExpr::Dot(_, _, p) => ("expression".to_owned(), *p),
        ScriptExpr::Other(k, p) => (k.clone(), *p),
    };
    IrCompileError::UnsupportedExpression {
        path: path.to_owned(),
        kind,
        line: position.line,
        column: position.column,
    }
}

/// A character being built by a fluent chain.
pub struct FlowView {
    pub actor_id: Seq<char>,
    pub character_name: Seq<char>,
    pub expressions: Seq<Seq<char>>,
    pub position_bits: [u32; 2],
    pub scale_bits: u32,
}

/// The bits of -600.0, 0.0 and 600.0 as `f32`: the stage's left, centre
/// and right.
pub const LEFT_X_BITS: u32 = 0xc416_0000;

pub const RIGHT_X_BITS: u32 = 0x4416_0000;

/// `f32` bits of a value that is not greater than zero: zero of either sign,
/// or a negative number (a NaN is neither).
pub open spec fn not_positive(bits: u32) -> bool {
    let is_nan = (bits & 0x7f80_0000u32) == 0x7f80_0000u32 && (bits & 0x007f_ffffu32) != 0;
    (bits & 0x7fff_ffffu32) == 0 || ((bits & 0x8000_0000u32) != 0 && !is_nan)
}

/// A step of a character chain: `char`, `at`, `scale` or `e`; `None` for
/// another name.
pub open spec fn character_step(path: Seq<char>, c: ScriptCall, f: FlowView) -> Option<Result<FlowView, ErrorView>> {
    let n = c.name@;
    if n == "char"@ {
        Some(
            match one_string(path, c) {
                Ok(a) => Ok(FlowView { actor_id: a, character_name: a, ..f }),
                Err(e) => Err(e),
            },
        )
    } else if n == "at"@ {
        Some(
            match one_string(path, c) {
                Ok(where_) => if where_ == "left"@ {
                    Ok(FlowView { position_bits: [LEFT_X_BITS, 0u32], ..f })
                } else if where_ == "center"@ {
                    Ok(FlowView { position_bits: [0u32, 0u32], ..f })
                } else if where_ == "right"@ {
                    Ok(FlowView { position_bits: [RIGHT_X_BITS, 0u32], ..f })
                } else {
                    Err(invalid(path, c, "position must be left, center, or right"@))
                },
                Err(e) => Err(e),
            },
        )
    } else if n == "scale"@ {
        Some(
            match one_number(path, c) {
                Ok(b) => if not_positive(b) {
                    Err(invalid(path, c, "scale must be positive"@))
                } else {
                    Ok(FlowView { scale_bits: b, ..f })
                },
                Err(e) => Err(e),
            },
        )
    } else if n == "e"@ {
        Some(
            match one_string(path, c) {
                Ok(x) => Ok(FlowView { expressions: f.expressions.push(x), ..f }),
                Err(e) => Err(e),
            },
        )
    } else {
        None
    }
}

/// A chain's head and what follows it: a call, or `lhs.rhs`.
pub open spec fn chain(path: Seq<char>, e: ScriptExpr, f: FlowView) -> Result<FlowView, ErrorView>
    decreases e,
{
    match e {
        ScriptExpr::Call(c) => match character_step(path, c, f) {
            Some(r) => r,
            None => Err(unsupported_expression(path, e)),
        },
        ScriptExpr::Dot(l, r, _) => match chain(path, *l, f) {
            Ok(g) => chain_suffix(path, *r, g),
            Err(x) => Err(x),
        },
        _ => Err(unsupported_expression(path, e)),
    }
}

/// The method calls after a chain's head.
pub open spec fn chain_suffix(path: Seq<char>, e: ScriptExpr, f: FlowView) -> Result<FlowView, ErrorView>
    decreases e,
{
    match e {
        ScriptExpr::MethodCall(c) => match character_step(path, c, f) {
            Some(r) => r,
            None => Err(unsupported_call(path, c)),
        },
        ScriptExpr::Dot(l, r, _) => match chain_suffix(path, *l, f) {
            Ok(g) => chain_suffix(path, *r, g),
            Err(x) => Err(x),
        },
        _ => Err(unsupported_expression(path, e)),
    }
}

/// A chain starts at the centre, at scale one, without a name or
/// expressions.
pub open spec fn fresh_flow() -> FlowView {
    FlowView {
        actor_id: Seq::empty(),
        character_name: Seq::empty(),
        expressions: Seq::empty(),
        position_bits: [0u32, 0u32],
        scale_bits: F32_ONE_BITS,
    }
}

struct Flow {
    actor_id: String,
    character_name: String,
    expressions: Vec<String>,
    position_bits: [u32; 2],
    scale_bits: u32,
}

impl View for Flow {
    type V = FlowView;

    closed spec fn view(&self) -> FlowView {
        FlowView {
            actor_id: self.actor_id@,
            character_name: self.character_name@,
            expressions: strings_view(self.expressions@),
            position_bits: self.position_bits,
            scale_bits: self.scale_bits,
        }
    }
}

fn is_not_positive(bits: u32) -> (r: bool)
    ensures
        r == not_positive(bits),
{
    let is_nan = (bits & 0x7f80_0000u32) == 0x7f80_0000u32 && (bits & 0x007f_ffffu32) != 0;
    (bits & 0x7fff_ffffu32) == 0 || ((bits & 0x8000_0000u32) != 0 && !is_nan)
}

/// Applies a character step to `f`; `Ok(false)` when the name is not one.
fn apply_character_step(path: &str, c: &ScriptCall, f: &mut Flow) -> (r: Result<bool, IrCompileError>)
    ensures
        match character_step(path@, *c, old(f)@) {
            None => r == Ok::<bool, IrCompileError>(false) && final(f)@ == old(f)@,
            Some(Ok(g)) => r == Ok::<bool, IrCompileError>(true) && final(f)@ == g,
            Some(Err(e)) => r matches Err(x) && error_view(x) == e,
        },
{
    let n = c.name.as_str();
    proof {
        reveal_strlit("char");
        reveal_strlit("at");
        reveal_strlit("scale");
        reveal_strlit("e");
        reveal_strlit("left");
        reveal_strlit("center");
        reveal_strlit("right");
    }
    if strings_equal(n, "char") {
        let a = match take_one_string(path, c) {
            Ok(a) => a,
            Err(e) => {
                return Err(e);
            },
        };
        f.actor_id = a.clone();
        f.character_name = a;
        Ok(true)
    } else if strings_equal(n, "at") {
        let w = match take_one_string(path, c) {
            Ok(w) => w,
            Err(e) => {
                return Err(e);
            },
        };
        if strings_equal(w.as_str(), "left") {
            f.position_bits = [LEFT_X_BITS, 0u32];
        } else if strings_equal(w.as_str(), "center") {
            f.position_bits = [0u32, 0u32];
        } else if strings_equal(w.as_str(), "right") {
            f.position_bits = [RIGHT_X_BITS, 0u32];
        } else {
            return Err(make_invalid(path, c, "position must be left, center, or right"));
        }
        Ok(true)
    } else if strings_equal(n, "scale") {
        let b = match take_one_number(path, c) {
            Ok(b) => b,
            Err(e) => {
                return Err(e);
            },
        };
        if is_not_positive(b) {
            return Err(make_invalid(path, c, "scale must be positive"));
        }
        f.scale_bits = b;
        Ok(true)
    } else if strings_equal(n, "e") {
        let x = match take_one_string(path, c) {
            Ok(x) => x,
            Err(e) => {
                return Err(e);
            },
        };
        let ghost before = f.expressions@;
        f.expressions.push(x);
        assert(strings_view(f.expressions@) =~= strings_view(before).push(x@));
        Ok(true)
    } else {
        Ok(false)
    }
}

fn read_chain(path: &str, e: &ScriptExpr, f: &mut Flow) -> (r: Result<(), IrCompileError>)
    ensures
        match chain(path@, *e, old(f)@) {
            Ok(g) => r is Ok && final(f)@ == g,
            Err(x) => r matches Err(y) && error_view(y) == x,
        },
    decreases e,
{
    match e {
        ScriptExpr::Call(c) => match apply_character_step(path, c, f) {
            Ok(true) => Ok(()),
            Ok(false) => Err(make_unsupported_expression(path, e)),
            Err(x) => Err(x),
        },
        ScriptExpr::Dot(l, r, _) => {
            match read_chain(path, l, f) {
                Ok(()) => {},
                Err(x) => {
                    return Err(x);
                },
            }
            read_suffix(path, r, f)
        },
        _ => Err(make_unsupported_expression(path, e)),
    }
}

fn read_suffix(path: &str, e: &ScriptExpr, f: &mut Flow) -> (r: Result<(), IrCompileError>)
    ensures
        match chain_suffix(path@, *e, old(f)@) {
            Ok(g) => r is Ok && final(f)@ == g,
            Err(x) => r matches Err(y) && error_view(y) == x,
        },
    decreases e,
{
    match e {
        ScriptExpr::MethodCall(c) => match apply_character_step(path, c, f) {
            Ok(true) => Ok(()),
            Ok(false) => Err(make_unsupported_call(path, c)),
            Err(x) => Err(x),
        },
        ScriptExpr::Dot(l, r, _) => {
            match read_suffix(path, l, f) {
                Ok(()) => {},
                Err(x) => {
                    return Err(x);
                },
            }
            read_suffix(path, r, f)
        },
        _ => Err(make_unsupported_expression(path, e)),
    }
}

// ---------------------------------------------------------------------------
// Statements
// ---------------------------------------------------------------------------
/// A loop being lowered: where `continue` jumps, and the `break` jumps to
/// patch once the loop's end is known.
pub struct LoopView {
    pub continue_pc: IrPc,
    pub breaks: Seq<usize>,
}

/// What has been lowered so far.
pub struct LowerView {
    pub exprs: Seq<ExprView>,
    pub instrs: Seq<InstrView>,
    pub loops: Seq<LoopView>,
}

pub open spec fn with_instrs(st: LowerView, instrs: Seq<InstrView>) -> LowerView {
    LowerView { instrs, ..st }
}

pub open spec fn unsupported_statement(path: Seq<char>, kind: Seq<char>, position: ScriptPosition) -> ErrorView {
    ErrorView::UnsupportedStatement { path, kind, position }
}

/// A call statement: its command, then the wait it needs.
pub open spec fn emit_call(path: Seq<char>, c: ScriptCall, st: LowerView) -> Result<LowerView, ErrorView> {
    match command_call(path, c) {
        Ok((cmd, w)) => {
            let i = st.instrs.push(InstrView::Emit(cmd));
            Ok(
                with_instrs(
                    st,
                    match w {
                        Some(k) => i.push(InstrView::Wait(k)),
                        None => i,
                    },
                ),
            )
        },
        Err(e) => Err(e),
    }
}

/// A fluent character statement: the character it shows.
pub open spec fn emit_character(path: Seq<char>, e: ScriptExpr, st: LowerView) -> Result<LowerView, ErrorView> {
    match chain(path, e, fresh_flow()) {
        Ok(f) => Ok(
            with_instrs(
                st,
                st.instrs.push(
                    InstrView::Emit(
                        CommandView::ShowCharacter {
                            actor_id: f.actor_id,
                            character_name: f.character_name,
                            expressions: f.expressions,
                            position_bits: f.position_bits,
                            scale_bits: f.scale_bits,
                        },
                    ),
                ),
            ),
        ),
        Err(x) => Err(x),
    }
}

/// A branch condition: a boolean literal or a boolean variable, numbered
/// by its place in the expression table.
pub open spec fn condition(path: Seq<char>, e: ScriptExpr, st: LowerView) -> Result<(IrExpressionId, LowerView), ErrorView> {
    let id = IrExpressionId(st.exprs.len() as u32);
    match e {
        ScriptExpr::Bool(b, _) => Ok((id, LowerView { exprs: st.exprs.push(ExprView::BoolLiteral(b)), ..st })),
        ScriptExpr::Variable(v, _) => Ok(
            (id, LowerView { exprs: st.exprs.push(ExprView::BoolVariable(v@)), ..st }),
        ),
        _ => Err(unsupported_expression(path, e)),
    }
}

/// Points the `break` jumps at `end`.
pub open spec fn patch(instrs: Seq<InstrView>, breaks: Seq<usize>, end: IrPc) -> Seq<InstrView>
    decreases breaks.len(),
{
    if breaks.len() == 0 {
        instrs
    } else {
        let pc = breaks[0];
        patch(
            if pc < instrs.len() {
                instrs.update(pc as int, InstrView::Jump(end))
            } else {
                instrs
            },
            breaks.drop_first(),
            end,
        )
    }
}

/// Closes the innermost loop: its jump back, then its `break` jumps patched
/// to the instruction after it.
pub open spec fn close_loop(st: LowerView, back: IrPc) -> LowerView {
    let instrs = st.instrs.push(InstrView::Jump(back));
    let end = instrs.len() as u32;
    if st.loops.len() == 0 {
        with_instrs(st, instrs)
    } else {
        LowerView { instrs: patch(instrs, st.loops.last().breaks, end), loops: st.loops.drop_last(), ..st }
    }
}

pub open spec fn open_loop(st: LowerView, continue_pc: IrPc) -> LowerView {
    LowerView { loops: st.loops.push(LoopView { continue_pc, breaks: Seq::empty() }), ..st }
}

pub open spec fn lower_stmt(path: Seq<char>, s: ScriptStmt, st: LowerView) -> Result<LowerView, ErrorView>
    decreases s,
{
    match s {
        ScriptStmt::Noop => Ok(st),
        ScriptStmt::Block(b) => lower_list(path, b@, st),
        ScriptStmt::Call(c) => emit_call(path, c, st),
        ScriptStmt::Let(p) => Err(unsupported_statement(path, "variable declaration"@, p)),
        ScriptStmt::Expr(e) => match e {
            ScriptExpr::Call(c) => emit_call(path, c, st),
            ScriptExpr::Dot(..) => emit_character(path, e, st),
            _ => Err(unsupported_expression(path, e)),
        },
        ScriptStmt::If { condition: cond, then_body, else_body } => match condition(path, cond, st) {
            Err(x) => Err(x),
            Ok((id, st1)) => {
                let branch_pc = st1.instrs.len();
                let st2 = with_instrs(
                    st1,
                    st1.instrs.push(InstrView::Branch { expression: id, then_pc: 0, else_pc: 0 }),
                );
                match lower_list(path, then_body@, st2) {
                    Err(x) => Err(x),
                    Ok(st3) => {
                        let end_jump = st3.instrs.len();
                        let st4 = with_instrs(st3, st3.instrs.push(InstrView::Jump(0)));
                        let else_pc = st4.instrs.len() as u32;
                        match lower_list(path, else_body@, st4) {
                            Err(x) => Err(x),
                            Ok(st5) => {
                                let end = st5.instrs.len() as u32;
                                Ok(
                                    with_instrs(
                                        st5,
                                        st5.instrs.update(
                                            branch_pc as int,
                                            InstrView::Branch {
                                                expression: id,
                                                then_pc: (branch_pc + 1) as u32,
                                                else_pc,
                                            },
                                        ).update(end_jump as int, InstrView::Jump(end)),
                                    ),
                                )
                            },
                        }
                    },
                }
            },
        },
        ScriptStmt::While { condition: cond, body } => match cond {
            None => {
                let body_pc = st.instrs.len() as u32;
                match lower_list(path, body@, open_loop(st, body_pc)) {
                    Err(x) => Err(x),
                    Ok(st1) => Ok(close_loop(st1, body_pc)),
                }
            },
            Some(c) => {
                let condition_pc = st.instrs.len() as u32;
                match condition(path, c, st) {
                    Err(x) => Err(x),
                    Ok((id, st1)) => {
                        let branch_pc = st1.instrs.len();
                        let st2 = with_instrs(
                            st1,
                            st1.instrs.push(InstrView::Branch { expression: id, then_pc: 0, else_pc: 0 }),
                        );
                        let body_pc = st2.instrs.len() as u32;
                        match lower_list(path, body@, open_loop(st2, condition_pc)) {
                            Err(x) => Err(x),
                            Ok(st3) => {
                                let st4 = close_loop(st3, condition_pc);
                                let end = (st3.instrs.len() + 1) as u32;
                                Ok(
                                    with_instrs(
                                        st4,
                                        st4.instrs.update(
                                            branch_pc as int,
                                            InstrView::Branch { expression: id, then_pc: body_pc, else_pc: end },
                                        ),
                                    ),
                                )
                            },
                        }
                    },
                }
            },
        },
        ScriptStmt::Break { with_value, is_break, position } => if with_value {
            Err(unsupported_statement(path, "break/continue with expression"@, position))
        } else if st.loops.len() == 0 {
            Err(unsupported_statement(path, "break/continue outside loop"@, position))
        } else {
            let last = st.loops.last();
            if is_break {
                Ok(
                    LowerView {
                        instrs: st.instrs.push(InstrView::Jump(0)),
                        loops: st.loops.update(
                            st.loops.len() - 1,
                            LoopView { breaks: last.breaks.push(st.instrs.len() as usize), ..last },
                        ),
                        ..st
                    },
                )
            } else {
                Ok(with_instrs(st, st.instrs.push(InstrView::Jump(last.continue_pc))))
            }
        },
        ScriptStmt::Other { kind, position } => Err(unsupported_statement(path, kind@, position)),
    }
}

/// The statements in order; the first error ends the lowering.
pub open spec fn lower_list(path: Seq<char>, list: Seq<ScriptStmt>, st: LowerView) -> Result<LowerView, ErrorView>
    decreases list,
{
    if list.len() == 0 {
        Ok(st)
    } else {
        match lower_stmt(path, list[0], st) {
            Ok(st1) => lower_list(path, list.drop_first(), st1),
            Err(x) => Err(x),
        }
    }
}

pub open spec fn empty_lowering() -> LowerView {
    LowerView { exprs: Seq::empty(), instrs: Seq::empty(), loops: Seq::empty() }
}

/// The program the statements lower to: their instructions, then `Halt`.
pub open spec fn lowered(path: Seq<char>, stmts: Seq<ScriptStmt>) -> Result<(Seq<ExprView>, Seq<InstrView>), ErrorView> {
    match lower_list(path, stmts, empty_lowering()) {
        Ok(st) => Ok((st.exprs, st.instrs.push(InstrView::Halt))),
        Err(x) => Err(x),
    }
}

// ---------------------------------------------------------------------------
// Lowered programs are valid
// ---------------------------------------------------------------------------
/// A jump or branch of a program with `n` instructions and `m` expressions
/// lands on an instruction and reads an expression.
pub open spec fn target_ok(i: InstrView, n: nat, m: nat) -> bool {
    match i {
        InstrView::Jump(t) => t < n,
        InstrView::Branch { expression, then_pc, else_pc } => expression.0 < m && then_pc < n && else_pc < n,
        _ => true,
    }
}

/// Every target of `instrs` is valid once one more instruction follows.
pub open spec fn targets_ok(instrs: Seq<InstrView>, m: nat) -> bool {
    forall|i: int| 0 <= i < instrs.len() ==> target_ok(#[trigger] instrs[i], instrs.len() + 1, m)
}

/// Partly lowered code: its targets reach at most one past its end, and
/// each open loop continues at most there.
pub open spec fn lowering_ok(st: LowerView) -> bool {
    &&& targets_ok(st.instrs, st.exprs.len())
    &&& forall|l: int| 0 <= l < st.loops.len() ==> (#[trigger] st.loops[l]).continue_pc <= st.instrs.len()
}

proof fn lemma_truncate(n: nat)
    ensures
        (n as u32) <= n,
{
}

proof fn lemma_patch(instrs: Seq<InstrView>, breaks: Seq<usize>, end: IrPc, m: nat)
    requires
        targets_ok(instrs, m),
        end <= instrs.len(),
    ensures
        patch(instrs, breaks, end).len() == instrs.len(),
        targets_ok(patch(instrs, breaks, end), m),
    decreases breaks.len(),
{
    if breaks.len() > 0 {
        let pc = breaks[0];
        let next = if pc < instrs.len() {
            instrs.update(pc as int, InstrView::Jump(end))
        } else {
            instrs
        };
        assert(targets_ok(next, m)) by {
            assert forall|i: int| 0 <= i < next.len() implies target_ok(#[trigger] next[i], next.len() + 1, m) by {
                if i != pc {
                    assert(next[i] == instrs[i]);
                }
            }
        }
        lemma_patch(next, breaks.drop_first(), end, m);
    }
}

proof fn lemma_close_loop(st: LowerView, back: IrPc)
    requires
        lowering_ok(st),
        back <= st.instrs.len(),
    ensures
        lowering_ok(close_loop(st, back)),
        close_loop(st, back).instrs.len() == st.instrs.len() + 1,
        close_loop(st, back).exprs == st.exprs,
{
    let instrs = st.instrs.push(InstrView::Jump(back));
    lemma_truncate(instrs.len());
    assert(targets_ok(instrs, st.exprs.len())) by {
        assert forall|i: int| 0 <= i < instrs.len() implies target_ok(#[trigger] instrs[i], instrs.len() + 1, st.exprs.len()) by {
            if i < st.instrs.len() {
                assert(instrs[i] == st.instrs[i]);
            }
        }
    }
    if st.loops.len() > 0 {
        lemma_patch(instrs, st.loops.last().breaks, instrs.len() as u32, st.exprs.len());
        let r = close_loop(st, back);
        assert forall|l: int| 0 <= l < r.loops.len() implies (#[trigger] r.loops[l]).continue_pc <= r.instrs.len() by {
            assert(r.loops[l] == st.loops[l]);
        }
    }
}

proof fn lemma_lower_list(path: Seq<char>, list: Seq<ScriptStmt>, st: LowerView)
    requires
        lowering_ok(st),
    ensures
        lower_list(path, list, st) matches Ok(r) ==> lowering_ok(r) && r.instrs.len() >= st.instrs.len()
            && r.exprs.len() >= st.exprs.len(),
    decreases list,
{
    if list.len() > 0 {
        lemma_lower_stmt(path, list[0], st);
        if let Ok(st1) = lower_stmt(path, list[0], st) {
            lemma_lower_list(path, list.drop_first(), st1);
        }
    }
}

proof fn lemma_pushed(st: LowerView, st1: LowerView, extra: Seq<InstrView>)
    requires
        lowering_ok(st),
        st1 == with_instrs(st, st.instrs + extra),
        forall|i: int| 0 <= i < extra.len() ==> (#[trigger] extra[i]) is Emit || extra[i] is Wait,
    ensures
        lowering_ok(st1),
{
    assert forall|i: int| 0 <= i < st1.instrs.len() implies target_ok(#[trigger] st1.instrs[i], st1.instrs.len() + 1, st1.exprs.len()) by {
        if i < st.instrs.len() {
            assert(st1.instrs[i] == st.instrs[i]);
        } else {
            assert(st1.instrs[i] == extra[i - st.instrs.len()]);
        }
    }
}

proof fn lemma_lower_stmt(path: Seq<char>, s: ScriptStmt, st: LowerView)
    requires
        lowering_ok(st),
    ensures
        lower_stmt(path, s, st) matches Ok(r) ==> lowering_ok(r) && r.instrs.len() >= st.instrs.len()
            && r.exprs.len() >= st.exprs.len(),
    decreases s,
{
    let m = st.exprs.len();
    lemma_truncate(st.instrs.len());
    lemma_truncate(st.exprs.len());
    match s {
        ScriptStmt::Block(b) => {
            lemma_lower_list(path, b@, st);
        },
        ScriptStmt::Call(c) => {
            if let Ok((cmd, w)) = command_call(path, c) {
                let i = seq![InstrView::Emit(cmd)];
                let extra = match w {
                    Some(k) => i.push(InstrView::Wait(k)),
                    None => i,
                };
                assert(st.instrs.push(InstrView::Emit(cmd)) =~= st.instrs + i);
                if let Some(k) = w {
                    assert(st.instrs.push(InstrView::Emit(cmd)).push(InstrView::Wait(k)) =~= st.instrs + extra);
                }
                lemma_pushed(st, emit_call(path, c, st)->Ok_0, extra);
            }
        },
        ScriptStmt::Expr(e) => {
            match e {
                ScriptExpr::Call(c) => {
                    if let Ok((cmd, w)) = command_call(path, c) {
                        let i = seq![InstrView::Emit(cmd)];
                        let extra = match w {
                            Some(k) => i.push(InstrView::Wait(k)),
                            None => i,
                        };
                        assert(st.instrs.push(InstrView::Emit(cmd)) =~= st.instrs + i);
                        if let Some(k) = w {
                            assert(st.instrs.push(InstrView::Emit(cmd)).push(InstrView::Wait(k)) =~= st.instrs + extra);
                        }
                        lemma_pushed(st, emit_call(path, c, st)->Ok_0, extra);
                    }
                },
                ScriptExpr::Dot(..) => {
                    if let Ok(r) = emit_character(path, e, st) {
                        let extra = seq![r.instrs.last()];
                        assert(r.instrs =~= st.instrs + extra);
                        lemma_pushed(st, r, extra);
                    }
                },
                _ => {},
            }
        },
        ScriptStmt::If { condition: cond, then_body, else_body } => {
            if let Ok((id, st1)) = condition(path, cond, st) {
                let branch_pc = st1.instrs.len();
                let st2 = with_instrs(
                    st1,
                    st1.instrs.push(InstrView::Branch { expression: id, then_pc: 0, else_pc: 0 }),
                );
                assert(lowering_ok(st2)) by {
                    assert forall|i: int| 0 <= i < st2.instrs.len() implies target_ok(#[trigger] st2.instrs[i], st2.instrs.len() + 1, st2.exprs.len()) by {
                        if i < st1.instrs.len() {
                            assert(st2.instrs[i] == st.instrs[i]);
                        }
                    }
                }
                lemma_lower_list(path, then_body@, st2);
                if let Ok(st3) = lower_list(path, then_body@, st2) {
                    let end_jump = st3.instrs.len();
                    let st4 = with_instrs(st3, st3.instrs.push(InstrView::Jump(0)));
                    assert(lowering_ok(st4)) by {
                        assert forall|i: int| 0 <= i < st4.instrs.len() implies target_ok(#[trigger] st4.instrs[i], st4.instrs.len() + 1, st4.exprs.len()) by {
                            if i < st3.instrs.len() {
                                assert(st4.instrs[i] == st3.instrs[i]);
                            }
                        }
                    }
                    lemma_lower_list(path, else_body@, st4);
                    if let Ok(st5) = lower_list(path, else_body@, st4) {
                        lemma_truncate(st4.instrs.len());
                        lemma_truncate(st5.instrs.len());
                        lemma_truncate((branch_pc + 1) as nat);
                        let r = lower_stmt(path, s, st)->Ok_0;
                        assert forall|i: int| 0 <= i < r.instrs.len() implies target_ok(#[trigger] r.instrs[i], r.instrs.len() + 1, r.exprs.len()) by {
                            if i != branch_pc && i != end_jump {
                                assert(r.instrs[i] == st5.instrs[i]);
                            }
                        }
                    }
                }
            }
        },
        ScriptStmt::While { condition: cond, body } => {
            match cond {
                None => {
                    let body_pc = st.instrs.len() as u32;
                    lemma_lower_list(path, body@, open_loop(st, body_pc));
                    if let Ok(st1) = lower_list(path, body@, open_loop(st, body_pc)) {
                        lemma_close_loop(st1, body_pc);
                    }
                },
                Some(c) => {
                    let condition_pc = st.instrs.len() as u32;
                    if let Ok((id, st1)) = condition(path, c, st) {
                        let branch_pc = st1.instrs.len();
                        let st2 = with_instrs(
                            st1,
                            st1.instrs.push(InstrView::Branch { expression: id, then_pc: 0, else_pc: 0 }),
                        );
                        let body_pc = st2.instrs.len() as u32;
                        lemma_truncate(st2.instrs.len());
                        assert(lowering_ok(open_loop(st2, condition_pc))) by {
                            assert forall|i: int| 0 <= i < st2.instrs.len() implies target_ok(#[trigger] st2.instrs[i], st2.instrs.len() + 1, st2.exprs.len()) by {
                                if i < st1.instrs.len() {
                                    assert(st2.instrs[i] == st.instrs[i]);
                                }
                            }
                            let o = open_loop(st2, condition_pc);
                            assert forall|l: int| 0 <= l < o.loops.len() implies (#[trigger] o.loops[l]).continue_pc <= o.instrs.len() by {
                                if l < st.loops.len() {
                                    assert(o.loops[l] == st.loops[l]);
                                }
                            }
                        }
                        lemma_lower_list(path, body@, open_loop(st2, condition_pc));
                        if let Ok(st3) = lower_list(path, body@, open_loop(st2, condition_pc)) {
                            lemma_close_loop(st3, condition_pc);
                            let st4 = close_loop(st3, condition_pc);
                            lemma_truncate((st3.instrs.len() + 1) as nat);
                            let r = lower_stmt(path, s, st)->Ok_0;
                            assert forall|i: int| 0 <= i < r.instrs.len() implies target_ok(#[trigger] r.instrs[i], r.instrs.len() + 1, r.exprs.len()) by {
                                if i != branch_pc {
                                    assert(r.instrs[i] == st4.instrs[i]);
                                }
                            }
                        }
                    }
                },
            }
        },
        ScriptStmt::Break { with_value, is_break, position } => {
            if !with_value && st.loops.len() > 0 {
                let r = lower_stmt(path, s, st)->Ok_0;
                let last = st.loops.last();
                assert(last == st.loops[st.loops.len() - 1]);
                assert forall|i: int| 0 <= i < r.instrs.len() implies target_ok(#[trigger] r.instrs[i], r.instrs.len() + 1, r.exprs.len()) by {
                    if i < st.instrs.len() {
                        assert(r.instrs[i] == st.instrs[i]);
                    }
                }
                assert forall|l: int| 0 <= l < r.loops.len() implies (#[trigger] r.loops[l]).continue_pc <= r.instrs.len() by {
                    if l < st.loops.len() - 1 {
                        assert(r.loops[l] == st.loops[l]);
                    }
                }
            }
        },
        _ => {},
    }
}

/// Every jump and branch of `instrs` lands on one of them, and every branch
/// reads one of `exprs`.
pub open spec fn program_ok(exprs: Seq<ExprView>, instrs: Seq<InstrView>) -> bool {
    forall|pc: int| 0 <= pc < instrs.len() ==> target_ok(#[trigger] instrs[pc], instrs.len(), exprs.len())
}

/// Lowering builds only valid programs: every jump and branch lands on an
/// instruction of the program, and every branch reads one of its
/// expressions.
pub proof fn law_lowered_programs_are_valid(path: Seq<char>, stmts: Seq<ScriptStmt>)
    ensures
        lowered(path, stmts) matches Ok((exprs, instrs)) ==> program_ok(exprs, instrs),
{
    let st = empty_lowering();
    lemma_lower_list(path, stmts, st);
    if let Ok(r) = lower_list(path, stmts, st) {
        let instrs = r.instrs.push(InstrView::Halt);
        assert forall|pc: int| 0 <= pc < instrs.len() implies target_ok(#[trigger] instrs[pc], instrs.len(), r.exprs.len()) by {
            if pc < r.instrs.len() {
                assert(instrs[pc] == r.instrs[pc]);
            }
        }
    }
}

// ---------------------------------------------------------------------------
// Where `at` places a character
// ---------------------------------------------------------------------------
/// The `f32` bits of the stage position a side names: left at x = -600,
/// centre at x = 0, right at x = +600, all at y = 0.
pub open spec fn side_position(side: Seq<char>) -> [u32; 2] {
    if side == "left"@ {
        [0xc416_0000u32, 0u32]
    } else if side == "right"@ {
        [0x4416_0000u32, 0u32]
    } else {
        [0u32, 0u32]
    }
}

pub open spec fn is_side(side: Seq<char>) -> bool {
    side == "left"@ || side == "center"@ || side == "right"@
}

/// `at(side)` moves the character to the side it names, and changes nothing
/// else of the chain; `left` and `right` are opposite places.
pub proof fn law_at_places_the_character_on_its_side(path: Seq<char>, c: ScriptCall, f: FlowView, side: Seq<char>)
    requires
        c.name@ == "at"@,
        c.args@.len() == 1,
        c.args@[0] matches ScriptExpr::Text(w, _) && w@ == side,
        is_side(side),
    ensures
        character_step(path, c, f) == Some(
            Ok::<FlowView, ErrorView>(FlowView { position_bits: side_position(side), ..f }),
        ),
        side_position("left"@)[0] != side_position("right"@)[0],
        side_position("right"@)[0] == 0x4416_0000u32,
{
    reveal_strlit("at");
    reveal_strlit("char");
    reveal_strlit("scale");
    reveal_strlit("left");
    reveal_strlit("center");
    reveal_strlit("right");
    assert(one_string(path, c) == Ok::<Seq<char>, ErrorView>(side));
    assert("at"@ != "char"@) by {
        assert("at"@[0] != "char"@[0]);
    }
    assert("left"@ != "right"@) by {
        assert("left"@[0] != "right"@[0]);
    }
    assert("left"@ != "center"@) by {
        assert("left"@[0] != "center"@[0]);
    }
    assert("center"@ != "right"@) by {
        assert("center"@[0] != "right"@[0]);
    }
}

/// The statement `char(name).at(side)` shows the character `name` on that
/// side, unscaled and without expressions, and nothing else.
pub proof fn law_character_statement_shows_it_on_its_side(
    path: Seq<char>,
    head: ScriptCall,
    at: ScriptCall,
    name: Seq<char>,
    side: Seq<char>,
    pos: ScriptPosition,
)
    requires
        head.name@ == "char"@,
        head.args@.len() == 1,
        head.args@[0] matches ScriptExpr::Text(n, _) && n@ == name,
        at.name@ == "at"@,
        at.args@.len() == 1,
        at.args@[0] matches ScriptExpr::Text(w, _) && w@ == side,
        is_side(side),
    ensures
        lowered(
            path,
            seq![
                ScriptStmt::Expr(
                    ScriptExpr::Dot(
                        Box::new(ScriptExpr::Call(head)),
                        Box::new(ScriptExpr::MethodCall(at)),
                        pos,
                    ),
                ),
            ],
        ) == Ok::<(Seq<ExprView>, Seq<InstrView>), ErrorView>(
            (
                Seq::empty(),
                seq![
                    InstrView::Emit(
                        CommandView::ShowCharacter {
                            actor_id: name,
                            character_name: name,
                            expressions: Seq::empty(),
                            position_bits: side_position(side),
                            scale_bits: 0x3f80_0000u32,
                        },
                    ),
                    InstrView::Halt,
                ],
            ),
        ),
{
    reveal_strlit("at");
    reveal_strlit("char");
    reveal_strlit("scale");
    reveal_strlit("e");
    reveal_strlit("left");
    reveal_strlit("center");
    reveal_strlit("right");
    let e = ScriptExpr::Dot(Box::new(ScriptExpr::Call(head)), Box::new(ScriptExpr::MethodCall(at)), pos);
    let stmts = seq![ScriptStmt::Expr(e)];
    let f0 = fresh_flow();
    let f1 = FlowView { actor_id: name, character_name: name, ..f0 };
    assert(character_step(path, head, f0) == Some(Ok::<FlowView, ErrorView>(f1)));
    assert(chain(path, ScriptExpr::Call(head), f0) == Ok::<FlowView, ErrorView>(f1));
    law_at_places_the_character_on_its_side(path, at, f1, side);
    assert(chain_suffix(path, ScriptExpr::MethodCall(at), f1) == Ok::<FlowView, ErrorView>(
        FlowView { position_bits: side_position(side), ..f1 },
    ));
    let f2 = FlowView { position_bits: side_position(side), ..f1 };
    assert(chain(path, e, f0) == Ok::<FlowView, ErrorView>(f2));
    let st = empty_lowering();
    let shown = InstrView::Emit(
        CommandView::ShowCharacter {
            actor_id: name,
            character_name: name,
            expressions: Seq::empty(),
            position_bits: side_position(side),
            scale_bits: 0x3f80_0000u32,
        },
    );
    let st1 = with_instrs(st, seq![shown]);
    assert(st.instrs.push(shown) =~= seq![shown]);
    assert(emit_character(path, e, st) == Ok::<LowerView, ErrorView>(st1));
    assert(lower_stmt(path, stmts[0], st) == Ok::<LowerView, ErrorView>(st1));
    assert(stmts.drop_first() =~= Seq::<ScriptStmt>::empty());
    assert(lower_list(path, stmts.drop_first(), st1) == Ok::<LowerView, ErrorView>(st1));
    assert(lower_list(path, stmts, st) == Ok::<LowerView, ErrorView>(st1));
    assert(st1.instrs.push(InstrView::Halt) =~= seq![shown, InstrView::Halt]);
}

struct LoopContext {
    continue_pc: IrPc,
    breaks: Vec<usize>,
}

pub open spec fn loops_view_of(v: Seq<(IrPc, Seq<usize>)>) -> Seq<LoopView> {
    v.map_values(|l: (IrPc, Seq<usize>)| LoopView { continue_pc: l.0, breaks: l.1 })
}

struct Lowerer {
    expressions: Vec<IrExpression>,
    instructions: Vec<IrInstruction>,
    loops: Vec<LoopContext>,
}

impl View for Lowerer {
    type V = LowerView;

    closed spec fn view(&self) -> LowerView {
        LowerView {
            exprs: exprs_view(self.expressions@),
            instrs: instrs_view(self.instructions@),
            loops: self.loops@.map_values(|l: LoopContext| LoopView { continue_pc: l.continue_pc, breaks: l.breaks@ }),
        }
    }
}

impl Lowerer {
    fn push_instr(&mut self, i: IrInstruction)
        ensures
            final(self)@ == with_instrs(old(self)@, old(self)@.instrs.push(instr_view(i))),
            final(self).instructions@.len() == old(self).instructions@.len() + 1,
    {
        let ghost before = self.instructions@;
        self.instructions.push(i);
        assert(instrs_view(self.instructions@) =~= instrs_view(before).push(instr_view(i)));
    }

    fn set_instr(&mut self, pc: usize, i: IrInstruction)
        requires
            pc < old(self).instructions@.len(),
        ensures
            final(self)@ == with_instrs(old(self)@, old(self)@.instrs.update(pc as int, instr_view(i))),
            final(self).instructions@.len() == old(self).instructions@.len(),
    {
        let ghost before = self.instructions@;
        self.instructions.set(pc, i);
        assert(instrs_view(self.instructions@) =~= instrs_view(before).update(pc as int, instr_view(i)));
    }

    fn lower_condition(&mut self, path: &str, e: &ScriptExpr) -> (r: Result<IrExpressionId, IrCompileError>)
        ensures
            final(self).instructions@.len() == old(self).instructions@.len(),
            match condition(path@, *e, old(self)@) {
                Ok((id, st)) => r == Ok::<IrExpressionId, IrCompileError>(id) && final(self)@ == st,
                Err(x) => r matches Err(y) && error_view(y) == x,
            },
    {
        let id = IrExpressionId(self.expressions.len() as u32);
        let x = match e {
            ScriptExpr::Bool(b, _) => IrExpression::BoolLiteral(*b),
            ScriptExpr::Variable(v, _) => IrExpression::BoolVariable(v.clone()),
            _ => {
                return Err(make_unsupported_expression(path, e));
            },
        };
        let ghost before = self.expressions@;
        self.expressions.push(x);
        assert(exprs_view(self.expressions@) =~= exprs_view(before).push(expr_view(x)));
        Ok(id)
    }

    fn emit(&mut self, path: &str, c: &ScriptCall) -> (r: Result<(), IrCompileError>)
        ensures
            r is Ok ==> final(self).instructions@.len() >= old(self).instructions@.len(),
            match emit_call(path@, *c, old(self)@) {
                Ok(st) => r is Ok && final(self)@ == st,
                Err(x) => r matches Err(y) && error_view(y) == x,
            },
    {
        match lower_command(path, c) {
            Ok((cmd, wait)) => {
                self.push_instr(IrInstruction::Emit(cmd));
                match wait {
                    Some(k) => self.push_instr(IrInstruction::Wait(k)),
                    None => {},
                }
                Ok(())
            },
            Err(e) => Err(e),
        }
    }

    fn emit_character(&mut self, path: &str, e: &ScriptExpr) -> (r: Result<(), IrCompileError>)
        ensures
            r is Ok ==> final(self).instructions@.len() >= old(self).instructions@.len(),
            match emit_character(path@, *e, old(self)@) {
                Ok(st) => r is Ok && final(self)@ == st,
                Err(x) => r matches Err(y) && error_view(y) == x,
            },
    {
        let mut f = Flow {
            actor_id: String::new(),
            character_name: String::new(),
            expressions: Vec::new(),
            position_bits: [0u32, 0u32],
            scale_bits: F32_ONE_BITS,
        };
        assert(f@.actor_id =~= Seq::<char>::empty());
        assert(f@.character_name =~= Seq::<char>::empty());
        assert(f@.expressions =~= Seq::<Seq<char>>::empty());
        assert(f@ == fresh_flow());
        match read_chain(path, e, &mut f) {
            Ok(()) => {},
            Err(x) => {
                return Err(x);
            },
        }
        let ghost fv = f@;
        let cmd = IrCommand::ShowCharacter {
            actor_id: f.actor_id,
            character_name: f.character_name,
            expressions: f.expressions,
            position_bits: f.position_bits,
            scale_bits: f.scale_bits,
        };
        self.push_instr(IrInstruction::Emit(cmd));
        Ok(())
    }

    fn close_loop(&mut self, back: IrPc)
        ensures
            final(self)@ == close_loop(old(self)@, back),
            final(self).instructions@.len() == old(self).instructions@.len() + 1,
    {
        self.push_instr(IrInstruction::Jump(back));
        let end = self.instructions.len() as u32;
        let ghost mid = self@;
        match self.loops.pop() {
            None => {},
            Some(ctx) => {
                let ghost loops_left = self.loops@;
                assert(mid.loops.last() == LoopView { continue_pc: ctx.continue_pc, breaks: ctx.breaks@ });
                assert(ctx.breaks@.subrange(0, ctx.breaks@.len() as int) =~= ctx.breaks@);
                assert(self@.loops =~= mid.loops.drop_last());
                let mut k: usize = 0;
                while k < ctx.breaks.len()
                    invariant
                        0 <= k <= ctx.breaks@.len(),
                        self.loops@ == loops_left,
                        self@.loops == mid.loops.drop_last(),
                        self@.exprs == mid.exprs,
                        self.instructions@.len() == old(self).instructions@.len() + 1,
                        patch(mid.instrs, ctx.breaks@, end) == patch(
                            instrs_view(self.instructions@),
                            ctx.breaks@.subrange(k as int, ctx.breaks@.len() as int),
                            end,
                        ),
                    decreases ctx.breaks@.len() - k,
                {
                    let pc = ctx.breaks[k];
                    let ghost rest = ctx.breaks@.subrange(k as int, ctx.breaks@.len() as int);
                    assert(rest.drop_first() =~= ctx.breaks@.subrange(k + 1, ctx.breaks@.len() as int));
                    if pc < self.instructions.len() {
                        let ghost before = self.instructions@;
                        self.instructions.set(pc, IrInstruction::Jump(end));
                        assert(instrs_view(self.instructions@) =~= instrs_view(before).update(
                            pc as int,
                            InstrView::Jump(end),
                        ));
                    }
                    k = k + 1;
                }
                assert(ctx.breaks@.subrange(k as int, ctx.breaks@.len() as int) =~= Seq::<usize>::empty());
                assert(self@.loops =~= mid.loops.drop_last());
            },
        }
    }

    fn lower_stmt(&mut self, path: &str, s: &ScriptStmt) -> (r: Result<(), IrCompileError>)
        ensures
            r is Ok ==> final(self).instructions@.len() >= old(self).instructions@.len(),
            match lower_stmt(path@, *s, old(self)@) {
                Ok(st) => r is Ok && final(self)@ == st,
                Err(x) => r matches Err(y) && error_view(y) == x,
            },
        decreases s,
    {
        proof {
            reveal_strlit("variable declaration");
            reveal_strlit("break/continue with expression");
            reveal_strlit("break/continue outside loop");
        }
        match s {
            ScriptStmt::Noop => Ok(()),
            ScriptStmt::Block(b) => self.lower_list(path, b),
            ScriptStmt::Call(c) => self.emit(path, c),
            ScriptStmt::Let(p) => Err(
                IrCompileError::UnsupportedStatement {
                    path: path.to_owned(),
                    kind: "variable declaration".to_owned(),
                    line: p.line,
                    column: p.column,
                },
            ),
            ScriptStmt::Expr(e) => match e {
                ScriptExpr::Call(c) => self.emit(path, c),
                ScriptExpr::Dot(..) => self.emit_character(path, e),
                _ => Err(make_unsupported_expression(path, e)),
            },
            ScriptStmt::If { condition: cond, then_body, else_body } => {
                let id = match self.lower_condition(path, cond) {
                    Ok(id) => id,
                    Err(x) => {
                        return Err(x);
                    },
                };
                let branch_pc = self.instructions.len();
                self.push_instr(IrInstruction::Branch { expression: id, then_pc: 0, else_pc: 0 });
                match self.lower_list(path, then_body) {
                    Ok(()) => {},
                    Err(x) => {
                        return Err(x);
                    },
                }
                let end_jump = self.instructions.len();
                self.push_instr(IrInstruction::Jump(0));
                let else_pc = self.instructions.len() as u32;
                match self.lower_list(path, else_body) {
                    Ok(()) => {},
                    Err(x) => {
                        return Err(x);
                    },
                }
                let end = self.instructions.len() as u32;
                self.set_instr(
                    branch_pc,
                    IrInstruction::Branch { expression: id, then_pc: (branch_pc + 1) as u32, else_pc },
                );
                self.set_instr(end_jump, IrInstruction::Jump(end));
                Ok(())
            },
            ScriptStmt::While { condition: cond, body } => match cond {
                None => {
                    let body_pc = self.instructions.len() as u32;
                    let ghost before = self.loops@;
                    self.loops.push(LoopContext { continue_pc: body_pc, breaks: Vec::new() });
                    proof {
                        assert(self@.loops =~= open_loop(old(self)@, body_pc).loops);
                    }
                    match self.lower_list(path, body) {
                        Ok(()) => {},
                        Err(x) => {
                            return Err(x);
                        },
                    }
                    self.close_loop(body_pc);
                    Ok(())
                },
                Some(c) => {
                    let condition_pc = self.instructions.len() as u32;
                    let id = match self.lower_condition(path, c) {
                        Ok(id) => id,
                        Err(x) => {
                            return Err(x);
                        },
                    };
                    let branch_pc = self.instructions.len();
                    self.push_instr(IrInstruction::Branch { expression: id, then_pc: 0, else_pc: 0 });
                    let body_pc = self.instructions.len() as u32;
                    let ghost st2 = self@;
                    self.loops.push(LoopContext { continue_pc: condition_pc, breaks: Vec::new() });
                    proof {
                        assert(self@.loops =~= open_loop(st2, condition_pc).loops);
                    }
                    match self.lower_list(path, body) {
                        Ok(()) => {},
                        Err(x) => {
                            return Err(x);
                        },
                    }
                    self.close_loop(condition_pc);
                    let end = self.instructions.len() as u32;
                    self.set_instr(
                        branch_pc,
                        IrInstruction::Branch { expression: id, then_pc: body_pc, else_pc: end },
                    );
                    Ok(())
                },
            },
            ScriptStmt::Break { with_value, is_break, position } => {
                if *with_value {
                    return Err(
                        IrCompileError::UnsupportedStatement {
                            path: path.to_owned(),
                            kind: "break/continue with expression".to_owned(),
                            line: position.line,
                            column: position.column,
                        },
                    );
                }
                let mut ctx = match self.loops.pop() {
                    Some(ctx) => ctx,
                    None => {
                        return Err(
                            IrCompileError::UnsupportedStatement {
                                path: path.to_owned(),
                                kind: "break/continue outside loop".to_owned(),
                                line: position.line,
                                column: position.column,
                            },
                        );
                    },
                };
                let ghost old_loops = old(self).loops@;
                if *is_break {
                    ctx.breaks.push(self.instructions.len());
                    self.loops.push(ctx);
                    proof {
                        assert(self@.loops =~= old(self)@.loops.update(
                            old(self)@.loops.len() - 1,
                            LoopView {
                                breaks: old(self)@.loops.last().breaks.push(old(self).instructions@.len() as usize),
                                ..old(self)@.loops.last()
                            },
                        ));
                    }
                    self.push_instr(IrInstruction::Jump(0));
                } else {
                    let target = ctx.continue_pc;
                    self.loops.push(ctx);
                    proof {
                        assert(self@.loops =~= old(self)@.loops);
                    }
                    self.push_instr(IrInstruction::Jump(target));
                }
                Ok(())
            },
            ScriptStmt::Other { kind, position } => Err(
                IrCompileError::UnsupportedStatement {
                    path: path.to_owned(),
                    kind: kind.clone(),
                    line: position.line,
                    column: position.column,
                },
            ),
        }
    }

    fn lower_list(&mut self, path: &str, list: &Vec<ScriptStmt>) -> (r: Result<(), IrCompileError>)
        ensures
            r is Ok ==> final(self).instructions@.len() >= old(self).instructions@.len(),
            match lower_list(path@, list@, old(self)@) {
                Ok(st) => r is Ok && final(self)@ == st,
                Err(x) => r matches Err(y) && error_view(y) == x,
            },
        decreases list,
    {
        let mut i: usize = 0;
        assert(list@.subrange(0, list@.len() as int) =~= list@);
        while i < list.len()
            invariant
                0 <= i <= list@.len(),
                self.instructions@.len() >= old(self).instructions@.len(),
                lower_list(path@, list@, old(self)@) == lower_list(
                    path@,
                    list@.subrange(i as int, list@.len() as int),
                    self@,
                ),
            decreases list@.len() - i,
        {
            let ghost rest = list@.subrange(i as int, list@.len() as int);
            assert(rest.drop_first() =~= list@.subrange(i + 1, list@.len() as int));
            assert(rest[0] == list@[i as int]);
            match self.lower_stmt(path, &list[i]) {
                Ok(()) => {},
                Err(x) => {
                    return Err(x);
                },
            }
            i = i + 1;
        }
        assert(list@.subrange(i as int, list@.len() as int) =~= Seq::<ScriptStmt>::empty());
        Ok(())
    }
}

/// Lowers a parsed script into an IR program: its instructions, then
/// `Halt`, with the script's `source_hash`.
pub fn lower_statements(path: &str, source_hash: u64, stmts: &Vec<ScriptStmt>) -> (r: Result<IrProgram, IrCompileError>)
    ensures
        match lowered(path@, stmts@) {
            Ok((exprs, instrs)) => r matches Ok(p) && p.version == IR_CURRENT_VERSION && p.source_hash
                == source_hash && exprs_view(p.expressions@) == exprs && instrs_view(p.instructions@)
                == instrs,
            Err(x) => r matches Err(y) && error_view(y) == x,
        },
        r matches Ok(p) ==> program_valid(p),
{
    let mut lowerer = Lowerer { expressions: Vec::new(), instructions: Vec::new(), loops: Vec::new() };
    assert(lowerer@.exprs =~= Seq::<ExprView>::empty());
    assert(lowerer@.instrs =~= Seq::<InstrView>::empty());
    assert(lowerer@.loops =~= Seq::<LoopView>::empty());
    assert(lowerer@ == empty_lowering());
    match lowerer.lower_list(path, stmts) {
        Ok(()) => {},
        Err(x) => {
            return Err(x);
        },
    }
    lowerer.push_instr(IrInstruction::Halt);
    let program = IrProgram::with_expressions(source_hash, lowerer.expressions, lowerer.instructions);
    proof {
        law_lowered_programs_are_valid(path@, stmts@);
        assert forall|pc: int| 0 <= pc < program.instructions@.len() implies instruction_ok(
            #[trigger] program.instructions@[pc],
            program.instructions@.len(),
            program.expressions@.len(),
        ) by {
            let views = instrs_view(program.instructions@);
            assert(lowered(path@, stmts@) == Ok::<(Seq<ExprView>, Seq<InstrView>), ErrorView>(
                (exprs_view(program.expressions@), views),
            ));
            assert(views.len() == program.instructions@.len());
            assert(exprs_view(program.expressions@).len() == program.expressions@.len());
            assert(views[pc] == instr_view(program.instructions@[pc]));
            let e = exprs_view(program.expressions@);
            assert(program_ok(e, views));
            assert(target_ok(views[pc], views.len(), e.len()));
        }
    }
    Ok(program)
}

/// What compiling `source` at `path` gives, once the script engine has
/// parsed it into `parsed`: its statements, or the engine's message.
pub open spec fn compiled(path: Seq<char>, source: Seq<u8>, parsed: Result<Seq<ScriptStmt>, Seq<char>>) -> Result<(u64, Seq<ExprView>, Seq<InstrView>), ErrorView> {
    match parsed {
        Err(message) => Err(ErrorView::Parse { path, message }),
        Ok(stmts) => match lowered(path, stmts) {
            Ok((exprs, instrs)) => Ok((fnv1a(source), exprs, instrs)),
            Err(x) => Err(x),
        },
    }
}

/// Compiles `source`, which the script engine has parsed into `parsed`: a
/// parse failure is reported as `Parse` at `path` with the engine's message;
/// parsed statements are lowered into a program that carries the hash of
/// `source`.
pub fn compile_parsed(path: &str, source: &str, parsed: Result<Vec<ScriptStmt>, String>) -> (r: Result<IrProgram, IrCompileError>)
    ensures
        match compiled(
            path@,
            source.spec_bytes(),
            match parsed {
                Ok(stmts) => Ok(stmts@),
                Err(message) => Err(message@),
            },
        ) {
            Ok((hash, exprs, instrs)) => r matches Ok(p) && p.version == IR_CURRENT_VERSION && p.source_hash
                == hash && exprs_view(p.expressions@) == exprs && instrs_view(p.instructions@) == instrs,
            Err(x) => r matches Err(y) && error_view(y) == x,
        },
        r matches Ok(p) ==> program_valid(p),
{
    match parsed {
        Err(message) => Err(IrCompileError::Parse { path: path.to_string(), message }),
        Ok(stmts) => {
            let hash = source_hash(source);
            lower_statements(path, hash, &stmts)
        },
    }
}

} // verus!
