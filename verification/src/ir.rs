//! The deterministic IR virtual machine: a flat instruction list with
//! commands, waits, jumps and boolean branches, validated before it runs and
//! restorable from a snapshot at any stable program counter.
use vstd::prelude::*;

use crate::tables::{ExpressionTable, VariableTable};

verus! {

pub type IrPc = u32;

/// The only IR format version this VM accepts.
pub const IR_CURRENT_VERSION: u16 = 1;

#[derive(Clone, Debug, PartialEq)]
pub struct IrProgram {
    pub version: u16,
    pub source_hash: u64,
    pub expressions: Vec<IrExpression>,
    pub instructions: Vec<IrInstruction>,
}

#[derive(Clone, Debug, PartialEq)]
pub enum IrInstruction {
    Emit(IrCommand),
    Wait(IrWaitKind),
    Jump(IrPc),
    Branch { expression: IrExpressionId, then_pc: IrPc, else_pc: IrPc },
    Halt,
}

#[derive(Clone, Debug, PartialEq, Eq)]
pub enum IrExpression {
    BoolLiteral(bool),
    BoolVariable(String),
}

/// A scene command. Floating-point fields travel as their IEEE-754 bit
/// patterns (`f32::to_bits`); the VM never interprets them.
#[derive(Clone, Debug, PartialEq)]
pub enum IrCommand {
    Log(String),
    ClearDialogue,
    Say { speaker: String, text: String },
    StopBgm,
    ReturnToTitle,
    SetBackground { texture: String },
    ShowCharacter {
        actor_id: String,
        character_name: String,
        expressions: Vec<String>,
        position_bits: [u32; 2],
        scale_bits: u32,
    },
}

#[derive(Clone, Copy, Debug, PartialEq, Eq)]
pub enum IrWaitKind {
    DialogueAdvance,
    ScreenChoice,
    DurationMs(u64),
}

#[derive(Clone, Copy, Debug, PartialEq, Eq, PartialOrd, Ord)]
pub struct IrExpressionId(pub u32);

#[derive(Clone, Copy, Debug, PartialEq, Eq)]
pub enum IrVmStatus {
    Ready,
    Waiting(IrWaitKind),
    Halted,
}

#[derive(Debug, PartialEq, Eq)]
pub struct IrVmSnapshot {
    pub source_hash: u64,
    pub pc: IrPc,
    pub status: IrVmStatus,
    pub expressions: ExpressionTable,
    pub variables: VariableTable,
}

#[derive(Debug, PartialEq)]
pub enum IrEvent {
    Command(IrCommand),
    Waiting(IrWaitKind),
    Completed,
}

#[derive(Clone, Copy, Debug, PartialEq, Eq)]
pub enum IrValidationError {
    UnsupportedVersion(u16),
    InvalidTarget { pc: IrPc, target: IrPc, length: IrPc },
    InvalidSnapshotPc(IrPc),
    InvalidExpression { pc: IrPc, expression: IrExpressionId, length: u32 },
    SourceHashMismatch { expected: u64, actual: u64 },
}


// ---------------------------------------------------------------------------
// Copies with known results
// ---------------------------------------------------------------------------
pub fn copy_strings(v: &Vec<String>) -> (r: Vec<String>)
    ensures
        r@ == v@,
{
    let mut r: Vec<String> = Vec::new();
    let mut i: usize = 0;
    while i < v.len()
        invariant
            0 <= i <= v@.len(),
            r@ == v@.subrange(0, i as int),
        decreases v@.len() - i,
    {
        r.push(v[i].clone());
        i = i + 1;
    }
    assert(r@ =~= v@);
    r
}

/// Two commands carry the same contents (the expression list compared as a
/// sequence).
pub open spec fn commands_match(a: IrCommand, b: IrCommand) -> bool {
    match (a, b) {
        (
            IrCommand::ShowCharacter {
                actor_id: a1,
                character_name: a2,
                expressions: a3,
                position_bits: a4,
                scale_bits: a5,
            },
            IrCommand::ShowCharacter {
                actor_id: b1,
                character_name: b2,
                expressions: b3,
                position_bits: b4,
                scale_bits: b5,
            },
        ) => a1 == b1 && a2 == b2 && a3@ == b3@ && a4 == b4 && a5 == b5,
        _ => a == b,
    }
}

impl IrCommand {
    pub fn duplicate(&self) -> (r: Self)
        ensures
            commands_match(r, *self),
    {
        match self {
            IrCommand::Log(m) => IrCommand::Log(m.clone()),
            IrCommand::ClearDialogue => IrCommand::ClearDialogue,
            IrCommand::Say { speaker, text } => IrCommand::Say {
                speaker: speaker.clone(),
                text: text.clone(),
            },
            IrCommand::StopBgm => IrCommand::StopBgm,
            IrCommand::ReturnToTitle => IrCommand::ReturnToTitle,
            IrCommand::SetBackground { texture } => IrCommand::SetBackground {
                texture: texture.clone(),
            },
            IrCommand::ShowCharacter {
                actor_id,
                character_name,
                expressions,
                position_bits,
                scale_bits,
            } => {
                let e = copy_strings(expressions);
                IrCommand::ShowCharacter {
                    actor_id: actor_id.clone(),
                    character_name: character_name.clone(),
                    expressions: e,
                    position_bits: *position_bits,
                    scale_bits: *scale_bits,
                }
            },
        }
    }
}

// ---------------------------------------------------------------------------
// Validation
// ---------------------------------------------------------------------------
/// The error, if any, that the instruction at `pc` carries in a program of
/// `length` instructions and `expressions` expressions; targets and the
/// expression index are checked in the order expression, then, else.
pub open spec fn instruction_error(
    pc: nat,
    instruction: IrInstruction,
    length: nat,
    expressions: nat,
) -> Option<IrValidationError> {
    match instruction {
        IrInstruction::Jump(target) => if target >= length {
            Some(IrValidationError::InvalidTarget { pc: pc as u32, target, length: length as u32 })
        } else {
            None
        },
        IrInstruction::Branch { expression, then_pc, else_pc } => if expression.0 >= expressions {
            Some(
                IrValidationError::InvalidExpression {
                    pc: pc as u32,
                    expression,
                    length: expressions as u32,
                },
            )
        } else if then_pc >= length {
            Some(
                IrValidationError::InvalidTarget {
                    pc: pc as u32,
                    target: then_pc,
                    length: length as u32,
                },
            )
        } else if else_pc >= length {
            Some(
                IrValidationError::InvalidTarget {
                    pc: pc as u32,
                    target: else_pc,
                    length: length as u32,
                },
            )
        } else {
            None
        },
        _ => None,
    }
}

/// The first instruction error at or after `from`, scanning forward.
pub open spec fn first_instruction_error(p: IrProgram, from: nat) -> Option<IrValidationError>
    decreases p.instructions@.len() - from,
{
    if from >= p.instructions@.len() {
        None
    } else {
        match instruction_error(
            from,
            p.instructions@[from as int],
            p.instructions@.len(),
            p.expressions@.len(),
        ) {
            Some(e) => Some(e),
            None => first_instruction_error(p, from + 1),
        }
    }
}

/// What `validate` reports: the version first, then the first bad instruction.
pub open spec fn validation_error(p: IrProgram) -> Option<IrValidationError> {
    if p.version != IR_CURRENT_VERSION {
        Some(IrValidationError::UnsupportedVersion(p.version))
    } else {
        first_instruction_error(p, 0)
    }
}

/// Every jump and branch target lies inside the program and every branch
/// expression exists.
pub open spec fn instruction_ok(i: IrInstruction, length: nat, expressions: nat) -> bool {
    match i {
        IrInstruction::Jump(target) => target < length,
        IrInstruction::Branch { expression, then_pc, else_pc } => expression.0 < expressions
            && then_pc < length && else_pc < length,
        _ => true,
    }
}

pub open spec fn program_valid(p: IrProgram) -> bool {
    &&& p.version == IR_CURRENT_VERSION
    &&& forall|pc: int|
        0 <= pc < p.instructions@.len() ==> instruction_ok(
            #[trigger] p.instructions@[pc],
            p.instructions@.len(),
            p.expressions@.len(),
        )
}

/// Program counters and expression indices fit the `u32` address space.
pub open spec fn program_addressable(p: IrProgram) -> bool {
    &&& p.instructions@.len() <= u32::MAX
    &&& p.expressions@.len() <= u32::MAX
}

pub proof fn lemma_instruction_error(pc: nat, i: IrInstruction, length: nat, expressions: nat)
    ensures
        instruction_error(pc, i, length, expressions) is None <==> instruction_ok(
            i,
            length,
            expressions,
        ),
{
}

proof fn lemma_first_error_none(p: IrProgram, from: nat)
    ensures
        first_instruction_error(p, from) is None <==> forall|pc: int|
            from <= pc < p.instructions@.len() ==> instruction_ok(
                #[trigger] p.instructions@[pc],
                p.instructions@.len(),
                p.expressions@.len(),
            ),
    decreases p.instructions@.len() - from,
{
    if from < p.instructions@.len() {
        lemma_first_error_none(p, from + 1);
        lemma_instruction_error(
            from,
            p.instructions@[from as int],
            p.instructions@.len(),
            p.expressions@.len(),
        );
        if first_instruction_error(p, from) is None {
            assert forall|pc: int|
                from <= pc < p.instructions@.len() implies instruction_ok(
                #[trigger] p.instructions@[pc],
                p.instructions@.len(),
                p.expressions@.len(),
            ) by {
                if pc == from {
                } else {
                }
            }
        }
    }
}

/// A program validates exactly when its version is current and every control
/// instruction stays inside the program.
pub proof fn lemma_validation_error_none(p: IrProgram)
    ensures
        validation_error(p) is None <==> program_valid(p),
{
    lemma_first_error_none(p, 0);
}

pub fn validate_target(pc: IrPc, target: IrPc, length: IrPc) -> (r: Result<(), IrValidationError>)
    ensures
        r == (if target >= length {
            Err(IrValidationError::InvalidTarget { pc, target, length })
        } else {
            Ok(())
        }),
{
    if target >= length {
        return Err(IrValidationError::InvalidTarget { pc, target, length });
    }
    Ok(())
}

impl IrProgram {
    pub fn new(source_hash: u64, instructions: Vec<IrInstruction>) -> (p: Self)
        ensures
            p.version == IR_CURRENT_VERSION,
            p.source_hash == source_hash,
            p.expressions@.len() == 0,
            p.instructions == instructions,
    {
        IrProgram { version: IR_CURRENT_VERSION, source_hash, expressions: Vec::new(), instructions }
    }

    pub fn with_expressions(
        source_hash: u64,
        expressions: Vec<IrExpression>,
        instructions: Vec<IrInstruction>,
    ) -> (p: Self)
        ensures
            p.version == IR_CURRENT_VERSION,
            p.source_hash == source_hash,
            p.expressions == expressions,
            p.instructions == instructions,
    {
        IrProgram { version: IR_CURRENT_VERSION, source_hash, expressions, instructions }
    }

    /// Checks the version and every jump target and branch expression.
    pub fn validate(&self) -> (r: Result<(), IrValidationError>)
        requires
            program_addressable(*self),
        ensures
            r == (match validation_error(*self) {
                None => Ok(()),
                Some(e) => Err(e),
            }),
            r is Ok <==> program_valid(*self),
    {
        proof {
            lemma_validation_error_none(*self);
        }
        if self.version != IR_CURRENT_VERSION {
            return Err(IrValidationError::UnsupportedVersion(self.version));
        }
        let length = self.instructions.len() as IrPc;
        let expression_count = self.expressions.len();
        let mut pc: usize = 0;
        while pc < self.instructions.len()
            invariant
                program_addressable(*self),
                self.version == IR_CURRENT_VERSION,
                length == self.instructions@.len(),
                expression_count == self.expressions@.len(),
                0 <= pc <= self.instructions@.len(),
                first_instruction_error(*self, 0) == first_instruction_error(*self, pc as nat),
            decreases self.instructions@.len() - pc,
        {
            let ipc = pc as IrPc;
            match &self.instructions[pc] {
                IrInstruction::Jump(target) => {
                    validate_target(ipc, *target, length)?;
                },
                IrInstruction::Branch { expression, then_pc, else_pc } => {
                    if expression.0 as usize >= expression_count {
                        return Err(
                            IrValidationError::InvalidExpression {
                                pc: ipc,
                                expression: *expression,
                                length: expression_count as u32,
                            },
                        );
                    }
                    validate_target(ipc, *then_pc, length)?;
                    validate_target(ipc, *else_pc, length)?;
                },
                _ => {},
            }
            pc = pc + 1;
        }
        Ok(())
    }
}


// ---------------------------------------------------------------------------
// The virtual machine
// ---------------------------------------------------------------------------
/// The value a branch reads: a forced value if one was set, else the
/// program's literal, else the named boolean variable (false when unset).
pub open spec fn expression_value(
    p: IrProgram,
    forced: Map<u32, bool>,
    variables: Map<Seq<char>, bool>,
    id: u32,
) -> bool {
    if forced.contains_key(id) {
        forced[id]
    } else if id < p.expressions@.len() {
        match p.expressions@[id as int] {
            IrExpression::BoolLiteral(v) => v,
            IrExpression::BoolVariable(name) => if variables.contains_key(name@) {
                variables[name@]
            } else {
                false
            },
        }
    } else {
        false
    }
}

/// Where control goes from `pc` without emitting anything: the target of a
/// jump or of a branch; `None` for every other instruction or an
/// out-of-range counter.
pub open spec fn control_target(
    p: IrProgram,
    forced: Map<u32, bool>,
    variables: Map<Seq<char>, bool>,
    pc: nat,
) -> Option<nat> {
    if pc < p.instructions@.len() {
        match p.instructions@[pc as int] {
            IrInstruction::Jump(target) => Some(target as nat),
            IrInstruction::Branch { expression, then_pc, else_pc } => Some(
                if expression_value(p, forced, variables, expression.0) {
                    then_pc as nat
                } else {
                    else_pc as nat
                },
            ),
            _ => None,
        }
    } else {
        None
    }
}

/// Following jumps and branches from `pc` reaches a non-control instruction
/// (or leaves the program) within `n` transfers.
pub open spec fn settles_within(
    p: IrProgram,
    forced: Map<u32, bool>,
    variables: Map<Seq<char>, bool>,
    pc: nat,
    n: nat,
) -> bool
    decreases n,
{
    match control_target(p, forced, variables, pc) {
        None => true,
        Some(t) => n > 0 && settles_within(p, forced, variables, t, (n - 1) as nat),
    }
}

/// The counter reached after at most `n` control transfers from `pc`.
pub open spec fn settle(
    p: IrProgram,
    forced: Map<u32, bool>,
    variables: Map<Seq<char>, bool>,
    pc: nat,
    n: nat,
) -> nat
    decreases n,
{
    match control_target(p, forced, variables, pc) {
        None => pc,
        Some(t) => if n > 0 {
            settle(p, forced, variables, t, (n - 1) as nat)
        } else {
            pc
        },
    }
}

/// The abstract state of a VM.
pub struct IrVmState {
    pub program: IrProgram,
    pub pc: IrPc,
    pub status: IrVmStatus,
    pub expressions: Map<u32, bool>,
    pub variables: Map<Seq<char>, bool>,
}

/// A VM state whose program validated and whose counter is at most the
/// program length.
pub open spec fn state_ok(s: IrVmState) -> bool {
    &&& program_valid(s.program)
    &&& program_addressable(s.program)
    &&& s.pc <= s.program.instructions@.len()
}

/// A ready VM's jump chain ends: stepping it returns (a VM caught in a
/// cycle of jumps and branches never returns from a step).
pub open spec fn terminates(s: IrVmState) -> bool {
    s.status is Ready ==> exists|n: nat|
        settles_within(s.program, s.expressions, s.variables, s.pc as nat, n)
}

/// The counter at which a step stops following jumps.
pub open spec fn settled_pc(s: IrVmState) -> nat {
    settle(
        s.program,
        s.expressions,
        s.variables,
        s.pc as nat,
        choose|n: nat| settles_within(s.program, s.expressions, s.variables, s.pc as nat, n),
    )
}

/// A branch on a named boolean variable that no forced value overrides
/// follows the value last set for that variable: `then_pc` when it was set
/// to true, `else_pc` when it was set to false or never set. Setting the
/// variable (`set_bool_variable`) then decides the branch.
pub proof fn law_branch_follows_its_variable(
    p: IrProgram,
    forced: Map<u32, bool>,
    variables: Map<Seq<char>, bool>,
    pc: nat,
    name: Seq<char>,
    value: bool,
)
    requires
        pc < p.instructions@.len(),
        p.instructions@[pc as int] is Branch,
        !forced.contains_key(p.instructions@[pc as int]->Branch_expression.0),
        p.instructions@[pc as int]->Branch_expression.0 < p.expressions@.len(),
        p.expressions@[p.instructions@[pc as int]->Branch_expression.0 as int] is BoolVariable,
        p.expressions@[p.instructions@[pc as int]->Branch_expression.0 as int]->BoolVariable_0@ == name,
    ensures
        control_target(p, forced, variables, pc) == Some(
            if variables.contains_key(name) && variables[name] {
                p.instructions@[pc as int]->Branch_then_pc as nat
            } else {
                p.instructions@[pc as int]->Branch_else_pc as nat
            },
        ),
        control_target(p, forced, variables.insert(name, value), pc) == Some(
            if value {
                p.instructions@[pc as int]->Branch_then_pc as nat
            } else {
                p.instructions@[pc as int]->Branch_else_pc as nat
            },
        ),
{
}

/// A branch reads a forced value when one was set for its expression,
/// whatever the program says; otherwise a literal reads as written. A jump
/// goes to its target.
pub proof fn law_branch_follows_forced_values_and_literals(
    p: IrProgram,
    forced: Map<u32, bool>,
    variables: Map<Seq<char>, bool>,
    pc: nat,
)
    requires
        pc < p.instructions@.len(),
    ensures
        p.instructions@[pc as int] matches IrInstruction::Jump(t) ==> control_target(p, forced, variables, pc)
            == Some(t as nat),
        p.instructions@[pc as int] is Branch && forced.contains_key(p.instructions@[pc as int]->Branch_expression.0)
            ==> control_target(p, forced, variables, pc) == Some(
            if forced[p.instructions@[pc as int]->Branch_expression.0] {
                p.instructions@[pc as int]->Branch_then_pc as nat
            } else {
                p.instructions@[pc as int]->Branch_else_pc as nat
            },
        ),
        p.instructions@[pc as int] is Branch && !forced.contains_key(p.instructions@[pc as int]->Branch_expression.0)
            && p.instructions@[pc as int]->Branch_expression.0 < p.expressions@.len()
            && p.expressions@[p.instructions@[pc as int]->Branch_expression.0 as int] is BoolLiteral
            ==> control_target(p, forced, variables, pc) == Some(
            if p.expressions@[p.instructions@[pc as int]->Branch_expression.0 as int]->BoolLiteral_0 {
                p.instructions@[pc as int]->Branch_then_pc as nat
            } else {
                p.instructions@[pc as int]->Branch_else_pc as nat
            },
        ),
{
}

/// The state after one step and the event it yields.
pub open spec fn step_spec(s: IrVmState) -> (IrVmState, Option<IrEvent>) {
    if !(s.status is Ready) {
        (s, None)
    } else {
        let p = settled_pc(s);
        if p >= s.program.instructions@.len() {
            (IrVmState { pc: p as u32, ..s }, None)
        } else {
            match s.program.instructions@[p as int] {
                IrInstruction::Emit(c) => (
                    IrVmState { pc: (p + 1) as u32, ..s },
                    Some(IrEvent::Command(c)),
                ),
                IrInstruction::Wait(w) => (
                    IrVmState { pc: (p + 1) as u32, status: IrVmStatus::Waiting(w), ..s },
                    Some(IrEvent::Waiting(w)),
                ),
                IrInstruction::Halt => (
                    IrVmState { pc: p as u32, status: IrVmStatus::Halted, ..s },
                    Some(IrEvent::Completed),
                ),
                _ => (IrVmState { pc: p as u32, ..s }, None),
            }
        }
    }
}

/// Two optional events agree (commands compared by contents).
pub open spec fn events_match(a: Option<IrEvent>, b: Option<IrEvent>) -> bool {
    match (a, b) {
        (Some(IrEvent::Command(x)), Some(IrEvent::Command(y))) => commands_match(x, y),
        _ => a == b,
    }
}

/// What `IrVm::restore` gives for a program and the fields of a snapshot.
pub open spec fn restore_outcome(
    program: IrProgram,
    source_hash: u64,
    pc: IrPc,
    status: IrVmStatus,
    expressions: Map<u32, bool>,
    variables: Map<Seq<char>, bool>,
) -> Result<IrVmState, IrValidationError> {
    if program.source_hash != source_hash {
        Err(
            IrValidationError::SourceHashMismatch {
                expected: program.source_hash,
                actual: source_hash,
            },
        )
    } else if validation_error(program) is Some {
        Err(validation_error(program)->0)
    } else if pc >= program.instructions@.len() {
        Err(IrValidationError::InvalidSnapshotPc(pc))
    } else {
        Ok(IrVmState { program, pc, status, expressions, variables })
    }
}

proof fn lemma_settle_unfold(
    p: IrProgram,
    forced: Map<u32, bool>,
    variables: Map<Seq<char>, bool>,
    pc: nat,
    n: nat,
)
    requires
        settles_within(p, forced, variables, pc, n),
    ensures
        control_target(p, forced, variables, pc) is None ==> settle(p, forced, variables, pc, n)
            == pc,
        control_target(p, forced, variables, pc) is Some ==> n > 0 && settles_within(
            p,
            forced,
            variables,
            control_target(p, forced, variables, pc)->0,
            (n - 1) as nat,
        ) && settle(p, forced, variables, pc, n) == settle(
            p,
            forced,
            variables,
            control_target(p, forced, variables, pc)->0,
            (n - 1) as nat,
        ),
{
}

#[derive(Debug)]
pub struct IrVm {
    program: IrProgram,
    pc: IrPc,
    status: IrVmStatus,
    expressions: ExpressionTable,
    variables: VariableTable,
}

impl View for IrVm {
    type V = IrVmState;

    closed spec fn view(&self) -> IrVmState {
        IrVmState {
            program: self.program,
            pc: self.pc,
            status: self.status,
            expressions: self.expressions@,
            variables: self.variables@,
        }
    }
}

impl IrVm {
    pub closed spec fn wf(&self) -> bool {
        &&& state_ok(self@)
        &&& self.variables.wf()
    }

    /// Validates the program and starts at counter 0, ready.
    pub fn new(program: IrProgram) -> (r: Result<IrVm, IrValidationError>)
        requires
            program_addressable(program),
        ensures
            match validation_error(program) {
                Some(e) => r == Err::<IrVm, IrValidationError>(e),
                None => r matches Ok(vm) && vm.wf() && vm@ == (IrVmState {
                    program,
                    pc: 0,
                    status: IrVmStatus::Ready,
                    expressions: Map::empty(),
                    variables: Map::empty(),
                }),
            },
    {
        proof {
            lemma_validation_error_none(program);
        }
        program.validate()?;
        Ok(
            IrVm {
                program,
                pc: 0,
                status: IrVmStatus::Ready,
                expressions: ExpressionTable::new(),
                variables: VariableTable::new(),
            },
        )
    }

    /// Forces the value a branch on `expression` reads.
    pub fn set_expression(&mut self, expression: IrExpressionId, value: bool)
        requires
            old(self).wf(),
        ensures
            final(self).wf(),
            final(self)@ == (IrVmState {
                expressions: old(self)@.expressions.insert(expression.0, value),
                ..old(self)@
            }),
    {
        self.expressions.insert(expression.0, value);
    }

    pub fn set_bool_variable(&mut self, name: String, value: bool)
        requires
            old(self).wf(),
        ensures
            final(self).wf(),
            final(self)@ == (IrVmState {
                variables: old(self)@.variables.insert(name@, value),
                ..old(self)@
            }),
    {
        self.variables.insert(&name, value);
    }

    pub fn pc(&self) -> (r: IrPc)
        ensures
            r == self@.pc,
    {
        self.pc
    }

    pub fn status(&self) -> (r: &IrVmStatus)
        ensures
            *r == self@.status,
    {
        &self.status
    }

    /// A waiting VM becomes ready again; any other VM is left as it is.
    pub fn resume(&mut self) -> (r: bool)
        requires
            old(self).wf(),
        ensures
            final(self).wf(),
            r == old(self)@.status is Waiting,
            final(self)@ == (if r {
                (IrVmState { status: IrVmStatus::Ready, ..old(self)@ })
            } else {
                old(self)@
            }),
    {
        match self.status {
            IrVmStatus::Waiting(_) => {
                self.status = IrVmStatus::Ready;
                true
            },
            _ => false,
        }
    }

    fn expression_value(&self, expression: IrExpressionId) -> (r: bool)
        requires
            self.wf(),
        ensures
            r == expression_value(self.program, self.expressions@, self.variables@, expression.0),
    {
        if let Some(value) = self.expressions.get(expression.0) {
            return value;
        }
        if (expression.0 as usize) < self.program.expressions.len() {
            match &self.program.expressions[expression.0 as usize] {
                IrExpression::BoolLiteral(value) => *value,
                IrExpression::BoolVariable(name) => match self.variables.get(name) {
                    Some(value) => value,
                    None => false,
                },
            }
        } else {
            false
        }
    }

    /// Runs jumps and branches until the next command, wait or halt.
    pub fn step(&mut self) -> (event: Option<IrEvent>)
        requires
            old(self).wf(),
            terminates(old(self)@),
        ensures
            final(self).wf(),
            final(self)@ == step_spec(old(self)@).0,
            events_match(event, step_spec(old(self)@).1),
    {
        match self.status {
            IrVmStatus::Ready => {},
            _ => {
                return None;
            },
        }
        let ghost start = self@;
        let ghost n0 = choose|n: nat|
            settles_within(start.program, start.expressions, start.variables, start.pc as nat, n);
        let ghost mut fuel: nat = n0;
        loop
            invariant
                self.wf(),
                self.status == IrVmStatus::Ready,
                self.program == start.program,
                self.expressions@ == start.expressions,
                self.variables@ == start.variables,
                start.status == IrVmStatus::Ready,
                start == old(self)@,
                settles_within(start.program, start.expressions, start.variables, self.pc as nat, fuel),
                settle(start.program, start.expressions, start.variables, self.pc as nat, fuel)
                    == settled_pc(start),
            decreases fuel,
        {
            proof {
                lemma_settle_unfold(
                    start.program,
                    start.expressions,
                    start.variables,
                    self.pc as nat,
                    fuel,
                );
            }
            let pc = self.pc as usize;
            if pc >= self.program.instructions.len() {
                return None;
            }
            match &self.program.instructions[pc] {
                IrInstruction::Emit(command) => {
                    let command = command.duplicate();
                    self.pc = self.pc + 1;
                    return Some(IrEvent::Command(command));
                },
                IrInstruction::Wait(wait) => {
                    let wait = *wait;
                    self.pc = self.pc + 1;
                    self.status = IrVmStatus::Waiting(wait);
                    return Some(IrEvent::Waiting(wait));
                },
                IrInstruction::Jump(target) => {
                    let target = *target;
                    self.pc = target;
                    proof {
                        fuel = (fuel - 1) as nat;
                    }
                },
                IrInstruction::Branch { expression, then_pc, else_pc } => {
                    let (expression, then_pc, else_pc) = (*expression, *then_pc, *else_pc);
                    let value = self.expression_value(expression);
                    self.pc = if value {
                        then_pc
                    } else {
                        else_pc
                    };
                    proof {
                        fuel = (fuel - 1) as nat;
                    }
                },
                IrInstruction::Halt => {
                    self.status = IrVmStatus::Halted;
                    return Some(IrEvent::Completed);
                },
            }
        }
    }

    pub fn snapshot(&self) -> (s: IrVmSnapshot)
        requires
            self.wf(),
        ensures
            s.source_hash == self@.program.source_hash,
            s.pc == self@.pc,
            s.status == self@.status,
            s.expressions@ == self@.expressions,
            s.variables@ == self@.variables,
            s.variables.wf(),
    {
        IrVmSnapshot {
            source_hash: self.program.source_hash,
            pc: self.pc,
            status: self.status,
            expressions: self.expressions.duplicate(),
            variables: self.variables.duplicate(),
        }
    }

    /// Rebuilds a VM from recompiled code and a snapshot: the source hash must
    /// match, the program must validate and the counter must name an
    /// instruction.
    pub fn restore(program: IrProgram, snapshot: IrVmSnapshot) -> (r: Result<IrVm, IrValidationError>)
        requires
            program_addressable(program),
            snapshot.variables.wf(),
        ensures
            match restore_outcome(
                program,
                snapshot.source_hash,
                snapshot.pc,
                snapshot.status,
                snapshot.expressions@,
                snapshot.variables@,
            ) {
                Err(e) => r == Err::<IrVm, IrValidationError>(e),
                Ok(s) => r matches Ok(vm) && vm.wf() && vm@ == s,
            },
    {
        if program.source_hash != snapshot.source_hash {
            return Err(
                IrValidationError::SourceHashMismatch {
                    expected: program.source_hash,
                    actual: snapshot.source_hash,
                },
            );
        }
        proof {
            lemma_validation_error_none(program);
        }
        program.validate()?;
        if snapshot.pc as usize >= program.instructions.len() {
            return Err(IrValidationError::InvalidSnapshotPc(snapshot.pc));
        }
        Ok(
            IrVm {
                program,
                pc: snapshot.pc,
                status: snapshot.status,
                expressions: snapshot.expressions,
                variables: snapshot.variables,
            },
        )
    }
}

// ---------------------------------------------------------------------------
// Laws
// ---------------------------------------------------------------------------
/// Restoring a snapshot into the program it was taken from gives back the
/// very same VM state, whenever the snapshot's counter names an instruction.
pub proof fn law_restore_undoes_snapshot(s: IrVmState)
    requires
        state_ok(s),
        s.pc < s.program.instructions@.len(),
    ensures
        restore_outcome(s.program, s.program.source_hash, s.pc, s.status, s.expressions, s.variables)
            == Ok::<IrVmState, IrValidationError>(s),
{
    lemma_validation_error_none(s.program);
}

/// A restored VM steps exactly as the VM whose snapshot it was.
pub proof fn law_restored_vm_steps_alike(s: IrVmState)
    requires
        state_ok(s),
        s.pc < s.program.instructions@.len(),
    ensures
        restore_outcome(s.program, s.program.source_hash, s.pc, s.status, s.expressions, s.variables)
            matches Ok(r) && step_spec(r) == step_spec(s),
{
    law_restore_undoes_snapshot(s);
}

/// Stepping keeps a validated VM's counter inside the program.
pub proof fn law_step_keeps_state_ok(s: IrVmState)
    requires
        state_ok(s),
        terminates(s),
    ensures
        state_ok(step_spec(s).0),
        step_spec(s).0.program == s.program,
        step_spec(s).0.expressions == s.expressions,
        step_spec(s).0.variables == s.variables,
{
    if s.status is Ready {
        let n = choose|n: nat| settles_within(s.program, s.expressions, s.variables, s.pc as nat, n);
        lemma_settle_in_range(s, s.pc as nat, n);
    }
}

proof fn lemma_settle_in_range(s: IrVmState, pc: nat, n: nat)
    requires
        state_ok(s),
        pc <= s.program.instructions@.len(),
        settles_within(s.program, s.expressions, s.variables, pc, n),
    ensures
        settle(s.program, s.expressions, s.variables, pc, n) <= s.program.instructions@.len(),
        settle(s.program, s.expressions, s.variables, pc, n) == pc || settle(
            s.program,
            s.expressions,
            s.variables,
            pc,
            n,
        ) < s.program.instructions@.len(),
        control_target(
            s.program,
            s.expressions,
            s.variables,
            settle(s.program, s.expressions, s.variables, pc, n),
        ) is None,
    decreases n,
{
    match control_target(s.program, s.expressions, s.variables, pc) {
        None => {},
        Some(t) => {
            assert(instruction_ok(
                s.program.instructions@[pc as int],
                s.program.instructions@.len(),
                s.program.expressions@.len(),
            ));
            lemma_settle_in_range(s, t, (n - 1) as nat);
        },
    }
}

/// A VM that is waiting or halted does nothing when stepped.
pub proof fn law_idle_vm_is_inert(s: IrVmState)
    requires
        !(s.status is Ready),
    ensures
        step_spec(s) == (s, None::<IrEvent>),
{
}

/// A step that reports a wait leaves the VM waiting for exactly that; a step
/// that reports completion leaves it halted; a command leaves it ready.
pub proof fn law_step_event_agrees_with_status(s: IrVmState)
    requires
        state_ok(s),
        terminates(s),
        s.status is Ready,
    ensures
        step_spec(s).1 matches Some(IrEvent::Waiting(w)) ==> step_spec(s).0.status
            == IrVmStatus::Waiting(w),
        step_spec(s).1 matches Some(IrEvent::Completed) ==> step_spec(s).0.status
            == IrVmStatus::Halted,
        step_spec(s).1 matches Some(IrEvent::Command(_)) ==> step_spec(s).0.status
            == IrVmStatus::Ready,
        step_spec(s).1 is None ==> step_spec(s).0.pc == s.program.instructions@.len(),
{
    let n = choose|n: nat| settles_within(s.program, s.expressions, s.variables, s.pc as nat, n);
    lemma_settle_in_range(s, s.pc as nat, n);
}

// ---------------------------------------------------------------------------
// The runtime resource
// ---------------------------------------------------------------------------
/// The running VM, if any, and the events it has produced.
#[derive(Debug)]
pub struct IrRuntime {
    pub vm: Option<IrVm>,
    pub events: Vec<IrEvent>,
}

impl IrRuntime {
    pub fn new() -> (r: Self)
        ensures
            r.vm is None,
            r.events@.len() == 0,
    {
        IrRuntime { vm: None, events: Vec::new() }
    }
}

/// Advances the VM by one step and records the event it yields.
pub fn tick_ir_runtime(runtime: &mut IrRuntime)
    requires
        old(runtime).vm matches Some(vm) ==> vm.wf() && terminates(vm@),
    ensures
        match old(runtime).vm {
            None => final(runtime).vm is None && final(runtime).events@ == old(runtime).events@,
            Some(vm) => final(runtime).vm matches Some(v) && v.wf() && v@ == step_spec(vm@).0
                && match step_spec(vm@).1 {
                None => final(runtime).events@ == old(runtime).events@,
                Some(e) => final(runtime).events@.len() == old(runtime).events@.len() + 1
                    && final(runtime).events@.subrange(0, old(runtime).events@.len() as int)
                    == old(runtime).events@ && events_match(
                    Some(final(runtime).events@.last()),
                    Some(e),
                ),
            },
        },
{
    match runtime.vm.as_mut() {
        None => {},
        Some(vm) => {
            if let Some(event) = vm.step() {
                runtime.events.push(event);
            }
        },
    }
}

} // verus!
