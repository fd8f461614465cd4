use hiraku_engine::compiler::{source_hash, IrCompileError};
use hiraku_engine::host::ScriptPosition;
use hiraku_engine::ir::{
    IrCommand, IrExpression, IrExpressionId, IrInstruction, IrProgram, IrVm, IrWaitKind,
    IR_CURRENT_VERSION,
};
use hiraku_engine::lowering::{compile_parsed, lower_statements, ScriptCall, ScriptExpr, ScriptStmt};

fn at(line: usize, column: usize) -> ScriptPosition {
    ScriptPosition { line: Some(line), column: Some(column) }
}

fn call(name: &str, args: Vec<ScriptExpr>, line: usize) -> ScriptCall {
    ScriptCall { name: name.to_string(), args, position: at(line, 1) }
}

fn text(value: &str) -> ScriptExpr {
    ScriptExpr::Text(value.to_string(), at(1, 1))
}

fn command(name: &str, argument: &str, line: usize) -> ScriptStmt {
    ScriptStmt::Call(call(name, vec![text(argument)], line))
}

fn dot(lhs: ScriptExpr, rhs: ScriptExpr) -> ScriptExpr {
    ScriptExpr::Dot(Box::new(lhs), Box::new(rhs), at(1, 1))
}

fn method(name: &str, args: Vec<ScriptExpr>) -> ScriptExpr {
    ScriptExpr::MethodCall(call(name, args, 1))
}

#[test]
fn lowers_commands_and_a_literal_if() {
    // log("start"); if true { narrate("yes"); } else { bg("bg/opening"); }
    let stmts = vec![
        command("log", "start", 1),
        ScriptStmt::If {
            condition: ScriptExpr::Bool(true, at(2, 4)),
            then_body: vec![command("narrate", "yes", 2)],
            else_body: vec![command("bg", "bg/opening", 2)],
        },
    ];
    let program = lower_statements("test.rhai", 7, &stmts).unwrap();
    assert_eq!(program.version, IR_CURRENT_VERSION);
    assert_eq!(program.source_hash, 7);
    assert_eq!(program.expressions, vec![IrExpression::BoolLiteral(true)]);
    assert_eq!(
        program.instructions,
        vec![
            IrInstruction::Emit(IrCommand::Log("start".to_string())),
            IrInstruction::Branch { expression: IrExpressionId(0), then_pc: 2, else_pc: 5 },
            IrInstruction::Emit(IrCommand::Say { speaker: String::new(), text: "yes".to_string() }),
            IrInstruction::Wait(IrWaitKind::DialogueAdvance),
            IrInstruction::Jump(6),
            IrInstruction::Emit(IrCommand::SetBackground { texture: "bg/opening".to_string() }),
            IrInstruction::Halt,
        ]
    );
    assert!(IrVm::new(program).is_ok());
}

#[test]
fn lowers_while_with_continue_and_break_to_valid_jumps() {
    // while ready { if false { continue; } break; }
    let stmts = vec![ScriptStmt::While {
        condition: Some(ScriptExpr::Variable("ready".to_string(), at(1, 7))),
        body: vec![
            ScriptStmt::If {
                condition: ScriptExpr::Bool(false, at(1, 18)),
                then_body: vec![ScriptStmt::Break { with_value: false, is_break: false, position: at(1, 26) }],
                else_body: vec![],
            },
            ScriptStmt::Break { with_value: false, is_break: true, position: at(1, 37) },
        ],
    }];
    let program = lower_statements("test.rhai", 0, &stmts).unwrap();
    assert_eq!(
        program.expressions,
        vec![IrExpression::BoolVariable("ready".to_string()), IrExpression::BoolLiteral(false)]
    );
    assert_eq!(
        program.instructions,
        vec![
            IrInstruction::Branch { expression: IrExpressionId(0), then_pc: 1, else_pc: 6 },
            IrInstruction::Branch { expression: IrExpressionId(1), then_pc: 2, else_pc: 4 },
            IrInstruction::Jump(0),
            IrInstruction::Jump(4),
            IrInstruction::Jump(6),
            IrInstruction::Jump(0),
            IrInstruction::Halt,
        ]
    );
    assert!(IrVm::new(program).is_ok());
}

#[test]
fn lowers_loop_break_past_the_jump_back() {
    // loop { break; }
    let stmts = vec![ScriptStmt::While {
        condition: None,
        body: vec![ScriptStmt::Break { with_value: false, is_break: true, position: at(1, 8) }],
    }];
    let program = lower_statements("test.rhai", 0, &stmts).unwrap();
    assert_eq!(
        program.instructions,
        vec![IrInstruction::Jump(2), IrInstruction::Jump(0), IrInstruction::Halt]
    );
    assert!(IrVm::new(program).is_ok());
}

#[test]
fn lowers_a_character_chain_into_one_show() {
    // char("alice").at("left").scale(1.5).e("hand");
    let chain = dot(
        dot(
            dot(ScriptExpr::Call(call("char", vec![text("alice")], 1)), method("at", vec![text("left")])),
            method("scale", vec![ScriptExpr::Number(1.5f32.to_bits(), at(1, 30))]),
        ),
        method("e", vec![text("hand")]),
    );
    let program = lower_statements("test.rhai", 0, &vec![ScriptStmt::Expr(chain)]).unwrap();
    assert_eq!(
        program.instructions,
        vec![
            IrInstruction::Emit(IrCommand::ShowCharacter {
                actor_id: "alice".to_string(),
                character_name: "alice".to_string(),
                expressions: vec!["hand".to_string()],
                position_bits: [(-600.0f32).to_bits(), 0.0f32.to_bits()],
                scale_bits: 1.5f32.to_bits(),
            }),
            IrInstruction::Halt,
        ]
    );
}

#[test]
fn each_character_statement_shows_its_own_character() {
    // char("alice").e("hand"); char("bob").e("hand");
    let statement = |name: &str| {
        ScriptStmt::Expr(dot(
            ScriptExpr::Call(call("char", vec![text(name)], 1)),
            method("e", vec![text("hand")]),
        ))
    };
    let program = lower_statements("test.rhai", 0, &vec![statement("alice"), statement("bob")]).unwrap();
    let shown: Vec<&str> = program
        .instructions
        .iter()
        .filter_map(|instruction| match instruction {
            IrInstruction::Emit(IrCommand::ShowCharacter { actor_id, scale_bits, position_bits, .. }) => {
                assert_eq!(*scale_bits, 1.0f32.to_bits());
                assert_eq!(*position_bits, [0, 0]);
                Some(actor_id.as_str())
            }
            _ => None,
        })
        .collect();
    assert_eq!(shown, vec!["alice", "bob"]);
}

#[test]
fn an_unknown_chain_method_is_an_unsupported_call() {
    // char("alice").finish();
    let stmts = vec![ScriptStmt::Expr(dot(
        ScriptExpr::Call(call("char", vec![text("alice")], 1)),
        ScriptExpr::MethodCall(ScriptCall { name: "finish".to_string(), args: vec![], position: at(1, 15) }),
    ))];
    assert_eq!(
        lower_statements("test.rhai", 0, &stmts),
        Err(IrCompileError::UnsupportedCall {
            path: "test.rhai".to_string(),
            name: "finish".to_string(),
            line: Some(1),
            column: Some(15),
        })
    );
}

#[test]
fn a_dynamic_condition_is_refused_without_running_it() {
    // if is_unlocked() { narrate("yes"); }
    let stmts = vec![ScriptStmt::If {
        condition: ScriptExpr::Call(ScriptCall { name: "is_unlocked".to_string(), args: vec![], position: at(1, 4) }),
        then_body: vec![command("narrate", "yes", 1)],
        else_body: vec![],
    }];
    assert_eq!(
        lower_statements("test.rhai", 0, &stmts),
        Err(IrCompileError::UnsupportedExpression {
            path: "test.rhai".to_string(),
            kind: "function expression".to_string(),
            line: Some(1),
            column: Some(4),
        })
    );
}

#[test]
fn call_argument_errors_name_the_call() {
    let wrong_count = vec![ScriptStmt::Call(call("log", vec![text("a"), text("b")], 3))];
    assert_eq!(
        lower_statements("s.rhai", 0, &wrong_count),
        Err(IrCompileError::InvalidCall {
            path: "s.rhai".to_string(),
            name: "log".to_string(),
            message: "requires exactly one argument".to_string(),
            line: Some(3),
            column: Some(1),
        })
    );
    let with_args = vec![ScriptStmt::Call(call("stop_bgm", vec![text("x")], 4))];
    assert_eq!(
        lower_statements("s.rhai", 0, &with_args),
        Err(IrCompileError::InvalidCall {
            path: "s.rhai".to_string(),
            name: "stop_bgm".to_string(),
            message: "does not accept arguments".to_string(),
            line: Some(4),
            column: Some(1),
        })
    );
    let bad_scale = vec![ScriptStmt::Expr(dot(
        ScriptExpr::Call(call("char", vec![text("alice")], 5)),
        method("scale", vec![ScriptExpr::Number(0.0f32.to_bits(), at(5, 20))]),
    ))];
    assert!(matches!(
        lower_statements("s.rhai", 0, &bad_scale),
        Err(IrCompileError::InvalidCall { message, .. }) if message == "scale must be positive"
    ));
}

#[test]
fn unsupported_statements_and_stray_breaks_are_refused() {
    let declaration = vec![ScriptStmt::Let(at(2, 1))];
    assert_eq!(
        lower_statements("s.rhai", 0, &declaration),
        Err(IrCompileError::UnsupportedStatement {
            path: "s.rhai".to_string(),
            kind: "variable declaration".to_string(),
            line: Some(2),
            column: Some(1),
        })
    );
    let stray = vec![ScriptStmt::Break { with_value: false, is_break: true, position: at(3, 1) }];
    assert_eq!(
        lower_statements("s.rhai", 0, &stray),
        Err(IrCompileError::UnsupportedStatement {
            path: "s.rhai".to_string(),
            kind: "break/continue outside loop".to_string(),
            line: Some(3),
            column: Some(1),
        })
    );
    let other = vec![ScriptStmt::Other { kind: "for".to_string(), position: at(4, 1) }];
    assert!(matches!(
        lower_statements("s.rhai", 0, &other),
        Err(IrCompileError::UnsupportedStatement { kind, .. }) if kind == "for"
    ));
    assert!(matches!(
        lower_statements("s.rhai", 0, &vec![ScriptStmt::Call(call("quit", vec![], 5))]),
        Err(IrCompileError::UnsupportedCall { name, .. }) if name == "quit"
    ));
}

#[test]
fn compiling_reports_parse_failures_and_hashes_the_source() {
    assert_eq!(
        compile_parsed("broken.rhai", "log(", Err("Expecting ')'".to_string())),
        Err(IrCompileError::Parse { path: "broken.rhai".to_string(), message: "Expecting ')'".to_string() })
    );
    let source = "stop_bgm();";
    let program = compile_parsed("bgm.rhai", source, Ok(vec![ScriptStmt::Call(call("stop_bgm", vec![], 1))])).unwrap();
    assert_eq!(
        program,
        IrProgram::new(
            source_hash(source),
            vec![IrInstruction::Emit(IrCommand::StopBgm), IrInstruction::Halt]
        )
    );
    assert_ne!(program.source_hash, source_hash("stop_bgm();\n"));
}
