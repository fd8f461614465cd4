use hiraku_engine::ir::{
    IrCommand, IrEvent, IrExpression, IrExpressionId, IrInstruction, IrProgram, IrValidationError,
    IrVm, IrWaitKind,
};
use hiraku_engine::script_command::{
    command_suppressed_during_replay, script_command_from_ir, ScriptCommand, TextureCatalog,
    TextureDefinition,
};
use hiraku_engine::tables::NamedTable;

#[test]
fn executes_commands_and_waits_at_stable_program_counters() {
    let program = IrProgram::new(
        42,
        vec![
            IrInstruction::Emit(IrCommand::Log("before".to_string())),
            IrInstruction::Wait(IrWaitKind::DialogueAdvance),
            IrInstruction::Emit(IrCommand::Log("after".to_string())),
            IrInstruction::Halt,
        ],
    );
    let mut vm = IrVm::new(program).unwrap();

    assert_eq!(vm.step(), Some(IrEvent::Command(IrCommand::Log("before".to_string()))));
    assert_eq!(vm.pc(), 1);
    assert_eq!(vm.step(), Some(IrEvent::Waiting(IrWaitKind::DialogueAdvance)));
    assert_eq!(vm.pc(), 2);
    assert!(vm.step().is_none());
    assert!(vm.resume());
    assert_eq!(vm.step(), Some(IrEvent::Command(IrCommand::Log("after".to_string()))));
    assert_eq!(vm.step(), Some(IrEvent::Completed));
}

#[test]
fn branch_and_snapshot_restore_are_deterministic() {
    let program = IrProgram::with_expressions(
        7,
        vec![IrExpression::BoolLiteral(false), IrExpression::BoolLiteral(false)],
        vec![
            IrInstruction::Branch { expression: IrExpressionId(1), then_pc: 1, else_pc: 2 },
            IrInstruction::Emit(IrCommand::Log("yes".to_string())),
            IrInstruction::Emit(IrCommand::Log("no".to_string())),
            IrInstruction::Halt,
        ],
    );
    let mut vm = IrVm::new(program.clone()).unwrap();
    vm.set_expression(IrExpressionId(1), true);
    assert_eq!(vm.step(), Some(IrEvent::Command(IrCommand::Log("yes".to_string()))));

    let snapshot = vm.snapshot();
    let restored = IrVm::restore(program, snapshot).unwrap();
    assert_eq!(restored.pc(), 2);
}

#[test]
fn rejects_invalid_jump_targets() {
    let program = IrProgram::new(1, vec![IrInstruction::Jump(4)]);
    assert_eq!(
        IrVm::new(program).unwrap_err(),
        IrValidationError::InvalidTarget { pc: 0, target: 4, length: 1 }
    );
}

#[test]
fn replay_suppresses_screen_choice_waits() {
    assert!(command_suppressed_during_replay(&ScriptCommand::<()>::WaitForScreenChoice));
}

#[test]
fn ir_commands_map_to_scene_commands_without_callbacks() {
    let command = script_command_from_ir::<()>(
        IrCommand::ShowCharacter {
            actor_id: "ema".to_string(),
            character_name: "Ema".to_string(),
            expressions: vec!["smile".to_string()],
            position_bits: [12.0f32.to_bits(), (-4.0f32).to_bits()],
            scale_bits: 0.5f32.to_bits(),
        },
        None,
    )
    .unwrap();

    assert!(matches!(
        command,
        ScriptCommand::ShowCharacter {
            actor_id,
            character_name,
            expressions,
            position,
            scale,
            fade: None,
            animation_id: None,
        } if actor_id == "ema"
            && character_name == "Ema"
            && expressions == vec!["smile".to_string()]
            && position == [12.0f32.to_bits(), (-4.0f32).to_bits()]
            && scale == 0.5f32.to_bits()
    ));
}

#[test]
fn snapshot_restore_and_return_to_title_are_not_suppressed() {
    assert!(!command_suppressed_during_replay(&ScriptCommand::<()>::ReturnToTitle));
    assert!(!command_suppressed_during_replay(&ScriptCommand::<()>::RestoreSnapshot { snapshot: () }));
    assert!(command_suppressed_during_replay(&ScriptCommand::<()>::Exit));
}

#[test]
fn backgrounds_resolve_through_the_texture_catalog() {
    let mut textures = NamedTable::new();
    textures.insert(
        "bg/room".to_string(),
        TextureDefinition { path: "images/room.png".to_string(), rect: None },
    );
    let catalog = TextureCatalog { textures };
    let found = script_command_from_ir::<()>(
        IrCommand::SetBackground { texture: "bg/room".to_string() },
        Some(&catalog),
    )
    .unwrap();
    assert!(matches!(found, ScriptCommand::SetBackground { path, fade: None, animation_id: None } if path == "images/room.png"));
    let missing = script_command_from_ir::<()>(
        IrCommand::SetBackground { texture: "bg/none".to_string() },
        Some(&catalog),
    );
    assert_eq!(missing.unwrap_err(), "texture `bg/none` is not defined");
}

#[test]
fn a_vm_halted_by_its_program_stays_inert() {
    let program = IrProgram::new(3, vec![IrInstruction::Halt]);
    let mut vm = IrVm::new(program).unwrap();
    assert_eq!(vm.step(), Some(IrEvent::Completed));
    assert!(vm.step().is_none());
    assert!(!vm.resume());
}
