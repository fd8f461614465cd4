use hiraku_engine::compiler::{source_hash, IrCompileError};
use hiraku_engine::driver::{
    drive_web_script_runtime, script_loop_decision, wait_for_response, LoopDecision, ResponseWait,
    ScriptRunEnd, WebDriver, WebPoll,
};
use hiraku_engine::flow_api::{
    clear_globals, get_global, get_global_or, get_setting, has_global, load, remove_global, save,
    save_with_resume, set_global, set_setting, LoadedSave,
};
use hiraku_engine::host::{
    CheckpointState, EngineAction, EngineError, HostState, SaveCheckpoint, ScriptFlowAction,
    ScriptPosition, WebScriptExecution,
};
use hiraku_engine::signals::{extract_signal_string, is_web_runtime_yield, signal_payload};
use hiraku_engine::sound_api::{play_bgm, play_bgm_fade, play_sfx_volume, ascii_lowercase_text};
use hiraku_engine::script_command::{ScriptCommand, ScriptResponse, UserSettings};
use hiraku_engine::stored_value::StoredValue;
use hiraku_engine::story::{
    CharacterCapabilityError, ExecutionId, NavigationKind, NavigationRequest, NavigationReset,
    NavigationResetValue,
};
use hiraku_engine::tables::NamedTable;

fn host() -> HostState<()> {
    HostState::new("main.rhai".to_string(), NamedTable::new(), CheckpointState::new(None, None))
}

fn message(e: EngineError) -> String {
    match e {
        EngineError::Runtime(m) => m,
        other => panic!("unexpected {other:?}"),
    }
}

#[test]
fn flow_signals_read_back_as_the_actions_they_carry() {
    let actions = vec![
        ScriptFlowAction::Jump("a.rhai".to_string()),
        ScriptFlowAction::Call("b.rhai".to_string()),
        ScriptFlowAction::Save { slot: "1".to_string(), resume_script: None },
        ScriptFlowAction::Save { slot: "2".to_string(), resume_script: Some("c\nd".to_string()) },
        ScriptFlowAction::Return,
        ScriptFlowAction::ReturnToTitle,
        ScriptFlowAction::EngineStopped,
    ];
    for action in actions {
        let payload = signal_payload(&action);
        assert_eq!(extract_signal_string(&payload), Some(action));
    }
    assert_eq!(
        signal_payload(&ScriptFlowAction::Jump("x".to_string())),
        "__hiraku_jump_script__::x"
    );
    assert_eq!(extract_signal_string("plain error"), None);
    assert!(is_web_runtime_yield("__hiraku_web_runtime_yield__"));
    assert!(!is_web_runtime_yield("__hiraku_return_script__"));
}

#[test]
fn a_slot_name_with_a_line_break_does_not_survive_the_signal() {
    let action = ScriptFlowAction::Save { slot: "a\nb".to_string(), resume_script: None };
    let back = extract_signal_string(&signal_payload(&action));
    assert_eq!(
        back,
        Some(ScriptFlowAction::Save { slot: "a".to_string(), resume_script: Some("b".to_string()) })
    );
}

#[test]
fn the_loop_calls_returns_and_reports_failures() {
    let mut h = host();
    assert_eq!(
        script_loop_decision(&mut h, "main.rhai".to_string(), ScriptRunEnd::Flow(ScriptFlowAction::Call("sub.rhai".to_string()))),
        LoopDecision::Run("sub.rhai".to_string())
    );
    assert_eq!(h.script_stack, vec!["main.rhai".to_string()]);
    assert_eq!(
        script_loop_decision(&mut h, "sub.rhai".to_string(), ScriptRunEnd::Flow(ScriptFlowAction::Return)),
        LoopDecision::Run("main.rhai".to_string())
    );
    assert_eq!(
        script_loop_decision(&mut h, "main.rhai".to_string(), ScriptRunEnd::Flow(ScriptFlowAction::Return)),
        LoopDecision::Failed("script `main.rhai` tried to return with an empty call stack".to_string())
    );
    assert_eq!(
        script_loop_decision(&mut h, "main.rhai".to_string(), ScriptRunEnd::Failed("boom".to_string())),
        LoopDecision::Failed("script `main.rhai` failed: boom".to_string())
    );
    assert_eq!(script_loop_decision(&mut h, "m".to_string(), ScriptRunEnd::Completed), LoopDecision::Finished);
    assert_eq!(script_loop_decision(&mut h, "m".to_string(), ScriptRunEnd::Yielded), LoopDecision::Yielded);
}

#[test]
fn the_web_runtime_replays_answers_then_yields() {
    let mut h = host();
    h.web = Some(WebScriptExecution { responses: Vec::new(), cursor: 0, pending: false });
    let mut driver = WebDriver { started: false, finished: false };
    assert!(drive_web_script_runtime(&mut h, &mut driver, WebPoll::NotWaiting));
    assert!(matches!(wait_for_response(&mut h), ResponseWait::Yield));
    assert!(h.web.as_ref().unwrap().pending);
    assert!(!drive_web_script_runtime(&mut h, &mut driver, WebPoll::Empty));
    assert!(drive_web_script_runtime(
        &mut h,
        &mut driver,
        WebPoll::Received(ScriptResponse::Choice(StoredValue::Int(2)))
    ));
    match wait_for_response(&mut h) {
        ResponseWait::Replayed(ScriptResponse::Choice(v)) => assert_eq!(v, StoredValue::Int(2)),
        other => panic!("unexpected {other:?}"),
    }
    assert!(!drive_web_script_runtime(&mut h, &mut driver, WebPoll::Disconnected));
    assert!(driver.finished);
    assert!(!drive_web_script_runtime(&mut h, &mut driver, WebPoll::Empty));
    let mut native = host();
    assert!(matches!(wait_for_response(&mut native), ResponseWait::Native));
}

#[test]
fn globals_are_set_read_and_removed() {
    let mut h = host();
    let name = "score".to_string();
    assert!(!has_global(&h, &name));
    assert_eq!(get_global(&h, &name), None);
    assert_eq!(get_global_or(&h, &name, StoredValue::Int(0)), StoredValue::Int(0));
    set_global(&mut h, name.clone(), StoredValue::Int(10));
    assert!(has_global(&h, &name));
    assert_eq!(get_global(&h, &name), Some(StoredValue::Int(10)));
    assert_eq!(get_global_or(&h, &name, StoredValue::Int(0)), StoredValue::Int(10));
    assert!(remove_global(&mut h, &name));
    assert!(!remove_global(&mut h, &name));
    set_global(&mut h, "a".to_string(), StoredValue::Bool(true));
    clear_globals(&mut h);
    assert!(!has_global(&h, &"a".to_string()));
}

#[test]
fn settings_are_read_and_replaced_by_name() {
    let settings = UserSettings { bgm_volume: 1, voice_volume: 2, sfx_volume: 3 };
    assert_eq!(get_setting("voice_volume", &settings).unwrap(), 2);
    assert_eq!(message(get_setting("gamma", &settings).unwrap_err()), "unknown setting `gamma`");
    let h = host();
    let (updated, action) = set_setting(&h, "sfx_volume", 9, settings).unwrap();
    assert_eq!(updated, UserSettings { bgm_volume: 1, voice_volume: 2, sfx_volume: 9 });
    assert!(matches!(action, EngineAction::Send(ScriptCommand::ApplyUserSettings(s)) if s == updated));
    assert_eq!(message(set_setting(&h, "x", 0, settings).unwrap_err()), "unknown setting `x`");
}

#[test]
fn saving_is_a_signal_unless_a_save_is_replayed() {
    let h = host();
    assert_eq!(
        save(&h, "slot".to_string()).unwrap_err(),
        EngineError::Flow(ScriptFlowAction::Save { slot: "slot".to_string(), resume_script: None })
    );
    assert_eq!(
        save_with_resume(&h, "slot".to_string(), "next.rhai".to_string()).unwrap_err(),
        EngineError::Flow(ScriptFlowAction::Save {
            slot: "slot".to_string(),
            resume_script: Some("next.rhai".to_string())
        })
    );
}

#[test]
fn loading_a_save_made_at_a_checkpoint_replays_up_to_it() {
    let mut h = host();
    let checkpoint = SaveCheckpoint {
        script: "chapter2.rhai".to_string(),
        ordinal: 5,
        kind: "say".to_string(),
        label: None,
        position: ScriptPosition { line: None, column: None },
    };
    let save_data = LoadedSave {
        resume_script: "ignored.rhai".to_string(),
        checkpoint: Some(checkpoint),
        script_stack: vec!["main.rhai".to_string()],
        globals: NamedTable::new(),
        input_log: Vec::new(),
        scene: (),
    };
    let (action, resume) = load(&mut h, save_data);
    assert_eq!(resume, "chapter2.rhai");
    assert!(matches!(action, EngineAction::SendAndWait(Some(ScriptCommand::RestoreSnapshot { .. }))));
    assert!(h.is_replaying());
    assert_eq!(h.checkpoint.ordinal, 0);
    assert_eq!(h.script_stack, vec!["main.rhai".to_string()]);
    let (_, resume) = load(
        &mut h,
        LoadedSave {
            resume_script: "title.rhai".to_string(),
            checkpoint: None,
            script_stack: Vec::new(),
            globals: NamedTable::new(),
            input_log: Vec::new(),
            scene: (),
        },
    );
    assert_eq!(resume, "title.rhai");
    assert!(!h.is_replaying());
}

#[test]
fn opus_audio_is_refused_in_any_case() {
    let mut h = host();
    let refused = play_bgm(&mut h, "music/theme.OpUs".to_string(), Ok("theme".to_string())).unwrap_err();
    assert_eq!(
        message(refused),
        "`.opus` audio is not supported by the current Bevy audio build; convert it to `.ogg`, `.wav`, `.mp3`, or `.flac` first"
    );
    match play_bgm(&mut h, "music/theme.ogg".to_string(), Ok("audio/theme.ogg".to_string())).unwrap() {
        EngineAction::Send(ScriptCommand::PlayBgm { path, volume, fade_in: None, animation_id: None }) => {
            assert_eq!(path, "audio/theme.ogg");
            assert_eq!(volume, 1.0f32.to_bits());
        }
        other => panic!("unexpected {other:?}"),
    }
    assert!(matches!(
        play_bgm_fade(&mut h, "a.ogg".to_string(), Ok("a.ogg".to_string()), 0, 250).unwrap(),
        EngineAction::SendAndWait(Some(ScriptCommand::PlayBgm { fade_in: Some(_), .. }))
    ));
    assert_eq!(
        message(play_sfx_volume(&h, "beep.wav".to_string(), Err("no such sound".to_string()), 0).unwrap_err()),
        "no such sound"
    );
    assert_eq!(ascii_lowercase_text("AbC-Ä"), "abc-Ä");
}

#[test]
fn navigation_requests_need_a_path() {
    assert_eq!(NavigationRequest::goto("  \t".to_string()).unwrap_err(), "story path must not be empty");
    let jump = NavigationRequest::goto("end.hks".to_string()).unwrap();
    assert_eq!(jump.kind, NavigationKind::Goto);
    assert_eq!(jump.reset, NavigationReset::NoReset);
    assert!(jump.should_preload(Some(false)));
    let call = NavigationRequest::call("credits.hks".to_string()).unwrap();
    assert!(!call.should_preload(Some(false)));
    assert!(call.should_preload(None));
    let mut explicit = call.with_origin(Some("main.hks".to_string()));
    assert_eq!(explicit.origin, Some("main.hks".to_string()));
    explicit.preload = Some(false);
    assert!(!explicit.should_preload(Some(true)));
    assert_eq!(NavigationReset::from(NavigationResetValue::Session), NavigationReset::Session);
}

#[test]
fn source_hashes_are_fnv1a() {
    assert_eq!(source_hash(""), 0xcbf2_9ce4_8422_2325);
    assert_eq!(source_hash("a"), 0xaf63_dc4c_8601_ec8c);
    assert_eq!(source_hash("foobar"), 0x8594_4171_f739_67e8);
}

#[test]
fn compile_errors_describe_where_they_happened() {
    let e = IrCompileError::UnsupportedCall {
        path: "a.rhai".to_string(),
        name: "spin".to_string(),
        line: Some(3),
        column: None,
    };
    assert_eq!(e.message(), "unsupported Rhai call `spin` in `a.rhai` at Some(3):None");
    let e = IrCompileError::Parse { path: "b.rhai".to_string(), message: "oops".to_string() };
    assert_eq!(e.message(), "failed to parse `b.rhai`: oops");
}

#[test]
fn executions_and_capability_errors_read_as_text() {
    assert!(ExecutionId::main_execution().is_main());
    assert_eq!(ExecutionId::from_task_handle(12).task_handle(), 12);
    assert_eq!(ExecutionId::from_task_handle(12).label(), "12");
    assert_eq!(ExecutionId::main_execution().label(), "main");
    assert_eq!(CharacterCapabilityError::UnknownActor(4).message(), "unknown actor handle 4");
    assert_eq!(CharacterCapabilityError::InvalidArguments("x").message(), "invalid native arguments: x");
}
