use hiraku_engine::engine::{
    cancel, finish_inline_dialogue, inline_text, narrate, par, say, wait_handle,
    wait_handles, DialogueStart, InlineLine,
};
use hiraku_engine::flow_api::{choice, choice_prompt, record_response, screen, InputStart};
use hiraku_engine::host::{
    CheckpointDecision, CheckpointState, EngineAction, EngineError, HostState, ReplayState,
    SaveCheckpoint, SavedInput, ScriptPosition,
};
use hiraku_engine::inline::{parse_inline_dialogue_chunks, InlineDialogueChunk};
use hiraku_engine::scene_api::{bg_fade, pause_ms, show_sprite_scaled};
use hiraku_engine::script_command::{
    BatchSubmitMode, ChoiceOption, ScriptCommand, ScriptDuration, ScriptResponse,
};
use hiraku_engine::stored_value::StoredValue;
use hiraku_engine::tables::NamedTable;

fn host() -> HostState<()> {
    HostState::new("scripts/a.rhai".to_string(), NamedTable::new(), CheckpointState::new(None, None))
}

fn here() -> ScriptPosition {
    ScriptPosition { line: Some(3), column: Some(1) }
}

fn message(e: EngineError) -> String {
    match e {
        EngineError::Runtime(m) => m,
        other => panic!("unexpected {other:?}"),
    }
}

#[test]
fn a_timed_command_outside_blocks_is_sent_and_awaited() {
    let mut h = host();
    let action = bg_fade(&mut h, Ok("images/room.png".to_string()), 1500).unwrap();
    match action {
        EngineAction::SendAndWait(Some(ScriptCommand::SetBackground { path, fade, animation_id })) => {
            assert_eq!(path, "images/room.png");
            assert_eq!(fade, Some(ScriptDuration { secs: 1, nanos: 500_000_000 }));
            assert_eq!(animation_id, None);
        }
        other => panic!("unexpected {other:?}"),
    }
    assert_eq!(h.next_animation_id, 0);
}

#[test]
fn negative_durations_and_unresolved_paths_are_refused() {
    let mut h = host();
    assert_eq!(message(bg_fade(&mut h, Ok("x".to_string()), -1).unwrap_err()), "duration cannot be negative");
    assert_eq!(
        message(bg_fade(&mut h, Err("file `x` was not found".to_string()), 10).unwrap_err()),
        "file `x` was not found"
    );
    assert_eq!(
        message(show_sprite_scaled(&h, "s".to_string(), "p".to_string(), [0, 0], None).unwrap_err()),
        "scale must be greater than zero"
    );
}

#[test]
fn blocks_collect_commands_under_fresh_handles_and_submit_them_as_a_group() {
    let mut h = host();
    hiraku_engine::engine::seq(&mut h).unwrap();
    assert_eq!(message(par(&mut h).unwrap_err()), "seq/par cannot be nested");
    let first = pause_ms(&mut h, 100).unwrap();
    let second = pause_ms(&mut h, 200).unwrap();
    assert!(matches!(first, EngineAction::Handle(ref x) if x == "pause-1"));
    assert!(matches!(second, EngineAction::Handle(ref x) if x == "pause-2"));
    assert_eq!(
        message(wait_handle(&h, "pause-1".to_string()).unwrap_err()),
        "wait cannot be used inside seq/par; wait after the block returns a handle"
    );
    assert_eq!(message(cancel(&h, "pause-1".to_string()).unwrap_err()), "cancel cannot be used inside seq/par");
    let submission = h.finish_batch().unwrap();
    assert_eq!(submission.group, "seq-1");
    match submission.action {
        EngineAction::Send(ScriptCommand::SubmitBatch { mode, items }) => {
            assert_eq!(mode, BatchSubmitMode::Sequence);
            let handles: Vec<String> = items.iter().map(|i| i.handle.clone()).collect();
            assert_eq!(handles, vec!["pause-1".to_string(), "pause-2".to_string()]);
            assert!(matches!(*items[1].command, ScriptCommand::Wait { duration: ScriptDuration { secs: 0, nanos: 200_000_000 }, .. }));
        }
        other => panic!("unexpected {other:?}"),
    }
    match wait_handle(&h, "seq-1".to_string()).unwrap() {
        EngineAction::SendAndWait(Some(ScriptCommand::WaitAnimations { ids })) => {
            assert_eq!(ids, vec!["pause-1".to_string(), "pause-2".to_string()]);
        }
        other => panic!("unexpected {other:?}"),
    }
    assert!(h.finish_batch().is_err());
}

#[test]
fn waiting_expands_nested_groups_once_and_in_order() {
    let mut h = host();
    par(&mut h).unwrap();
    pause_ms(&mut h, 1).unwrap();
    let inner = h.finish_batch().unwrap().group;
    assert_eq!(inner, "par-1");
    hiraku_engine::engine::seq(&mut h).unwrap();
    pause_ms(&mut h, 1).unwrap();
    let outer = h.finish_batch().unwrap().group;
    assert_eq!(outer, "seq-2");
    match wait_handles(&h, vec![outer.clone(), inner.clone(), "pause-1".to_string(), "other-9".to_string()]).unwrap() {
        EngineAction::SendAndWait(Some(ScriptCommand::WaitAnimations { ids })) => {
            assert_eq!(ids, vec!["pause-2".to_string(), "pause-1".to_string(), "other-9".to_string()]);
        }
        other => panic!("unexpected {other:?}"),
    }
    assert!(matches!(wait_handles(&h, Vec::new()).unwrap(), EngineAction::Unit));
    match cancel(&h, "other-3".to_string()).unwrap() {
        EngineAction::Send(ScriptCommand::CancelAnimations { ids }) => assert_eq!(ids, vec!["other-3".to_string()]),
        other => panic!("unexpected {other:?}"),
    }
}

#[test]
fn a_cancelled_block_keeps_nothing() {
    let mut h = host();
    hiraku_engine::engine::seq(&mut h).unwrap();
    pause_ms(&mut h, 5).unwrap();
    h.cancel_batch();
    assert!(h.batch.active.is_none());
    assert!(h.finish_batch().is_err());
    assert_eq!(h.batch.next_group_id, 0);
}

#[test]
fn inline_dialogue_splits_text_and_commands() {
    let chunks = parse_inline_dialogue_chunks("Hello @{ wait(\"}\") } world").unwrap();
    assert_eq!(
        chunks,
        vec![
            InlineDialogueChunk::Text("Hello ".to_string()),
            InlineDialogueChunk::Command("wait(\"}\")".to_string()),
            InlineDialogueChunk::Text(" world".to_string()),
        ]
    );
    assert_eq!(parse_inline_dialogue_chunks("").unwrap(), vec![InlineDialogueChunk::Text(String::new())]);
    assert_eq!(
        parse_inline_dialogue_chunks("@{a}@{ {b} }").unwrap(),
        vec![InlineDialogueChunk::Command("a".to_string()), InlineDialogueChunk::Command("{b}".to_string())]
    );
    assert_eq!(message(parse_inline_dialogue_chunks("x @{  } y").unwrap_err()), "inline dialogue command cannot be empty");
    assert_eq!(message(parse_inline_dialogue_chunks("x @{ f(").unwrap_err()), "unterminated inline dialogue command");
    assert_eq!(message(parse_inline_dialogue_chunks("@{ \"\\\"}\" ").unwrap_err()), "unterminated inline dialogue command");
}

#[test]
fn a_plain_line_counts_its_checkpoint_and_waits() {
    let mut h = host();
    match say(&mut h, "Alice".to_string(), "Hi.".to_string(), here()).unwrap() {
        DialogueStart::Done(EngineAction::SendAndWait(Some(ScriptCommand::Say { speaker, text, animation_id: None }))) => {
            assert_eq!(speaker, "Alice");
            assert_eq!(text, "Hi.");
        }
        other => panic!("unexpected {other:?}"),
    }
    assert_eq!(h.checkpoint.ordinal, 1);
    let current = h.checkpoint.current.as_ref().unwrap();
    assert_eq!(current.kind, "say");
    assert_eq!(current.script, "scripts/a.rhai");
    narrate(&mut h, "...".to_string(), here()).unwrap();
    assert_eq!(h.checkpoint.current.as_ref().unwrap().kind, "narrate");
}

#[test]
fn inline_lines_reveal_chunk_by_chunk_then_wait_for_the_reader() {
    let mut h = host();
    let chunks = match say(&mut h, "Bob".to_string(), "ab@{x}cd".to_string(), here()).unwrap() {
        DialogueStart::Inline(chunks) => chunks,
        other => panic!("unexpected {other:?}"),
    };
    assert!(h.inline.active);
    let mut line = InlineLine { speaker: "Bob".to_string(), rendered: String::new(), saw_text: false };
    let mut reveals = Vec::new();
    for chunk in chunks {
        if let InlineDialogueChunk::Text(t) = chunk {
            match inline_text(&h, &mut line, t) {
                EngineAction::SendAndWait(Some(ScriptCommand::SetDialogue { text, reveal_from, .. })) => reveals.push((text, reveal_from)),
                other => panic!("unexpected {other:?}"),
            }
        }
    }
    assert_eq!(reveals, vec![("ab".to_string(), Some(0)), ("abcd".to_string(), Some(2))]);
    assert!(matches!(inline_text(&h, &mut line, String::new()), EngineAction::Unit));
    assert!(matches!(
        finish_inline_dialogue(&mut h, &line),
        EngineAction::SendAndWait(Some(ScriptCommand::AwaitDialogueAdvance))
    ));
    assert!(!h.inline.active);
}

#[test]
fn inline_commands_are_refused_inside_blocks_but_plain_lines_are_collected() {
    let mut h = host();
    hiraku_engine::engine::seq(&mut h).unwrap();
    assert_eq!(
        message(say(&mut h, "A".to_string(), "x@{y}".to_string(), here()).unwrap_err()),
        "inline dialogue commands are not supported inside seq/par"
    );
    assert!(matches!(
        say(&mut h, "A".to_string(), "plain".to_string(), here()).unwrap(),
        DialogueStart::Done(EngineAction::Handle(ref x)) if x == "say-1"
    ));
}

#[test]
fn choices_ask_the_engine_and_log_the_answer() {
    let mut h = host();
    assert_eq!(message(choice(&mut h, Vec::new(), here()).unwrap_err()), "choice requires at least one option");
    let options = vec![ChoiceOption { text: "Yes".to_string(), value: StoredValue::Bool(true) }];
    match choice_prompt(&mut h, "Go?".to_string(), options, here()).unwrap() {
        InputStart::Ask(EngineAction::SendAndWait(Some(ScriptCommand::Choose { prompt, options }))) => {
            assert_eq!(prompt, "Go?");
            assert_eq!(options.len(), 1);
        }
        other => panic!("unexpected {other:?}"),
    }
    let value = record_response(&mut h, ScriptResponse::Choice(StoredValue::Bool(true))).unwrap();
    assert_eq!(value, StoredValue::Bool(true));
    assert_eq!(h.checkpoint.input_log.len(), 1);
    assert_eq!(h.checkpoint.input_log[0].checkpoint.kind, "choice");
    assert_eq!(
        message(record_response(&mut h, ScriptResponse::Continue).unwrap_err()),
        "engine returned unexpected continue response"
    );
}

fn replaying_host() -> HostState<()> {
    let target = SaveCheckpoint {
        script: "scripts/a.rhai".to_string(),
        ordinal: 3,
        kind: "say".to_string(),
        label: None,
        position: here(),
    };
    let recorded = SavedInput {
        checkpoint: SaveCheckpoint {
            script: "scripts/a.rhai".to_string(),
            ordinal: 2,
            kind: "choice".to_string(),
            label: None,
            position: here(),
        },
        value: StoredValue::Int(7),
    };
    let replay = ReplayState { target, input_log: vec![recorded], input_cursor: 0 };
    HostState::new("scripts/a.rhai".to_string(), NamedTable::new(), CheckpointState::new(None, Some(replay)))
}

#[test]
fn a_save_replay_skips_lines_hands_back_recorded_inputs_and_ends_at_its_checkpoint() {
    let mut h = replaying_host();
    assert!(h.is_replaying());
    assert!(matches!(
        say(&mut h, "A".to_string(), "one".to_string(), here()).unwrap(),
        DialogueStart::Done(EngineAction::Unit)
    ));
    let options = vec![ChoiceOption { text: "x".to_string(), value: StoredValue::Int(1) }];
    match choice(&mut h, options, here()).unwrap() {
        InputStart::Replayed(v) => assert_eq!(v, StoredValue::Int(7)),
        other => panic!("unexpected {other:?}"),
    }
    assert_eq!(h.checkpoint.input_log.len(), 1);
    match say(&mut h, "A".to_string(), "three".to_string(), here()).unwrap() {
        DialogueStart::Done(EngineAction::SendAndWait(Some(ScriptCommand::Say { .. }))) => {}
        other => panic!("unexpected {other:?}"),
    }
    assert!(!h.is_replaying());
}

#[test]
fn a_replayed_screen_without_a_recorded_value_fails() {
    let mut h = replaying_host();
    let e = screen(&mut h, Ok(()), here()).unwrap_err();
    assert_eq!(message(e), "save replay reached `screen` without a matching recorded value");
    assert_eq!(h.checkpoint.ordinal, 1);
}

#[test]
fn checkpoints_outside_a_replay_run() {
    let mut h = host();
    assert_eq!(h.checkpoint("save_point", Some("start".to_string()), here()), CheckpointDecision::Run);
    assert_eq!(h.checkpoint.current.as_ref().unwrap().label, Some("start".to_string()));
}
