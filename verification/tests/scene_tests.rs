use hiraku_engine::engine::par;
use hiraku_engine::flow_api::{
    character_exists, character_names, checkpoint, save_record, set_global, SAVE_VERSION,
};
use hiraku_engine::host::{CheckpointState, EngineAction, EngineError, HostState, ScriptPosition};
use hiraku_engine::scene_api::{
    animate, effect, hide_character, hide_fade, hide_sprite, jump_character, move_sprite, pause_int,
    screen_fade, shake_character, show_character, show_character_as_fade, show_fade,
    show_fade_layered, show_sprite, show_sprite_layered, EffectValues, F32_ONE_BITS,
};
use hiraku_engine::script_command::{
    choice_option, parse_character_ease, CharacterEase, ScriptCommand, ScriptDuration,
};
use hiraku_engine::sound_api::{play_bgm, play_bgm_fade, play_sfx_volume, play_voice};
use hiraku_engine::stored_value::StoredValue;
use hiraku_engine::tables::NamedTable;

fn host() -> HostState<u32> {
    HostState::new("scripts/scene.rhai".to_string(), NamedTable::new(), CheckpointState::new(None, None))
}

fn message(e: EngineError) -> String {
    match e {
        EngineError::Runtime(m) => m,
        other => panic!("unexpected {other:?}"),
    }
}

fn half_second() -> ScriptDuration {
    ScriptDuration { secs: 0, nanos: 500_000_000 }
}

#[test]
fn a_sprite_is_shown_at_scale_one_on_the_base_layer() {
    let h = host();
    let x = 12.5f32.to_bits();
    let y = 40.0f32.to_bits();
    match show_sprite(&h, "hero".to_string(), "images/hero.png".to_string(), [x, y]).unwrap() {
        EngineAction::Send(ScriptCommand::ShowSprite { id, path, rect, position, layer, scale, fade, animation_id }) => {
            assert_eq!(id, "hero");
            assert_eq!(path, "images/hero.png");
            assert_eq!(rect, None);
            assert_eq!(position, [x, y]);
            assert_eq!(layer, 0);
            assert_eq!(scale, F32_ONE_BITS);
            assert_eq!(f32::from_bits(scale), 1.0);
            assert_eq!(fade, None);
            assert_eq!(animation_id, None);
        }
        other => panic!("unexpected {other:?}"),
    }
    let layer = 3.0f32.to_bits();
    let scale = 0.5f32.to_bits();
    match show_sprite_layered(&h, "bg2".to_string(), "p".to_string(), [0, 0], Some(scale), layer).unwrap() {
        EngineAction::Send(ScriptCommand::ShowSprite { layer: l, scale: s, .. }) => {
            assert_eq!(l, layer);
            assert_eq!(s, scale);
        }
        other => panic!("unexpected {other:?}"),
    }
}

#[test]
fn fades_are_awaited_outside_blocks_and_handed_out_inside() {
    let mut h = host();
    match show_fade(&mut h, "a".to_string(), "p".to_string(), [0, 0], 500).unwrap() {
        EngineAction::SendAndWait(Some(ScriptCommand::ShowSprite { fade, animation_id, .. })) => {
            assert_eq!(fade, Some(half_second()));
            assert_eq!(animation_id, None);
        }
        other => panic!("unexpected {other:?}"),
    }
    assert_eq!(h.next_animation_id, 0);
    par(&mut h).unwrap();
    let first = show_fade_layered(&mut h, "a".to_string(), "p".to_string(), [0, 0], Some(F32_ONE_BITS), 0, 500).unwrap();
    let second = hide_fade(&mut h, "a".to_string(), 500).unwrap();
    assert!(matches!(first, EngineAction::Handle(ref x) if x == "show-1"));
    assert!(matches!(second, EngineAction::Handle(ref x) if x == "hide-2"));
    assert_eq!(h.next_animation_id, 2);
    let submission = h.finish_batch().unwrap();
    assert_eq!(submission.group, "par-1");
}

#[test]
fn refused_fades_leave_the_host_unchanged() {
    let mut h = host();
    hiraku_engine::engine::seq(&mut h).unwrap();
    assert_eq!(
        message(show_fade_layered(&mut h, "a".to_string(), "p".to_string(), [0, 0], None, 0, 10).unwrap_err()),
        "scale must be greater than zero"
    );
    assert_eq!(message(hide_fade(&mut h, "a".to_string(), -5).unwrap_err()), "duration cannot be negative");
    assert_eq!(message(move_sprite(&mut h, "a".to_string(), [1, 2], -1).unwrap_err()), "duration cannot be negative");
    assert_eq!(message(screen_fade(&mut h, 0, -1).unwrap_err()), "duration cannot be negative");
    assert_eq!(h.next_animation_id, 0);
    assert!(matches!(hide_sprite(&h, "a".to_string()), EngineAction::Send(ScriptCommand::HideSprite { fade: None, .. })));
}

#[test]
fn characters_are_shown_without_expressions_under_their_own_name() {
    let mut h = host();
    let position = [100.0f32.to_bits(), 200.0f32.to_bits()];
    match show_character(&mut h, "mio".to_string(), position, Some(F32_ONE_BITS)).unwrap() {
        EngineAction::SendAndWait(Some(ScriptCommand::ShowCharacter {
            actor_id,
            character_name,
            expressions,
            position: p,
            scale,
            fade,
            animation_id,
        })) => {
            assert_eq!(actor_id, "mio");
            assert_eq!(character_name, "mio");
            assert!(expressions.is_empty());
            assert_eq!(p, position);
            assert_eq!(scale, F32_ONE_BITS);
            assert_eq!(fade, None);
            assert_eq!(animation_id, None);
        }
        other => panic!("unexpected {other:?}"),
    }
    match show_character_as_fade(&mut h, "mio-2".to_string(), "mio".to_string(), position, Some(F32_ONE_BITS), 500).unwrap() {
        EngineAction::SendAndWait(Some(ScriptCommand::ShowCharacter { actor_id, character_name, fade, .. })) => {
            assert_eq!(actor_id, "mio-2");
            assert_eq!(character_name, "mio");
            assert_eq!(fade, Some(half_second()));
        }
        other => panic!("unexpected {other:?}"),
    }
    assert_eq!(
        message(show_character(&mut h, "mio".to_string(), position, None).unwrap_err()),
        "scale must be greater than zero"
    );
    assert_eq!(
        message(show_character_as_fade(&mut h, "a".to_string(), "mio".to_string(), position, Some(F32_ONE_BITS), -1).unwrap_err()),
        "duration cannot be negative"
    );
    assert!(matches!(
        hide_character(&h, "mio-2".to_string()),
        EngineAction::Send(ScriptCommand::HideCharacter { ref actor_id }) if actor_id == "mio-2"
    ));
}

#[test]
fn character_motions_inside_a_block_get_distinct_handles() {
    let mut h = host();
    hiraku_engine::engine::seq(&mut h).unwrap();
    let jump = jump_character(&mut h, "mio".to_string(), 30.0f32.to_bits(), 250).unwrap();
    let shake = shake_character(&mut h, "mio".to_string(), 4.0f32.to_bits(), 250).unwrap();
    let anim = animate(&mut h, "mio".to_string(), true, Ok(7)).unwrap();
    let handles: Vec<String> = [jump, shake, anim]
        .into_iter()
        .map(|a| match a {
            EngineAction::Handle(x) => x,
            other => panic!("unexpected {other:?}"),
        })
        .collect();
    assert_eq!(
        handles,
        vec!["character-jump-1".to_string(), "character-shake-2".to_string(), "character-animate-3".to_string()]
    );
    assert_ne!(handles[0], handles[1]);
    assert_ne!(handles[1], handles[2]);
    assert_eq!(
        message(jump_character(&mut h, "mio".to_string(), 0, -3).unwrap_err()),
        "duration cannot be negative"
    );
    assert_eq!(h.next_animation_id, 3);
}

#[test]
fn whole_second_pauses_wait_that_long() {
    let mut h = host();
    match pause_int(&mut h, Some(ScriptDuration { secs: 3, nanos: 0 })).unwrap() {
        EngineAction::SendAndWait(Some(ScriptCommand::Wait { duration, animation_id })) => {
            assert_eq!(duration, ScriptDuration { secs: 3, nanos: 0 });
            assert_eq!(animation_id, None);
        }
        other => panic!("unexpected {other:?}"),
    }
    assert_eq!(message(pause_int(&mut h, None).unwrap_err()), "duration cannot be negative");
}

#[test]
fn music_voices_and_effects_play_resolved_files() {
    let mut h = host();
    match play_bgm(&mut h, "theme".to_string(), Ok("audio/theme.ogg".to_string())).unwrap() {
        EngineAction::Send(ScriptCommand::PlayBgm { path, volume, fade_in, animation_id }) => {
            assert_eq!(path, "audio/theme.ogg");
            assert_eq!(volume, F32_ONE_BITS);
            assert_eq!(fade_in, None);
            assert_eq!(animation_id, None);
        }
        other => panic!("unexpected {other:?}"),
    }
    let half = 0.5f32.to_bits();
    match play_bgm_fade(&mut h, "theme".to_string(), Ok("audio/theme.ogg".to_string()), half, 500).unwrap() {
        EngineAction::SendAndWait(Some(ScriptCommand::PlayBgm { volume, fade_in, .. })) => {
            assert_eq!(volume, half);
            assert_eq!(fade_in, Some(half_second()));
        }
        other => panic!("unexpected {other:?}"),
    }
    assert_eq!(
        message(play_bgm(&mut h, "missing".to_string(), Err("file `missing` was not found".to_string())).unwrap_err()),
        "file `missing` was not found"
    );
    match play_voice(&mut h, "v1".to_string(), Ok("voice/v1.ogg".to_string())).unwrap() {
        EngineAction::SendAndWait(Some(ScriptCommand::PlayVoice { path, volume, .. })) => {
            assert_eq!(path, "voice/v1.ogg");
            assert_eq!(volume, F32_ONE_BITS);
        }
        other => panic!("unexpected {other:?}"),
    }
    match play_sfx_volume(&h, "door".to_string(), Ok("sfx/door.wav".to_string()), half).unwrap() {
        EngineAction::Send(ScriptCommand::PlaySfx { path, volume }) => {
            assert_eq!(path, "sfx/door.wav");
            assert_eq!(volume, half);
        }
        other => panic!("unexpected {other:?}"),
    }
}

#[test]
fn the_character_catalog_answers_names_and_membership() {
    assert!(character_names(None).is_empty());
    let names = vec!["mio".to_string(), "ren".to_string()];
    assert_eq!(character_names(Some(names.clone())), names);
    let mut catalog: NamedTable<String> = NamedTable::new();
    catalog.insert("mio".to_string(), "characters/mio.toml".to_string());
    assert!(character_exists(Some(&catalog), &"mio".to_string()));
    assert!(!character_exists(Some(&catalog), &"ren".to_string()));
    assert!(!character_exists(None, &"mio".to_string()));
}

#[test]
fn a_save_record_copies_the_session() {
    let mut h = host();
    set_global(&mut h, "route".to_string(), StoredValue::String("east".to_string()));
    set_global(&mut h, "affection".to_string(), StoredValue::Int(4));
    h.script_stack.push("scripts/caller.rhai".to_string());
    checkpoint(&mut h, "after the bridge".to_string(), ScriptPosition { line: Some(9), column: Some(2) });
    let record = save_record(&h, None);
    assert_eq!(record.version, SAVE_VERSION);
    assert_eq!(record.version, 3);
    assert_eq!(record.resume_script, "scripts/scene.rhai");
    assert_eq!(record.script_stack, vec!["scripts/caller.rhai".to_string()]);
    assert_eq!(record.globals.len(), 2);
    assert_eq!(record.globals.get(&"route".to_string()), Some(&StoredValue::String("east".to_string())));
    assert_eq!(record.globals.get(&"affection".to_string()), Some(&StoredValue::Int(4)));
    let cp = record.checkpoint.expect("a checkpoint was passed");
    assert_eq!(cp.script, "scripts/scene.rhai");
    assert_eq!(cp.label, Some("after the bridge".to_string()));
    assert!(record.input_log.is_empty());
    let resumed = save_record(&h, Some("scripts/next.rhai".to_string()));
    assert_eq!(resumed.resume_script, "scripts/next.rhai");
}

#[test]
fn animating_an_actor_needs_it_on_screen() {
    let mut h = host();
    assert_eq!(
        message(animate(&mut h, "ghost".to_string(), false, Ok(1)).unwrap_err()),
        "character actor `ghost` is not shown"
    );
    assert_eq!(
        message(animate(&mut h, "mio".to_string(), true, Err("keyframes must not be empty".to_string())).unwrap_err()),
        "keyframes must not be empty"
    );
    assert_eq!(h.next_animation_id, 0);
    assert!(matches!(
        animate(&mut h, "mio".to_string(), true, Ok(5)).unwrap(),
        EngineAction::SendAndWait(Some(ScriptCommand::AnimateCharacter { keyframes: 5, .. }))
    ));
}

fn keys(names: &[&str]) -> Vec<String> {
    names.iter().map(|k| k.to_string()).collect()
}

#[test]
fn effect_options_are_checked_in_the_order_they_are_read() {
    let mut h = host();
    assert_eq!(
        message(effect(&mut h, &keys(&["from"]), true, true, EffectValues::Read(1)).unwrap_err()),
        "effect options require `duration` or `ms`"
    );
    assert_eq!(
        message(effect(&mut h, &keys(&["ms"]), false, false, EffectValues::BadDuration("duration must be a number".to_string())).unwrap_err()),
        "duration must be a number"
    );
    assert_eq!(
        message(effect(&mut h, &keys(&["ms"]), false, false, EffectValues::Read(1)).unwrap_err()),
        "effect options require `from` or an existing background"
    );
    assert_eq!(
        message(effect(&mut h, &keys(&["duration", "ms", "speed"]), false, true, EffectValues::Read(1)).unwrap_err()),
        "unknown effect option(s): ms, speed"
    );
    assert_eq!(h.next_animation_id, 0);
    match effect(&mut h, &keys(&["from", "ms", "mode"]), true, false, EffectValues::Read(9)).unwrap() {
        EngineAction::SendAndWait(Some(ScriptCommand::PlayCustomEffect { options, animation_id })) => {
            assert_eq!(options, 9);
            assert_eq!(animation_id, None);
        }
        other => panic!("unexpected {other:?}"),
    }
}

#[test]
fn opus_music_is_refused_before_its_path_is_looked_at() {
    let mut h = host();
    let refused = play_bgm(&mut h, "music/theme.OPUS".to_string(), Err("music `x` is not defined".to_string()));
    assert!(message(refused.unwrap_err()).starts_with("`.opus` audio is not supported"));
    assert!(matches!(
        play_bgm(&mut h, "music/theme.ogg".to_string(), Ok("audio/theme.ogg".to_string())).unwrap(),
        EngineAction::Send(ScriptCommand::PlayBgm { .. })
    ));
    assert!(message(play_voice(&mut h, "v.opus".to_string(), Ok("v".to_string())).unwrap_err()).starts_with("`.opus`"));
}

#[test]
fn choice_options_default_their_value_to_their_text() {
    let plain = choice_option("Go left".to_string(), None);
    assert_eq!(plain.value, StoredValue::String("Go left".to_string()));
    let valued = choice_option("Go right".to_string(), Some(StoredValue::Int(2)));
    assert_eq!(valued.text, "Go right");
    assert_eq!(valued.value, StoredValue::Int(2));
}

#[test]
fn keyframe_easings_accept_both_spellings() {
    assert_eq!(parse_character_ease("easein"), Ok(CharacterEase::EaseIn));
    assert_eq!(parse_character_ease("ease_in_out"), Ok(CharacterEase::EaseInOut));
    assert_eq!(parse_character_ease("wobble"), Err("unknown animation ease `wobble`".to_string()));
}
