//! The script API for the scene: backgrounds, sprites, characters, screen
//! effects and pauses.
use vstd::prelude::*;

use crate::engine::{
    copy_handle, duration_from_millis, lemma_timed_dispatch, millis_duration, timed_outcome,
};
use crate::host::{runtime_error, runtime_error_is, send_action, EngineAction, EngineError, HostState};
use crate::script_command::{ScriptCommand, ScriptDuration};
use crate::text::{concat, strings_equal};

verus! {

/// The `f32` bits of one.
pub const F32_ONE_BITS: u32 = 0x3f80_0000;

/// `bg(path)`: shows `path` as the background at once.
/// `path` is the background as the project's files resolved it, or the
/// resolver's error message.
pub fn bg<P>(h: &HostState<P>, path: Result<String, String>) -> (r: Result<EngineAction<P>, EngineError>)
    ensures
        path is Err ==> r is Err && runtime_error_is(r->Err_0, path->Err_0@),
        !(path is Err) ==> r == Ok::<EngineAction<P>, EngineError>(send_action(*h, (ScriptCommand::SetBackground { path: path->Ok_0, fade: None, animation_id: None }))),
{
    let path = match path {
        Ok(p) => p,
        Err(m) => {
            return Err(EngineError::Runtime(m));
        },
    };
    Ok(h.send_only(ScriptCommand::SetBackground { path: path, fade: None, animation_id: None }))
}

/// `bg_fade(path, ms)`: cross-fades the background to `path` over `ms`.
pub fn bg_fade<P>(h: &mut HostState<P>, path: Result<String, String>, ms: i64) -> (r: Result<
    EngineAction<P>,
    EngineError,
>)
    requires
        old(h).next_animation_id < u64::MAX,
    ensures
        millis_duration(ms) is None ==> *final(h) == *old(h) && r is Err && runtime_error_is(
            r->Err_0,
            "duration cannot be negative"@,
        ),
        millis_duration(ms) is Some && path is Err ==> *final(h) == *old(h) && r is Err
            && runtime_error_is(r->Err_0, path->Err_0@),
        millis_duration(ms) is Some && path is Ok ==> r is Ok && timed_outcome(
            *old(h),
            *final(h),
            "bg-fade"@,
            |id: Option<String>|
                ScriptCommand::SetBackground {
                    path: path->Ok_0,
                    fade: millis_duration(ms),
                    animation_id: id,
                },
            r->Ok_0,
        ),
{
    let fade = match duration_from_millis(ms) {
        Ok(d) => d,
        Err(e) => return Err(e),
    };
    let path = match path {
        Ok(p) => p,
        Err(m) => return Err(EngineError::Runtime(m)),
    };
    let ghost h0 = *h;
    let (mode, handle) = h.prepare_dispatch("bg-fade");
    let ghost hm = *h;
    let ghost build = |id: Option<String>|
        ScriptCommand::SetBackground { path: path, fade: Some(fade), animation_id: id };
    let command = ScriptCommand::SetBackground {
        path,
        fade: Some(fade),
        animation_id: copy_handle(&handle),
    };
    let r = h.complete_dispatch(mode, handle, command);
    proof {
        lemma_timed_dispatch(h0, hm, *h, "bg-fade"@, build, mode, handle, r);
    }
    Ok(r)
}

/// `bg_rule(path, rule, ms, vague)`: a rule-image transition to `path`.
/// `vague` is the normalised softness, as `f32` bits.
pub fn bg_rule<P>(h: &mut HostState<P>, path: Result<String, String>, rule_path: String, ms: i64, vague: u32) -> (r: Result<EngineAction<P>, EngineError>)
    requires
        old(h).next_animation_id < u64::MAX,
    ensures
        millis_duration(ms) is None ==> *final(h) == *old(h) && r is Err && runtime_error_is(r->Err_0, "duration cannot be negative"@),
        !(millis_duration(ms) is None) && path is Err ==> *final(h) == *old(h) && r is Err && runtime_error_is(r->Err_0, path->Err_0@),
        !(millis_duration(ms) is None) && !(path is Err) ==> r is Ok && timed_outcome(*old(h), *final(h), "bg-rule"@, |aid: Option<String>| (ScriptCommand::RuleTransitionBg { path: path->Ok_0, rule_path: rule_path, duration: millis_duration(ms)->0, vague: vague, animation_id: aid }), r->Ok_0),
{
    let duration = match duration_from_millis(ms) {
        Ok(d) => d,
        Err(e) => {
            return Err(e);
        },
    };
    let path = match path {
        Ok(p) => p,
        Err(m) => {
            return Err(EngineError::Runtime(m));
        },
    };
    let ghost h0 = *h;
    let (mode, handle) = h.prepare_dispatch("bg-rule");
    let ghost hm = *h;
    let ghost build = |aid: Option<String>| ScriptCommand::RuleTransitionBg { path: path, rule_path: rule_path, duration: duration, vague: vague, animation_id: aid };
    let command = ScriptCommand::RuleTransitionBg { path: path, rule_path: rule_path, duration: duration, vague: vague, animation_id: copy_handle(&handle) };
    let r = h.complete_dispatch(mode, handle, command);
    proof {
        lemma_timed_dispatch(h0, hm, *h, "bg-rule"@, build, mode, handle, r);
    }
    Ok(r)
}

/// What reading the values of an effect's options gave, in the order they
/// are read: the duration first, then the textures, `mode`,
/// `commit_to_bg` and `p0` to `p3`.
#[derive(Debug)]
pub enum EffectValues<P> {
    /// The duration is not a usable number; its message.
    BadDuration(String),
    /// A later value could not be read; its message.
    BadValue(String),
    /// Every value was read: the effect's options.
    Read(P),
}

pub open spec fn has_key(keys: Seq<String>, k: Seq<char>) -> bool {
    exists|i: int| 0 <= i < keys.len() && (#[trigger] keys[i])@ == k
}

/// The option keys `effect` reads: the duration under `duration`, or else
/// under `ms`, and the named textures and parameters.
pub open spec fn effect_key_read(keys: Seq<String>, k: Seq<char>) -> bool {
    ||| k == "duration"@
    ||| (k == "ms"@ && !has_key(keys, "duration"@))
    ||| k == "from"@ || k == "to"@ || k == "rule"@ || k == "tex0"@ || k == "tex1"@
    ||| k == "mode"@ || k == "commit_to_bg"@
    ||| k == "p0"@ || k == "p1"@ || k == "p2"@ || k == "p3"@
}

/// The keys among the first `n` that `effect` does not read, in order.
pub open spec fn unknown_effect_keys(keys: Seq<String>, n: int) -> Seq<Seq<char>>
    decreases n,
{
    if n <= 0 {
        Seq::empty()
    } else if effect_key_read(keys, keys[n - 1]@) {
        unknown_effect_keys(keys, n - 1)
    } else {
        unknown_effect_keys(keys, n - 1).push(keys[n - 1]@)
    }
}

/// The texts joined with `, `.
pub open spec fn comma_joined(s: Seq<Seq<char>>) -> Seq<char>
    decreases s.len(),
{
    if s.len() == 0 {
        Seq::empty()
    } else if s.len() == 1 {
        s[0]
    } else {
        comma_joined(s.drop_last()) + ", "@ + s.last()
    }
}

/// Why `effect` refuses its options, checked in the order the options are
/// read; `None` when it plays them.
pub open spec fn effect_refusal<P>(keys: Seq<String>, has_from: bool, has_background: bool, values: EffectValues<P>) -> Option<Seq<char>> {
    if !has_key(keys, "duration"@) && !has_key(keys, "ms"@) {
        Some("effect options require `duration` or `ms`"@)
    } else if values is BadDuration {
        Some(values->BadDuration_0@)
    } else if !has_from && !has_background {
        Some("effect options require `from` or an existing background"@)
    } else if values is BadValue {
        Some(values->BadValue_0@)
    } else if unknown_effect_keys(keys, keys.len() as int).len() > 0 {
        Some("unknown effect option(s): "@ + comma_joined(unknown_effect_keys(keys, keys.len() as int)))
    } else {
        None
    }
}

fn key_present(keys: &Vec<String>, k: &str) -> (r: bool)
    ensures
        r == has_key(keys@, k@),
{
    let mut i: usize = 0;
    while i < keys.len()
        invariant
            0 <= i <= keys@.len(),
            forall|j: int| 0 <= j < i ==> (#[trigger] keys@[j])@ != k@,
        decreases keys@.len() - i,
    {
        if strings_equal(keys[i].as_str(), k) {
            return true;
        }
        i = i + 1;
    }
    false
}

fn key_read(keys: &Vec<String>, k: &str) -> (r: bool)
    ensures
        r == effect_key_read(keys@, k@),
{
    proof {
        reveal_strlit("duration");
        reveal_strlit("ms");
    }
    strings_equal(k, "duration") || (strings_equal(k, "ms") && !key_present(keys, "duration"))
        || strings_equal(k, "from") || strings_equal(k, "to") || strings_equal(k, "rule")
        || strings_equal(k, "tex0") || strings_equal(k, "tex1") || strings_equal(k, "mode")
        || strings_equal(k, "commit_to_bg") || strings_equal(k, "p0") || strings_equal(k, "p1")
        || strings_equal(k, "p2") || strings_equal(k, "p3")
}

/// The keys `effect` does not read, joined with `, `; empty when there are
/// none.
fn unknown_keys_text(keys: &Vec<String>) -> (r: (usize, String))
    ensures
        r.0 == unknown_effect_keys(keys@, keys@.len() as int).len(),
        r.1@ == comma_joined(unknown_effect_keys(keys@, keys@.len() as int)),
{
    let mut count: usize = 0;
    let mut text = String::new();
    let mut i: usize = 0;
    while i < keys.len()
        invariant
            0 <= i <= keys@.len(),
            count <= i,
            count == unknown_effect_keys(keys@, i as int).len(),
            text@ == comma_joined(unknown_effect_keys(keys@, i as int)),
        decreases keys@.len() - i,
    {
        if !key_read(keys, keys[i].as_str()) {
            let ghost before = unknown_effect_keys(keys@, i as int);
            assert(unknown_effect_keys(keys@, i + 1) == before.push(keys@[i as int]@));
            if count == 0 {
                text = keys[i].clone();
                assert(before.push(keys@[i as int]@).len() == 1);
            } else {
                let a = concat(text.as_str(), ", ");
                text = concat(a.as_str(), keys[i].as_str());
                assert(before.push(keys@[i as int]@).drop_last() =~= before);
            }
            proof {
                reveal_strlit(", ");
            }
            count = count + 1;
        }
        i = i + 1;
    }
    (count, text)
}

/// `effect(options)`: plays a custom effect. `keys` are the option map's
/// keys in its order, `has_from` whether it names a `from` texture as text,
/// `has_background` whether a background is shown, and `values` what
/// reading the option values gave.
pub fn effect<P>(
    h: &mut HostState<P>,
    keys: &Vec<String>,
    has_from: bool,
    has_background: bool,
    values: EffectValues<P>,
) -> (r: Result<EngineAction<P>, EngineError>)
    requires
        old(h).next_animation_id < u64::MAX,
    ensures
        effect_refusal(keys@, has_from, has_background, values) matches Some(m) ==> *final(h) == *old(h) && r is Err && runtime_error_is(r->Err_0, m),
        effect_refusal(keys@, has_from, has_background, values) is None ==> values is Read && r is Ok && timed_outcome(*old(h), *final(h), "effect"@, |aid: Option<String>| (ScriptCommand::PlayCustomEffect { options: values->Read_0, animation_id: aid }), r->Ok_0),
{
    if !key_present(keys, "duration") && !key_present(keys, "ms") {
        return Err(runtime_error("effect options require `duration` or `ms`"));
    }
    let options = match values {
        EffectValues::BadDuration(m) => {
            return Err(EngineError::Runtime(m));
        },
        EffectValues::BadValue(m) => {
            if !has_from && !has_background {
                return Err(runtime_error("effect options require `from` or an existing background"));
            }
            return Err(EngineError::Runtime(m));
        },
        EffectValues::Read(o) => o,
    };
    if !has_from && !has_background {
        return Err(runtime_error("effect options require `from` or an existing background"));
    }
    let (count, unknown) = unknown_keys_text(keys);
    if count > 0 {
        return Err(EngineError::Runtime(concat("unknown effect option(s): ", unknown.as_str())));
    }
    let ghost h0 = *h;
    let (mode, handle) = h.prepare_dispatch("effect");
    let ghost hm = *h;
    let ghost build = |aid: Option<String>| ScriptCommand::PlayCustomEffect { options: options, animation_id: aid };
    let command = ScriptCommand::PlayCustomEffect { options: options, animation_id: copy_handle(&handle) };
    let r = h.complete_dispatch(mode, handle, command);
    proof {
        lemma_timed_dispatch(h0, hm, *h, "effect"@, build, mode, handle, r);
    }
    Ok(r)
}

/// Shows a sprite at once.
/// `scale` is the scale's `f32` bits when it is greater than zero.
pub fn show_sprite_impl<P>(h: &HostState<P>, id: String, path: String, position: [u32; 2], scale: Option<u32>, layer: u32) -> (r: Result<EngineAction<P>, EngineError>)
    ensures
        scale is None ==> r is Err && runtime_error_is(r->Err_0, "scale must be greater than zero"@),
        !(scale is None) ==> r == Ok::<EngineAction<P>, EngineError>(send_action(*h, (ScriptCommand::ShowSprite { id: id, path: path, rect: None, position: position, layer: layer, scale: scale->0, fade: None, animation_id: None }))),
{
    let scale = match scale {
        Some(s) => s,
        None => {
            return Err(runtime_error("scale must be greater than zero"));
        },
    };
    Ok(h.send_only(ScriptCommand::ShowSprite { id: id, path: path, rect: None, position: position, layer: layer, scale: scale, fade: None, animation_id: None }))
}

/// Fades a sprite in.
pub fn show_fade_impl<P>(h: &mut HostState<P>, id: String, path: String, position: [u32; 2], scale: Option<u32>, layer: u32, ms: i64) -> (r: Result<EngineAction<P>, EngineError>)
    requires
        old(h).next_animation_id < u64::MAX,
    ensures
        millis_duration(ms) is None ==> *final(h) == *old(h) && r is Err && runtime_error_is(r->Err_0, "duration cannot be negative"@),
        !(millis_duration(ms) is None) && scale is None ==> *final(h) == *old(h) && r is Err && runtime_error_is(r->Err_0, "scale must be greater than zero"@),
        !(millis_duration(ms) is None) && !(scale is None) ==> r is Ok && timed_outcome(*old(h), *final(h), "show"@, |aid: Option<String>| (ScriptCommand::ShowSprite { id: id, path: path, rect: None, position: position, layer: layer, scale: scale->0, fade: Some(millis_duration(ms)->0), animation_id: aid }), r->Ok_0),
{
    let fade = match duration_from_millis(ms) {
        Ok(d) => d,
        Err(e) => {
            return Err(e);
        },
    };
    let scale = match scale {
        Some(s) => s,
        None => {
            return Err(runtime_error("scale must be greater than zero"));
        },
    };
    let ghost h0 = *h;
    let (mode, handle) = h.prepare_dispatch("show");
    let ghost hm = *h;
    let ghost build = |aid: Option<String>| ScriptCommand::ShowSprite { id: id, path: path, rect: None, position: position, layer: layer, scale: scale, fade: Some(fade), animation_id: aid };
    let command = ScriptCommand::ShowSprite { id: id, path: path, rect: None, position: position, layer: layer, scale: scale, fade: Some(fade), animation_id: copy_handle(&handle) };
    let r = h.complete_dispatch(mode, handle, command);
    proof {
        lemma_timed_dispatch(h0, hm, *h, "show"@, build, mode, handle, r);
    }
    Ok(r)
}

/// `hide(id)`: hides a sprite at once.
pub fn hide_sprite<P>(h: &HostState<P>, id: String) -> (r: EngineAction<P>)
    ensures
        r == send_action(*h, (ScriptCommand::HideSprite { id: id, fade: None, animation_id: None })),
{
    h.send_only(ScriptCommand::HideSprite { id: id, fade: None, animation_id: None })
}

/// `hide_fade(id, ms)`: fades a sprite out.
pub fn hide_fade<P>(h: &mut HostState<P>, id: String, ms: i64) -> (r: Result<EngineAction<P>, EngineError>)
    requires
        old(h).next_animation_id < u64::MAX,
    ensures
        millis_duration(ms) is None ==> *final(h) == *old(h) && r is Err && runtime_error_is(r->Err_0, "duration cannot be negative"@),
        !(millis_duration(ms) is None) ==> r is Ok && timed_outcome(*old(h), *final(h), "hide"@, |aid: Option<String>| (ScriptCommand::HideSprite { id: id, fade: Some(millis_duration(ms)->0), animation_id: aid }), r->Ok_0),
{
    let fade = match duration_from_millis(ms) {
        Ok(d) => d,
        Err(e) => {
            return Err(e);
        },
    };
    let ghost h0 = *h;
    let (mode, handle) = h.prepare_dispatch("hide");
    let ghost hm = *h;
    let ghost build = |aid: Option<String>| ScriptCommand::HideSprite { id: id, fade: Some(fade), animation_id: aid };
    let command = ScriptCommand::HideSprite { id: id, fade: Some(fade), animation_id: copy_handle(&handle) };
    let r = h.complete_dispatch(mode, handle, command);
    proof {
        lemma_timed_dispatch(h0, hm, *h, "hide"@, build, mode, handle, r);
    }
    Ok(r)
}

/// A sprite shown at once.
pub open spec fn sprite_shown<P>(
    h: HostState<P>,
    id: String,
    path: String,
    position: [u32; 2],
    scale: Option<u32>,
    layer: u32,
    r: Result<EngineAction<P>, EngineError>,
) -> bool {
    match scale {
        None => r is Err && runtime_error_is(r->Err_0, "scale must be greater than zero"@),
        Some(s) => r == Ok::<EngineAction<P>, EngineError>(
            send_action(
                h,
                ScriptCommand::ShowSprite {
                    id,
                    path,
                    rect: None,
                    position,
                    layer,
                    scale: s,
                    fade: None,
                    animation_id: None,
                },
            ),
        ),
    }
}

/// `show(id, path, x, y)`: shows a sprite at scale one on the base layer.
/// `position` holds the `f32` bits of `x` and `y`.
pub fn show_sprite<P>(h: &HostState<P>, id: String, path: String, position: [u32; 2]) -> (r: Result<
    EngineAction<P>,
    EngineError,
>)
    ensures
        sprite_shown(*h, id, path, position, Some(F32_ONE_BITS), 0, r),
{
    show_sprite_impl(h, id, path, position, Some(F32_ONE_BITS), 0)
}

/// `show(id, path, x, y, scale)`: shows a sprite on the base layer. `scale`
/// is the scale's `f32` bits when it is greater than zero.
pub fn show_sprite_scaled<P>(
    h: &HostState<P>,
    id: String,
    path: String,
    position: [u32; 2],
    scale: Option<u32>,
) -> (r: Result<EngineAction<P>, EngineError>)
    ensures
        sprite_shown(*h, id, path, position, scale, 0, r),
{
    show_sprite_impl(h, id, path, position, scale, 0)
}

/// `show(id, path, x, y, scale, layer)`: `layer` is the layer's `f32` bits.
pub fn show_sprite_layered<P>(
    h: &HostState<P>,
    id: String,
    path: String,
    position: [u32; 2],
    scale: Option<u32>,
    layer: u32,
) -> (r: Result<EngineAction<P>, EngineError>)
    ensures
        sprite_shown(*h, id, path, position, scale, layer, r),
{
    show_sprite_impl(h, id, path, position, scale, layer)
}

/// A sprite faded in over `ms`.
pub open spec fn sprite_faded_in<P>(
    h0: HostState<P>,
    h1: HostState<P>,
    id: String,
    path: String,
    position: [u32; 2],
    scale: Option<u32>,
    layer: u32,
    ms: i64,
    r: Result<EngineAction<P>, EngineError>,
) -> bool {
    match millis_duration(ms) {
        None => h1 == h0 && r is Err && runtime_error_is(r->Err_0, "duration cannot be negative"@),
        Some(d) => match scale {
            None => h1 == h0 && r is Err && runtime_error_is(
                r->Err_0,
                "scale must be greater than zero"@,
            ),
            Some(s) => r is Ok && timed_outcome(
                h0,
                h1,
                "show"@,
                |aid: Option<String>|
                    (ScriptCommand::ShowSprite {
                        id,
                        path,
                        rect: None,
                        position,
                        layer,
                        scale: s,
                        fade: Some(d),
                        animation_id: aid,
                    }),
                r->Ok_0,
            ),
        },
    }
}

/// `show_fade(id, path, x, y, ms)`: fades a sprite in at scale one.
pub fn show_fade<P>(h: &mut HostState<P>, id: String, path: String, position: [u32; 2], ms: i64) -> (r:
    Result<EngineAction<P>, EngineError>)
    requires
        old(h).next_animation_id < u64::MAX,
    ensures
        sprite_faded_in(*old(h), *final(h), id, path, position, Some(F32_ONE_BITS), 0, ms, r),
{
    show_fade_impl(h, id, path, position, Some(F32_ONE_BITS), 0, ms)
}

/// `show_fade(id, path, x, y, scale, ms)`: fades a sprite in.
pub fn show_fade_scaled<P>(
    h: &mut HostState<P>,
    id: String,
    path: String,
    position: [u32; 2],
    scale: Option<u32>,
    ms: i64,
) -> (r: Result<EngineAction<P>, EngineError>)
    requires
        old(h).next_animation_id < u64::MAX,
    ensures
        sprite_faded_in(*old(h), *final(h), id, path, position, scale, 0, ms, r),
{
    show_fade_impl(h, id, path, position, scale, 0, ms)
}

/// `show_fade(id, path, x, y, scale, layer, ms)`: fades a sprite in.
pub fn show_fade_layered<P>(
    h: &mut HostState<P>,
    id: String,
    path: String,
    position: [u32; 2],
    scale: Option<u32>,
    layer: u32,
    ms: i64,
) -> (r: Result<EngineAction<P>, EngineError>)
    requires
        old(h).next_animation_id < u64::MAX,
    ensures
        sprite_faded_in(*old(h), *final(h), id, path, position, scale, layer, ms, r),
{
    show_fade_impl(h, id, path, position, scale, layer, ms)
}

/// A character shown as actor `actor_id`, faded in over `ms` when given.
pub open spec fn character_shown<P>(
    h0: HostState<P>,
    h1: HostState<P>,
    actor_id: String,
    name: String,
    position: [u32; 2],
    scale: Option<u32>,
    ms: Option<i64>,
    r: Result<EngineAction<P>, EngineError>,
) -> bool {
    match scale {
        None => h1 == h0 && r is Err && runtime_error_is(r->Err_0, "scale must be greater than zero"@),
        Some(s) => if ms matches Some(m) && millis_duration(m) is None {
            h1 == h0 && r is Err && runtime_error_is(r->Err_0, "duration cannot be negative"@)
        } else {
            r is Ok && exists|e: Vec<String>|
                e@.len() == 0 && timed_outcome(
                    h0,
                    h1,
                    "character-show"@,
                    |aid: Option<String>|
                        (ScriptCommand::ShowCharacter {
                            actor_id,
                            character_name: name,
                            expressions: e,
                            position,
                            scale: s,
                            fade: match ms {
                                Some(m) => millis_duration(m),
                                None => None,
                            },
                            animation_id: aid,
                        }),
                    r->Ok_0,
                )
        },
    }
}

/// Shows a character as actor `actor_id`; `scale` is the scale's `f32` bits
/// when it is greater than zero.
pub fn show_character_impl<P>(
    h: &mut HostState<P>,
    actor_id: String,
    name: String,
    position: [u32; 2],
    scale: Option<u32>,
    ms: Option<i64>,
) -> (r: Result<EngineAction<P>, EngineError>)
    requires
        old(h).next_animation_id < u64::MAX,
    ensures
        character_shown(*old(h), *final(h), actor_id, name, position, scale, ms, r),
{
    let scale = match scale {
        Some(s) => s,
        None => {
            return Err(runtime_error("scale must be greater than zero"));
        },
    };
    let fade = match ms {
        Some(m) => match duration_from_millis(m) {
            Ok(d) => Some(d),
            Err(e) => {
                return Err(e);
            },
        },
        None => None,
    };
    let ghost h0 = *h;
    let (mode, handle) = h.prepare_dispatch("character-show");
    let ghost hm = *h;
    let expressions: Vec<String> = Vec::new();
    let ghost e = expressions;
    let ghost build = |aid: Option<String>|
        ScriptCommand::ShowCharacter {
            actor_id: actor_id,
            character_name: name,
            expressions: e,
            position: position,
            scale: scale,
            fade: fade,
            animation_id: aid,
        };
    let command = ScriptCommand::ShowCharacter {
        actor_id,
        character_name: name,
        expressions,
        position,
        scale,
        fade,
        animation_id: copy_handle(&handle),
    };
    let r = h.complete_dispatch(mode, handle, command);
    proof {
        lemma_timed_dispatch(h0, hm, *h, "character-show"@, build, mode, handle, r);
    }
    assert(e@.len() == 0);
    Ok(r)
}

/// `show_character(name, x, y, scale)`: an actor of the same name.
pub fn show_character<P>(h: &mut HostState<P>, name: String, position: [u32; 2], scale: Option<u32>) -> (r:
    Result<EngineAction<P>, EngineError>)
    requires
        old(h).next_animation_id < u64::MAX,
    ensures
        character_shown(*old(h), *final(h), name, name, position, scale, None, r),
{
    show_character_impl(h, name.clone(), name, position, scale, None)
}

/// `show_character(name, ...)` is `show_character_as(name, name, ...)`:
/// the actor is named after the character, shown without expressions and
/// without a fade; the call succeeds exactly when the scale is positive.
pub proof fn law_show_character_is_show_character_as<P>(
    h0: HostState<P>,
    h1: HostState<P>,
    name: String,
    position: [u32; 2],
    scale: Option<u32>,
    r: Result<EngineAction<P>, EngineError>,
)
    requires
        character_shown(h0, h1, name, name, position, scale, None, r),
    ensures
        r is Ok <==> scale is Some,
        scale matches Some(s) ==> exists|e: Vec<String>|
            e@.len() == 0 && timed_outcome(
                h0,
                h1,
                "character-show"@,
                |aid: Option<String>|
                    (ScriptCommand::ShowCharacter {
                        actor_id: name,
                        character_name: name,
                        expressions: e,
                        position,
                        scale: s,
                        fade: None,
                        animation_id: aid,
                    }),
                r->Ok_0,
            ),
{
}

/// `show_character(name, x, y, scale, ms)`: fades in an actor of the same
/// name.
pub fn show_character_fade<P>(
    h: &mut HostState<P>,
    name: String,
    position: [u32; 2],
    scale: Option<u32>,
    ms: i64,
) -> (r: Result<EngineAction<P>, EngineError>)
    requires
        old(h).next_animation_id < u64::MAX,
    ensures
        character_shown(*old(h), *final(h), name, name, position, scale, Some(ms), r),
{
    show_character_impl(h, name.clone(), name, position, scale, Some(ms))
}

/// `show_character(actor, name, x, y, scale)`.
pub fn show_character_as<P>(
    h: &mut HostState<P>,
    actor_id: String,
    name: String,
    position: [u32; 2],
    scale: Option<u32>,
) -> (r: Result<EngineAction<P>, EngineError>)
    requires
        old(h).next_animation_id < u64::MAX,
    ensures
        character_shown(*old(h), *final(h), actor_id, name, position, scale, None, r),
{
    show_character_impl(h, actor_id, name, position, scale, None)
}

/// `show_character(actor, name, x, y, scale, ms)`.
pub fn show_character_as_fade<P>(
    h: &mut HostState<P>,
    actor_id: String,
    name: String,
    position: [u32; 2],
    scale: Option<u32>,
    ms: i64,
) -> (r: Result<EngineAction<P>, EngineError>)
    requires
        old(h).next_animation_id < u64::MAX,
    ensures
        character_shown(*old(h), *final(h), actor_id, name, position, scale, Some(ms), r),
{
    show_character_impl(h, actor_id, name, position, scale, Some(ms))
}

/// `hide_character(actor)`: removes an actor.
pub fn hide_character<P>(h: &HostState<P>, actor_id: String) -> (r: EngineAction<P>)
    ensures
        r == send_action(*h, (ScriptCommand::HideCharacter { actor_id: actor_id })),
{
    h.send_only(ScriptCommand::HideCharacter { actor_id: actor_id })
}

/// Why `animate` refuses an actor that is not on screen.
pub open spec fn actor_not_shown_message(actor_id: Seq<char>) -> Seq<char> {
    "character actor `"@ + actor_id + "` is not shown"@
}

/// `animate(actor, keyframes)`: plays keyframes parsed against the actor's
/// current position. `shown` tells whether the actor is on screen (its
/// position is known); `keyframes` are the keyframes resolved against that
/// position, or the message of why they could not be read.
pub fn animate<P>(h: &mut HostState<P>, actor_id: String, shown: bool, keyframes: Result<P, String>) -> (r: Result<EngineAction<P>, EngineError>)
    requires
        old(h).next_animation_id < u64::MAX,
    ensures
        !shown ==> *final(h) == *old(h) && r is Err && runtime_error_is(r->Err_0, actor_not_shown_message(actor_id@)),
        shown && keyframes is Err ==> *final(h) == *old(h) && r is Err && runtime_error_is(r->Err_0, keyframes->Err_0@),
        shown && keyframes is Ok ==> r is Ok && timed_outcome(*old(h), *final(h), "character-animate"@, |aid: Option<String>| (ScriptCommand::AnimateCharacter { actor_id: actor_id, keyframes: keyframes->Ok_0, animation_id: aid }), r->Ok_0),
{
    if !shown {
        let a = concat("character actor `", actor_id.as_str());
        return Err(EngineError::Runtime(concat(a.as_str(), "` is not shown")));
    }
    let keyframes = match keyframes {
        Ok(k) => k,
        Err(m) => {
            return Err(EngineError::Runtime(m));
        },
    };
    let ghost h0 = *h;
    let (mode, handle) = h.prepare_dispatch("character-animate");
    let ghost hm = *h;
    let ghost build = |aid: Option<String>| ScriptCommand::AnimateCharacter { actor_id: actor_id, keyframes: keyframes, animation_id: aid };
    let command = ScriptCommand::AnimateCharacter { actor_id: actor_id, keyframes: keyframes, animation_id: copy_handle(&handle) };
    let r = h.complete_dispatch(mode, handle, command);
    proof {
        lemma_timed_dispatch(h0, hm, *h, "character-animate"@, build, mode, handle, r);
    }
    Ok(r)
}

/// `jump_character(actor, height, ms)`: `height` is the non-negative
/// height's `f32` bits.
pub fn jump_character<P>(h: &mut HostState<P>, actor_id: String, height: u32, ms: i64) -> (r: Result<EngineAction<P>, EngineError>)
    requires
        old(h).next_animation_id < u64::MAX,
    ensures
        millis_duration(ms) is None ==> *final(h) == *old(h) && r is Err && runtime_error_is(r->Err_0, "duration cannot be negative"@),
        !(millis_duration(ms) is None) ==> r is Ok && timed_outcome(*old(h), *final(h), "character-jump"@, |aid: Option<String>| (ScriptCommand::JumpCharacter { actor_id: actor_id, height: height, duration: millis_duration(ms)->0, animation_id: aid }), r->Ok_0),
{
    let duration = match duration_from_millis(ms) {
        Ok(d) => d,
        Err(e) => {
            return Err(e);
        },
    };
    let ghost h0 = *h;
    let (mode, handle) = h.prepare_dispatch("character-jump");
    let ghost hm = *h;
    let ghost build = |aid: Option<String>| ScriptCommand::JumpCharacter { actor_id: actor_id, height: height, duration: duration, animation_id: aid };
    let command = ScriptCommand::JumpCharacter { actor_id: actor_id, height: height, duration: duration, animation_id: copy_handle(&handle) };
    let r = h.complete_dispatch(mode, handle, command);
    proof {
        lemma_timed_dispatch(h0, hm, *h, "character-jump"@, build, mode, handle, r);
    }
    Ok(r)
}

/// `shake_character(actor, amplitude, ms)`: `amplitude` is the
/// non-negative amplitude's `f32` bits.
pub fn shake_character<P>(h: &mut HostState<P>, actor_id: String, amplitude: u32, ms: i64) -> (r: Result<EngineAction<P>, EngineError>)
    requires
        old(h).next_animation_id < u64::MAX,
    ensures
        millis_duration(ms) is None ==> *final(h) == *old(h) && r is Err && runtime_error_is(r->Err_0, "duration cannot be negative"@),
        !(millis_duration(ms) is None) ==> r is Ok && timed_outcome(*old(h), *final(h), "character-shake"@, |aid: Option<String>| (ScriptCommand::ShakeCharacter { actor_id: actor_id, amplitude: amplitude, duration: millis_duration(ms)->0, animation_id: aid }), r->Ok_0),
{
    let duration = match duration_from_millis(ms) {
        Ok(d) => d,
        Err(e) => {
            return Err(e);
        },
    };
    let ghost h0 = *h;
    let (mode, handle) = h.prepare_dispatch("character-shake");
    let ghost hm = *h;
    let ghost build = |aid: Option<String>| ScriptCommand::ShakeCharacter { actor_id: actor_id, amplitude: amplitude, duration: duration, animation_id: aid };
    let command = ScriptCommand::ShakeCharacter { actor_id: actor_id, amplitude: amplitude, duration: duration, animation_id: copy_handle(&handle) };
    let r = h.complete_dispatch(mode, handle, command);
    proof {
        lemma_timed_dispatch(h0, hm, *h, "character-shake"@, build, mode, handle, r);
    }
    Ok(r)
}

/// `screen_fade(alpha, ms)`: fades the screen overlay; `alpha` is the
/// clamped alpha's `f32` bits.
pub fn screen_fade<P>(h: &mut HostState<P>, alpha: u32, ms: i64) -> (r: Result<EngineAction<P>, EngineError>)
    requires
        old(h).next_animation_id < u64::MAX,
    ensures
        millis_duration(ms) is None ==> *final(h) == *old(h) && r is Err && runtime_error_is(r->Err_0, "duration cannot be negative"@),
        !(millis_duration(ms) is None) ==> r is Ok && timed_outcome(*old(h), *final(h), "screen-fade"@, |aid: Option<String>| (ScriptCommand::SetOverlay { alpha: alpha, fade: Some(millis_duration(ms)->0), animation_id: aid }), r->Ok_0),
{
    let fade = match duration_from_millis(ms) {
        Ok(d) => d,
        Err(e) => {
            return Err(e);
        },
    };
    let ghost h0 = *h;
    let (mode, handle) = h.prepare_dispatch("screen-fade");
    let ghost hm = *h;
    let ghost build = |aid: Option<String>| ScriptCommand::SetOverlay { alpha: alpha, fade: Some(fade), animation_id: aid };
    let command = ScriptCommand::SetOverlay { alpha: alpha, fade: Some(fade), animation_id: copy_handle(&handle) };
    let r = h.complete_dispatch(mode, handle, command);
    proof {
        lemma_timed_dispatch(h0, hm, *h, "screen-fade"@, build, mode, handle, r);
    }
    Ok(r)
}

/// `move_sprite(id, x, y, ms)`: moves a sprite to `position`.
pub fn move_sprite<P>(h: &mut HostState<P>, id: String, position: [u32; 2], ms: i64) -> (r: Result<EngineAction<P>, EngineError>)
    requires
        old(h).next_animation_id < u64::MAX,
    ensures
        millis_duration(ms) is None ==> *final(h) == *old(h) && r is Err && runtime_error_is(r->Err_0, "duration cannot be negative"@),
        !(millis_duration(ms) is None) ==> r is Ok && timed_outcome(*old(h), *final(h), "move"@, |aid: Option<String>| (ScriptCommand::MoveSprite { id: id, position: position, duration: millis_duration(ms)->0, animation_id: aid }), r->Ok_0),
{
    let duration = match duration_from_millis(ms) {
        Ok(d) => d,
        Err(e) => {
            return Err(e);
        },
    };
    let ghost h0 = *h;
    let (mode, handle) = h.prepare_dispatch("move");
    let ghost hm = *h;
    let ghost build = |aid: Option<String>| ScriptCommand::MoveSprite { id: id, position: position, duration: duration, animation_id: aid };
    let command = ScriptCommand::MoveSprite { id: id, position: position, duration: duration, animation_id: copy_handle(&handle) };
    let r = h.complete_dispatch(mode, handle, command);
    proof {
        lemma_timed_dispatch(h0, hm, *h, "move"@, build, mode, handle, r);
    }
    Ok(r)
}

/// `move_sprite_by(id, dx, dy, ms)`: moves a sprite by an offset.
/// `target` is the sprite's position plus the offset, or nothing when no
/// sprite has that id.
pub fn move_sprite_by<P>(h: &mut HostState<P>, id: String, target: Option<[u32; 2]>, ms: i64) -> (r: Result<EngineAction<P>, EngineError>)
    requires
        old(h).next_animation_id < u64::MAX,
    ensures
        millis_duration(ms) is None ==> *final(h) == *old(h) && r is Err && runtime_error_is(r->Err_0, "duration cannot be negative"@),
        !(millis_duration(ms) is None) && target is None ==> *final(h) == *old(h) && r is Err && runtime_error_is(r->Err_0, "sprite `"@ + id@ + "` not found"@),
        !(millis_duration(ms) is None) && !(target is None) ==> r is Ok && timed_outcome(*old(h), *final(h), "move"@, |aid: Option<String>| (ScriptCommand::MoveSprite { id: id, position: target->0, duration: millis_duration(ms)->0, animation_id: aid }), r->Ok_0),
{
    let duration = match duration_from_millis(ms) {
        Ok(d) => d,
        Err(e) => {
            return Err(e);
        },
    };
    let position = match target {
        Some(p) => p,
        None => {
            let a = concat("sprite `", id.as_str());
            return Err(EngineError::Runtime(concat(a.as_str(), "` not found")));
        },
    };
    let ghost h0 = *h;
    let (mode, handle) = h.prepare_dispatch("move");
    let ghost hm = *h;
    let ghost build = |aid: Option<String>| ScriptCommand::MoveSprite { id: id, position: position, duration: duration, animation_id: aid };
    let command = ScriptCommand::MoveSprite { id: id, position: position, duration: duration, animation_id: copy_handle(&handle) };
    let r = h.complete_dispatch(mode, handle, command);
    proof {
        lemma_timed_dispatch(h0, hm, *h, "move"@, build, mode, handle, r);
    }
    Ok(r)
}

/// `scale_sprite(id, scale, ms)`: `scale` is the scale's `f32` bits
/// when it is greater than zero.
pub fn scale_sprite<P>(h: &mut HostState<P>, id: String, scale: Option<u32>, ms: i64) -> (r: Result<EngineAction<P>, EngineError>)
    requires
        old(h).next_animation_id < u64::MAX,
    ensures
        millis_duration(ms) is None ==> *final(h) == *old(h) && r is Err && runtime_error_is(r->Err_0, "duration cannot be negative"@),
        !(millis_duration(ms) is None) && scale is None ==> *final(h) == *old(h) && r is Err && runtime_error_is(r->Err_0, "scale must be greater than zero"@),
        !(millis_duration(ms) is None) && !(scale is None) ==> r is Ok && timed_outcome(*old(h), *final(h), "scale"@, |aid: Option<String>| (ScriptCommand::ScaleSprite { id: id, scale: scale->0, duration: millis_duration(ms)->0, animation_id: aid }), r->Ok_0),
{
    let duration = match duration_from_millis(ms) {
        Ok(d) => d,
        Err(e) => {
            return Err(e);
        },
    };
    let scale = match scale {
        Some(s) => s,
        None => {
            return Err(runtime_error("scale must be greater than zero"));
        },
    };
    let ghost h0 = *h;
    let (mode, handle) = h.prepare_dispatch("scale");
    let ghost hm = *h;
    let ghost build = |aid: Option<String>| ScriptCommand::ScaleSprite { id: id, scale: scale, duration: duration, animation_id: aid };
    let command = ScriptCommand::ScaleSprite { id: id, scale: scale, duration: duration, animation_id: copy_handle(&handle) };
    let r = h.complete_dispatch(mode, handle, command);
    proof {
        lemma_timed_dispatch(h0, hm, *h, "scale"@, build, mode, handle, r);
    }
    Ok(r)
}

/// `fade_sprite(id, alpha, ms)`: `alpha` is the clamped alpha's `f32` bits.
pub fn fade_sprite<P>(h: &mut HostState<P>, id: String, alpha: u32, ms: i64) -> (r: Result<EngineAction<P>, EngineError>)
    requires
        old(h).next_animation_id < u64::MAX,
    ensures
        millis_duration(ms) is None ==> *final(h) == *old(h) && r is Err && runtime_error_is(r->Err_0, "duration cannot be negative"@),
        !(millis_duration(ms) is None) ==> r is Ok && timed_outcome(*old(h), *final(h), "fade"@, |aid: Option<String>| (ScriptCommand::FadeSprite { id: id, alpha: alpha, duration: millis_duration(ms)->0, animation_id: aid }), r->Ok_0),
{
    let duration = match duration_from_millis(ms) {
        Ok(d) => d,
        Err(e) => {
            return Err(e);
        },
    };
    let ghost h0 = *h;
    let (mode, handle) = h.prepare_dispatch("fade");
    let ghost hm = *h;
    let ghost build = |aid: Option<String>| ScriptCommand::FadeSprite { id: id, alpha: alpha, duration: duration, animation_id: aid };
    let command = ScriptCommand::FadeSprite { id: id, alpha: alpha, duration: duration, animation_id: copy_handle(&handle) };
    let r = h.complete_dispatch(mode, handle, command);
    proof {
        lemma_timed_dispatch(h0, hm, *h, "fade"@, build, mode, handle, r);
    }
    Ok(r)
}

/// `shake(ms, amplitude)`: shakes the screen; `amplitude` is the
/// non-negative amplitude's `f32` bits.
pub fn shake<P>(h: &mut HostState<P>, ms: i64, amplitude: u32) -> (r: Result<EngineAction<P>, EngineError>)
    requires
        old(h).next_animation_id < u64::MAX,
    ensures
        millis_duration(ms) is None ==> *final(h) == *old(h) && r is Err && runtime_error_is(r->Err_0, "duration cannot be negative"@),
        !(millis_duration(ms) is None) ==> r is Ok && timed_outcome(*old(h), *final(h), "shake"@, |aid: Option<String>| (ScriptCommand::Shake { duration: millis_duration(ms)->0, amplitude: amplitude, animation_id: aid }), r->Ok_0),
{
    let duration = match duration_from_millis(ms) {
        Ok(d) => d,
        Err(e) => {
            return Err(e);
        },
    };
    let ghost h0 = *h;
    let (mode, handle) = h.prepare_dispatch("shake");
    let ghost hm = *h;
    let ghost build = |aid: Option<String>| ScriptCommand::Shake { duration: duration, amplitude: amplitude, animation_id: aid };
    let command = ScriptCommand::Shake { duration: duration, amplitude: amplitude, animation_id: copy_handle(&handle) };
    let r = h.complete_dispatch(mode, handle, command);
    proof {
        lemma_timed_dispatch(h0, hm, *h, "shake"@, build, mode, handle, r);
    }
    Ok(r)
}

/// `pause_ms(ms)`: waits `ms` milliseconds.
pub fn pause_ms<P>(h: &mut HostState<P>, ms: i64) -> (r: Result<EngineAction<P>, EngineError>)
    requires
        old(h).next_animation_id < u64::MAX,
    ensures
        millis_duration(ms) is None ==> *final(h) == *old(h) && r is Err && runtime_error_is(r->Err_0, "duration cannot be negative"@),
        !(millis_duration(ms) is None) ==> r is Ok && timed_outcome(*old(h), *final(h), "pause"@, |aid: Option<String>| (ScriptCommand::Wait { duration: millis_duration(ms)->0, animation_id: aid }), r->Ok_0),
{
    let duration = match duration_from_millis(ms) {
        Ok(d) => d,
        Err(e) => {
            return Err(e);
        },
    };
    let ghost h0 = *h;
    let (mode, handle) = h.prepare_dispatch("pause");
    let ghost hm = *h;
    let ghost build = |aid: Option<String>| ScriptCommand::Wait { duration: duration, animation_id: aid };
    let command = ScriptCommand::Wait { duration: duration, animation_id: copy_handle(&handle) };
    let r = h.complete_dispatch(mode, handle, command);
    proof {
        lemma_timed_dispatch(h0, hm, *h, "pause"@, build, mode, handle, r);
    }
    Ok(r)
}

/// `pause(seconds)` with fractional seconds: `duration` is the span the
/// seconds stand for, or nothing when they are negative.
pub fn pause_seconds<P>(h: &mut HostState<P>, duration: Option<ScriptDuration>) -> (r: Result<
    EngineAction<P>,
    EngineError,
>)
    requires
        old(h).next_animation_id < u64::MAX,
    ensures
        duration is None ==> *final(h) == *old(h) && r is Err && runtime_error_is(
            r->Err_0,
            "duration cannot be negative"@,
        ),
        duration is Some ==> r is Ok && timed_outcome(
            *old(h),
            *final(h),
            "pause"@,
            |aid: Option<String>| (ScriptCommand::Wait { duration: duration->0, animation_id: aid }),
            r->Ok_0,
        ),
{
    let duration = match duration {
        Some(d) => d,
        None => {
            return Err(runtime_error("duration cannot be negative"));
        },
    };
    let ghost h0 = *h;
    let (mode, handle) = h.prepare_dispatch("pause");
    let ghost hm = *h;
    let ghost build = |aid: Option<String>| ScriptCommand::Wait { duration: duration, animation_id: aid };
    let command = ScriptCommand::Wait { duration, animation_id: copy_handle(&handle) };
    let r = h.complete_dispatch(mode, handle, command);
    proof {
        lemma_timed_dispatch(h0, hm, *h, "pause"@, build, mode, handle, r);
    }
    Ok(r)
}

/// `pause(seconds)` with whole seconds: the count is turned into seconds
/// as a float, as `pause(seconds)` with a fraction does, so `duration` is
/// that float's duration, or nothing when the count is negative.
pub fn pause_int<P>(h: &mut HostState<P>, duration: Option<ScriptDuration>) -> (r: Result<
    EngineAction<P>,
    EngineError,
>)
    requires
        old(h).next_animation_id < u64::MAX,
    ensures
        duration is None ==> *final(h) == *old(h) && r is Err && runtime_error_is(
            r->Err_0,
            "duration cannot be negative"@,
        ),
        duration is Some ==> r is Ok && timed_outcome(
            *old(h),
            *final(h),
            "pause"@,
            |aid: Option<String>| (ScriptCommand::Wait { duration: duration->0, animation_id: aid }),
            r->Ok_0,
        ),
{
    pause_seconds(h, duration)
}

} // verus!
