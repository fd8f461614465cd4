//! Commands the script host sends to the engine.
//!
//! Floating-point parameters travel as their `f32` bit patterns
//! (`f32::to_bits`). Payloads that only the engine interprets (screen
//! layouts, UI styles, text effects, custom effects, keyframes, settings and
//! scene snapshots) are the type parameter `P`, carried through unchanged.
use vstd::prelude::*;

use crate::ir::{commands_match, copy_strings, IrCommand, IrProgram};
use crate::stored_value::StoredValue;
use crate::tables::NamedTable;
use crate::text::strings_equal;

verus! {

/// A span of time, as `std::time::Duration` keeps it: whole seconds and the
/// nanoseconds below one second.
#[derive(Clone, Copy, Debug, PartialEq, Eq, Structural)]
pub struct ScriptDuration {
    pub secs: u64,
    pub nanos: u32,
}

/// `Duration::from_millis(ms)`.
pub open spec fn duration_of_millis(ms: u64) -> ScriptDuration {
    ScriptDuration { secs: ms / 1000, nanos: ((ms % 1000) * 1_000_000) as u32 }
}

pub fn duration_from_millis_u64(ms: u64) -> (d: ScriptDuration)
    ensures
        d == duration_of_millis(ms),
{
    ScriptDuration { secs: ms / 1000, nanos: ((ms % 1000) * 1_000_000) as u32 }
}

#[derive(Clone, Copy, Debug, PartialEq, Eq, Structural)]
pub enum CharacterEase {
    Linear,
    Ease,
    EaseIn,
    EaseOut,
    EaseInOut,
    Bounce,
}

#[derive(Clone, Copy, Debug, PartialEq, Eq, Structural)]
pub enum BatchSubmitMode {
    Sequence,
    Parallel,
}

#[derive(Debug, PartialEq)]
pub struct ChoiceOption {
    pub text: String,
    pub value: StoredValue,
}

#[derive(Debug, PartialEq)]
pub enum ScriptResponse {
    Continue,
    Choice(StoredValue),
}

#[derive(Debug)]
pub struct BatchSubmissionItem<P> {
    pub handle: String,
    pub command: Box<ScriptCommand<P>>,
}

#[derive(Debug)]
pub enum ScriptCommand<P> {
    Log(String),
    StartIr { path: String, program: IrProgram },
    StartLegacy { path: String },
    SetBackground { path: String, fade: Option<ScriptDuration>, animation_id: Option<String> },
    ShowSprite {
        id: String,
        path: String,
        rect: Option<[u32; 4]>,
        position: [u32; 2],
        layer: u32,
        scale: u32,
        fade: Option<ScriptDuration>,
        animation_id: Option<String>,
    },
    HideSprite { id: String, fade: Option<ScriptDuration>, animation_id: Option<String> },
    SetOverlay { alpha: u32, fade: Option<ScriptDuration>, animation_id: Option<String> },
    Say { speaker: String, text: String, animation_id: Option<String> },
    AwaitDialogueAdvance,
    SetDialogue {
        speaker: String,
        text: String,
        reveal_from: Option<usize>,
        animation_id: Option<String>,
    },
    ClearDialogue,
    SetTextEffect(P),
    ResetTextEffect,
    SetCamera {
        blur_intensity: Option<u32>,
        zoom: Option<u32>,
        center: Option<[u32; 2]>,
        duration: ScriptDuration,
        ease: CharacterEase,
        animation_id: Option<String>,
    },
    ApplyUserSettings(UserSettings),
    ApplyUiStyle(P),
    ResetUiStyle,
    ShowScreen { screen: P },
    WaitForScreenChoice,
    ShowOverlay { name: String, screen: P },
    HideOverlay { name: String },
    Choose { prompt: String, options: Vec<ChoiceOption> },
    ShowCharacter {
        actor_id: String,
        character_name: String,
        expressions: Vec<String>,
        position: [u32; 2],
        scale: u32,
        fade: Option<ScriptDuration>,
        animation_id: Option<String>,
    },
    HideCharacter { actor_id: String },
    JumpCharacter {
        actor_id: String,
        height: u32,
        duration: ScriptDuration,
        animation_id: Option<String>,
    },
    ShakeCharacter {
        actor_id: String,
        amplitude: u32,
        duration: ScriptDuration,
        animation_id: Option<String>,
    },
    AnimateCharacter { actor_id: String, keyframes: P, animation_id: Option<String> },
    RestoreSnapshot { snapshot: P },
    PlayCustomEffect { options: P, animation_id: Option<String> },
    RuleTransitionBg {
        path: String,
        rule_path: String,
        duration: ScriptDuration,
        vague: u32,
        animation_id: Option<String>,
    },
    MoveSprite {
        id: String,
        position: [u32; 2],
        duration: ScriptDuration,
        animation_id: Option<String>,
    },
    ScaleSprite { id: String, scale: u32, duration: ScriptDuration, animation_id: Option<String> },
    FadeSprite { id: String, alpha: u32, duration: ScriptDuration, animation_id: Option<String> },
    Wait { duration: ScriptDuration, animation_id: Option<String> },
    WaitAnimations { ids: Vec<String> },
    Shake { duration: ScriptDuration, amplitude: u32, animation_id: Option<String> },
    PlayBgm {
        path: String,
        volume: u32,
        fade_in: Option<ScriptDuration>,
        animation_id: Option<String>,
    },
    SetBgmVolume { volume: u32 },
    FadeBgm { volume: u32, duration: ScriptDuration, animation_id: Option<String> },
    StopBgm,
    PlayVoice { path: String, volume: u32, animation_id: Option<String> },
    StopVoice,
    PlaySfx { path: String, volume: u32 },
    SubmitBatch { mode: BatchSubmitMode, items: Vec<BatchSubmissionItem<P>> },
    CancelAnimations { ids: Vec<String> },
    ReturnToTitle,
    Exit,
}

/// The three user volumes, as `f32` bit patterns.
#[derive(Clone, Copy, Debug, PartialEq, Eq, Structural)]
pub struct UserSettings {
    pub bgm_volume: u32,
    pub voice_volume: u32,
    pub sfx_volume: u32,
}

/// Every command but a snapshot restore and the return to title is
/// dropped while a save is being replayed.
pub open spec fn suppressed_during_replay<P>(c: ScriptCommand<P>) -> bool {
    !(c is RestoreSnapshot || c is ReturnToTitle)
}

pub fn command_suppressed_during_replay<P>(command: &ScriptCommand<P>) -> (r: bool)
    ensures
        r == suppressed_during_replay(*command),
{
    match command {
        ScriptCommand::RestoreSnapshot { .. } | ScriptCommand::ReturnToTitle => false,
        _ => true,
    }
}

// ---------------------------------------------------------------------------
// IR commands
// ---------------------------------------------------------------------------
/// A texture definition: the image path and, for an atlas region, its
/// rectangle (`f32` bits).
#[derive(Debug, PartialEq)]
pub struct TextureDefinition {
    pub path: String,
    pub rect: Option<[u32; 4]>,
}

/// The texture catalog, by texture name.
pub struct TextureCatalog {
    pub textures: NamedTable<TextureDefinition>,
}

/// A texture as a screen shows it: its image and, for an atlas region, the
/// region.
#[derive(Debug, PartialEq)]
pub struct ScreenTexture {
    pub path: String,
    pub rect: Option<[u32; 4]>,
}

impl TextureCatalog {
    pub closed spec fn wf(&self) -> bool {
        self.textures.wf()
    }

    /// The texture defined under `name`.
    pub fn resolve_texture(&self, name: &String) -> (r: Result<ScreenTexture, String>)
        requires
            self.textures.wf(),
        ensures
            self.textures@.contains_key(name@) ==> (r matches Ok(t) && t.path@
                == self.textures@[name@].path@ && t.rect == self.textures@[name@].rect),
            !self.textures@.contains_key(name@) ==> r is Err && r->Err_0@ == "texture `"@ + name@
                + "` is not defined"@,
    {
        match self.textures.get(name) {
            Some(t) => Ok(ScreenTexture { path: t.path.clone(), rect: t.rect }),
            None => {
                let a = crate::text::concat("texture `", name.as_str());
                Err(crate::text::concat(a.as_str(), "` is not defined"))
            },
        }
    }

    /// The image of a texture that is a whole image, not an atlas region.
    pub fn resolve_image_path(&self, name: &String) -> (r: Result<String, String>)
        requires
            self.textures.wf(),
        ensures
            !self.textures@.contains_key(name@) ==> r is Err && r->Err_0@ == "texture `"@ + name@
                + "` is not defined"@,
            self.textures@.contains_key(name@) && self.textures@[name@].rect is Some ==> r is Err
                && r->Err_0@ == "texture `"@ + name@
                + "` is an atlas region and cannot be used where a full image is required"@,
            self.textures@.contains_key(name@) && self.textures@[name@].rect is None ==> (r matches Ok(
                p,
            ) && p@ == self.textures@[name@].path@),
    {
        let texture = match self.resolve_texture(name) {
            Ok(t) => t,
            Err(e) => {
                return Err(e);
            },
        };
        if texture.rect.is_some() {
            let a = crate::text::concat("texture `", name.as_str());
            return Err(
                crate::text::concat(
                    a.as_str(),
                    "` is an atlas region and cannot be used where a full image is required",
                ),
            );
        }
        Ok(texture.path)
    }
}

/// The audio catalog: the files of music, voices and sound effects, by name.
pub struct AudioCatalog {
    pub music: NamedTable<String>,
    pub voices: NamedTable<String>,
    pub sfx: NamedTable<String>,
}

/// Looking a name up in one part of the audio catalog.
pub open spec fn audio_lookup(table: Map<Seq<char>, String>, what: Seq<char>, name: Seq<char>, r: Result<
    String,
    String,
>) -> bool {
    if table.contains_key(name) {
        r is Ok && r->Ok_0@ == table[name]@
    } else {
        r is Err && r->Err_0@ == what + " `"@ + name + "` is not defined"@
    }
}

fn lookup_audio(table: &NamedTable<String>, what: &str, name: &String) -> (r: Result<String, String>)
    requires
        table.wf(),
    ensures
        audio_lookup(table@, what@, name@, r),
{
    match table.get(name) {
        Some(path) => Ok(path.clone()),
        None => {
            let a = crate::text::concat(what, " `");
            let b = crate::text::concat(a.as_str(), name.as_str());
            Err(crate::text::concat(b.as_str(), "` is not defined"))
        },
    }
}

impl AudioCatalog {
    pub fn resolve_music(&self, name: &String) -> (r: Result<String, String>)
        requires
            self.music.wf(),
        ensures
            audio_lookup(self.music@, "music"@, name@, r),
    {
        lookup_audio(&self.music, "music", name)
    }

    pub fn resolve_voice(&self, name: &String) -> (r: Result<String, String>)
        requires
            self.voices.wf(),
        ensures
            audio_lookup(self.voices@, "voice"@, name@, r),
    {
        lookup_audio(&self.voices, "voice", name)
    }

    pub fn resolve_sfx(&self, name: &String) -> (r: Result<String, String>)
        requires
            self.sfx.wf(),
        ensures
            audio_lookup(self.sfx@, "sfx"@, name@, r),
    {
        lookup_audio(&self.sfx, "sfx", name)
    }
}

/// The scene command an IR command stands for. A background names a texture
/// that the catalog must define.
pub open spec fn ir_command_result<P>(
    command: IrCommand,
    textures: Option<Map<Seq<char>, TextureDefinition>>,
    r: Result<ScriptCommand<P>, String>,
) -> bool {
    match command {
        IrCommand::Log(m) => r matches Ok(ScriptCommand::Log(x)) && x == m,
        IrCommand::ClearDialogue => r matches Ok(ScriptCommand::ClearDialogue),
        IrCommand::Say { speaker, text } => r matches Ok(
            ScriptCommand::Say { speaker: s, text: t, animation_id: None },
        ) && s == speaker && t == text,
        IrCommand::StopBgm => r matches Ok(ScriptCommand::StopBgm),
        IrCommand::ReturnToTitle => r matches Ok(ScriptCommand::ReturnToTitle),
        IrCommand::SetBackground { texture } => match textures {
            Some(t) if t.contains_key(texture@) => r matches Ok(
                ScriptCommand::SetBackground { path, fade: None, animation_id: None },
            ) && path@ == t[texture@].path@,
            _ => r matches Err(m) && m@ == "texture `"@ + texture@ + "` is not defined"@,
        },
        IrCommand::ShowCharacter {
            actor_id,
            character_name,
            expressions,
            position_bits,
            scale_bits,
        } => r matches Ok(
            ScriptCommand::ShowCharacter {
                actor_id: a,
                character_name: n,
                expressions: e,
                position: p,
                scale: s,
                fade: None,
                animation_id: None,
            },
        ) && a == actor_id && n == character_name && e@ == expressions@ && p == position_bits && s
            == scale_bits,
    }
}

/// Maps an IR command to the scene command it stands for.
pub fn script_command_from_ir<P>(command: IrCommand, textures: Option<&TextureCatalog>) -> (r:
    Result<ScriptCommand<P>, String>)
    requires
        textures matches Some(c) ==> c.textures.wf(),
    ensures
        ir_command_result(
            command,
            match textures {
                Some(c) => Some(c.textures@),
                None => None,
            },
            r,
        ),
{
    match command {
        IrCommand::Log(message) => Ok(ScriptCommand::Log(message)),
        IrCommand::ClearDialogue => Ok(ScriptCommand::ClearDialogue),
        IrCommand::Say { speaker, text } => Ok(ScriptCommand::Say { speaker, text, animation_id: None }),
        IrCommand::StopBgm => Ok(ScriptCommand::StopBgm),
        IrCommand::ReturnToTitle => Ok(ScriptCommand::ReturnToTitle),
        IrCommand::SetBackground { texture } => {
            let found = match textures {
                Some(catalog) => catalog.textures.get(&texture),
                None => None,
            };
            match found {
                Some(definition) => Ok(
                    ScriptCommand::SetBackground {
                        path: definition.path.clone(),
                        fade: None,
                        animation_id: None,
                    },
                ),
                None => {
                    let a = crate::text::concat("texture `", texture.as_str());
                    Err(crate::text::concat(a.as_str(), "` is not defined"))
                },
            }
        },
        IrCommand::ShowCharacter {
            actor_id,
            character_name,
            expressions,
            position_bits,
            scale_bits,
        } => Ok(
            ScriptCommand::ShowCharacter {
                actor_id,
                character_name,
                expressions,
                position: position_bits,
                scale: scale_bits,
                fade: None,
                animation_id: None,
            },
        ),
    }
}

/// The easing a camera command names.
pub open spec fn camera_ease(name: Seq<char>) -> Option<CharacterEase> {
    if name == ""@ || name == "linear"@ {
        Some(CharacterEase::Linear)
    } else if name == "ease"@ {
        Some(CharacterEase::Ease)
    } else if name == "ease_in"@ {
        Some(CharacterEase::EaseIn)
    } else if name == "ease_out"@ {
        Some(CharacterEase::EaseOut)
    } else if name == "ease_in_out"@ {
        Some(CharacterEase::EaseInOut)
    } else if name == "bounce"@ {
        Some(CharacterEase::Bounce)
    } else {
        None
    }
}

pub fn parse_ir_camera_ease(name: &str) -> (r: Result<CharacterEase, String>)
    ensures
        match camera_ease(name@) {
            Some(e) => r == Ok::<CharacterEase, String>(e),
            None => r matches Err(m) && m@ == "unsupported camera easing `"@ + name@ + "`"@,
        },
{
    if strings_equal(name, "") || strings_equal(name, "linear") {
        Ok(CharacterEase::Linear)
    } else if strings_equal(name, "ease") {
        Ok(CharacterEase::Ease)
    } else if strings_equal(name, "ease_in") {
        Ok(CharacterEase::EaseIn)
    } else if strings_equal(name, "ease_out") {
        Ok(CharacterEase::EaseOut)
    } else if strings_equal(name, "ease_in_out") {
        Ok(CharacterEase::EaseInOut)
    } else if strings_equal(name, "bounce") {
        Ok(CharacterEase::Bounce)
    } else {
        let a = crate::text::concat("unsupported camera easing `", name);
        Err(crate::text::concat(a.as_str(), "`"))
    }
}

/// The easing an `animate` keyframe names.
pub open spec fn character_ease(name: Seq<char>) -> Option<CharacterEase> {
    if name == "linear"@ {
        Some(CharacterEase::Linear)
    } else if name == "ease"@ {
        Some(CharacterEase::Ease)
    } else if name == "ease_in"@ || name == "easein"@ {
        Some(CharacterEase::EaseIn)
    } else if name == "ease_out"@ || name == "easeout"@ {
        Some(CharacterEase::EaseOut)
    } else if name == "ease_in_out"@ || name == "easeinout"@ {
        Some(CharacterEase::EaseInOut)
    } else if name == "bounce"@ {
        Some(CharacterEase::Bounce)
    } else {
        None
    }
}

/// Reads an `animate` keyframe's easing name.
pub fn parse_character_ease(name: &str) -> (r: Result<CharacterEase, String>)
    ensures
        match character_ease(name@) {
            Some(e) => r == Ok::<CharacterEase, String>(e),
            None => r matches Err(m) && m@ == "unknown animation ease `"@ + name@ + "`"@,
        },
{
    if strings_equal(name, "linear") {
        Ok(CharacterEase::Linear)
    } else if strings_equal(name, "ease") {
        Ok(CharacterEase::Ease)
    } else if strings_equal(name, "ease_in") || strings_equal(name, "easein") {
        Ok(CharacterEase::EaseIn)
    } else if strings_equal(name, "ease_out") || strings_equal(name, "easeout") {
        Ok(CharacterEase::EaseOut)
    } else if strings_equal(name, "ease_in_out") || strings_equal(name, "easeinout") {
        Ok(CharacterEase::EaseInOut)
    } else if strings_equal(name, "bounce") {
        Ok(CharacterEase::Bounce)
    } else {
        let a = crate::text::concat("unknown animation ease `", name);
        Err(crate::text::concat(a.as_str(), "`"))
    }
}

/// A choice option as the script wrote it: its text, and the value the
/// choice gives back, which is the text itself unless one is given.
pub fn choice_option(text: String, value: Option<StoredValue>) -> (o: ChoiceOption)
    ensures
        o.text == text,
        value matches Some(v) ==> o.value == v,
        value is None ==> o.value == StoredValue::String(text),
{
    match value {
        Some(v) => ChoiceOption { text, value: v },
        None => ChoiceOption { value: StoredValue::String(text.clone()), text },
    }
}

} // verus!
