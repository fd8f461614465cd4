//! The script API for the story's flow: messages, choices and screens,
//! overlays, globals, settings, saving and loading, and moving between
//! scripts.
use vstd::prelude::*;

use crate::host::{
    checkpoint_decision, checkpoint_step, continue_action, replayed_input, replaying, runtime_error,
    runtime_error_is, send_action, sent, with_checkpoint, CheckpointDecision, CheckpointState,
    EngineAction, EngineError, HostState, ReplayState, SaveCheckpoint, SavedInput,
    ScriptFlowAction, ScriptPosition, copy_checkpoint,
};
use crate::script_command::{ChoiceOption, ScriptCommand, ScriptResponse, UserSettings};
use crate::stored_value::StoredValue;
use crate::tables::NamedTable;
use crate::text::{concat, strings_equal};

verus! {

/// `log(message)`: writes a message to the engine's log.
pub fn log<P>(h: &HostState<P>, message: String) -> (r: EngineAction<P>)
    ensures
        r == send_action(*h, ScriptCommand::Log(message)),
{
    h.send_only(ScriptCommand::Log(message))
}

/// `clear_text()`: clears the dialogue box.
pub fn clear_text<P>(h: &HostState<P>) -> (r: EngineAction<P>)
    ensures
        r == send_action(*h, ScriptCommand::ClearDialogue),
{
    h.send_only(ScriptCommand::ClearDialogue)
}

/// What `save_point(label)` does: it counts a checkpoint of kind
/// `save_point` with the label, and changes nothing else.
pub open spec fn save_point_counted<P>(h0: HostState<P>, h1: HostState<P>, label: String, position: ScriptPosition) -> bool {
    &&& checkpoint_step(h0.checkpoint, h1.checkpoint, h0.current_script, "save_point"@, Some(label), position)
    &&& h1 == with_checkpoint(h0, h1.checkpoint)
}

/// `save_point(label)`: counts a labelled checkpoint a save can return to.
pub fn save_point<P>(h: &mut HostState<P>, label: String, position: ScriptPosition)
    requires
        old(h).checkpoint.ordinal < u64::MAX,
    ensures
        save_point_counted(*old(h), *final(h), label, position),
{
    let _ = h.checkpoint("save_point", Some(label), position);
}

/// `checkpoint(label)`: the same as `save_point(label)`.
pub fn checkpoint<P>(h: &mut HostState<P>, label: String, position: ScriptPosition)
    requires
        old(h).checkpoint.ordinal < u64::MAX,
    ensures
        save_point_counted(*old(h), *final(h), label, position),
{
    save_point(h, label, position)
}

/// `checkpoint(label)` is `save_point(label)`: both count one checkpoint
/// of kind `save_point` under the label, one past the last, and leave the
/// rest of the host as it was.
pub proof fn law_checkpoint_is_save_point<P>(h0: HostState<P>, h1: HostState<P>, label: String, position: ScriptPosition)
    requires
        save_point_counted(h0, h1, label, position),
    ensures
        h1.checkpoint.ordinal == h0.checkpoint.ordinal + 1,
        h1.checkpoint.current matches Some(c) && c.kind@ == "save_point"@ && c.label == Some(label)
            && c.script == h0.current_script && c.position == position,
        h1.current_script == h0.current_script && h1.globals == h0.globals && h1.script_stack
            == h0.script_stack && h1.batch == h0.batch && h1.next_animation_id == h0.next_animation_id,
{
}

// ---------------------------------------------------------------------------
// Choices and screens
// ---------------------------------------------------------------------------
/// How an interactive request starts.
#[derive(Debug)]
pub enum InputStart<P> {
    /// A save is being replayed: the value recorded for this input.
    Replayed(StoredValue),
    /// Ask the engine with this action, then pass its answer to
    /// `record_response`.
    Ask(EngineAction<P>),
}

/// The value an interactive request produced, when it produced one.
pub open spec fn input_value<P>(r: Result<InputStart<P>, EngineError>) -> Result<StoredValue, EngineError> {
    match r {
        Ok(InputStart::Replayed(v)) => Ok(v),
        Ok(InputStart::Ask(_)) => Err(EngineError::Flow(ScriptFlowAction::EngineStopped)),
        Err(e) => Err(e),
    }
}

/// An interactive request of `kind`: it counts a checkpoint. While a save
/// is replayed up to a later checkpoint, the value recorded for this one is
/// handed back; otherwise the engine is asked with `command`.
pub open spec fn input_requested<P>(
    h0: HostState<P>,
    h1: HostState<P>,
    kind: Seq<char>,
    position: ScriptPosition,
    command: ScriptCommand<P>,
    r: Result<InputStart<P>, EngineError>,
) -> bool {
    &&& h1 == with_checkpoint(h0, h1.checkpoint)
    &&& checkpoint_decision(h0.checkpoint, h0.current_script) == CheckpointDecision::Run ==> {
        &&& checkpoint_step(h0.checkpoint, h1.checkpoint, h0.current_script, kind, None, position)
        &&& r == Ok::<InputStart<P>, EngineError>(
            InputStart::Ask(EngineAction::SendAndWait(sent(h1, command))),
        )
    }
    &&& checkpoint_decision(h0.checkpoint, h0.current_script) == CheckpointDecision::ReplaySkip
        ==> {
        &&& !(r matches Ok(InputStart::Ask(_)))
        &&& exists|c1: CheckpointState|
            checkpoint_step(h0.checkpoint, c1, h0.current_script, kind, None, position)
                && replayed_input(c1, h1.checkpoint, kind, input_value(r))
    }
}

fn request_input<P>(
    h: &mut HostState<P>,
    kind: &str,
    command: ScriptCommand<P>,
    position: ScriptPosition,
) -> (r: Result<InputStart<P>, EngineError>)
    requires
        old(h).checkpoint.ordinal < u64::MAX,
    ensures
        input_requested(*old(h), *final(h), kind@, position, command, r),
{
    if h.checkpoint(kind, None, position) == CheckpointDecision::ReplaySkip {
        let ghost c1 = h.checkpoint;
        let replayed = h.checkpoint.replay_input(kind);
        let r = match replayed {
            Ok(v) => Ok(InputStart::Replayed(v)),
            Err(e) => Err(e),
        };
        assert(input_value(r) == replayed);
        return r;
    }
    let action = EngineAction::SendAndWait(h.send(command));
    Ok(InputStart::Ask(action))
}

/// The answer to an interactive request: a choice is logged against the
/// current checkpoint and returned.
pub fn record_response<P>(h: &mut HostState<P>, response: ScriptResponse) -> (r: Result<
    StoredValue,
    EngineError,
>)
    ensures
        response is Continue ==> *final(h) == *old(h) && r is Err && runtime_error_is(
            r->Err_0,
            "engine returned unexpected continue response"@,
        ),
        response matches ScriptResponse::Choice(v) ==> r == Ok::<StoredValue, EngineError>(v)
            && final(h).checkpoint.current == old(h).checkpoint.current
            && final(h).checkpoint.ordinal == old(h).checkpoint.ordinal
            && final(h).checkpoint.replay == old(h).checkpoint.replay
            && (old(h).checkpoint.current is None ==> final(h).checkpoint.input_log == old(
            h).checkpoint.input_log) && (old(h).checkpoint.current matches Some(c)
            ==> final(h).checkpoint.input_log@.len() == old(h).checkpoint.input_log@.len() + 1
            && final(h).checkpoint.input_log@.drop_last() == old(h).checkpoint.input_log@
            && final(h).checkpoint.input_log@.last().checkpoint == c
            && final(h).checkpoint.input_log@.last().value@ == v@)
            && *final(h) == with_checkpoint(*old(h), final(h).checkpoint),
{
    match response {
        ScriptResponse::Choice(value) => {
            let logged = value.duplicate();
            let ghost l0 = h.checkpoint.input_log@;
            h.checkpoint.record_input(logged);
            proof {
                if h.checkpoint.current is Some {
                    assert(h.checkpoint.input_log@.drop_last() =~= l0);
                }
            }
            Ok(value)
        },
        ScriptResponse::Continue => Err(runtime_error("engine returned unexpected continue response")),
    }
}

/// Asks the reader to choose: shared by the `choice` forms.
pub fn choice_impl<P>(
    h: &mut HostState<P>,
    prompt: String,
    options: Vec<ChoiceOption>,
    position: ScriptPosition,
) -> (r: Result<InputStart<P>, EngineError>)
    requires
        old(h).checkpoint.ordinal < u64::MAX,
    ensures
        options@.len() == 0 ==> *final(h) == *old(h) && r is Err && runtime_error_is(
            r->Err_0,
            "choice requires at least one option"@,
        ),
        options@.len() > 0 ==> input_requested(
            *old(h),
            *final(h),
            "choice"@,
            position,
            ScriptCommand::Choose { prompt, options },
            r,
        ),
{
    if options.len() == 0 {
        return Err(runtime_error("choice requires at least one option"));
    }
    request_input(h, "choice", ScriptCommand::Choose { prompt, options }, position)
}

/// `choice(options)`: asks the reader to pick one of the options.
pub fn choice<P>(h: &mut HostState<P>, options: Vec<ChoiceOption>, position: ScriptPosition) -> (r:
    Result<InputStart<P>, EngineError>)
    requires
        old(h).checkpoint.ordinal < u64::MAX,
    ensures
        options@.len() == 0 ==> *final(h) == *old(h) && r is Err && runtime_error_is(
            r->Err_0,
            "choice requires at least one option"@,
        ),
        options@.len() > 0 ==> exists|prompt: String|
            prompt@.len() == 0 && #[trigger] input_requested(
                *old(h),
                *final(h),
                "choice"@,
                position,
                ScriptCommand::Choose { prompt, options },
                r,
            ),
{
    let prompt = String::new();
    let ghost p = prompt;
    let ghost o = options;
    let ghost h0 = *h;
    let r = choice_impl(h, prompt, options, position);
    assert(p@ =~= Seq::<char>::empty());
    proof {
        if o@.len() > 0 {
            assert(input_requested(
                h0,
                *h,
                "choice"@,
                position,
                ScriptCommand::Choose { prompt: p, options: o },
                r,
            ));
        }
    }
    r
}

/// `choice(prompt, options)`: asks with a prompt.
pub fn choice_prompt<P>(
    h: &mut HostState<P>,
    prompt: String,
    options: Vec<ChoiceOption>,
    position: ScriptPosition,
) -> (r: Result<InputStart<P>, EngineError>)
    requires
        old(h).checkpoint.ordinal < u64::MAX,
    ensures
        options@.len() == 0 ==> *final(h) == *old(h) && r is Err && runtime_error_is(
            r->Err_0,
            "choice requires at least one option"@,
        ),
        options@.len() > 0 ==> input_requested(
            *old(h),
            *final(h),
            "choice"@,
            position,
            ScriptCommand::Choose { prompt, options },
            r,
        ),
{
    choice_impl(h, prompt, options, position)
}

/// `screen(spec)`: shows a screen and waits for the value of the button
/// pressed. `layout` is the parsed screen, or the error parsing it raised;
/// during a save replay it is not needed.
pub fn screen<P>(h: &mut HostState<P>, layout: Result<P, EngineError>, position: ScriptPosition) -> (r:
    Result<InputStart<P>, EngineError>)
    requires
        old(h).checkpoint.ordinal < u64::MAX,
    ensures
        layout is Ok ==> input_requested(
            *old(h),
            *final(h),
            "screen"@,
            position,
            ScriptCommand::ShowScreen { screen: layout->Ok_0 },
            r,
        ),
        layout is Err ==> *final(h) == with_checkpoint(*old(h), final(h).checkpoint) && (
        checkpoint_decision(old(h).checkpoint, old(h).current_script) == CheckpointDecision::Run
            ==> checkpoint_step(
            old(h).checkpoint,
            final(h).checkpoint,
            old(h).current_script,
            "screen"@,
            None,
            position,
        ) && r == Err::<InputStart<P>, EngineError>(layout->Err_0)) && (checkpoint_decision(
            old(h).checkpoint,
            old(h).current_script,
        ) == CheckpointDecision::ReplaySkip ==> !(r matches Ok(InputStart::Ask(_)))
            && exists|c1: CheckpointState|
            checkpoint_step(old(h).checkpoint, c1, old(h).current_script, "screen"@, None, position)
                && replayed_input(c1, final(h).checkpoint, "screen"@, input_value(r))),
{
    if h.checkpoint("screen", None, position) == CheckpointDecision::ReplaySkip {
        let replayed = h.checkpoint.replay_input("screen");
        let r = match replayed {
            Ok(v) => Ok(InputStart::Replayed(v)),
            Err(e) => Err(e),
        };
        assert(input_value(r) == replayed);
        return r;
    }
    let parsed = match layout {
        Ok(s) => s,
        Err(e) => {
            return Err(e);
        },
    };
    let action = EngineAction::SendAndWait(h.send(ScriptCommand::ShowScreen { screen: parsed }));
    Ok(InputStart::Ask(action))
}

// ---------------------------------------------------------------------------
// Overlays, styles and effects
// ---------------------------------------------------------------------------
/// `show_overlay(name, spec)`: shows a named overlay screen.
pub fn show_named_overlay<P>(h: &HostState<P>, name: String, layout: P) -> (r: EngineAction<P>)
    ensures
        r == send_action(*h, ScriptCommand::ShowOverlay { name, screen: layout }),
{
    h.send_only(ScriptCommand::ShowOverlay { name, screen: layout })
}

/// `show_overlay(spec)`: shows the overlay named `default`.
pub fn show_overlay<P>(h: &HostState<P>, layout: P) -> (r: EngineAction<P>)
    ensures
        replaying(*h) ==> r is Unit,
        !replaying(*h) ==> (r matches EngineAction::Send(ScriptCommand::ShowOverlay { name, screen })
            && name@ == "default"@ && screen == layout),
{
    show_named_overlay(h, "default".to_string(), layout)
}

/// `hide_overlay(name)`.
pub fn hide_named_overlay<P>(h: &HostState<P>, name: String) -> (r: EngineAction<P>)
    ensures
        r == send_action(*h, ScriptCommand::HideOverlay { name }),
{
    h.send_only(ScriptCommand::HideOverlay { name })
}

/// `hide_overlay()`: hides the overlay named `default`.
pub fn hide_overlay<P>(h: &HostState<P>) -> (r: EngineAction<P>)
    ensures
        replaying(*h) ==> r is Unit,
        !replaying(*h) ==> (r matches EngineAction::Send(ScriptCommand::HideOverlay { name })
            && name@ == "default"@),
{
    hide_named_overlay(h, "default".to_string())
}

/// `set_ui_style(options)`: applies a parsed style patch.
pub fn set_ui_style<P>(h: &HostState<P>, style: P) -> (r: EngineAction<P>)
    ensures
        r == send_action(*h, ScriptCommand::ApplyUiStyle(style)),
{
    h.send_only(ScriptCommand::ApplyUiStyle(style))
}

/// `reset_ui_style()`.
pub fn reset_ui_style<P>(h: &HostState<P>) -> (r: EngineAction<P>)
    ensures
        r == send_action(*h, ScriptCommand::ResetUiStyle),
{
    h.send_only(ScriptCommand::ResetUiStyle)
}

/// `set_text_effect(options)`: applies a parsed text effect.
pub fn set_text_effect<P>(h: &HostState<P>, effect: P) -> (r: EngineAction<P>)
    ensures
        r == send_action(*h, ScriptCommand::SetTextEffect(effect)),
{
    h.send_only(ScriptCommand::SetTextEffect(effect))
}

/// `reset_text_effect()`.
pub fn reset_text_effect<P>(h: &HostState<P>) -> (r: EngineAction<P>)
    ensures
        r == send_action(*h, ScriptCommand::ResetTextEffect),
{
    h.send_only(ScriptCommand::ResetTextEffect)
}

// ---------------------------------------------------------------------------
// Globals
// ---------------------------------------------------------------------------
/// Only the globals changed.
pub open spec fn globals_changed<P>(h0: HostState<P>, h1: HostState<P>) -> bool {
    h1 == (HostState { globals: h1.globals, ..h0 })
}

/// `set_global(name, value)`.
pub fn set_global<P>(h: &mut HostState<P>, name: String, value: StoredValue)
    requires
        old(h).wf(),
    ensures
        final(h).wf(),
        final(h).globals@ == old(h).globals@.insert(name@, value),
        globals_changed(*old(h), *final(h)),
{
    h.globals.insert(name, value);
}

/// `get_global(name)`: a copy of the global, if it is set.
pub fn get_global<P>(h: &HostState<P>, name: &String) -> (r: Option<StoredValue>)
    requires
        h.wf(),
    ensures
        h.globals@.contains_key(name@) ==> (r matches Some(v) && v@ == h.globals@[name@]@),
        !h.globals@.contains_key(name@) ==> r is None,
{
    match h.globals.get(name) {
        Some(v) => Some(v.duplicate()),
        None => None,
    }
}

/// `get_global_or(name, fallback)`.
pub fn get_global_or<P>(h: &HostState<P>, name: &String, fallback: StoredValue) -> (r: StoredValue)
    requires
        h.wf(),
    ensures
        h.globals@.contains_key(name@) ==> r@ == h.globals@[name@]@,
        !h.globals@.contains_key(name@) ==> r == fallback,
{
    match get_global(h, name) {
        Some(v) => v,
        None => fallback,
    }
}

/// `has_global(name)`.
pub fn has_global<P>(h: &HostState<P>, name: &String) -> (r: bool)
    requires
        h.wf(),
    ensures
        r == h.globals@.contains_key(name@),
{
    h.globals.contains(name)
}

/// `remove_global(name)`: whether the global was set.
pub fn remove_global<P>(h: &mut HostState<P>, name: &String) -> (r: bool)
    requires
        old(h).wf(),
    ensures
        final(h).wf(),
        r == old(h).globals@.contains_key(name@),
        final(h).globals@ == old(h).globals@.remove(name@),
        globals_changed(*old(h), *final(h)),
{
    h.globals.remove(name).is_some()
}

/// `clear_globals()`.
pub fn clear_globals<P>(h: &mut HostState<P>)
    requires
        old(h).wf(),
    ensures
        final(h).wf(),
        final(h).globals@ == Map::<Seq<char>, StoredValue>::empty(),
        globals_changed(*old(h), *final(h)),
{
    h.globals.clear();
}

/// Reading a global gives back the value last written under its name;
/// writing or removing one global leaves the others as they were.
pub proof fn law_global_read_returns_written(
    globals: Map<Seq<char>, StoredValue>,
    name: Seq<char>,
    value: StoredValue,
    other: Seq<char>,
)
    requires
        other != name,
    ensures
        globals.insert(name, value).contains_key(name),
        globals.insert(name, value)[name] == value,
        !globals.remove(name).contains_key(name),
        globals.insert(name, value).contains_key(other) == globals.contains_key(other),
        globals.contains_key(other) ==> globals.insert(name, value)[other] == globals[other],
        globals.remove(name).contains_key(other) == globals.contains_key(other),
{
}

// ---------------------------------------------------------------------------
// Settings
// ---------------------------------------------------------------------------
/// The setting a name stands for.
pub open spec fn setting_of(settings: UserSettings, name: Seq<char>) -> Option<u32> {
    if name == "bgm_volume"@ {
        Some(settings.bgm_volume)
    } else if name == "voice_volume"@ {
        Some(settings.voice_volume)
    } else if name == "sfx_volume"@ {
        Some(settings.sfx_volume)
    } else {
        None
    }
}

pub open spec fn unknown_setting(name: Seq<char>) -> Seq<char> {
    "unknown setting `"@ + name + "`"@
}

fn unknown_setting_error(name: &str) -> (e: EngineError)
    ensures
        runtime_error_is(e, unknown_setting(name@)),
{
    let a = concat("unknown setting `", name);
    EngineError::Runtime(concat(a.as_str(), "`"))
}

/// `get_setting(name)`: a volume's `f32` bits, from the settings read.
pub fn get_setting(name: &str, settings: &UserSettings) -> (r: Result<u32, EngineError>)
    ensures
        setting_of(*settings, name@) matches Some(v) ==> r == Ok::<u32, EngineError>(v),
        setting_of(*settings, name@) is None ==> r is Err && runtime_error_is(
            r->Err_0,
            unknown_setting(name@),
        ),
{
    if strings_equal(name, "bgm_volume") {
        Ok(settings.bgm_volume)
    } else if strings_equal(name, "voice_volume") {
        Ok(settings.voice_volume)
    } else if strings_equal(name, "sfx_volume") {
        Ok(settings.sfx_volume)
    } else {
        Err(unknown_setting_error(name))
    }
}

/// The settings with one volume replaced.
pub open spec fn with_setting(settings: UserSettings, name: Seq<char>, value: u32) -> Option<UserSettings> {
    if name == "bgm_volume"@ {
        Some(UserSettings { bgm_volume: value, ..settings })
    } else if name == "voice_volume"@ {
        Some(UserSettings { voice_volume: value, ..settings })
    } else if name == "sfx_volume"@ {
        Some(UserSettings { sfx_volume: value, ..settings })
    } else {
        None
    }
}

/// `set_setting(name, value)`: `value` is the clamped volume's `f32` bits.
/// Returns the settings to write and the action that applies them.
pub fn set_setting<P>(h: &HostState<P>, name: &str, value: u32, settings: UserSettings) -> (r: Result<
    (UserSettings, EngineAction<P>),
    EngineError,
>)
    ensures
        with_setting(settings, name@, value) matches Some(s) ==> r == Ok::<
            (UserSettings, EngineAction<P>),
            EngineError,
        >((s, send_action(*h, ScriptCommand::ApplyUserSettings(s)))),
        with_setting(settings, name@, value) is None ==> r is Err && runtime_error_is(
            r->Err_0,
            unknown_setting(name@),
        ),
{
    let mut updated = settings;
    if strings_equal(name, "bgm_volume") {
        updated.bgm_volume = value;
    } else if strings_equal(name, "voice_volume") {
        updated.voice_volume = value;
    } else if strings_equal(name, "sfx_volume") {
        updated.sfx_volume = value;
    } else {
        return Err(unknown_setting_error(name));
    }
    Ok((updated, h.send_only(ScriptCommand::ApplyUserSettings(updated))))
}

// ---------------------------------------------------------------------------
// Characters
// ---------------------------------------------------------------------------
/// `character_names()`: the characters of the project's catalog, or none
/// when the catalog could not be read.
pub fn character_names(catalog: Option<Vec<String>>) -> (r: Vec<String>)
    ensures
        catalog matches Some(names) ==> r == names,
        catalog is None ==> r@.len() == 0,
{
    match catalog {
        Some(names) => names,
        None => Vec::new(),
    }
}

/// `character_exists(name)`: whether the project's catalog defines the
/// character; false when the catalog could not be read.
pub fn character_exists(catalog: Option<&NamedTable<String>>, name: &String) -> (r: bool)
    requires
        catalog matches Some(c) ==> c.wf(),
    ensures
        r == (catalog matches Some(c) && c@.contains_key(name@)),
{
    match catalog {
        Some(c) => c.contains(name),
        None => false,
    }
}

// ---------------------------------------------------------------------------
// Saving, loading and moving between scripts
// ---------------------------------------------------------------------------
/// `save(slot)`: asks the driver to save; ignored while a save is replayed.
pub fn save<P>(h: &HostState<P>, slot: String) -> (r: Result<(), EngineError>)
    ensures
        replaying(*h) ==> r is Ok,
        !replaying(*h) ==> r == Err::<(), EngineError>(
            EngineError::Flow(ScriptFlowAction::Save { slot, resume_script: None }),
        ),
{
    if h.is_replaying() {
        return Ok(());
    }
    Err(EngineError::Flow(ScriptFlowAction::Save { slot, resume_script: None }))
}

/// `save(slot, resume)`: a save that resumes at the start of `resume`, the
/// resolved script path.
pub fn save_with_resume<P>(h: &HostState<P>, slot: String, resume: String) -> (r: Result<
    (),
    EngineError,
>)
    ensures
        replaying(*h) ==> r is Ok,
        !replaying(*h) ==> r == Err::<(), EngineError>(
            EngineError::Flow(ScriptFlowAction::Save { slot, resume_script: Some(resume) }),
        ),
{
    if h.is_replaying() {
        return Ok(());
    }
    Err(EngineError::Flow(ScriptFlowAction::Save { slot, resume_script: Some(resume) }))
}

/// What a save holds of the script host; the caller adds the seeds, the
/// random generator's state, the scope and the scene.
#[derive(Debug)]
pub struct SaveRecord {
    pub version: u32,
    pub resume_script: String,
    pub checkpoint: Option<SaveCheckpoint>,
    pub script_stack: Vec<String>,
    pub globals: NamedTable<StoredValue>,
    pub input_log: Vec<SavedInput>,
}

/// The format version of save data.
pub const SAVE_VERSION: u32 = 3;

fn copy_strings_list(v: &Vec<String>) -> (r: Vec<String>)
    ensures
        r@ == v@,
{
    let mut out: Vec<String> = Vec::new();
    let mut i: usize = 0;
    while i < v.len()
        invariant
            0 <= i <= v@.len(),
            out@ == v@.subrange(0, i as int),
        decreases v@.len() - i,
    {
        out.push(v[i].clone());
        i = i + 1;
        assert(out@ =~= v@.subrange(0, i as int));
    }
    assert(v@.subrange(0, i as int) =~= v@);
    out
}

fn copy_globals(t: &NamedTable<StoredValue>) -> (r: NamedTable<StoredValue>)
    requires
        t.wf(),
    ensures
        r.wf(),
        r@.dom() == t@.dom(),
        forall|k: Seq<char>| #[trigger] t@.contains_key(k) ==> r@[k]@ == t@[k]@,
{
    let keys = t.keys();
    let mut out: NamedTable<StoredValue> = NamedTable::new();
    let mut i: usize = 0;
    while i < keys.len()
        invariant
            t.wf(),
            out.wf(),
            0 <= i <= keys@.len(),
            keys@.len() == t@.dom().len(),
            forall|k: Seq<char>| t@.contains_key(k) <==> exists|j: int| 0 <= j < keys@.len() && (#[trigger] keys@[j])@ == k,
            forall|k: Seq<char>| #[trigger] out@.contains_key(k) <==> exists|j: int| 0 <= j < i && keys@[j]@ == k,
            forall|k: Seq<char>| #[trigger] out@.contains_key(k) ==> t@.contains_key(k) && out@[k]@ == t@[k]@,
        decreases keys@.len() - i,
    {
        let name = keys[i].clone();
        assert(t@.contains_key(keys@[i as int]@));
        let value = match t.get(&name) {
            Some(v) => v.duplicate(),
            None => StoredValue::Bool(false),
        };
        let ghost before = out@;
        out.insert(name, value);
        assert forall|k: Seq<char>| #[trigger] out@.contains_key(k) implies exists|j: int| 0 <= j < i + 1 && keys@[j]@ == k by {
            if k == keys@[i as int]@ {
                assert(keys@[i as int]@ == k);
            } else {
                assert(before.contains_key(k));
            }
        }
        assert forall|k: Seq<char>| (exists|j: int| 0 <= j < i + 1 && keys@[j]@ == k) implies #[trigger] out@.contains_key(k) by {
            let j = choose|j: int| 0 <= j < i + 1 && keys@[j]@ == k;
            if j < i {
                assert(before.contains_key(k));
            }
        }
        i = i + 1;
    }
    assert(out@.dom() =~= t@.dom());
    out
}

fn copy_input_log(v: &Vec<SavedInput>) -> (r: Vec<SavedInput>)
    ensures
        r@.len() == v@.len(),
        forall|i: int| 0 <= i < v@.len() ==> (#[trigger] r@[i]).checkpoint == v@[i].checkpoint
            && r@[i].value@ == v@[i].value@,
{
    let mut out: Vec<SavedInput> = Vec::new();
    let mut i: usize = 0;
    while i < v.len()
        invariant
            0 <= i <= v@.len(),
            out@.len() == i,
            forall|j: int| 0 <= j < i ==> (#[trigger] out@[j]).checkpoint == v@[j].checkpoint
                && out@[j].value@ == v@[j].value@,
        decreases v@.len() - i,
    {
        out.push(SavedInput { checkpoint: copy_checkpoint(&v[i].checkpoint), value: v[i].value.duplicate() });
        i = i + 1;
    }
    out
}

/// The record a save of the running script holds: it resumes at
/// `resume_script`, or at the current script, and keeps the current
/// checkpoint, the call stack, the globals and the inputs logged so far.
pub fn save_record<P>(h: &HostState<P>, resume_script: Option<String>) -> (r: SaveRecord)
    requires
        h.wf(),
    ensures
        r.version == SAVE_VERSION,
        resume_script matches Some(s) ==> r.resume_script == s,
        resume_script is None ==> r.resume_script == h.current_script,
        r.checkpoint == h.checkpoint.current,
        r.script_stack@ == h.script_stack@,
        r.globals.wf(),
        r.globals@.dom() == h.globals@.dom(),
        forall|k: Seq<char>| #[trigger] h.globals@.contains_key(k) ==> r.globals@[k]@ == h.globals@[k]@,
        r.input_log@.len() == h.checkpoint.input_log@.len(),
        forall|i: int|
            0 <= i < r.input_log@.len() ==> (#[trigger] r.input_log@[i]).checkpoint
                == h.checkpoint.input_log@[i].checkpoint && r.input_log@[i].value@
                == h.checkpoint.input_log@[i].value@,
{
    SaveRecord {
        version: SAVE_VERSION,
        resume_script: match resume_script {
            Some(s) => s,
            None => h.current_script.clone(),
        },
        checkpoint: match &h.checkpoint.current {
            Some(c) => Some(copy_checkpoint(c)),
            None => None,
        },
        script_stack: copy_strings_list(&h.script_stack),
        globals: copy_globals(&h.globals),
        input_log: copy_input_log(&h.checkpoint.input_log),
    }
}

/// What a save slot holds that the script host restores.
#[derive(Debug)]
pub struct LoadedSave<P> {
    pub resume_script: String,
    pub checkpoint: Option<SaveCheckpoint>,
    pub script_stack: Vec<String>,
    pub globals: NamedTable<StoredValue>,
    pub input_log: Vec<SavedInput>,
    pub scene: P,
}

/// The checkpoint state a loaded save starts from: a save made at a
/// checkpoint is replayed up to it with the inputs it recorded.
pub open spec fn loaded_checkpoint(c: CheckpointState, checkpoint: Option<SaveCheckpoint>, log: Vec<SavedInput>) -> bool {
    &&& c.current == checkpoint
    &&& c.ordinal == 0
    &&& c.input_log@.len() == 0
    &&& match checkpoint {
        Some(t) => c.replay == Some(ReplayState { target: t, input_log: log, input_cursor: 0 }),
        None => c.replay is None,
    }
}

/// The checkpoint state a session starts from when it resumes a save.
pub fn checkpoint_state_from_save(checkpoint: Option<SaveCheckpoint>, input_log: Vec<SavedInput>) -> (c:
    CheckpointState)
    ensures
        loaded_checkpoint(c, checkpoint, input_log),
{
    let replay = match &checkpoint {
        Some(t) => Some(ReplayState { target: copy_checkpoint(t), input_log, input_cursor: 0 }),
        None => None,
    };
    CheckpointState { current: checkpoint, ordinal: 0, input_log: Vec::new(), replay }
}

/// `load(slot)`: restores a loaded save. Returns the action that restores
/// the scene, and the script to jump to once it is restored: the script of
/// the save's checkpoint, or its resume script.
pub fn load<P>(h: &mut HostState<P>, save: LoadedSave<P>) -> (r: (EngineAction<P>, String))
    requires
        old(h).wf(),
        save.globals.wf(),
    ensures
        final(h).wf(),
        final(h).script_stack == save.script_stack,
        final(h).globals == save.globals,
        loaded_checkpoint(final(h).checkpoint, save.checkpoint, save.input_log),
        final(h).current_script == old(h).current_script,
        final(h).next_animation_id == old(h).next_animation_id,
        final(h).batch == old(h).batch,
        final(h).inline == old(h).inline,
        final(h).web == old(h).web,
        r.0 == continue_action(*final(h), ScriptCommand::RestoreSnapshot { snapshot: save.scene }),
        save.checkpoint matches Some(c) ==> r.1 == c.script,
        save.checkpoint is None ==> r.1 == save.resume_script,
{
    let resume = match &save.checkpoint {
        Some(c) => c.script.clone(),
        None => save.resume_script,
    };
    h.script_stack = save.script_stack;
    h.globals = save.globals;
    h.checkpoint = checkpoint_state_from_save(save.checkpoint, save.input_log);
    let action = h.send_continue(ScriptCommand::RestoreSnapshot { snapshot: save.scene });
    (action, resume)
}

/// `load_script(path)`: jumps to the resolved script.
pub fn load_script(resolved: String) -> (e: EngineError)
    ensures
        e == EngineError::Flow(ScriptFlowAction::Jump(resolved)),
{
    EngineError::Flow(ScriptFlowAction::Jump(resolved))
}

/// `jump_script(path)`: jumps to the resolved script.
pub fn jump_script(resolved: String) -> (e: EngineError)
    ensures
        e == EngineError::Flow(ScriptFlowAction::Jump(resolved)),
{
    EngineError::Flow(ScriptFlowAction::Jump(resolved))
}

/// `call_script(path)`: runs the resolved script, then comes back.
pub fn call_script(resolved: String) -> (e: EngineError)
    ensures
        e == EngineError::Flow(ScriptFlowAction::Call(resolved)),
{
    EngineError::Flow(ScriptFlowAction::Call(resolved))
}

/// `return_script()`: returns from a called script.
pub fn return_script() -> (e: EngineError)
    ensures
        e == EngineError::Flow(ScriptFlowAction::Return),
{
    EngineError::Flow(ScriptFlowAction::Return)
}

/// `return_to_title()`: tells the engine, then unwinds to the title.
pub fn return_to_title<P>(h: &HostState<P>) -> (r: (EngineAction<P>, EngineError))
    ensures
        r.0 == EngineAction::<P>::Send(ScriptCommand::ReturnToTitle),
        r.1 == EngineError::Flow(ScriptFlowAction::ReturnToTitle),
{
    (h.send_only(ScriptCommand::ReturnToTitle), EngineError::Flow(ScriptFlowAction::ReturnToTitle))
}

/// `quit()`: asks the engine to exit.
pub fn quit<P>(h: &HostState<P>) -> (r: EngineAction<P>)
    ensures
        r == send_action(*h, ScriptCommand::Exit),
{
    h.send_only(ScriptCommand::Exit)
}

/// `current_script()`: the path of the running script.
pub fn current_script<P>(h: &HostState<P>) -> (r: String)
    ensures
        r == h.current_script,
{
    h.current_script.clone()
}

} // verus!
