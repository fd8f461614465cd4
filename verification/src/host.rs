//! The state a running script shares with its host, and the host's
//! decisions: save-replay checkpoints, recorded inputs, `seq`/`par` batches
//! and their wait handles, animation handles, inline dialogue control and
//! script globals. Channels, threads and the script engine stay outside;
//! each decision says what must be sent and whether the script must wait.
use vstd::prelude::*;

use crate::script_command::{
    command_suppressed_during_replay, suppressed_during_replay, BatchSubmissionItem,
    BatchSubmitMode, ScriptCommand, ScriptResponse,
};
use crate::stored_value::{StoredValue, StoredValueView};
use crate::tables::NamedTable;
use crate::text::{concat, decimal_string, decimal_text};

verus! {

#[derive(Clone, Copy, Debug, PartialEq, Eq, Structural)]
pub struct ScriptPosition {
    pub line: Option<usize>,
    pub column: Option<usize>,
}

#[derive(Debug, PartialEq)]
pub struct SaveCheckpoint {
    pub script: String,
    pub ordinal: u64,
    pub kind: String,
    pub label: Option<String>,
    pub position: ScriptPosition,
}

#[derive(Debug, PartialEq)]
pub struct SavedInput {
    pub checkpoint: SaveCheckpoint,
    pub value: StoredValue,
}

#[derive(Debug, PartialEq)]
pub struct ReplayState {
    pub target: SaveCheckpoint,
    pub input_log: Vec<SavedInput>,
    pub input_cursor: usize,
}

#[derive(Debug, PartialEq)]
pub struct CheckpointState {
    pub current: Option<SaveCheckpoint>,
    pub ordinal: u64,
    pub input_log: Vec<SavedInput>,
    pub replay: Option<ReplayState>,
}

#[derive(Clone, Copy, Debug, PartialEq, Eq, Structural)]
pub enum CheckpointDecision {
    Run,
    ReplaySkip,
}

/// An error a host call raises in the script: a message, or a control-flow
/// signal that unwinds the script to its driver.
#[derive(Debug, PartialEq)]
pub enum EngineError {
    Runtime(String),
    Flow(ScriptFlowAction),
}

#[derive(Debug, PartialEq)]
pub enum ScriptFlowAction {
    Jump(String),
    Call(String),
    Save { slot: String, resume_script: Option<String> },
    Return,
    ReturnToTitle,
    EngineStopped,
}

pub open spec fn runtime_error_is(e: EngineError, message: Seq<char>) -> bool {
    e matches EngineError::Runtime(m) && m@ == message
}

pub fn runtime_error(message: &str) -> (e: EngineError)
    ensures
        runtime_error_is(e, message@),
{
    EngineError::Runtime(message.to_owned())
}

pub fn copy_checkpoint(c: &SaveCheckpoint) -> (r: SaveCheckpoint)
    ensures
        r == *c,
{
    SaveCheckpoint {
        script: c.script.clone(),
        ordinal: c.ordinal,
        kind: c.kind.clone(),
        label: match &c.label {
            Some(l) => Some(l.clone()),
            None => None,
        },
        position: c.position,
    }
}

/// Two checkpoints name the same place: script, ordinal and kind.
pub open spec fn same_checkpoint(a: SaveCheckpoint, b: SaveCheckpoint) -> bool {
    a.script@ == b.script@ && a.ordinal == b.ordinal && a.kind@ == b.kind@
}

pub fn checkpoint_matches(left: &SaveCheckpoint, right: &SaveCheckpoint) -> (r: bool)
    ensures
        r == same_checkpoint(*left, *right),
{
    left.script == right.script && left.ordinal == right.ordinal && left.kind == right.kind
}

/// What a checkpoint decides while a save is replayed towards `target`:
/// checkpoints before the target in its script are skipped, the target
/// itself ends the replay and runs.
pub open spec fn checkpoint_outcome(
    replay_target: Option<(Seq<char>, u64)>,
    script: Seq<char>,
    ordinal: u64,
) -> (CheckpointDecision, bool) {
    match replay_target {
        Some((s, t)) => if script == s && ordinal < t {
            (CheckpointDecision::ReplaySkip, false)
        } else if script == s && ordinal == t {
            (CheckpointDecision::Run, true)
        } else {
            (CheckpointDecision::Run, false)
        },
        None => (CheckpointDecision::Run, false),
    }
}

pub open spec fn replay_target(state: CheckpointState) -> Option<(Seq<char>, u64)> {
    match state.replay {
        Some(r) => Some((r.target.script@, r.target.ordinal)),
        None => None,
    }
}

/// The first recorded input at or after `from` that belongs to `current`.
pub open spec fn first_match_from(log: Seq<SavedInput>, from: nat, current: SaveCheckpoint) -> Option<
    nat,
>
    decreases log.len() - from,
{
    if from >= log.len() {
        None
    } else if same_checkpoint(log[from as int].checkpoint, current) {
        Some(from)
    } else {
        first_match_from(log, from + 1, current)
    }
}

/// What handing back a recorded input does: the value recorded for the
/// current checkpoint, at or after the replay cursor, is returned and logged
/// again, and the cursor moves past it; or an error, with nothing changed.
pub open spec fn replayed_input(
    c0: CheckpointState,
    c1: CheckpointState,
    kind: Seq<char>,
    r: Result<StoredValue, EngineError>,
) -> bool {
    match c0.current {
        None => c1 == c0 && r is Err && runtime_error_is(
            r->Err_0,
            "save replay reached an event without a checkpoint"@,
        ),
        Some(c) => if c.kind@ != kind {
            c1 == c0 && r is Err && runtime_error_is(
                r->Err_0,
                "save replay expected `"@ + kind + "` but reached `"@ + c.kind@
                    + "`"@,
            )
        } else {
            match c0.replay {
                None => c1 == c0 && r is Err && runtime_error_is(
                    r->Err_0,
                    "save replay is not active"@,
                ),
                Some(rs) => match first_match_from(rs.input_log@, rs.input_cursor as nat, c) {
                    None => c1 == c0 && r is Err && runtime_error_is(
                        r->Err_0,
                        "save replay reached `"@ + kind
                            + "` without a matching recorded value"@,
                    ),
                    Some(i) => r is Ok && r->Ok_0@ == rs.input_log@[i as int].value@
                        && c1.current == c0.current
                        && c1.ordinal == c0.ordinal
                        && c1.replay is Some
                        && c1.replay->0.target == rs.target
                        && c1.replay->0.input_log == rs.input_log
                        && c1.replay->0.input_cursor == i + 1
                        && c1.input_log@.len() == c0.input_log@.len() + 1
                        && c1.input_log@.subrange(0, c0.input_log@.len() as int)
                        == c0.input_log@ && c1.input_log@.last().checkpoint == c
                        && c1.input_log@.last().value@ == r->Ok_0@,
                },
            }
        },
    }
}

/// While a save is replayed towards checkpoint `target` of `script`, the
/// checkpoints of that script before the target are skipped, the target
/// itself runs and ends the replay, and every other checkpoint runs.
pub proof fn law_replay_runs_from_its_target(script: Seq<char>, target: u64, other: Seq<char>, ordinal: u64)
    ensures
        ordinal < target ==> checkpoint_outcome(Some((script, target)), script, ordinal) == (
            CheckpointDecision::ReplaySkip,
            false,
        ),
        checkpoint_outcome(Some((script, target)), script, target) == (CheckpointDecision::Run, true),
        other != script ==> checkpoint_outcome(Some((script, target)), other, ordinal) == (
            CheckpointDecision::Run,
            false,
        ),
        checkpoint_outcome(None, other, ordinal) == (CheckpointDecision::Run, false),
{
}

/// A replay that reaches the checkpoints in the order they were recorded
/// hands back each recorded value in turn: the entry at the cursor is the
/// one found.
pub proof fn law_replay_finds_the_entry_at_its_cursor(log: Seq<SavedInput>, cursor: nat, current: SaveCheckpoint)
    requires
        cursor < log.len(),
        same_checkpoint(log[cursor as int].checkpoint, current),
    ensures
        first_match_from(log, cursor, current) == Some(cursor),
{
}

impl CheckpointState {
    pub fn new(current: Option<SaveCheckpoint>, replay: Option<ReplayState>) -> (s: Self)
        ensures
            s.current == current,
            s.replay == replay,
            s.ordinal == 0,
            s.input_log@.len() == 0,
    {
        CheckpointState { current, ordinal: 0, input_log: Vec::new(), replay }
    }

    /// Counts a checkpoint in `script` and decides whether the script runs
    /// it or skips it as part of a save replay.
    pub fn checkpoint(
        &mut self,
        script: &String,
        kind: &str,
        label: Option<String>,
        position: ScriptPosition,
    ) -> (d: CheckpointDecision)
        requires
            old(self).ordinal < u64::MAX,
        ensures
            final(self).ordinal == old(self).ordinal + 1,
            final(self).current matches Some(c) && c.script == *script && c.ordinal == final(self).ordinal && c.kind@ == kind@ && c.label == label && c.position == position,
            final(self).input_log == old(self).input_log,
            d == checkpoint_outcome(replay_target(*old(self)), script@, final(self).ordinal).0,
            checkpoint_outcome(replay_target(*old(self)), script@, final(self).ordinal).1
                ==> final(self).replay is None,
            !checkpoint_outcome(replay_target(*old(self)), script@, final(self).ordinal).1
                ==> final(self).replay == old(self).replay,
    {
        self.ordinal = self.ordinal + 1;
        let checkpoint = SaveCheckpoint {
            script: script.clone(),
            ordinal: self.ordinal,
            kind: kind.to_owned(),
            label,
            position,
        };
        let mut ends = false;
        let mut skip = false;
        match &self.replay {
            Some(replay) => {
                if checkpoint.script == replay.target.script && checkpoint.ordinal
                    < replay.target.ordinal {
                    skip = true;
                } else if checkpoint.script == replay.target.script && checkpoint.ordinal
                    == replay.target.ordinal {
                    ends = true;
                }
            },
            None => {},
        }
        self.current = Some(checkpoint);
        if skip {
            return CheckpointDecision::ReplaySkip;
        }
        if ends {
            self.replay = None;
        }
        CheckpointDecision::Run
    }

    /// Hands back the value recorded for the current checkpoint during a
    /// save replay, and logs it again.
    pub fn replay_input(&mut self, expected_kind: &str) -> (r: Result<StoredValue, EngineError>)
        ensures
            replayed_input(*old(self), *final(self), expected_kind@, r),
    {
        let current = match &self.current {
            Some(c) => copy_checkpoint(c),
            None => {
                return Err(runtime_error("save replay reached an event without a checkpoint"));
            },
        };
        if !crate::text::strings_equal(current.kind.as_str(), expected_kind) {
            let a = concat("save replay expected `", expected_kind);
            let b = concat(a.as_str(), "` but reached `");
            let c = concat(b.as_str(), current.kind.as_str());
            return Err(EngineError::Runtime(concat(c.as_str(), "`")));
        }
        let (index, value) = match &self.replay {
            None => {
                return Err(runtime_error("save replay is not active"));
            },
            Some(replay) => {
                let mut i: usize = replay.input_cursor;
                let mut found: Option<usize> = None;
                while i < replay.input_log.len()
                    invariant_except_break
                        found is None,
                        first_match_from(replay.input_log@, replay.input_cursor as nat, current)
                            == first_match_from(replay.input_log@, i as nat, current),
                    ensures
                        found matches Some(k) ==> k < replay.input_log@.len() && first_match_from(
                            replay.input_log@,
                            replay.input_cursor as nat,
                            current,
                        ) == Some(k as nat),
                        found is None ==> first_match_from(
                            replay.input_log@,
                            replay.input_cursor as nat,
                            current,
                        ) is None,
                    decreases replay.input_log@.len() - i,
                {
                    if checkpoint_matches(&replay.input_log[i].checkpoint, &current) {
                        found = Some(i);
                        break;
                    }
                    i = i + 1;
                }
                match found {
                    None => {
                        let a = concat("save replay reached `", expected_kind);
                        return Err(
                            EngineError::Runtime(
                                concat(a.as_str(), "` without a matching recorded value"),
                            ),
                        );
                    },
                    Some(index) => {
                        let n = replay.input_log.len();
                        assert(index < n);
                        (index + 1, replay.input_log[index].value.duplicate())
                    },
                }
            },
        };
        match &mut self.replay {
            Some(replay) => {
                replay.input_cursor = index;
            },
            None => {},
        }
        let logged = value.duplicate();
        let ghost before = self.input_log@;
        self.input_log.push(SavedInput { checkpoint: current, value: logged });
        assert(self.input_log@.subrange(0, before.len() as int) =~= before);
        Ok(value)
    }

    /// Logs an input against the current checkpoint, if there is one.
    pub fn record_input(&mut self, value: StoredValue)
        ensures
            final(self).current == old(self).current,
            final(self).ordinal == old(self).ordinal,
            final(self).replay == old(self).replay,
            old(self).current is None ==> final(self).input_log == old(self).input_log,
            old(self).current matches Some(c) ==> final(self).input_log@ == old(self).input_log@.push(SavedInput { checkpoint: c, value }),
    {
        match &self.current {
            Some(c) => {
                let checkpoint = copy_checkpoint(c);
                self.input_log.push(SavedInput { checkpoint, value });
            },
            None => {},
        }
    }
}

// ---------------------------------------------------------------------------
// The host state
// ---------------------------------------------------------------------------
#[derive(Clone, Copy, Debug, PartialEq, Eq, Structural)]
pub enum BatchMode {
    Sequence,
    Parallel,
}

#[derive(Debug)]
pub struct CollectedCommand<P> {
    pub handle: String,
    pub command: ScriptCommand<P>,
}

#[derive(Debug)]
pub struct BatchScope<P> {
    pub mode: BatchMode,
    pub commands: Vec<CollectedCommand<P>>,
}

/// The open `seq`/`par` block, if any, and the handle groups of closed ones.
#[derive(Debug)]
pub struct BatchRegistry<P> {
    pub active: Option<BatchScope<P>>,
    pub groups: NamedTable<Vec<String>>,
    pub next_group_id: u64,
}

#[derive(Debug, PartialEq, Eq)]
pub struct InlineDialogueControl {
    pub active: bool,
    pub skip_requested: bool,
    pub current_handle: Option<String>,
}

/// On the web the script cannot block: each evaluation replays the
/// responses already received before it continues.
#[derive(Debug, PartialEq)]
pub struct WebScriptExecution {
    pub responses: Vec<ScriptResponse>,
    pub cursor: usize,
    pub pending: bool,
}

#[derive(Debug)]
pub struct HostState<P> {
    pub current_script: String,
    pub script_stack: Vec<String>,
    pub globals: NamedTable<StoredValue>,
    pub checkpoint: CheckpointState,
    pub next_animation_id: u64,
    pub batch: BatchRegistry<P>,
    pub inline: InlineDialogueControl,
    pub web: Option<WebScriptExecution>,
}

/// What the host must do for a script call once the decision is made.
#[derive(Debug)]
pub enum EngineAction<P> {
    /// Nothing to send; the call returns unit.
    Unit,
    /// The call returns this animation or group handle.
    Handle(String),
    /// Send the command; the call returns unit without waiting.
    Send(ScriptCommand<P>),
    /// Send the command, if any, then wait for its completion.
    SendAndWait(Option<ScriptCommand<P>>),
    /// Mark `handle` as the inline dialogue's current handle, send the
    /// command, if any, wait for its completion, then clear the mark.
    SendInline { handle: String, command: Option<ScriptCommand<P>> },
}

#[derive(Clone, Copy, Debug, PartialEq, Eq, Structural)]
pub enum DispatchMode {
    Collect,
    InlineSkip,
    InlineAwait,
    Blocking,
}

/// A save is being replayed, or on the web earlier responses are being
/// replayed.
pub open spec fn replaying<P>(h: HostState<P>) -> bool {
    h.checkpoint.replay is Some || (h.web matches Some(w) && w.cursor < w.responses@.len())
}

/// The command as it is sent, or nothing when a replay suppresses it.
pub open spec fn sent<P>(h: HostState<P>, c: ScriptCommand<P>) -> Option<ScriptCommand<P>> {
    if replaying(h) && suppressed_during_replay(c) {
        None
    } else {
        Some(c)
    }
}

/// The handle an animation of `kind` numbered `n` gets.
pub open spec fn animation_handle(kind: Seq<char>, n: u64) -> Seq<char> {
    kind + "-"@ + decimal_text(n)
}

/// The mode in which the next timed command is dispatched.
pub open spec fn dispatch_mode<P>(h: HostState<P>) -> DispatchMode {
    if h.batch.active is Some {
        DispatchMode::Collect
    } else if h.inline.active && h.inline.skip_requested {
        DispatchMode::InlineSkip
    } else if h.inline.active {
        DispatchMode::InlineAwait
    } else {
        DispatchMode::Blocking
    }
}

/// Two host states agree on everything but the batch registry.
pub open spec fn same_outside_batch<P>(a: HostState<P>, b: HostState<P>) -> bool {
    &&& a.current_script == b.current_script
    &&& a.script_stack == b.script_stack
    &&& a.globals == b.globals
    &&& a.checkpoint == b.checkpoint
    &&& a.next_animation_id == b.next_animation_id
    &&& a.inline == b.inline
    &&& a.web == b.web
}

/// The first occurrences of each name, in order.
pub open spec fn dedup(s: Seq<Seq<char>>) -> Seq<Seq<char>>
    decreases s.len(),
{
    if s.len() == 0 {
        Seq::empty()
    } else {
        let d = dedup(s.drop_last());
        if d.contains(s.last()) {
            d
        } else {
            d.push(s.last())
        }
    }
}

pub open spec fn group_name(mode: BatchMode, n: u64) -> Seq<char> {
    match mode {
        BatchMode::Sequence => "seq-"@ + decimal_text(n),
        BatchMode::Parallel => "par-"@ + decimal_text(n),
    }
}

pub open spec fn handles_of<P>(commands: Seq<CollectedCommand<P>>) -> Seq<Seq<char>> {
    Seq::new(commands.len(), |i: int| commands[i].handle@)
}

pub open spec fn names_of(v: Seq<String>) -> Seq<Seq<char>> {
    Seq::new(v.len(), |i: int| v[i]@)
}


/// What counting a checkpoint does to the checkpoint state, as
/// `CheckpointState::checkpoint` describes it.
pub open spec fn checkpoint_step(
    c0: CheckpointState,
    c1: CheckpointState,
    script: String,
    kind: Seq<char>,
    label: Option<String>,
    position: ScriptPosition,
) -> bool {
    let outcome = checkpoint_outcome(replay_target(c0), script@, (c0.ordinal + 1) as u64);
    &&& c1.ordinal == c0.ordinal + 1
    &&& c1.current matches Some(c) && c.script == script && c.ordinal == c1.ordinal && c.kind@
        == kind && c.label == label && c.position == position
    &&& c1.input_log == c0.input_log
    &&& outcome.1 ==> c1.replay is None
    &&& !outcome.1 ==> c1.replay == c0.replay
}

/// The decision a checkpoint counted in `c0` takes.
pub open spec fn checkpoint_decision(c0: CheckpointState, script: String) -> CheckpointDecision {
    checkpoint_outcome(replay_target(c0), script@, (c0.ordinal + 1) as u64).0
}

/// `h` with its checkpoint state replaced.
pub open spec fn with_checkpoint<P>(h: HostState<P>, c: CheckpointState) -> HostState<P> {
    HostState { checkpoint: c, ..h }
}

impl<P> HostState<P> {
    pub open spec fn wf(&self) -> bool {
        &&& self.globals.wf()
        &&& self.batch.groups.wf()
    }

    pub fn new(current_script: String, globals: NamedTable<StoredValue>, checkpoint: CheckpointState) -> (h: Self)
        requires
            globals.wf(),
        ensures
            h.wf(),
            h.current_script == current_script,
            h.script_stack@.len() == 0,
            h.globals == globals,
            h.checkpoint == checkpoint,
            h.next_animation_id == 0,
            h.batch.active is None,
            h.batch.groups@ == Map::<Seq<char>, Vec<String>>::empty(),
            h.batch.next_group_id == 0,
            h.inline == (InlineDialogueControl { active: false, skip_requested: false, current_handle: None }),
            h.web is None,
    {
        HostState {
            current_script,
            script_stack: Vec::new(),
            globals,
            checkpoint,
            next_animation_id: 0,
            batch: BatchRegistry { active: None, groups: NamedTable::new(), next_group_id: 0 },
            inline: InlineDialogueControl { active: false, skip_requested: false, current_handle: None },
            web: None,
        }
    }

    /// Counts a checkpoint of the current script.
    pub fn checkpoint(&mut self, kind: &str, label: Option<String>, position: ScriptPosition) -> (d:
        CheckpointDecision)
        requires
            old(self).checkpoint.ordinal < u64::MAX,
        ensures
            checkpoint_step(
                old(self).checkpoint,
                final(self).checkpoint,
                old(self).current_script,
                kind@,
                label,
                position,
            ),
            d == checkpoint_decision(old(self).checkpoint, old(self).current_script),
            *final(self) == with_checkpoint(*old(self), final(self).checkpoint),
    {
        let script = self.current_script.clone();
        self.checkpoint.checkpoint(&script, kind, label, position)
    }

    pub fn is_replaying(&self) -> (r: bool)
        ensures
            r == replaying(*self),
    {
        self.checkpoint.replay.is_some() || match &self.web {
            Some(w) => w.cursor < w.responses.len(),
            None => false,
        }
    }

    /// Passes a command on unless a replay suppresses it.
    pub fn send(&self, command: ScriptCommand<P>) -> (r: Option<ScriptCommand<P>>)
        ensures
            r == sent(*self, command),
    {
        if self.is_replaying() && command_suppressed_during_replay(&command) {
            None
        } else {
            Some(command)
        }
    }

    /// Allocates the next animation handle, `kind-N`.
    pub fn next_animation_id(&mut self, kind: &str) -> (r: String)
        requires
            old(self).next_animation_id < u64::MAX,
        ensures
            final(self).next_animation_id == old(self).next_animation_id + 1,
            r@ == animation_handle(kind@, final(self).next_animation_id),
            final(self).current_script == old(self).current_script,
            final(self).script_stack == old(self).script_stack,
            final(self).globals == old(self).globals,
            final(self).checkpoint == old(self).checkpoint,
            final(self).batch == old(self).batch,
            final(self).inline == old(self).inline,
            final(self).web == old(self).web,
    {
        self.next_animation_id = self.next_animation_id + 1;
        let number = decimal_string(self.next_animation_id);
        let prefix = concat(kind, "-");
        concat(prefix.as_str(), number.as_str())
    }

    /// Moves the script to `path`; on the web a change of script forgets
    /// the replayed responses.
    pub fn set_current_script_path(&mut self, path: String)
        ensures
            final(self).current_script@ == path@,
            final(self).next_animation_id == old(self).next_animation_id,
            final(self).script_stack == old(self).script_stack,
            final(self).globals == old(self).globals,
            final(self).checkpoint == old(self).checkpoint,
            final(self).batch == old(self).batch,
            final(self).inline == old(self).inline,
            old(self).current_script@ == path@ ==> final(self).web == old(self).web,
            old(self).current_script@ != path@ ==> match old(self).web {
                None => final(self).web is None,
                Some(w) => final(self).web matches Some(n) && n.responses@.len() == 0 && n.cursor
                    == 0 && n.pending == w.pending,
            },
    {
        let changed = !(self.current_script == path);
        self.current_script = path;
        if changed {
            match &mut self.web {
                Some(w) => {
                    w.responses = Vec::new();
                    w.cursor = 0;
                },
                None => {},
            }
        }
    }

    pub fn reset_script_checkpoint_counter(&mut self)
        ensures
            final(self).checkpoint.ordinal == 0,
            final(self).checkpoint.current == old(self).checkpoint.current,
            final(self).checkpoint.input_log == old(self).checkpoint.input_log,
            final(self).checkpoint.replay == old(self).checkpoint.replay,
            final(self).current_script == old(self).current_script,
            final(self).script_stack == old(self).script_stack,
            final(self).next_animation_id == old(self).next_animation_id,
            final(self).globals == old(self).globals,
            final(self).batch == old(self).batch,
            final(self).inline == old(self).inline,
            final(self).web == old(self).web,
    {
        self.checkpoint.ordinal = 0;
    }

    pub fn is_batch_mode(&self) -> (r: bool)
        ensures
            r == self.batch.active is Some,
    {
        self.batch.active.is_some()
    }

    pub fn begin_inline_dialogue(&mut self)
        ensures
            final(self).inline == (InlineDialogueControl { active: true, skip_requested: false, current_handle: None }),
            final(self).script_stack == old(self).script_stack,
            final(self).current_script == old(self).current_script,
            final(self).globals == old(self).globals,
            final(self).checkpoint == old(self).checkpoint,
            final(self).batch == old(self).batch,
            final(self).next_animation_id == old(self).next_animation_id,
            final(self).web == old(self).web,
    {
        self.inline = InlineDialogueControl { active: true, skip_requested: false, current_handle: None };
    }

    pub fn end_inline_dialogue(&mut self)
        ensures
            final(self).inline == (InlineDialogueControl { active: false, skip_requested: false, current_handle: None }),
            final(self).script_stack == old(self).script_stack,
            final(self).current_script == old(self).current_script,
            final(self).globals == old(self).globals,
            final(self).checkpoint == old(self).checkpoint,
            final(self).batch == old(self).batch,
            final(self).next_animation_id == old(self).next_animation_id,
            final(self).web == old(self).web,
    {
        self.inline = InlineDialogueControl { active: false, skip_requested: false, current_handle: None };
    }

    pub fn inline_skip_requested(&self) -> (r: bool)
        ensures
            r == (self.inline.active && self.inline.skip_requested),
    {
        self.inline.active && self.inline.skip_requested
    }

    pub fn set_inline_current_handle(&mut self, handle: Option<String>)
        ensures
            final(self).inline.current_handle == handle,
            final(self).inline.active == old(self).inline.active,
            final(self).inline.skip_requested == old(self).inline.skip_requested,
            final(self).script_stack == old(self).script_stack,
            final(self).current_script == old(self).current_script,
            final(self).globals == old(self).globals,
            final(self).checkpoint == old(self).checkpoint,
            final(self).batch == old(self).batch,
            final(self).next_animation_id == old(self).next_animation_id,
            final(self).web == old(self).web,
    {
        self.inline.current_handle = handle;
    }

    /// Opens a `seq`/`par` block; blocks do not nest.
    pub fn begin_batch(&mut self, mode: BatchMode) -> (r: Result<(), EngineError>)
        ensures
            old(self).batch.active is Some ==> r is Err && runtime_error_is(
                r->Err_0,
                "seq/par cannot be nested"@,
            ) && *final(self) == *old(self),
            old(self).batch.active is None ==> r is Ok && final(self).batch.active is Some
                && final(self).batch.active->0.mode == mode
                && final(self).batch.active->0.commands@.len() == 0
                && final(self).batch.groups == old(self).batch.groups
                && final(self).batch.next_group_id == old(self).batch.next_group_id
                && same_outside_batch(*final(self), *old(self)),
    {
        if self.batch.active.is_some() {
            return Err(runtime_error("seq/par cannot be nested"));
        }
        self.batch.active = Some(BatchScope { mode, commands: Vec::new() });
        Ok(())
    }

    /// Drops the open block and what it collected.
    pub fn cancel_batch(&mut self)
        ensures
            final(self).batch.active is None,
            final(self).batch.groups == old(self).batch.groups,
            final(self).batch.next_group_id == old(self).batch.next_group_id,
            final(self).next_animation_id == old(self).next_animation_id,
            final(self).checkpoint == old(self).checkpoint,
            final(self).globals == old(self).globals,
            final(self).inline == old(self).inline,
            final(self).web == old(self).web,
            final(self).current_script == old(self).current_script,
    {
        self.batch.active = None;
    }
}

// ---------------------------------------------------------------------------
// Dispatching timed commands
// ---------------------------------------------------------------------------
/// What `send_continue` does: nothing at all when a native replay
/// suppresses the command, else send it (if not suppressed) and wait.
pub open spec fn continue_action<P>(h: HostState<P>, c: ScriptCommand<P>) -> EngineAction<P> {
    if h.web is None && replaying(h) && suppressed_during_replay(c) {
        EngineAction::Unit
    } else {
        EngineAction::SendAndWait(sent(h, c))
    }
}

/// Fire-and-forget: send it, or nothing when suppressed.
pub open spec fn send_action<P>(h: HostState<P>, c: ScriptCommand<P>) -> EngineAction<P> {
    match sent(h, c) {
        Some(x) => EngineAction::Send(x),
        None => EngineAction::Unit,
    }
}

impl<P> HostState<P> {
    /// Sends a command and waits for it to complete.
    pub fn send_continue(&self, command: ScriptCommand<P>) -> (r: EngineAction<P>)
        ensures
            r == continue_action(*self, command),
    {
        if self.web.is_none() && self.is_replaying() && command_suppressed_during_replay(&command) {
            return EngineAction::Unit;
        }
        EngineAction::SendAndWait(self.send(command))
    }

    /// Sends a command without waiting.
    pub fn send_only(&self, command: ScriptCommand<P>) -> (r: EngineAction<P>)
        ensures
            r == send_action(*self, command),
    {
        match self.send(command) {
            Some(c) => EngineAction::Send(c),
            None => EngineAction::Unit,
        }
    }

    /// Chooses how the next timed command is dispatched and allocates its
    /// animation handle unless it simply blocks.
    pub fn prepare_dispatch(&mut self, kind: &str) -> (r: (DispatchMode, Option<String>))
        requires
            old(self).next_animation_id < u64::MAX,
        ensures
            r.0 == dispatch_mode(*old(self)),
            r.0 == DispatchMode::Blocking ==> r.1 is None && *final(self) == *old(self),
            r.0 != DispatchMode::Blocking ==> r.1 is Some && r.1->0@ == animation_handle(
                kind@,
                final(self).next_animation_id,
            ) && final(self).next_animation_id == old(self).next_animation_id + 1
                && final(self).batch == old(self).batch && final(self).inline == old(self).inline
                && final(self).web == old(self).web && final(self).checkpoint == old(
                self).checkpoint && final(self).globals == old(self).globals
                && final(self).current_script == old(self).current_script
                && final(self).script_stack == old(self).script_stack,
            dispatch_mode(*final(self)) == dispatch_mode(*old(self)),
            replaying(*final(self)) == replaying(*old(self)),
    {
        let mode = if self.batch.active.is_some() {
            DispatchMode::Collect
        } else if self.inline.active && self.inline.skip_requested {
            DispatchMode::InlineSkip
        } else if self.inline.active {
            DispatchMode::InlineAwait
        } else {
            DispatchMode::Blocking
        };
        match mode {
            DispatchMode::Blocking => (mode, None),
            _ => {
                let handle = self.next_animation_id(kind);
                (mode, Some(handle))
            },
        }
    }

    /// Collects, sends or sends-and-waits a timed command, as `mode` says.
    pub fn complete_dispatch(
        &mut self,
        mode: DispatchMode,
        handle: Option<String>,
        command: ScriptCommand<P>,
    ) -> (r: EngineAction<P>)
        requires
            mode == dispatch_mode(*old(self)),
            mode != DispatchMode::Blocking ==> handle is Some,
        ensures
            mode == DispatchMode::Collect ==> r == EngineAction::<P>::Handle(handle->0)
                && final(self).batch.active is Some && final(self).batch.active->0.mode == old(
                self).batch.active->0.mode && final(self).batch.active->0.commands@ == old(
                self).batch.active->0.commands@.push(
                CollectedCommand { handle: handle->0, command },
            ) && final(self).batch.groups == old(self).batch.groups
                && final(self).batch.next_group_id == old(self).batch.next_group_id
                && same_outside_batch(*final(self), *old(self)),
            mode == DispatchMode::InlineSkip ==> r == send_action(*old(self), command) && *final(
                self) == *old(self),
            mode == DispatchMode::InlineAwait ==> r == (EngineAction::SendInline {
                handle: handle->0,
                command: sent(*old(self), command),
            }) && final(self).inline.current_handle == handle && final(self).inline.active
                == old(self).inline.active && final(self).inline.skip_requested == old(
                self).inline.skip_requested && final(self).batch == old(self).batch && final(
                self).checkpoint == old(self).checkpoint && final(self).web == old(self).web
                && final(self).globals == old(self).globals && final(self).next_animation_id
                == old(self).next_animation_id && final(self).current_script == old(
                self).current_script && final(self).script_stack == old(self).script_stack,
            mode == DispatchMode::Blocking ==> r == continue_action(*old(self), command) && *final(
                self) == *old(self),
    {
        match mode {
            DispatchMode::Collect => {
                let handle = handle.unwrap();
                let returned = handle.clone();
                match &mut self.batch.active {
                    Some(scope) => {
                        scope.commands.push(CollectedCommand { handle, command });
                    },
                    None => {},
                }
                EngineAction::Handle(returned)
            },
            DispatchMode::InlineSkip => self.send_only(command),
            DispatchMode::InlineAwait => {
                let handle = handle.unwrap();
                self.inline.current_handle = Some(handle.clone());
                let command = self.send(command);
                EngineAction::SendInline { handle, command }
            },
            DispatchMode::Blocking => self.send_continue(command),
        }
    }
}

/// The completion a timed command waits for must be a plain continue.
pub fn expect_continue(response: &ScriptResponse) -> (r: Result<(), EngineError>)
    ensures
        response is Continue ==> r is Ok,
        response is Choice ==> r is Err && runtime_error_is(
            r->Err_0,
            "engine returned unexpected choice response"@,
        ),
{
    match response {
        ScriptResponse::Continue => Ok(()),
        ScriptResponse::Choice(_) => Err(runtime_error("engine returned unexpected choice response")),
    }
}

/// The answer to an interactive command must be a choice.
pub fn expect_choice(response: ScriptResponse) -> (r: Result<StoredValue, EngineError>)
    ensures
        response matches ScriptResponse::Choice(v) ==> r == Ok::<StoredValue, EngineError>(v),
        response is Continue ==> r is Err && runtime_error_is(
            r->Err_0,
            "engine returned unexpected continue response"@,
        ),
{
    match response {
        ScriptResponse::Choice(v) => Ok(v),
        ScriptResponse::Continue => Err(runtime_error("engine returned unexpected continue response")),
    }
}

} // verus!
