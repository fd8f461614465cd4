//! The script API a story calls, as decisions over the host state.
//!
//! Each function takes what the script passed, with the values the engine
//! resolved around it (file paths, as the project's file system resolved
//! them, and numbers that arrive as floating point, already converted to the
//! `f32` bits the engine keeps), and returns what must be sent to the engine
//! and whether the script waits for it. The caller sends, waits and hands
//! the answer back.
use vstd::prelude::*;

use crate::batch::{expand_wait_handles, wait_expansion};
use crate::inline::{chunks_view, inline_chunks, parse_inline_dialogue_chunks, ChunkView, InlineDialogueChunk};
use crate::host::{
    checkpoint_decision, checkpoint_step, with_checkpoint, CheckpointDecision, InlineDialogueControl, ScriptPosition,
    names_of, same_outside_batch, BatchMode, animation_handle, continue_action, dispatch_mode, replaying, runtime_error, runtime_error_is,
    send_action, sent, CollectedCommand, DispatchMode, EngineAction, EngineError, HostState,
};
use crate::text::{concat, decimal_text, lemma_decimal_text_injective};
use crate::script_command::{duration_of_millis, ScriptCommand, ScriptDuration};

verus! {

/// `ms` milliseconds; negative durations are refused.
pub open spec fn millis_duration(ms: i64) -> Option<ScriptDuration> {
    if ms < 0 {
        None
    } else {
        Some(duration_of_millis(ms as u64))
    }
}

pub fn duration_from_millis(ms: i64) -> (r: Result<ScriptDuration, EngineError>)
    ensures
        millis_duration(ms) matches Some(d) ==> r == Ok::<ScriptDuration, EngineError>(d),
        millis_duration(ms) is None ==> r is Err && runtime_error_is(
            r->Err_0,
            "duration cannot be negative"@,
        ),
{
    if ms < 0 {
        return Err(runtime_error("duration cannot be negative"));
    }
    let m: u64 = ms as u64;
    Ok(ScriptDuration { secs: m / 1000, nanos: ((m % 1000) * 1_000_000) as u32 })
}

/// Everything but the animation counter and the named parts is unchanged.
pub open spec fn counted_step<P>(h0: HostState<P>, h1: HostState<P>) -> bool {
    &&& h1.next_animation_id == h0.next_animation_id + 1
    &&& h1.current_script == h0.current_script
    &&& h1.script_stack == h0.script_stack
    &&& h1.globals == h0.globals
    &&& h1.checkpoint == h0.checkpoint
    &&& h1.web == h0.web
}

/// What a timed command does, built by `build` from its animation handle.
/// Inside `seq`/`par` it is collected under a fresh handle, which the call
/// returns. During inline dialogue it runs under a fresh handle: sent
/// without waiting once the reader asked to skip, else sent and awaited with
/// the handle marked as the dialogue's current one. Otherwise it is sent
/// without a handle and the script waits for it.
pub open spec fn timed_outcome<P>(
    h0: HostState<P>,
    h1: HostState<P>,
    kind: Seq<char>,
    build: spec_fn(Option<String>) -> ScriptCommand<P>,
    r: EngineAction<P>,
) -> bool {
    let handle = animation_handle(kind, (h0.next_animation_id + 1) as u64);
    match dispatch_mode(h0) {
        DispatchMode::Blocking => h1 == h0 && r == continue_action(h0, build(None)),
        DispatchMode::Collect => {
            &&& r matches EngineAction::Handle(id)
            &&& r->Handle_0@ == handle
            &&& h0.batch.active is Some
            &&& h1.batch.active is Some
            &&& h1.batch.active->0.mode == h0.batch.active->0.mode
            &&& h1.batch.active->0.commands@ == h0.batch.active->0.commands@.push(
                CollectedCommand { handle: r->Handle_0, command: build(Some(r->Handle_0)) },
            )
            &&& h1.batch.groups == h0.batch.groups
            &&& h1.batch.next_group_id == h0.batch.next_group_id
            &&& h1.inline == h0.inline
            &&& counted_step(h0, h1)
        },
        DispatchMode::InlineSkip => {
            &&& exists|id: String| id@ == handle && r == send_action(h0, build(Some(id)))
            &&& h1.batch == h0.batch
            &&& h1.inline == h0.inline
            &&& counted_step(h0, h1)
        },
        DispatchMode::InlineAwait => {
            &&& h1.inline.current_handle is Some
            &&& h1.inline.current_handle->0@ == handle
            &&& r == EngineAction::SendInline {
                handle: h1.inline.current_handle->0,
                command: sent(h0, build(h1.inline.current_handle)),
            }
            &&& h1.inline.active == h0.inline.active
            &&& h1.inline.skip_requested == h0.inline.skip_requested
            &&& h1.batch == h0.batch
            &&& counted_step(h0, h1)
        },
    }
}

/// A timed command dispatched as `prepare_dispatch` and `complete_dispatch`
/// say, built from the handle that was allocated, has the outcome
/// `timed_outcome` describes.
pub proof fn lemma_timed_dispatch<P>(
    h0: HostState<P>,
    hm: HostState<P>,
    h1: HostState<P>,
    kind: Seq<char>,
    build: spec_fn(Option<String>) -> ScriptCommand<P>,
    mode: DispatchMode,
    handle: Option<String>,
    r: EngineAction<P>,
)
    requires
        mode == dispatch_mode(h0),
        mode == DispatchMode::Blocking ==> handle is None && hm == h0,
        mode != DispatchMode::Blocking ==> handle is Some && handle->0@ == animation_handle(
            kind,
            hm.next_animation_id,
        ) && hm.next_animation_id == h0.next_animation_id + 1 && hm.batch == h0.batch
            && hm.inline == h0.inline && hm.web == h0.web && hm.checkpoint == h0.checkpoint
            && hm.globals == h0.globals && hm.current_script == h0.current_script
            && hm.script_stack == h0.script_stack,
        dispatch_mode(hm) == dispatch_mode(h0),
        mode == DispatchMode::Collect ==> r == EngineAction::<P>::Handle(handle->0)
            && h1.batch.active is Some && h1.batch.active->0.mode == hm.batch.active->0.mode
            && h1.batch.active->0.commands@ == hm.batch.active->0.commands@.push(
            CollectedCommand { handle: handle->0, command: build(handle) },
        ) && h1.batch.groups == hm.batch.groups && h1.batch.next_group_id
            == hm.batch.next_group_id && h1.current_script == hm.current_script
            && h1.script_stack == hm.script_stack && h1.globals == hm.globals && h1.checkpoint
            == hm.checkpoint && h1.next_animation_id == hm.next_animation_id && h1.inline
            == hm.inline && h1.web == hm.web,
        mode == DispatchMode::InlineSkip ==> r == send_action(hm, build(handle)) && h1 == hm,
        mode == DispatchMode::InlineAwait ==> r == (EngineAction::SendInline {
            handle: handle->0,
            command: sent(hm, build(handle)),
        }) && h1.inline.current_handle == handle && h1.inline.active == hm.inline.active
            && h1.inline.skip_requested == hm.inline.skip_requested && h1.batch == hm.batch
            && h1.checkpoint == hm.checkpoint && h1.web == hm.web && h1.globals == hm.globals
            && h1.next_animation_id == hm.next_animation_id && h1.current_script
            == hm.current_script && h1.script_stack == hm.script_stack,
        mode == DispatchMode::Blocking ==> r == continue_action(hm, build(handle)) && h1 == hm,
    ensures
        timed_outcome(h0, h1, kind, build, r),
{
    assert(replaying(hm) == replaying(h0));
    if mode == DispatchMode::InlineSkip {
        let id = handle->0;
        assert(id@ == animation_handle(kind, (h0.next_animation_id + 1) as u64));
        assert(r == send_action(h0, build(Some(id))));
    }
}

/// Animation handles of one kind never repeat: different counters give
/// different handles, and the counter grows with every handle handed out.
pub proof fn law_animation_handles_differ(kind: Seq<char>, n: u64, m: u64)
    requires
        n != m,
    ensures
        animation_handle(kind, n) != animation_handle(kind, m),
{
    let prefix = kind + "-"@;
    let a = animation_handle(kind, n);
    let b = animation_handle(kind, m);
    assert(a =~= prefix + decimal_text(n));
    assert(b =~= prefix + decimal_text(m));
    if a == b {
        assert(a.subrange(prefix.len() as int, a.len() as int) =~= decimal_text(n));
        assert(b.subrange(prefix.len() as int, b.len() as int) =~= decimal_text(m));
        lemma_decimal_text_injective(n, m);
    }
}

/// A copy of an optional handle.
pub(crate) fn copy_handle(handle: &Option<String>) -> (r: Option<String>)
    ensures
        r == *handle,
{
    match handle {
        Some(h) => Some(h.clone()),
        None => None,
    }
}

// ---------------------------------------------------------------------------
// Blocks, waits and cancellation
// ---------------------------------------------------------------------------
/// `seq(callback)` opens a sequence block; the caller runs the callback,
/// then closes the block with `finish_batch`, or drops it with
/// `cancel_batch` when the callback failed.
pub fn seq<P>(h: &mut HostState<P>) -> (r: Result<(), EngineError>)
    ensures
        old(h).batch.active is Some ==> r is Err && runtime_error_is(
            r->Err_0,
            "seq/par cannot be nested"@,
        ) && *final(h) == *old(h),
        old(h).batch.active is None ==> r is Ok && final(h).batch.active is Some
            && final(h).batch.active->0.mode == BatchMode::Sequence
            && final(h).batch.active->0.commands@.len() == 0 && final(h).batch.groups == old(
            h).batch.groups && final(h).batch.next_group_id == old(h).batch.next_group_id
            && same_outside_batch(*final(h), *old(h)),
{
    h.begin_batch(BatchMode::Sequence)
}

/// `par(callback)` opens a parallel block, as `seq` does a sequence.
pub fn par<P>(h: &mut HostState<P>) -> (r: Result<(), EngineError>)
    ensures
        old(h).batch.active is Some ==> r is Err && runtime_error_is(
            r->Err_0,
            "seq/par cannot be nested"@,
        ) && *final(h) == *old(h),
        old(h).batch.active is None ==> r is Ok && final(h).batch.active is Some
            && final(h).batch.active->0.mode == BatchMode::Parallel
            && final(h).batch.active->0.commands@.len() == 0 && final(h).batch.groups == old(
            h).batch.groups && final(h).batch.next_group_id == old(h).batch.next_group_id
            && same_outside_batch(*final(h), *old(h)),
{
    h.begin_batch(BatchMode::Parallel)
}

/// Waiting for animations: nothing when there is nothing to wait for, else
/// the wait is sent and awaited (during a save replay it is skipped).
pub open spec fn awaits_animations<P>(h: HostState<P>, ids: Seq<Seq<char>>, r: EngineAction<P>) -> bool {
    if ids.len() == 0 {
        r is Unit
    } else if replaying(h) {
        if h.web is None {
            r is Unit
        } else {
            r == EngineAction::<P>::SendAndWait(None)
        }
    } else {
        r matches EngineAction::SendAndWait(Some(ScriptCommand::WaitAnimations { ids: v }))
            && names_of(v@) == ids
    }
}

/// Cancelling animations: nothing when there is nothing to cancel, else the
/// cancellation is sent unless a replay suppresses it.
pub open spec fn cancels_animations<P>(h: HostState<P>, ids: Seq<Seq<char>>, r: EngineAction<P>) -> bool {
    if ids.len() == 0 || replaying(h) {
        r is Unit
    } else {
        r matches EngineAction::Send(ScriptCommand::CancelAnimations { ids: v }) && names_of(v@)
            == ids
    }
}

fn wait_for_handles<P>(h: &HostState<P>, handles: &Vec<String>) -> (r: EngineAction<P>)
    requires
        h.wf(),
    ensures
        awaits_animations(*h, wait_expansion(h.batch.groups@, names_of(handles@)), r),
{
    let ids = expand_wait_handles(&h.batch.groups, handles);
    if ids.len() == 0 {
        return EngineAction::Unit;
    }
    h.send_continue(ScriptCommand::WaitAnimations { ids })
}

/// `wait(handle)`: waits for an animation, or for every animation of a
/// closed block.
pub fn wait_handle<P>(h: &HostState<P>, handle: String) -> (r: Result<EngineAction<P>, EngineError>)
    requires
        h.wf(),
    ensures
        h.batch.active is Some ==> r is Err && runtime_error_is(
            r->Err_0,
            "wait cannot be used inside seq/par; wait after the block returns a handle"@,
        ),
        h.batch.active is None ==> r is Ok && awaits_animations(
            *h,
            wait_expansion(h.batch.groups@, seq![handle@]),
            r->Ok_0,
        ),
{
    if h.is_batch_mode() {
        return Err(
            runtime_error("wait cannot be used inside seq/par; wait after the block returns a handle"),
        );
    }
    let handles = vec![handle];
    assert(names_of(handles@) =~= seq![handles@[0]@]);
    Ok(wait_for_handles(h, &handles))
}

/// `wait([handles])`: waits for all the handles.
pub fn wait_handles<P>(h: &HostState<P>, handles: Vec<String>) -> (r: Result<
    EngineAction<P>,
    EngineError,
>)
    requires
        h.wf(),
    ensures
        h.batch.active is Some ==> r is Err && runtime_error_is(
            r->Err_0,
            "wait cannot be used inside seq/par; wait after the block returns a handle"@,
        ),
        h.batch.active is None ==> r is Ok && awaits_animations(
            *h,
            wait_expansion(h.batch.groups@, names_of(handles@)),
            r->Ok_0,
        ),
{
    if h.is_batch_mode() {
        return Err(
            runtime_error("wait cannot be used inside seq/par; wait after the block returns a handle"),
        );
    }
    Ok(wait_for_handles(h, &handles))
}

/// `cancel(handle)`: cancels an animation, or every animation of a closed
/// block.
pub fn cancel<P>(h: &HostState<P>, handle: String) -> (r: Result<EngineAction<P>, EngineError>)
    requires
        h.wf(),
    ensures
        h.batch.active is Some ==> r is Err && runtime_error_is(
            r->Err_0,
            "cancel cannot be used inside seq/par"@,
        ),
        h.batch.active is None ==> r is Ok && cancels_animations(
            *h,
            wait_expansion(h.batch.groups@, seq![handle@]),
            r->Ok_0,
        ),
{
    if h.is_batch_mode() {
        return Err(runtime_error("cancel cannot be used inside seq/par"));
    }
    let handles = vec![handle];
    assert(names_of(handles@) =~= seq![handles@[0]@]);
    let ids = expand_wait_handles(&h.batch.groups, &handles);
    if ids.len() == 0 {
        return Ok(EngineAction::Unit);
    }
    Ok(h.send_only(ScriptCommand::CancelAnimations { ids }))
}

// ---------------------------------------------------------------------------
// Dialogue
// ---------------------------------------------------------------------------
/// The checkpoint kind of a dialogue line: narration has no speaker.
pub open spec fn dialogue_kind(speaker: Seq<char>) -> Seq<char> {
    if speaker.len() == 0 {
        "narrate"@
    } else {
        "say"@
    }
}

pub open spec fn all_text(chunks: Seq<ChunkView>) -> bool {
    forall|i: int| 0 <= i < chunks.len() ==> (#[trigger] chunks[i]) is Text
}

/// How a dialogue line starts.
#[derive(Debug)]
pub enum DialogueStart<P> {
    /// The line is handled by this action. A collected line's handle is not
    /// the script's to see: the line itself returns unit.
    Done(EngineAction<P>),
    /// The line has inline commands. The caller runs the chunks in order:
    /// text through `inline_text`, commands through the script engine; then
    /// `finish_inline_dialogue`, or `end_inline_dialogue` on an error.
    Inline(Vec<InlineDialogueChunk>),
}

/// A dialogue line with inline commands, as far as it has been shown.
#[derive(Debug)]
pub struct InlineLine {
    pub speaker: String,
    pub rendered: String,
    pub saw_text: bool,
}

fn all_text_chunks(chunks: &Vec<InlineDialogueChunk>) -> (r: bool)
    ensures
        r == all_text(chunks_view(chunks@)),
{
    let mut i: usize = 0;
    while i < chunks.len()
        invariant
            0 <= i <= chunks@.len(),
            forall|j: int| 0 <= j < i ==> (#[trigger] chunks_view(chunks@)[j]) is Text,
        decreases chunks@.len() - i,
    {
        match &chunks[i] {
            InlineDialogueChunk::Text(_) => {},
            InlineDialogueChunk::Command(_) => {
                assert(!(chunks_view(chunks@)[i as int] is Text));
                return false;
            },
        }
        i = i + 1;
    }
    true
}

/// What starting a dialogue line does, after its checkpoint was counted
/// (`hm` is the state right after).
pub open spec fn dialogue_started<P>(
    hm: HostState<P>,
    h1: HostState<P>,
    speaker: String,
    text: String,
    r: Result<DialogueStart<P>, EngineError>,
) -> bool {
    match inline_chunks(text@) {
        Err(m) => h1 == hm && r is Err && runtime_error_is(r->Err_0, m),
        Ok(chunks) => if all_text(chunks) {
            r matches Ok(DialogueStart::Done(a)) && timed_outcome(
                hm,
                h1,
                "say"@,
                |id: Option<String>| ScriptCommand::Say { speaker, text, animation_id: id },
                a,
            )
        } else if hm.batch.active is Some {
            h1 == hm && r is Err && runtime_error_is(
                r->Err_0,
                "inline dialogue commands are not supported inside seq/par"@,
            )
        } else {
            &&& r matches Ok(DialogueStart::Inline(c))
            &&& chunks_view(r->Ok_0->Inline_0@) == chunks
            &&& h1 == HostState {
                inline: InlineDialogueControl {
                    active: true,
                    skip_requested: false,
                    current_handle: None,
                },
                ..hm
            }
        },
    }
}

/// What `say(speaker, text)` does from `h0`: the line's checkpoint is
/// counted, as `narrate` when the speaker is empty; the line is skipped
/// while a save is replayed up to it, and otherwise started.
pub open spec fn dialogue_line<P>(
    h0: HostState<P>,
    h1: HostState<P>,
    speaker: String,
    text: String,
    position: ScriptPosition,
    r: Result<DialogueStart<P>, EngineError>,
) -> bool {
    &&& checkpoint_step(h0.checkpoint, h1.checkpoint, h0.current_script, dialogue_kind(speaker@), None, position)
    &&& checkpoint_decision(h0.checkpoint, h0.current_script) == CheckpointDecision::ReplaySkip ==> (
    r matches Ok(DialogueStart::Done(a)) && a is Unit && h1 == with_checkpoint(h0, h1.checkpoint))
    &&& checkpoint_decision(h0.checkpoint, h0.current_script) == CheckpointDecision::Run
        ==> dialogue_started(with_checkpoint(h0, h1.checkpoint), h1, speaker, text, r)
}

/// `say(speaker, text)`: counts the line's checkpoint (skipping the line
/// while a save is replayed up to it), then shows the line. A line without
/// inline commands is one command, collected inside `seq`/`par` and
/// otherwise sent and awaited; a line with inline commands is shown chunk
/// by chunk, and cannot stand inside `seq`/`par`.
pub fn say<P>(h: &mut HostState<P>, speaker: String, text: String, position: ScriptPosition) -> (r:
    Result<DialogueStart<P>, EngineError>)
    requires
        old(h).checkpoint.ordinal < u64::MAX,
        old(h).next_animation_id < u64::MAX,
    ensures
        dialogue_line(*old(h), *final(h), speaker, text, position, r),
{
    let ghost h0 = *h;
    let kind = if speaker.unicode_len() == 0 {
        "narrate"
    } else {
        "say"
    };
    proof {
        reveal_strlit("narrate");
        reveal_strlit("say");
    }
    if h.checkpoint(kind, None, position) == CheckpointDecision::ReplaySkip {
        return Ok(DialogueStart::Done(EngineAction::Unit));
    }
    let ghost hm = *h;
    let ghost hc = with_checkpoint(h0, h.checkpoint);
    assert(hm == hc);
    let chunks = match parse_inline_dialogue_chunks(text.as_str()) {
        Ok(c) => c,
        Err(e) => {
            return Err(e);
        },
    };
    if all_text_chunks(&chunks) {
        let (mode, handle) = h.prepare_dispatch("say");
        let ghost hp = *h;
        let ghost build = |id: Option<String>|
            ScriptCommand::Say { speaker: speaker, text: text, animation_id: id };
        let command = ScriptCommand::Say { speaker, text, animation_id: copy_handle(&handle) };
        let a = h.complete_dispatch(mode, handle, command);
        proof {
            lemma_timed_dispatch(hm, hp, *h, "say"@, build, mode, handle, a);
        }
        return Ok(DialogueStart::Done(a));
    }
    if h.is_batch_mode() {
        return Err(runtime_error("inline dialogue commands are not supported inside seq/par"));
    }
    h.begin_inline_dialogue();
    Ok(DialogueStart::Inline(chunks))
}

/// `narrate(text)`: a line without a speaker.
pub fn narrate<P>(h: &mut HostState<P>, text: String, position: ScriptPosition) -> (r: Result<
    DialogueStart<P>,
    EngineError,
>)
    requires
        old(h).checkpoint.ordinal < u64::MAX,
        old(h).next_animation_id < u64::MAX,
    ensures
        exists|none: String|
            none@.len() == 0 && #[trigger] dialogue_line(*old(h), *final(h), none, text, position, r),
{
    let none = String::new();
    let ghost n = none;
    let r = say(h, none, text, position);
    assert(n@ =~= Seq::<char>::empty());
    r
}

/// `narrate(text)` is `say` with an empty speaker: whatever narrating a
/// line does is what saying it with an empty speaker does, its checkpoint
/// counted as `narrate`.
pub proof fn law_narrate_is_say_without_speaker<P>(
    h0: HostState<P>,
    h1: HostState<P>,
    text: String,
    position: ScriptPosition,
    r: Result<DialogueStart<P>, EngineError>,
)
    requires
        exists|none: String| none@.len() == 0 && #[trigger] dialogue_line(h0, h1, none, text, position, r),
    ensures
        exists|none: String| none@.len() == 0 && #[trigger] dialogue_line(h0, h1, none, text, position, r),
        h1.checkpoint.current matches Some(c) && c.kind@ == "narrate"@,
{
    let none = choose|none: String| none@.len() == 0 && #[trigger] dialogue_line(h0, h1, none, text, position, r);
    assert(dialogue_kind(none@) == "narrate"@);
}

/// Shows the next text chunk of an inline line: the line so far, revealed
/// from where the chunk starts, and awaited, or shown at once without
/// waiting once the reader asked to skip. An empty chunk shows nothing.
pub fn inline_text<P>(h: &HostState<P>, line: &mut InlineLine, segment: String) -> (r: EngineAction<P>)
    ensures
        segment@.len() == 0 ==> r is Unit && *final(line) == *old(line),
        segment@.len() > 0 ==> final(line).speaker == old(line).speaker && final(line).rendered@
            == old(line).rendered@ + segment@ && final(line).saw_text,
        segment@.len() > 0 && h.inline.active && h.inline.skip_requested ==> r == send_action(
            *h,
            ScriptCommand::SetDialogue {
                speaker: final(line).speaker,
                text: final(line).rendered,
                reveal_from: None,
                animation_id: None,
            },
        ),
        segment@.len() > 0 && !(h.inline.active && h.inline.skip_requested) ==> r
            == continue_action(
            *h,
            ScriptCommand::SetDialogue {
                speaker: final(line).speaker,
                text: final(line).rendered,
                reveal_from: Some(old(line).rendered@.len() as usize),
                animation_id: None,
            },
        ),
{
    if segment.unicode_len() == 0 {
        return EngineAction::Unit;
    }
    let reveal_from = line.rendered.unicode_len();
    line.rendered = concat(line.rendered.as_str(), segment.as_str());
    line.saw_text = true;
    if h.inline_skip_requested() {
        h.send_only(
            ScriptCommand::SetDialogue {
                speaker: line.speaker.clone(),
                text: line.rendered.clone(),
                reveal_from: None,
                animation_id: None,
            },
        )
    } else {
        h.send_continue(
            ScriptCommand::SetDialogue {
                speaker: line.speaker.clone(),
                text: line.rendered.clone(),
                reveal_from: Some(reveal_from),
                animation_id: None,
            },
        )
    }
}

/// Ends an inline line: inline control is released, and a line that showed
/// text waits for the reader to advance.
pub fn finish_inline_dialogue<P>(h: &mut HostState<P>, line: &InlineLine) -> (r: EngineAction<P>)
    ensures
        *final(h) == (HostState {
            inline: InlineDialogueControl { active: false, skip_requested: false, current_handle: None },
            ..*old(h)
        }),
        line.saw_text ==> r == continue_action(*old(h), ScriptCommand::AwaitDialogueAdvance),
        !line.saw_text ==> r is Unit,
{
    h.end_inline_dialogue();
    if line.saw_text {
        h.send_continue(ScriptCommand::AwaitDialogueAdvance)
    } else {
        EngineAction::Unit
    }
}

} // verus!
