//! The decisions of the loop that runs scripts: what to do when a script
//! ends, and, on the web, when to run again and how waits are answered.
use vstd::prelude::*;

use crate::host::{send_action, EngineAction, HostState, ScriptFlowAction, WebScriptExecution};
use crate::ir::IrProgram;
use crate::script_command::{ScriptCommand, ScriptResponse};
use crate::stored_value::StoredValue;
use crate::text::concat;

verus! {

/// How a script evaluation ended.
#[derive(Debug)]
pub enum ScriptRunEnd {
    Completed,
    /// The web runtime yielded to wait for the engine.
    Yielded,
    /// A flow signal unwound the script.
    Flow(ScriptFlowAction),
    /// Any other error, with its message.
    Failed(String),
}

/// What the loop does next.
#[derive(Debug, PartialEq)]
pub enum LoopDecision {
    /// The loop is over.
    Finished,
    /// The web runtime waits for the engine; the loop runs again later.
    Yielded,
    /// Jump to a script: restore a pending scope, then start it on the IR
    /// runtime when it compiles (`start_ir`), else run it here.
    Jump(String),
    /// Run this script next.
    Run(String),
    /// Save the slot, then finish.
    Save { slot: String, resume_script: Option<String> },
    /// Report this message, then finish.
    Failed(String),
}

/// Starts running the script at `path`: it becomes the current script and
/// its checkpoints are counted afresh.
pub fn enter_script<P>(h: &mut HostState<P>, path: String)
    ensures
        final(h).current_script@ == path@,
        final(h).checkpoint.ordinal == 0,
        final(h).checkpoint.current == old(h).checkpoint.current,
        final(h).checkpoint.input_log == old(h).checkpoint.input_log,
        final(h).checkpoint.replay == old(h).checkpoint.replay,
        final(h).script_stack == old(h).script_stack,
        final(h).globals == old(h).globals,
        final(h).batch == old(h).batch,
        final(h).inline == old(h).inline,
        final(h).next_animation_id == old(h).next_animation_id,
        old(h).current_script@ == path@ ==> final(h).web == old(h).web,
        old(h).current_script@ != path@ ==> match old(h).web {
            None => final(h).web is None,
            Some(w) => final(h).web matches Some(n) && n.responses@.len() == 0 && n.cursor == 0
                && n.pending == w.pending,
        },
{
    h.set_current_script_path(path);
    h.reset_script_checkpoint_counter();
}

/// Hands a jump target that compiled to the IR runtime.
pub fn start_ir<P>(h: &mut HostState<P>, target: String, program: IrProgram) -> (r: EngineAction<P>)
    ensures
        final(h).current_script@ == target@,
        final(h).checkpoint.ordinal == 0,
        final(h).checkpoint.replay == old(h).checkpoint.replay,
        final(h).checkpoint.current == old(h).checkpoint.current,
        final(h).checkpoint.input_log == old(h).checkpoint.input_log,
        final(h).script_stack == old(h).script_stack,
        final(h).globals == old(h).globals,
        final(h).batch == old(h).batch,
        final(h).inline == old(h).inline,
        final(h).next_animation_id == old(h).next_animation_id,
        r == send_action(*final(h), ScriptCommand::StartIr { path: target, program }),
{
    let path = target.clone();
    enter_script(h, target);
    h.send_only(ScriptCommand::StartIr { path, program })
}

/// The decision once the script at `current` ended: a call remembers where
/// to come back, a return goes back there.
pub fn script_loop_decision<P>(h: &mut HostState<P>, current: String, end: ScriptRunEnd) -> (r:
    LoopDecision)
    ensures
        *final(h) == (HostState { script_stack: final(h).script_stack, ..*old(h) }),
        end is Completed ==> r == LoopDecision::Finished && final(h).script_stack == old(
            h).script_stack,
        end is Yielded ==> r == LoopDecision::Yielded && final(h).script_stack == old(
            h).script_stack,
        end matches ScriptRunEnd::Failed(m) ==> final(h).script_stack == old(h).script_stack
            && (r matches LoopDecision::Failed(x) && x@ == "script `"@ + current@ + "` failed: "@
            + m@),
        end matches ScriptRunEnd::Flow(a) ==> match a {
            ScriptFlowAction::Jump(t) => r == LoopDecision::Jump(t) && final(h).script_stack
                == old(h).script_stack,
            ScriptFlowAction::Call(t) => r == LoopDecision::Run(t) && final(h).script_stack@
                == old(h).script_stack@.push(current),
            ScriptFlowAction::Save { slot, resume_script } => r == (LoopDecision::Save {
                slot,
                resume_script,
            }) && final(h).script_stack == old(h).script_stack,
            ScriptFlowAction::Return => if old(h).script_stack@.len() == 0 {
                final(h).script_stack@ == old(h).script_stack@ && (r matches LoopDecision::Failed(x)
                    && x@ == "script `"@ + current@ + "` tried to return with an empty call stack"@)
            } else {
                r == LoopDecision::Run(old(h).script_stack@.last()) && final(h).script_stack@
                    == old(h).script_stack@.drop_last()
            },
            ScriptFlowAction::ReturnToTitle => r == LoopDecision::Finished && final(h).script_stack == old(h).script_stack,
            ScriptFlowAction::EngineStopped => r == LoopDecision::Finished && final(h).script_stack == old(h).script_stack,
        },
{
    match end {
        ScriptRunEnd::Completed => LoopDecision::Finished,
        ScriptRunEnd::Yielded => LoopDecision::Yielded,
        ScriptRunEnd::Failed(message) => {
            let a = concat("script `", current.as_str());
            let b = concat(a.as_str(), "` failed: ");
            LoopDecision::Failed(concat(b.as_str(), message.as_str()))
        },
        ScriptRunEnd::Flow(action) => match action {
            ScriptFlowAction::Jump(target) => LoopDecision::Jump(target),
            ScriptFlowAction::Call(target) => {
                h.script_stack.push(current);
                LoopDecision::Run(target)
            },
            ScriptFlowAction::Save { slot, resume_script } => LoopDecision::Save {
                slot,
                resume_script,
            },
            ScriptFlowAction::Return => match h.script_stack.pop() {
                Some(target) => LoopDecision::Run(target),
                None => {
                    let a = concat("script `", current.as_str());
                    LoopDecision::Failed(
                        concat(a.as_str(), "` tried to return with an empty call stack"),
                    )
                },
            },
            ScriptFlowAction::ReturnToTitle => LoopDecision::Finished,
            ScriptFlowAction::EngineStopped => LoopDecision::Finished,
        },
    }
}

// ---------------------------------------------------------------------------
// The web runtime
// ---------------------------------------------------------------------------
/// A copy of an engine response.
pub fn duplicate_response(r: &ScriptResponse) -> (c: ScriptResponse)
    ensures
        r is Continue ==> c is Continue,
        r matches ScriptResponse::Choice(v) ==> (c matches ScriptResponse::Choice(w) && w@ == v@),
{
    match r {
        ScriptResponse::Continue => ScriptResponse::Continue,
        ScriptResponse::Choice(v) => ScriptResponse::Choice(v.duplicate()),
    }
}

/// How a wait for the engine's response is answered.
#[derive(Debug)]
pub enum ResponseWait {
    /// Not on the web: block until the engine answers.
    Native,
    /// On the web, the answer already received for this wait.
    Replayed(ScriptResponse),
    /// On the web, no answer yet: the script yields until one arrives.
    Yield,
}

/// Answers a wait: the web runtime replays the responses it has received,
/// in order, and yields once it has none left.
pub fn wait_for_response<P>(h: &mut HostState<P>) -> (r: ResponseWait)
    ensures
        *final(h) == (HostState { web: final(h).web, ..*old(h) }),
        old(h).web is None ==> r is Native && final(h).web is None,
        old(h).web matches Some(w) ==> if w.cursor < w.responses@.len() {
            (r matches ResponseWait::Replayed(x) && (w.responses@[w.cursor as int] is Continue
                ==> x is Continue) && (w.responses@[w.cursor as int] matches ScriptResponse::Choice(
                v) ==> (x matches ScriptResponse::Choice(y) && y@ == v@))) && final(h).web
                == Some(WebScriptExecution { cursor: (w.cursor + 1) as usize, ..w })
        } else {
            r is Yield && final(h).web == Some(WebScriptExecution { pending: true, ..w })
        },
{
    match &mut h.web {
        None => ResponseWait::Native,
        Some(w) => {
            if w.cursor < w.responses.len() {
                let response = duplicate_response(&w.responses[w.cursor]);
                w.cursor = w.cursor + 1;
                ResponseWait::Replayed(response)
            } else {
                w.pending = true;
                ResponseWait::Yield
            }
        },
    }
}

/// What polling the pending wait found.
#[derive(Debug)]
pub enum WebPoll {
    /// No wait is pending.
    NotWaiting,
    /// The engine has not answered yet.
    Empty,
    Received(ScriptResponse),
    /// The engine stopped answering.
    Disconnected,
}

/// Whether the web runtime has started and finished.
#[derive(Clone, Copy, Debug, PartialEq, Eq, Structural)]
pub struct WebDriver {
    pub started: bool,
    pub finished: bool,
}

/// One frame of the web runtime: it starts once, then runs again each time
/// a pending wait is answered (the answer joins the ones to replay, and
/// replay starts over). It stops when the engine stops answering.
pub fn drive_web_script_runtime<P>(h: &mut HostState<P>, driver: &mut WebDriver, poll: WebPoll) -> (run:
    bool)
    requires
        old(h).web is Some,
    ensures
        *final(h) == (HostState { web: final(h).web, ..*old(h) }),
        final(h).web is Some,
        old(driver).finished ==> !run && *final(driver) == *old(driver) && final(h).web == old(
            h).web,
        !old(driver).finished && !old(driver).started ==> run && final(driver).started
            && !final(driver).finished,
        !old(driver).finished && old(driver).started ==> match poll {
            WebPoll::Received(_) => run && *final(driver) == *old(driver) && final(h).web->0.responses@.len() == old(h).web->0.responses@.len() + 1
                && final(h).web->0.responses@.drop_last() == old(h).web->0.responses@
                && !final(h).web->0.pending,
            WebPoll::Disconnected => !run && final(driver).finished && final(h).web == old(h).web,
            _ => !run && *final(driver) == *old(driver) && final(h).web == old(h).web,
        },
        run ==> final(h).web->0.cursor == 0,
{
    if driver.finished {
        return false;
    }
    let run = if !driver.started {
        driver.started = true;
        true
    } else {
        match poll {
            WebPoll::Received(response) => {
                match &mut h.web {
                    Some(w) => {
                        let ghost before = w.responses@;
                        w.responses.push(response);
                        w.pending = false;
                        assert(w.responses@.drop_last() =~= before);
                    },
                    None => {},
                }
                true
            },
            WebPoll::Disconnected => {
                driver.finished = true;
                false
            },
            _ => false,
        }
    };
    if run {
        match &mut h.web {
            Some(w) => {
                w.cursor = 0;
            },
            None => {},
        }
    }
    run
}

} // verus!
