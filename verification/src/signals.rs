//! Control-flow signals travel through the script engine as error
//! messages: a prefix names the action, the rest carries its target.
use vstd::prelude::*;

use crate::host::ScriptFlowAction;
use crate::text::{concat, split_once, strings_equal, strip_prefix};

verus! {

pub open spec fn jump_prefix() -> Seq<char> {
    "__hiraku_jump_script__::"@
}

pub open spec fn call_prefix() -> Seq<char> {
    "__hiraku_call_script__::"@
}

pub open spec fn save_prefix() -> Seq<char> {
    "__hiraku_save_script__::"@
}

pub open spec fn return_signal() -> Seq<char> {
    "__hiraku_return_script__"@
}

pub open spec fn return_to_title_signal() -> Seq<char> {
    "__hiraku_return_to_title__"@
}

pub open spec fn engine_stopped_signal() -> Seq<char> {
    "__hiraku_engine_stopped__"@
}

pub open spec fn web_yield_signal() -> Seq<char> {
    "__hiraku_web_runtime_yield__"@
}

/// The message that carries a flow action.
pub open spec fn signal_text(action: ScriptFlowAction) -> Seq<char> {
    match action {
        ScriptFlowAction::Jump(t) => jump_prefix() + t@,
        ScriptFlowAction::Call(t) => call_prefix() + t@,
        ScriptFlowAction::Save { slot, resume_script } => match resume_script {
            Some(r) => save_prefix() + slot@ + "\n"@ + r@,
            None => save_prefix() + slot@,
        },
        ScriptFlowAction::Return => return_signal(),
        ScriptFlowAction::ReturnToTitle => return_to_title_signal(),
        ScriptFlowAction::EngineStopped => engine_stopped_signal(),
    }
}

/// Writes a flow action as its signal message.
pub fn signal_payload(action: &ScriptFlowAction) -> (r: String)
    ensures
        r@ == signal_text(*action),
{
    match action {
        ScriptFlowAction::Jump(t) => concat("__hiraku_jump_script__::", t.as_str()),
        ScriptFlowAction::Call(t) => concat("__hiraku_call_script__::", t.as_str()),
        ScriptFlowAction::Save { slot, resume_script } => {
            let a = concat("__hiraku_save_script__::", slot.as_str());
            match resume_script {
                Some(r) => {
                    let b = concat(a.as_str(), "\n");
                    concat(b.as_str(), r.as_str())
                },
                None => a,
            }
        },
        ScriptFlowAction::Return => "__hiraku_return_script__".to_string(),
        ScriptFlowAction::ReturnToTitle => "__hiraku_return_to_title__".to_string(),
        ScriptFlowAction::EngineStopped => "__hiraku_engine_stopped__".to_string(),
    }
}

pub open spec fn starts_with(s: Seq<char>, p: Seq<char>) -> bool {
    p.len() <= s.len() && s.subrange(0, p.len() as int) == p
}

/// What a message means as a flow signal: the first prefix it starts with
/// decides; a save's slot ends at its first line break, and what follows
/// is the script to resume.
pub open spec fn signal_meaning(payload: Seq<char>, r: Option<ScriptFlowAction>) -> bool {
    if starts_with(payload, jump_prefix()) {
        r matches Some(ScriptFlowAction::Jump(t)) && payload == jump_prefix() + t@
    } else if starts_with(payload, call_prefix()) {
        r matches Some(ScriptFlowAction::Call(t)) && payload == call_prefix() + t@
    } else if starts_with(payload, save_prefix()) {
        let rest = payload.subrange(save_prefix().len() as int, payload.len() as int);
        if rest.contains('\n') {
            r matches Some(ScriptFlowAction::Save { slot, resume_script: Some(resume) })
                && rest == slot@ + "\n"@ + resume@ && !slot@.contains('\n')
        } else {
            r matches Some(ScriptFlowAction::Save { slot, resume_script: None }) && rest == slot@
        }
    } else if payload == return_signal() {
        r == Some(ScriptFlowAction::Return)
    } else if payload == return_to_title_signal() {
        r == Some(ScriptFlowAction::ReturnToTitle)
    } else if payload == engine_stopped_signal() {
        r == Some(ScriptFlowAction::EngineStopped)
    } else {
        r is None
    }
}

/// Reads a message as a flow signal, if it is one.
pub fn extract_signal_string(payload: &str) -> (r: Option<ScriptFlowAction>)
    ensures
        signal_meaning(payload@, r),
{
    proof {
        reveal_strlit("\n");
    }
    match strip_prefix(payload, "__hiraku_jump_script__::") {
        Some(target) => {
            return Some(ScriptFlowAction::Jump(target));
        },
        None => {},
    }
    match strip_prefix(payload, "__hiraku_call_script__::") {
        Some(target) => {
            return Some(ScriptFlowAction::Call(target));
        },
        None => {},
    }
    match strip_prefix(payload, "__hiraku_save_script__::") {
        Some(rest) => {
            assert(rest@ =~= payload@.subrange(save_prefix().len() as int, payload@.len() as int));
            return match split_once(rest.as_str(), '\n') {
                Some((slot, resume)) => {
                    assert(rest@ =~= slot@ + "\n"@ + resume@);
                    Some(ScriptFlowAction::Save { slot, resume_script: Some(resume) })
                },
                None => Some(ScriptFlowAction::Save { slot: rest, resume_script: None }),
            };
        },
        None => {},
    }
    if strings_equal(payload, "__hiraku_return_script__") {
        return Some(ScriptFlowAction::Return);
    }
    if strings_equal(payload, "__hiraku_return_to_title__") {
        return Some(ScriptFlowAction::ReturnToTitle);
    }
    if strings_equal(payload, "__hiraku_engine_stopped__") {
        return Some(ScriptFlowAction::EngineStopped);
    }
    None
}

/// The message by which the web runtime yields until the engine answers.
pub fn web_yield_payload() -> (r: String)
    ensures
        r@ == web_yield_signal(),
{
    proof {
        reveal_strlit("__hiraku_web_runtime_yield__");
    }
    "__hiraku_web_runtime_yield__".to_owned()
}

/// Is the message the web runtime's request to yield until the engine
/// answers?
pub fn is_web_runtime_yield(payload: &str) -> (r: bool)
    ensures
        r == (payload@ == web_yield_signal()),
{
    strings_equal(payload, "__hiraku_web_runtime_yield__")
}

/// Two flow actions name the same move.
pub open spec fn same_action(a: ScriptFlowAction, b: ScriptFlowAction) -> bool {
    match (a, b) {
        (ScriptFlowAction::Jump(x), ScriptFlowAction::Jump(y)) => x@ == y@,
        (ScriptFlowAction::Call(x), ScriptFlowAction::Call(y)) => x@ == y@,
        (
            ScriptFlowAction::Save { slot: s1, resume_script: r1 },
            ScriptFlowAction::Save { slot: s2, resume_script: r2 },
        ) => s1@ == s2@ && match (r1, r2) {
            (Some(x), Some(y)) => x@ == y@,
            (None, None) => true,
            _ => false,
        },
        (ScriptFlowAction::Return, ScriptFlowAction::Return) => true,
        (ScriptFlowAction::ReturnToTitle, ScriptFlowAction::ReturnToTitle) => true,
        (ScriptFlowAction::EngineStopped, ScriptFlowAction::EngineStopped) => true,
        _ => false,
    }
}

/// A save whose slot name holds a line break cannot travel as a signal:
/// the break would end the slot early.
pub open spec fn signal_safe(a: ScriptFlowAction) -> bool {
    a matches ScriptFlowAction::Save { slot, .. } ==> !slot@.contains('\n')
}

proof fn lemma_prefix_differs(s: Seq<char>, p: Seq<char>, q: Seq<char>, i: int)
    requires
        starts_with(s, p),
        0 <= i < p.len(),
        i < q.len(),
        p[i] != q[i],
    ensures
        !starts_with(s, q),
{
    assert(s[i] == p[i]);
    if starts_with(s, q) {
        assert(s.subrange(0, q.len() as int)[i] == q[i]);
    }
}

/// Reading the signal written for a flow action gives that action back.
pub proof fn law_signal_round_trip(a: ScriptFlowAction, r: Option<ScriptFlowAction>)
    requires
        signal_safe(a),
        signal_meaning(signal_text(a), r),
    ensures
        r is Some && same_action(a, r->0),
{
    reveal_strlit("__hiraku_jump_script__::");
    reveal_strlit("__hiraku_call_script__::");
    reveal_strlit("__hiraku_save_script__::");
    reveal_strlit("__hiraku_return_script__");
    reveal_strlit("__hiraku_return_to_title__");
    reveal_strlit("__hiraku_engine_stopped__");
    reveal_strlit("\n");
    let s = signal_text(a);
    match a {
        ScriptFlowAction::Jump(t) => {
            assert(s.subrange(0, jump_prefix().len() as int) =~= jump_prefix());
            let u = r->0->Jump_0;
            assert(t@ =~= s.subrange(jump_prefix().len() as int, s.len() as int));
            assert(u@ =~= s.subrange(jump_prefix().len() as int, s.len() as int));
        },
        ScriptFlowAction::Call(t) => {
            assert(s.subrange(0, call_prefix().len() as int) =~= call_prefix());
            lemma_prefix_differs(s, call_prefix(), jump_prefix(), 9);
            let u = r->0->Call_0;
            assert(t@ =~= s.subrange(call_prefix().len() as int, s.len() as int));
            assert(u@ =~= s.subrange(call_prefix().len() as int, s.len() as int));
        },
        ScriptFlowAction::Save { slot, resume_script } => {
            assert(s.subrange(0, save_prefix().len() as int) =~= save_prefix());
            lemma_prefix_differs(s, save_prefix(), jump_prefix(), 9);
            lemma_prefix_differs(s, save_prefix(), call_prefix(), 9);
            let rest = s.subrange(save_prefix().len() as int, s.len() as int);
            match resume_script {
                Some(resume) => {
                    assert(rest =~= slot@ + "\n"@ + resume@);
                    assert(rest[slot@.len() as int] == '\n');
                    assert(rest.contains('\n'));
                    let slot2 = r->0->Save_slot;
                    let resume2 = r->0->Save_resume_script->0;
                    assert(rest == slot2@ + "\n"@ + resume2@);
                    // the slot ends at the first line break of `rest`
                    if slot2@.len() < slot@.len() {
                        assert(rest[slot2@.len() as int] == '\n');
                        assert(slot@[slot2@.len() as int] == '\n');
                    } else if slot2@.len() > slot@.len() {
                        assert(rest[slot@.len() as int] == '\n');
                        assert(slot2@[slot@.len() as int] == '\n');
                    }
                    assert(slot@ =~= rest.subrange(0, slot@.len() as int));
                    assert(slot2@ =~= rest.subrange(0, slot2@.len() as int));
                    assert(resume@ =~= rest.subrange(slot@.len() as int + 1, rest.len() as int));
                    assert(resume2@ =~= rest.subrange(slot2@.len() as int + 1, rest.len() as int));
                },
                None => {
                    assert(rest =~= slot@);
                },
            }
        },
        ScriptFlowAction::Return => {
            assert(s.subrange(0, s.len() as int) =~= s);
            lemma_prefix_differs(s, return_signal(), jump_prefix(), 9);
            lemma_prefix_differs(s, return_signal(), call_prefix(), 9);
            lemma_prefix_differs(s, return_signal(), save_prefix(), 9);
        },
        ScriptFlowAction::ReturnToTitle => {
            assert(s.subrange(0, s.len() as int) =~= s);
            lemma_prefix_differs(s, return_to_title_signal(), jump_prefix(), 9);
            lemma_prefix_differs(s, return_to_title_signal(), call_prefix(), 9);
            lemma_prefix_differs(s, return_to_title_signal(), save_prefix(), 9);
            assert(s != return_signal()) by {
                assert(s.len() != return_signal().len());
            }
        },
        ScriptFlowAction::EngineStopped => {
            assert(s.subrange(0, s.len() as int) =~= s);
            lemma_prefix_differs(s, engine_stopped_signal(), jump_prefix(), 9);
            lemma_prefix_differs(s, engine_stopped_signal(), call_prefix(), 9);
            lemma_prefix_differs(s, engine_stopped_signal(), save_prefix(), 9);
            assert(s != return_signal()) by {
                assert(s.len() != return_signal().len());
            }
            assert(s != return_to_title_signal()) by {
                assert(s.len() != return_to_title_signal().len());
            }
        },
    }
}

} // verus!
