//! How the story host routes a native call: the story's control builtins
//! (navigation, tasks, choices, random draws, UI and waits) are decided
//! here; every other call goes to the native registry.
use vstd::prelude::*;

use crate::story::{
    empty_path_message, plain_request, reset_of, CharacterCapabilityError, NavigationKind,
    NavigationRequest, NavigationReset, NavigationResetValue, StoryTaskKind,
};
use crate::text::{blank, strings_equal};

verus! {

/// The handle type of a choice option.
pub const CHOICE_OPTION_HANDLE_TYPE: u32 = 0x434f_5054;

/// The builtin numbers of the story's control calls, as the compiled
/// program's manifest resolved them.
#[derive(Clone, Copy, Debug, PartialEq, Eq, Structural)]
pub struct StoryControlBuiltins {
    pub random_int: u64,
    pub enable_option: u64,
    pub goto: u64,
    pub sequence: u64,
    pub parallel: u64,
    pub choice: u64,
    pub option: u64,
    pub open_ui: u64,
    pub open_ui_any: u64,
    pub wait: u64,
    pub await_task: u64,
}

/// What routing reads of a script value.
#[derive(Debug, PartialEq)]
pub enum CallValue {
    /// A closure or function.
    Callable,
    Text(String),
    Bool(bool),
    Handle { type_id: u32, id: u64 },
    Task(u64),
    /// A finite number without fraction within the 32-bit integer range.
    ExactInteger(i64),
    /// Any other value.
    Other,
}

/// A native call of the story: the builtin called, its receiver and its
/// arguments.
#[derive(Debug)]
pub struct StoryCall {
    pub builtin: u64,
    pub receiver: Option<CallValue>,
    pub arguments: Vec<CallValue>,
}

/// A control request of the story. Closures are named by the index of the
/// argument that holds them.
#[derive(Debug, PartialEq)]
pub enum StoryControl {
    RandomInt { min: i64, max: i64 },
    SpawnTask { kind: StoryTaskKind, closure: usize },
    BeginChoice { prompt: String, closure: usize },
    AddChoiceOption { label: String, closure: usize },
    EnableChoiceOption { id: u64, enabled: bool },
    /// Open a UI role or component; its arguments are the call's arguments
    /// after the first.
    OpenUi { path: String },
    WaitTask { task: u64 },
}

/// Where a call goes.
#[derive(Debug, PartialEq)]
pub enum CallRoute {
    Control(StoryControl),
    /// `story.goto`: build the request with `NavigationRequest::from_goto_call`.
    Navigate,
    /// An ordinary native function of the registry.
    Registry,
}

/// The index of the first callable argument.
pub open spec fn first_callable(args: Seq<CallValue>) -> Option<int>
    decreases args.len(),
{
    if args.len() == 0 {
        None
    } else if args.last() is Callable {
        match first_callable(args.drop_last()) {
            Some(i) => Some(i),
            None => Some(args.len() - 1),
        }
    } else {
        first_callable(args.drop_last())
    }
}

/// The first text argument.
pub open spec fn first_text(args: Seq<CallValue>) -> Option<Seq<char>>
    decreases args.len(),
{
    if args.len() == 0 {
        None
    } else {
        match first_text(args.drop_last()) {
            Some(t) => Some(t),
            None => match args.last() {
                CallValue::Text(t) => Some(t@),
                _ => None,
            },
        }
    }
}

pub open spec fn all_integers(args: Seq<CallValue>) -> bool {
    forall|i: int| 0 <= i < args.len() ==> (#[trigger] args[i]) is ExactInteger
}

pub open spec fn invalid(r: Result<CallRoute, CharacterCapabilityError>, message: Seq<char>) -> bool {
    r matches Err(CharacterCapabilityError::InvalidArguments(m)) && m@ == message
}

pub open spec fn control(r: Result<CallRoute, CharacterCapabilityError>) -> StoryControl {
    r->Ok_0->Control_0
}

/// How a call is routed, control builtins checked in a fixed order.
pub open spec fn routed(c: StoryControlBuiltins, call: StoryCall, r: Result<CallRoute, CharacterCapabilityError>) -> bool {
    let args = call.arguments@;
    if call.builtin == c.goto {
        r == Ok::<CallRoute, CharacterCapabilityError>(CallRoute::Navigate)
    } else if call.builtin == c.sequence || call.builtin == c.parallel {
        if args.len() > 0 && args[0] is Callable {
            r == Ok::<CallRoute, CharacterCapabilityError>(
                CallRoute::Control(
                    StoryControl::SpawnTask {
                        kind: if call.builtin == c.sequence {
                            StoryTaskKind::Sequence
                        } else {
                            StoryTaskKind::Parallel
                        },
                        closure: 0,
                    },
                ),
            )
        } else {
            invalid(r, "seq/par require a trailing closure"@)
        }
    } else if call.builtin == c.choice {
        match first_callable(args) {
            None => invalid(r, "choice requires a trailing closure"@),
            Some(i) => (r matches Ok(CallRoute::Control(StoryControl::BeginChoice { prompt, closure })) && closure == i
                && prompt@ == match first_text(args) {
                Some(t) => t,
                None => Seq::empty(),
            }),
        }
    } else if call.builtin == c.option {
        if !(args.len() > 0 && args[0] is Text) {
            invalid(r, "option requires a string label"@)
        } else {
            match first_callable(args) {
                None => invalid(r, "option requires a trailing closure"@),
                Some(i) => (r matches Ok(CallRoute::Control(StoryControl::AddChoiceOption { label, closure })) && closure == i
                    && label@ == args[0]->Text_0@),
            }
        }
    } else if call.builtin == c.enable_option {
        if !(call.receiver matches Some(CallValue::Handle { type_id, id }) && type_id
            == CHOICE_OPTION_HANDLE_TYPE) {
            invalid(r, "enable requires a ChoiceOption receiver"@)
        } else if !(args.len() > 0 && args[0] is Bool) {
            invalid(r, "enable requires Bool"@)
        } else {
            r == Ok::<CallRoute, CharacterCapabilityError>(
                CallRoute::Control(
                    StoryControl::EnableChoiceOption {
                        id: call.receiver->0->Handle_id,
                        enabled: args[0]->Bool_0,
                    },
                ),
            )
        }
    } else if call.builtin == c.random_int {
        if !all_integers(args) {
            invalid(r, "randomInt expects exact integers"@)
        } else if args.len() != 2 {
            invalid(r, "randomInt requires min and exclusive max"@)
        } else if args[0]->ExactInteger_0 >= args[1]->ExactInteger_0 {
            invalid(r, "randomInt requires min < max"@)
        } else {
            r == Ok::<CallRoute, CharacterCapabilityError>(
                CallRoute::Control(
                    StoryControl::RandomInt {
                        min: args[0]->ExactInteger_0,
                        max: args[1]->ExactInteger_0,
                    },
                ),
            )
        }
    } else if call.builtin == c.open_ui || call.builtin == c.open_ui_any {
        if args.len() > 0 && args[0] is Text {
            r matches Ok(CallRoute::Control(StoryControl::OpenUi { path })) && path@
                == args[0]->Text_0@
        } else {
            invalid(r, "ui.open requires a string role or component path"@)
        }
    } else if call.builtin == c.wait || call.builtin == c.await_task {
        let task = match call.receiver {
            Some(v) => Some(v),
            None => if args.len() > 0 {
                Some(args[0])
            } else {
                None
            },
        };
        match task {
            Some(CallValue::Task(t)) => r == Ok::<CallRoute, CharacterCapabilityError>(
                CallRoute::Control(StoryControl::WaitTask { task: t }),
            ),
            _ => invalid(r, "wait requires a task handle"@),
        }
    } else {
        r == Ok::<CallRoute, CharacterCapabilityError>(CallRoute::Registry)
    }
}

fn find_callable(args: &Vec<CallValue>) -> (r: Option<usize>)
    ensures
        match first_callable(args@) {
            Some(i) => (r matches Some(k) && k as int == i),
            None => r is None,
        },
{
    let mut i: usize = 0;
    while i < args.len()
        invariant
            0 <= i <= args@.len(),
            first_callable(args@.take(i as int)) is None,
        decreases args@.len() - i,
    {
        proof {
            assert(args@.take(i + 1).drop_last() =~= args@.take(i as int));
        }
        match &args[i] {
            CallValue::Callable => {
                proof {
                    lemma_first_callable_prefix(args@, i as int);
                }
                return Some(i);
            },
            _ => {},
        }
        i = i + 1;
    }
    assert(args@.take(i as int) =~= args@);
    None
}

proof fn lemma_first_callable_prefix(args: Seq<CallValue>, i: int)
    requires
        0 <= i < args.len(),
        args[i] is Callable,
        first_callable(args.take(i)) is None,
    ensures
        first_callable(args) == Some(i),
    decreases args.len(),
{
    if i == args.len() - 1 {
        assert(args.drop_last() =~= args.take(i));
    } else {
        assert(args.drop_last().take(i) =~= args.take(i));
        lemma_first_callable_prefix(args.drop_last(), i);
        assert(!(args.last() is Callable) || first_callable(args.drop_last()) is Some);
    }
}

fn find_text(args: &Vec<CallValue>) -> (r: String)
    ensures
        r@ == match first_text(args@) {
            Some(t) => t,
            None => Seq::empty(),
        },
{
    let mut i: usize = 0;
    while i < args.len()
        invariant
            0 <= i <= args@.len(),
            first_text(args@.take(i as int)) is None,
        decreases args@.len() - i,
    {
        proof {
            assert(args@.take(i + 1).drop_last() =~= args@.take(i as int));
        }
        match &args[i] {
            CallValue::Text(t) => {
                proof {
                    lemma_first_text_prefix(args@, i as int);
                }
                return t.clone();
            },
            _ => {},
        }
        i = i + 1;
    }
    assert(args@.take(i as int) =~= args@);
    String::new()
}

proof fn lemma_first_text_prefix(args: Seq<CallValue>, i: int)
    requires
        0 <= i < args.len(),
        args[i] is Text,
        first_text(args.take(i)) is None,
    ensures
        first_text(args) == Some(args[i]->Text_0@),
    decreases args.len(),
{
    if i == args.len() - 1 {
        assert(args.drop_last() =~= args.take(i));
    } else {
        assert(args.drop_last().take(i) =~= args.take(i));
        lemma_first_text_prefix(args.drop_last(), i);
    }
}

fn all_exact_integers(args: &Vec<CallValue>) -> (r: bool)
    ensures
        r == all_integers(args@),
{
    let mut i: usize = 0;
    while i < args.len()
        invariant
            0 <= i <= args@.len(),
            forall|j: int| 0 <= j < i ==> (#[trigger] args@[j]) is ExactInteger,
        decreases args@.len() - i,
    {
        match &args[i] {
            CallValue::ExactInteger(_) => {},
            _ => {
                return false;
            },
        }
        i = i + 1;
    }
    true
}

/// A `seq` block runs its commands one after another and a `par` block runs
/// them side by side: a call of the sequence builtin whose first argument is
/// a closure spawns a sequential task of that closure, and a call of the
/// parallel builtin (when the two builtins differ) a parallel one.
pub proof fn law_seq_and_par_spawn_their_kind(
    c: StoryControlBuiltins,
    call: StoryCall,
    r: Result<CallRoute, CharacterCapabilityError>,
)
    requires
        routed(c, call, r),
        call.builtin != c.goto,
        call.arguments@.len() > 0,
        call.arguments@[0] is Callable,
    ensures
        call.builtin == c.sequence ==> r == Ok::<CallRoute, CharacterCapabilityError>(
            CallRoute::Control(StoryControl::SpawnTask { kind: StoryTaskKind::Sequence, closure: 0 }),
        ),
        call.builtin == c.parallel && c.parallel != c.sequence ==> r == Ok::<
            CallRoute,
            CharacterCapabilityError,
        >(CallRoute::Control(StoryControl::SpawnTask { kind: StoryTaskKind::Parallel, closure: 0 })),
{
}

/// A navigation resets what its options name and nothing else: no reset
/// resets nothing, and the presentation and the session resets are the
/// ones named.
pub proof fn law_navigation_resets_what_its_options_name(v: NavigationResetValue)
    ensures
        (reset_of(v) == NavigationReset::NoReset) <==> (v == NavigationResetValue::NoReset),
        (reset_of(v) == NavigationReset::Presentation) <==> (v == NavigationResetValue::Presentation),
        (reset_of(v) == NavigationReset::Session) <==> (v == NavigationResetValue::Session),
{
}

/// Routes a story call: control builtins become control requests, after
/// their arguments are checked; other calls go to the registry.
pub fn route_story_call(controls: &StoryControlBuiltins, call: &StoryCall) -> (r: Result<
    CallRoute,
    CharacterCapabilityError,
>)
    ensures
        routed(*controls, *call, r),
{
    let args = &call.arguments;
    if call.builtin == controls.goto {
        return Ok(CallRoute::Navigate);
    }
    if call.builtin == controls.sequence || call.builtin == controls.parallel {
        if args.len() > 0 {
            if let CallValue::Callable = &args[0] {
                let kind = if call.builtin == controls.sequence {
                    StoryTaskKind::Sequence
                } else {
                    StoryTaskKind::Parallel
                };
                return Ok(CallRoute::Control(StoryControl::SpawnTask { kind, closure: 0 }));
            }
        }
        return Err(CharacterCapabilityError::InvalidArguments("seq/par require a trailing closure"));
    }
    if call.builtin == controls.choice {
        let closure = match find_callable(args) {
            Some(i) => i,
            None => {
                return Err(
                    CharacterCapabilityError::InvalidArguments("choice requires a trailing closure"),
                );
            },
        };
        let prompt = find_text(args);
        return Ok(CallRoute::Control(StoryControl::BeginChoice { prompt, closure }));
    }
    if call.builtin == controls.option {
        let label = if args.len() > 0 {
            match &args[0] {
                CallValue::Text(t) => t.clone(),
                _ => {
                    return Err(
                        CharacterCapabilityError::InvalidArguments("option requires a string label"),
                    );
                },
            }
        } else {
            return Err(CharacterCapabilityError::InvalidArguments("option requires a string label"));
        };
        let closure = match find_callable(args) {
            Some(i) => i,
            None => {
                return Err(
                    CharacterCapabilityError::InvalidArguments("option requires a trailing closure"),
                );
            },
        };
        return Ok(CallRoute::Control(StoryControl::AddChoiceOption { label, closure }));
    }
    if call.builtin == controls.enable_option {
        let id = match &call.receiver {
            Some(CallValue::Handle { type_id, id }) if *type_id == CHOICE_OPTION_HANDLE_TYPE => *id,
            _ => {
                return Err(
                    CharacterCapabilityError::InvalidArguments(
                        "enable requires a ChoiceOption receiver",
                    ),
                );
            },
        };
        if args.len() > 0 {
            if let CallValue::Bool(enabled) = &args[0] {
                return Ok(
                    CallRoute::Control(StoryControl::EnableChoiceOption { id, enabled: *enabled }),
                );
            }
        }
        return Err(CharacterCapabilityError::InvalidArguments("enable requires Bool"));
    }
    if call.builtin == controls.random_int {
        if !all_exact_integers(args) {
            return Err(CharacterCapabilityError::InvalidArguments("randomInt expects exact integers"));
        }
        if args.len() != 2 {
            return Err(
                CharacterCapabilityError::InvalidArguments(
                    "randomInt requires min and exclusive max",
                ),
            );
        }
        let (min, max) = match (&args[0], &args[1]) {
            (CallValue::ExactInteger(a), CallValue::ExactInteger(b)) => (*a, *b),
            _ => {
                return Err(
                    CharacterCapabilityError::InvalidArguments("randomInt expects exact integers"),
                );
            },
        };
        if min >= max {
            return Err(CharacterCapabilityError::InvalidArguments("randomInt requires min < max"));
        }
        return Ok(CallRoute::Control(StoryControl::RandomInt { min, max }));
    }
    if call.builtin == controls.open_ui || call.builtin == controls.open_ui_any {
        if args.len() > 0 {
            if let CallValue::Text(path) = &args[0] {
                return Ok(CallRoute::Control(StoryControl::OpenUi { path: path.clone() }));
            }
        }
        return Err(
            CharacterCapabilityError::InvalidArguments(
                "ui.open requires a string role or component path",
            ),
        );
    }
    if call.builtin == controls.wait || call.builtin == controls.await_task {
        let task = match &call.receiver {
            Some(v) => Some(v),
            None => if args.len() > 0 {
                Some(&args[0])
            } else {
                None
            },
        };
        return match task {
            Some(CallValue::Task(t)) => Ok(CallRoute::Control(StoryControl::WaitTask { task: *t })),
            _ => Err(CharacterCapabilityError::InvalidArguments("wait requires a task handle")),
        };
    }
    Ok(CallRoute::Registry)
}

// ---------------------------------------------------------------------------
// Navigation calls
// ---------------------------------------------------------------------------
/// The options a story passes to `story.goto`.
#[derive(Clone, Copy, Debug, PartialEq, Eq, Structural)]
pub struct NavigationOptions {
    pub reset: NavigationResetValue,
    pub preload: Option<bool>,
}

pub open spec fn known_key(name: Seq<char>) -> bool {
    name == "reset"@ || name == "preload"@
}

pub open spec fn only_known_keys(keys: Seq<String>) -> bool {
    forall|i: int| 0 <= i < keys.len() ==> #[trigger] known_key(keys[i]@)
}

/// Reads `story.goto` options: a record with at most a `reset` and a
/// `preload` field. `keys` are the record's keys, or nothing when the value
/// is not a record; `reset` and `preload` are the fields as converted.
pub fn navigation_options(
    keys: Option<Vec<String>>,
    reset: Result<Option<NavigationResetValue>, String>,
    preload: Result<Option<bool>, String>,
) -> (r: Result<NavigationOptions, String>)
    ensures
        keys is None ==> r is Err && r->Err_0@ == "goto options must be a record"@,
        keys matches Some(k) && !only_known_keys(k@) ==> r is Err && r->Err_0@
            == "goto options accept only `reset` and `preload`"@,
        keys matches Some(k) && only_known_keys(k@) ==> match reset {
            Err(m) => r == Err::<NavigationOptions, String>(m),
            Ok(rv) => match preload {
                Err(m) => r == Err::<NavigationOptions, String>(m),
                Ok(p) => r == Ok::<NavigationOptions, String>(
                    NavigationOptions {
                        reset: match rv {
                            Some(v) => v,
                            None => NavigationResetValue::NoReset,
                        },
                        preload: p,
                    },
                ),
            },
        },
{
    let names = match keys {
        Some(k) => k,
        None => {
            return Err("goto options must be a record".to_string());
        },
    };
    let mut i: usize = 0;
    while i < names.len()
        invariant
            0 <= i <= names@.len(),
            keys == Some(names),
            forall|j: int| 0 <= j < i ==> #[trigger] known_key(names@[j]@),
        decreases names@.len() - i,
    {
        if !strings_equal(names[i].as_str(), "reset") && !strings_equal(names[i].as_str(), "preload") {
            assert(!known_key(names@[i as int]@));
            return Err("goto options accept only `reset` and `preload`".to_string());
        }
        i = i + 1;
    }
    let reset = match reset {
        Ok(v) => v,
        Err(m) => {
            return Err(m);
        },
    };
    let preload = match preload {
        Ok(v) => v,
        Err(m) => {
            return Err(m);
        },
    };
    Ok(
        NavigationOptions {
            reset: match reset {
                Some(v) => v,
                None => NavigationResetValue::NoReset,
            },
            preload,
        },
    )
}

impl NavigationRequest {
    /// The request of a `story.goto(path, options?)` call: one or two
    /// arguments, the path as converted, and the options, if given, as
    /// converted.
    pub fn from_goto_call(
        argument_count: usize,
        path: Result<String, String>,
        options: Result<Option<NavigationOptions>, String>,
    ) -> (r: Result<NavigationRequest, String>)
        ensures
            !(1 <= argument_count <= 2) ==> r is Err && r->Err_0@
                == "story.goto expects a path and optional options record"@,
            1 <= argument_count <= 2 ==> match path {
                Err(m) => r == Err::<NavigationRequest, String>(m),
                Ok(p) => match options {
                    Err(m) => r == Err::<NavigationRequest, String>(m),
                    Ok(o) => if blank(p@) {
                        r is Err && r->Err_0@ == empty_path_message()
                    } else {
                        r == Ok::<NavigationRequest, String>(
                            match o {
                                None => plain_request(p, NavigationKind::Goto),
                                Some(opt) => NavigationRequest {
                                    reset: reset_of(opt.reset),
                                    preload: opt.preload,
                                    ..plain_request(p, NavigationKind::Goto)
                                },
                            },
                        )
                    },
                },
            },
    {
        if argument_count < 1 || argument_count > 2 {
            return Err("story.goto expects a path and optional options record".to_string());
        }
        let path = match path {
            Ok(p) => p,
            Err(m) => {
                return Err(m);
            },
        };
        let options = match options {
            Ok(o) => o,
            Err(m) => {
                return Err(m);
            },
        };
        let mut request = match NavigationRequest::goto(path) {
            Ok(r) => r,
            Err(m) => {
                return Err(m);
            },
        };
        match options {
            Some(o) => {
                request.reset = NavigationReset::from(o.reset);
                request.preload = o.preload;
            },
            None => {},
        }
        Ok(request)
    }
}

} // verus!
