//! The story runtime's vocabulary: executions, navigation between stories,
//! the request/response boundary with the engine, what a story waits for,
//! and the commands it hands the engine.
use vstd::prelude::*;

use crate::script_command::ScriptDuration;
use crate::tables::IdTable;
use crate::text::{blank, decimal_string, decimal_text, is_blank};

verus! {

// ---------------------------------------------------------------------------
// Executions
// ---------------------------------------------------------------------------
/// A running VM: the main program or a task the engine created.
#[derive(Clone, Copy, Debug, PartialEq, Eq, Structural, PartialOrd, Ord, Hash)]
pub struct ExecutionId(u64);

impl ExecutionId {
    /// The number behind the identifier.
    pub closed spec fn number(self) -> u64 {
        self.0
    }

    /// The main program.
    pub fn main_execution() -> (r: Self)
        ensures
            r.number() == 0,
    {
        ExecutionId(0)
    }

    pub fn is_main(self) -> (r: bool)
        ensures
            r == (self.number() == 0),
    {
        self.0 == 0
    }

    pub fn from_task_handle(value: u64) -> (r: Self)
        ensures
            r.number() == value,
    {
        ExecutionId(value)
    }

    pub fn task_handle(self) -> (r: u64)
        ensures
            r == self.number(),
    {
        self.0
    }

    /// Identifiers are their numbers: two with the same number are the same,
    /// so every identifier is the one made from its task handle.
    pub proof fn law_identifier_is_its_number(a: Self, b: Self)
        ensures
            a.number() == b.number() ==> a == b,
    {
    }

    /// How the identifier is shown: `main`, or the task's number.
    pub fn label(self) -> (r: String)
        ensures
            self.number() == 0 ==> r@ == "main"@,
            self.number() != 0 ==> r@ == decimal_text(self.number()),
    {
        if self.0 == 0 {
            "main".to_string()
        } else {
            decimal_string(self.0)
        }
    }
}

#[derive(Clone, Copy, Debug, PartialEq, Eq, Structural)]
pub enum ExecutionMode {
    Main,
    Interactive,
}

// ---------------------------------------------------------------------------
// The request/response boundary
// ---------------------------------------------------------------------------
/// Joins a wait of the story with the engine's eventual response; unlike
/// entities or message numbers it survives a snapshot.
#[derive(Clone, Copy, Debug, PartialEq, Eq, Structural, PartialOrd, Ord, Hash)]
pub struct ScriptRequestId(pub u64);

/// A response the engine reports for a request.
#[derive(Debug)]
pub struct ScriptResponseMessage<R> {
    pub request: ScriptRequestId,
    pub response: R,
}

/// Responses received and not yet taken, and the request numbers handed
/// out so far.
#[derive(Debug)]
pub struct RequestInbox<R> {
    responses: IdTable<R>,
    next_request_id: u64,
}

/// The inbox once `request` is taken: that response and every older one
/// are gone.
pub open spec fn inbox_after_take<R>(inbox: Map<u64, R>, request: u64) -> Map<u64, R> {
    inbox.restrict(Set::new(|k: u64| k > request))
}

impl<R> RequestInbox<R> {
    /// The responses received and not yet taken, by request number.
    pub closed spec fn responses(&self) -> Map<u64, R> {
        self.responses@
    }

    /// The last request number handed out.
    pub closed spec fn last_request(&self) -> u64 {
        self.next_request_id
    }

    pub fn new() -> (s: Self)
        ensures
            s.responses() == Map::<u64, R>::empty(),
            s.last_request() == 0,
    {
        RequestInbox { responses: IdTable::new(), next_request_id: 0 }
    }

    fn allocate(&mut self) -> (r: u64)
        requires
            old(self).last_request() < u64::MAX,
        ensures
            r == old(self).last_request() + 1,
            final(self).last_request() == r,
            final(self).responses() == old(self).responses(),
    {
        self.next_request_id = self.next_request_id + 1;
        self.next_request_id
    }

    fn accept(&mut self, request: u64, response: R)
        ensures
            final(self).responses() == old(self).responses().insert(request, response),
            final(self).last_request() == old(self).last_request(),
    {
        self.responses.insert(request, response);
    }

    fn take(&mut self, request: u64) -> (r: Option<R>)
        ensures
            r == (if old(self).responses().contains_key(request) {
                Some(old(self).responses()[request])
            } else {
                None
            }),
            final(self).responses() == inbox_after_take(old(self).responses(), request),
            final(self).last_request() == old(self).last_request(),
    {
        let ghost start = self.responses@;
        self.responses.remove_below(request);
        let r = self.responses.remove(request);
        assert(self.responses@ =~= inbox_after_take(start, request));
        r
    }
}

/// The waiting side of the running story: the request it waits on, the
/// script it runs, and its inbox.
#[derive(Debug)]
pub struct ScriptRuntimeState<R> {
    pub wait_request: Option<ScriptRequestId>,
    pub current_script: Option<String>,
    pub requests: RequestInbox<R>,
}

impl<R> ScriptRuntimeState<R> {
    pub fn new() -> (s: Self)
        ensures
            s.requests.responses() == Map::<u64, R>::empty(),
            s.requests.last_request() == 0,
            s.wait_request is None,
            s.current_script is None,
    {
        ScriptRuntimeState { wait_request: None, current_script: None, requests: RequestInbox::new() }
    }

    /// Hands out the next request number.
    pub fn allocate_request(&mut self) -> (r: ScriptRequestId)
        requires
            old(self).requests.last_request() < u64::MAX,
        ensures
            r.0 == old(self).requests.last_request() + 1,
            final(self).requests.last_request() == r.0,
            final(self).requests.responses() == old(self).requests.responses(),
            final(self).wait_request == old(self).wait_request,
            final(self).current_script == old(self).current_script,
    {
        ScriptRequestId(self.requests.allocate())
    }

    /// Keeps a response until the story takes it.
    pub fn accept_response(&mut self, message: ScriptResponseMessage<R>)
        ensures
            final(self).requests.responses() == old(self).requests.responses().insert(
                message.request.0,
                message.response,
            ),
            final(self).requests.last_request() == old(self).requests.last_request(),
            final(self).wait_request == old(self).wait_request,
            final(self).current_script == old(self).current_script,
    {
        self.requests.accept(message.request.0, message.response);
    }

    /// Takes the response to `request`, if it arrived, and discards the
    /// responses to older requests, which nothing waits for any more.
    pub fn take_response(&mut self, request: ScriptRequestId) -> (r: Option<R>)
        ensures
            r == (if old(self).requests.responses().contains_key(request.0) {
                Some(old(self).requests.responses()[request.0])
            } else {
                None
            }),
            final(self).requests.responses() == inbox_after_take(
                old(self).requests.responses(),
                request.0,
            ),
            final(self).requests.last_request() == old(self).requests.last_request(),
            final(self).wait_request == old(self).wait_request,
            final(self).current_script == old(self).current_script,
    {
        self.requests.take(request.0)
    }
}

impl<R> Default for ScriptRuntimeState<R> {
    fn default() -> (s: Self)
        ensures
            s.requests.responses() == Map::<u64, R>::empty(),
            s.requests.last_request() == 0,
            s.wait_request is None,
            s.current_script is None,
    {
        ScriptRuntimeState::new()
    }
}

/// A response accepted for a request is what taking that request gives
/// back, and afterwards no response to it or to an older request is left.
pub proof fn law_accepted_response_is_taken<R>(inbox: Map<u64, R>, request: u64, response: R)
    ensures
        inbox.insert(request, response).contains_key(request),
        inbox.insert(request, response)[request] == response,
        forall|k: u64|
            k <= request ==> !(#[trigger] inbox_after_take(inbox.insert(request, response), request).contains_key(k)),
{
}

/// Taking a response keeps every response to a newer request.
pub proof fn law_take_keeps_newer_responses<R>(inbox: Map<u64, R>, request: u64, newer: u64)
    requires
        newer > request,
        inbox.contains_key(newer),
    ensures
        inbox_after_take(inbox, request).contains_key(newer),
        inbox_after_take(inbox, request)[newer] == inbox[newer],
{
}

// ---------------------------------------------------------------------------
// Navigation
// ---------------------------------------------------------------------------
#[derive(Clone, Copy, Debug, PartialEq, Eq, Structural)]
pub enum NavigationKind {
    Goto,
    Call,
}

/// What a navigation resets before the next story starts.
#[derive(Clone, Copy, Debug, PartialEq, Eq, Structural)]
pub enum NavigationReset {
    NoReset,
    Presentation,
    Session,
}

impl Default for NavigationReset {
    fn default() -> (r: Self)
        ensures
            r == NavigationReset::NoReset,
    {
        NavigationReset::NoReset
    }
}

/// The reset value a story names in a navigation's options.
#[derive(Clone, Copy, Debug, PartialEq, Eq, Structural)]
pub enum NavigationResetValue {
    NoReset,
    Presentation,
    Session,
}

pub open spec fn reset_of(value: NavigationResetValue) -> NavigationReset {
    match value {
        NavigationResetValue::NoReset => NavigationReset::NoReset,
        NavigationResetValue::Presentation => NavigationReset::Presentation,
        NavigationResetValue::Session => NavigationReset::Session,
    }
}

impl From<NavigationResetValue> for NavigationReset {
    fn from(value: NavigationResetValue) -> (r: Self) {
        match value {
            NavigationResetValue::NoReset => NavigationReset::NoReset,
            NavigationResetValue::Presentation => NavigationReset::Presentation,
            NavigationResetValue::Session => NavigationReset::Session,
        }
    }
}

impl vstd::std_specs::convert::FromSpecImpl<NavigationResetValue> for NavigationReset {
    open spec fn obeys_from_spec() -> bool {
        true
    }

    open spec fn from_spec(value: NavigationResetValue) -> Self {
        reset_of(value)
    }
}

/// A request to move to another story.
#[derive(Clone, Debug, PartialEq, Eq)]
pub struct NavigationRequest {
    pub path: String,
    pub kind: NavigationKind,
    pub reset: NavigationReset,
    /// Nothing inherits the execution context; ordinary navigation preloads.
    pub preload: Option<bool>,
    pub origin: Option<String>,
}

pub open spec fn empty_path_message() -> Seq<char> {
    "story path must not be empty"@
}

/// A story path must hold more than white space.
pub fn validate_path(path: &str) -> (r: Result<(), String>)
    ensures
        blank(path@) ==> r is Err && r->Err_0@ == empty_path_message(),
        !blank(path@) ==> r is Ok,
{
    if is_blank(path) {
        return Err("story path must not be empty".to_string());
    }
    Ok(())
}

/// A fresh request of `kind` to `path`, resetting nothing.
pub open spec fn plain_request(path: String, kind: NavigationKind) -> NavigationRequest {
    NavigationRequest { path, kind, reset: NavigationReset::NoReset, preload: None, origin: None }
}

impl NavigationRequest {
    /// Whether the target is preloaded: as the request says, else always
    /// for a jump, and for a call unless the calling story turned call
    /// preloading off (`caller_preload_calls`, when there is a caller).
    pub fn should_preload(&self, caller_preload_calls: Option<bool>) -> (r: bool)
        ensures
            self.preload matches Some(p) ==> r == p,
            self.preload is None ==> r == (self.kind != NavigationKind::Call
                || caller_preload_calls is None || caller_preload_calls == Some(true)),
    {
        match self.preload {
            Some(p) => p,
            None => match self.kind {
                NavigationKind::Goto => true,
                NavigationKind::Call => match caller_preload_calls {
                    None => true,
                    Some(p) => p,
                },
            },
        }
    }

    /// `goto(path)`: a jump to `path`.
    pub fn goto(path: String) -> (r: Result<Self, String>)
        ensures
            blank(path@) ==> r is Err && r->Err_0@ == empty_path_message(),
            !blank(path@) ==> r == Ok::<Self, String>(plain_request(path, NavigationKind::Goto)),
    {
        match validate_path(path.as_str()) {
            Ok(()) => {},
            Err(e) => {
                return Err(e);
            },
        }
        Ok(
            NavigationRequest {
                path,
                kind: NavigationKind::Goto,
                reset: NavigationReset::NoReset,
                preload: None,
                origin: None,
            },
        )
    }

    /// `call(path)`: a call of `path`, which returns here.
    pub fn call(path: String) -> (r: Result<Self, String>)
        ensures
            blank(path@) ==> r is Err && r->Err_0@ == empty_path_message(),
            !blank(path@) ==> r == Ok::<Self, String>(plain_request(path, NavigationKind::Call)),
    {
        match validate_path(path.as_str()) {
            Ok(()) => {},
            Err(e) => {
                return Err(e);
            },
        }
        Ok(
            NavigationRequest {
                path,
                kind: NavigationKind::Call,
                reset: NavigationReset::NoReset,
                preload: None,
                origin: None,
            },
        )
    }

    /// The same request, recorded as coming from `origin`.
    pub fn with_origin(self, origin: Option<String>) -> (r: Self)
        ensures
            r == (NavigationRequest { origin, ..self }),
    {
        let mut request = self;
        request.origin = origin;
        request
    }
}

// ---------------------------------------------------------------------------
// Waits, tasks and engine commands
// ---------------------------------------------------------------------------
/// What a story waits for before it runs on.
#[derive(Clone, Debug, PartialEq, Eq)]
pub enum StoryWait {
    DialogueAdvance,
    Movie { path: String, fade_out_ms: u64 },
    Delay { duration_ms: u64 },
}

/// How the commands of a spawned task run.
#[derive(Clone, Copy, Debug, PartialEq, Eq, Structural)]
pub enum StoryTaskKind {
    Sequence,
    Parallel,
}

/// A failure of a character capability.
#[derive(Debug, PartialEq)]
pub enum CharacterCapabilityError {
    InvalidArguments(&'static str),
    UnknownActor(u64),
    Native(String),
}

impl CharacterCapabilityError {
    /// The error's message, as it is displayed.
    pub fn message(&self) -> (r: String)
        ensures
            self matches CharacterCapabilityError::InvalidArguments(a) ==> r@
                == "invalid native arguments: "@ + (*a)@,
            self matches CharacterCapabilityError::UnknownActor(n) ==> r@ == "unknown actor handle "@
                + decimal_text(*n),
            self matches CharacterCapabilityError::Native(m) ==> r@ == "HKS native error: "@ + m@,
    {
        match self {
            CharacterCapabilityError::InvalidArguments(a) => crate::text::concat(
                "invalid native arguments: ",
                a,
            ),
            CharacterCapabilityError::UnknownActor(n) => {
                let number = decimal_string(*n);
                crate::text::concat("unknown actor handle ", number.as_str())
            },
            CharacterCapabilityError::Native(m) => crate::text::concat(
                "HKS native error: ",
                m.as_str(),
            ),
        }
    }
}

/// Whether a voice line stops the one playing or plays beside it.
#[derive(Clone, Copy, Debug, PartialEq, Eq, Structural)]
pub enum VoicePlaybackMode {
    Exclusive,
    Concurrent,
}

/// Where a camera effect applies.
#[derive(Clone, Copy, Debug, PartialEq, Eq, Structural)]
pub enum CameraEffectScope {
    World,
    Canvas,
}

impl Default for CameraEffectScope {
    fn default() -> (r: Self)
        ensures
            r == CameraEffectScope::World,
    {
        CameraEffectScope::World
    }
}

/// How the camera projects the stage.
#[derive(Clone, Copy, Debug, PartialEq, Eq, Structural)]
pub enum CameraProjectionMode {
    Orthographic,
    Perspective,
}

impl Default for CameraProjectionMode {
    fn default() -> (r: Self)
        ensures
            r == CameraProjectionMode::Orthographic,
    {
        CameraProjectionMode::Orthographic
    }
}

/// Commands about the runtime itself.
#[derive(Debug)]
pub enum RuntimeCommand {
    SaveSlot(String),
    Log(String),
    Navigate(NavigationRequest),
    Exit,
}

/// Commands that complete a request once an animation is over; `E` is the
/// engine's scene effect.
#[derive(Debug)]
pub enum AnimationCommand<E> {
    Scene { effect: E, done: ScriptRequestId },
    Delay { duration: ScriptDuration, done: ScriptRequestId },
    Wait { ids: Vec<String>, done: ScriptRequestId },
}

} // verus!
