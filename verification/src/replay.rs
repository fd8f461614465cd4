//! Versioned external-input tape, independent of VM program counters and of
//! presentation timing. Dialogue continuations are recorded as compressed
//! runs authenticated by a digest chain; choices, UI results, random draws
//! and clock readings are recorded with the call identity that asked for
//! them, and replay hands them back in order without consulting the outside
//! world.
use vstd::prelude::*;

use crate::encoding::{
    blake3_digest, hash_bytes, hex_encode, hex_text, le_bytes, le_value, push_bytes,
    push_le_bytes, push_text_frame, read_le_u64, text_frame,
};
use crate::stored_value::{StoredValue, StoredValueView};

verus! {

pub const JOURNAL_VERSION: u32 = 1;

/// Domain separator of the dialogue digest chain.
pub const DIALOGUE_DOMAIN: [u8; 26] = [
    104, 105, 114, 97, 107, 117, 47, 114, 101, 112, 108, 97, 121, 47, 100, 105, 97, 108, 111, 103,
    117, 101, 47, 118, 49, 0,
];

/// Domain separator of deterministic integer draws.
pub const RANDOM_DOMAIN: [u8; 21] = [
    104, 105, 114, 97, 107, 117, 47, 114, 97, 110, 100, 111, 109, 45, 105, 110, 116, 47, 118, 49,
    0,
];

#[derive(Clone, Copy, Debug, PartialEq, Eq, Structural)]
pub enum InputKind {
    Choice,
    UiResult,
    Random,
    Time,
}

/// A semantic call identity, not a bytecode offset. The signature includes
/// the call's inputs (choice labels, random bounds), never its result.
#[derive(Debug, PartialEq)]
pub struct ReplayPoint {
    pub script: String,
    pub signature: String,
}

#[derive(Debug, PartialEq)]
pub enum ReplayEvent {
    Dialogue { count: u64, digest: String },
    Input { kind: InputKind, point: ReplayPoint, value: StoredValue },
}

#[derive(Debug, PartialEq)]
pub struct ReplayJournal {
    pub version: u32,
    pub entry_script: String,
    pub random_seed: u64,
    pub events: Vec<ReplayEvent>,
    /// The exact pending boundary; an unanswered choice is a destination, not
    /// an input.
    pub destination: Option<ReplayPoint>,
    /// False for partial recordings or sessions started from a legacy
    /// checkpoint.
    pub complete: bool,
}

#[derive(Debug, PartialEq)]
pub enum ReplayError {
    Version(u32),
    Incomplete,
    Diverged { event: usize, reason: String },
    Encoding(String),
    Overflow,
}

// ---------------------------------------------------------------------------
// Views
// ---------------------------------------------------------------------------
pub type PointView = (Seq<char>, Seq<char>);

pub open spec fn point_view(p: ReplayPoint) -> PointView {
    (p.script@, p.signature@)
}

pub enum EventView {
    Dialogue { count: u64, digest: Seq<char> },
    Input { kind: InputKind, point: PointView, value: StoredValueView },
}

pub open spec fn event_view(e: ReplayEvent) -> EventView {
    match e {
        ReplayEvent::Dialogue { count, digest } => EventView::Dialogue { count, digest: digest@ },
        ReplayEvent::Input { kind, point, value } => EventView::Input {
            kind,
            point: point_view(point),
            value: value@,
        },
    }
}

pub open spec fn events_view(events: Seq<ReplayEvent>) -> Seq<EventView> {
    Seq::new(events.len(), |i: int| event_view(events[i]))
}

pub open spec fn destination_view(d: Option<ReplayPoint>) -> Option<PointView> {
    match d {
        Some(p) => Some(point_view(p)),
        None => None,
    }
}

// ---------------------------------------------------------------------------
// The dialogue digest chain
// ---------------------------------------------------------------------------
/// The digest that follows `previous` once dialogue `point` is reached: the
/// hash of the domain, the previous digest's UTF-8 bytes and the point's
/// script and signature, each framed by its length.
pub open spec fn dialogue_digest(previous: Seq<char>, point: PointView) -> Seq<char> {
    hex_text(
        blake3_digest(
            DIALOGUE_DOMAIN@ + vstd::utf8::encode_utf8(previous) + text_frame(point.0) + text_frame(
                point.1,
            ),
        ),
    )
}

fn extend_digest(previous: &str, point: &ReplayPoint) -> (r: String)
    ensures
        r@ == dialogue_digest(previous@, point_view(*point)),
{
    let mut bytes: Vec<u8> = Vec::new();
    push_bytes(&mut bytes, &DIALOGUE_DOMAIN);
    push_bytes(&mut bytes, previous.as_bytes());
    push_text_frame(&mut bytes, point.script.as_str());
    push_text_frame(&mut bytes, point.signature.as_str());
    let hash = hash_bytes(&bytes);
    hex_encode(&hash)
}

impl ReplayPoint {
    pub fn duplicate(&self) -> (r: ReplayPoint)
        ensures
            r == *self,
    {
        ReplayPoint { script: self.script.clone(), signature: self.signature.clone() }
    }

    pub fn same_as(&self, other: &ReplayPoint) -> (r: bool)
        ensures
            r == (point_view(*self) == point_view(*other)),
    {
        self.script == other.script && self.signature == other.signature
    }
}

// ---------------------------------------------------------------------------
// Recording
// ---------------------------------------------------------------------------
/// The events after recording a dialogue continuation at `p`: the last run
/// grows by one and its digest extends, or a new run of one starts. `None`
/// when the run's counter is exhausted.
pub open spec fn record_dialogue(events: Seq<EventView>, p: PointView) -> Option<Seq<EventView>> {
    if events.len() > 0 && events.last() is Dialogue {
        let count = events.last()->Dialogue_count;
        let digest = events.last()->Dialogue_digest;
        if count == u64::MAX {
            None
        } else {
            Some(
                events.update(
                    events.len() - 1,
                    EventView::Dialogue {
                        count: (count + 1) as u64,
                        digest: dialogue_digest(digest, p),
                    },
                ),
            )
        }
    } else {
        Some(
            events.push(
                EventView::Dialogue { count: 1, digest: dialogue_digest(Seq::empty(), p) },
            ),
        )
    }
}

/// The count of random draws recorded so far.
pub open spec fn random_draws(events: Seq<EventView>) -> nat
    decreases events.len(),
{
    if events.len() == 0 {
        0
    } else {
        random_draws(events.drop_last()) + (if events.last() matches EventView::Input {
            kind: InputKind::Random,
            ..
        } {
            1nat
        } else {
            0nat
        })
    }
}

/// The candidate number a draw takes at `attempt`: the first eight bytes of
/// a BLAKE3 hash of the seed, the draw's ordinal and the attempt.
pub open spec fn random_candidate(seed: u64, ordinal: u64, attempt: u64) -> u64 {
    le_value(
        blake3_digest(RANDOM_DOMAIN@ + le_bytes(seed) + le_bytes(ordinal) + le_bytes(attempt)),
        8,
    )
}

/// Rejection threshold that keeps `n % width` unbiased: 2^64 mod `width`.
pub open spec fn rejection_threshold(width: u64) -> u64 {
    ((0x1_0000_0000_0000_0000int - width) % (width as int)) as u64
}

pub open spec fn accepted(seed: u64, ordinal: u64, width: u64, attempt: u64) -> bool {
    random_candidate(seed, ordinal, attempt) >= rejection_threshold(width)
}

/// The first accepted attempt at or after `from`, if any.
pub open spec fn first_accepted_from(seed: u64, ordinal: u64, width: u64, from: nat) -> Option<
    u64,
>
    decreases 0x1_0000_0000_0000_0000nat - from,
{
    if from > u64::MAX {
        None
    } else if accepted(seed, ordinal, width, from as u64) {
        Some(from as u64)
    } else {
        first_accepted_from(seed, ordinal, width, from + 1)
    }
}

/// The value of the draw, when some attempt is accepted.
pub open spec fn drawn_value(seed: u64, ordinal: u64, min: i64, max: i64) -> Option<i64> {
    let width = (max - min) as u64;
    match first_accepted_from(seed, ordinal, width, 0) {
        Some(a) => Some((min + (random_candidate(seed, ordinal, a) % width)) as i64),
        None => None,
    }
}

proof fn lemma_first_accepted(seed: u64, ordinal: u64, width: u64, from: nat)
    ensures
        first_accepted_from(seed, ordinal, width, from) matches Some(a) ==> from <= a && accepted(
            seed,
            ordinal,
            width,
            a,
        ),
        first_accepted_from(seed, ordinal, width, from) is None ==> forall|a: u64|
            from <= a ==> !#[trigger] accepted(seed, ordinal, width, a),
    decreases 0x1_0000_0000_0000_0000nat - from,
{
    if from <= u64::MAX && !accepted(seed, ordinal, width, from as u64) {
        lemma_first_accepted(seed, ordinal, width, from + 1);
        if first_accepted_from(seed, ordinal, width, from) is None {
            assert forall|a: u64| from <= a implies !#[trigger] accepted(seed, ordinal, width, a) by {
                if a == from {
                } else {
                }
            }
        }
    }
}

fn random_candidate_exec(seed: u64, ordinal: u64, attempt: u64) -> (n: u64)
    ensures
        n == random_candidate(seed, ordinal, attempt),
{
    let mut bytes: Vec<u8> = Vec::new();
    push_bytes(&mut bytes, &RANDOM_DOMAIN);
    push_le_bytes(&mut bytes, seed);
    push_le_bytes(&mut bytes, ordinal);
    push_le_bytes(&mut bytes, attempt);
    let hash = hash_bytes(&bytes);
    read_le_u64(&hash)
}

/// Scans attempts from zero for the first accepted candidate; `None` when no
/// attempt in the whole `u64` range is accepted.
fn first_accepted_draw(seed: u64, ordinal: u64, width: u64) -> (r: Option<u64>)
    requires
        width > 0,
    ensures
        r == (match first_accepted_from(seed, ordinal, width, 0) {
            Some(a) => Some(random_candidate(seed, ordinal, a) % width),
            None => None,
        }),
{
    let threshold = (u64::MAX - width + 1) % width;
    assert(threshold == rejection_threshold(width));
    let mut attempt: u64 = 0;
    loop
        invariant
            width > 0,
            threshold == rejection_threshold(width),
            first_accepted_from(seed, ordinal, width, 0) == first_accepted_from(
                seed,
                ordinal,
                width,
                attempt as nat,
            ),
        decreases u64::MAX - attempt,
    {
        let n = random_candidate_exec(seed, ordinal, attempt);
        if n >= threshold {
            return Some(n % width);
        }
        if attempt == u64::MAX {
            assert(first_accepted_from(seed, ordinal, width, attempt as nat + 1) is None);
            return None;
        }
        attempt = attempt + 1;
    }
}

/// A draw lies in the half-open range it was asked for.
pub proof fn law_draw_in_range(seed: u64, ordinal: u64, min: i64, max: i64)
    requires
        min < max,
        max - min <= i64::MAX,
    ensures
        drawn_value(seed, ordinal, min, max) matches Some(v) ==> min <= v < max,
{
    let width = (max - min) as u64;
    match first_accepted_from(seed, ordinal, width, 0) {
        Some(a) => {
            let c = random_candidate(seed, ordinal, a);
            assert(c % width < width);
        },
        None => {},
    }
}

/// Draws are reproducible: journals with the same seed and the same number
/// of recorded draws draw the same value next.
pub proof fn law_draws_are_reproducible(a: ReplayJournal, b: ReplayJournal, min: i64, max: i64)
    requires
        a.random_seed == b.random_seed,
        random_draws(events_view(a.events@)) == random_draws(events_view(b.events@)),
    ensures
        drawn_value(a.random_seed, random_draws(events_view(a.events@)) as u64, min, max)
            == drawn_value(b.random_seed, random_draws(events_view(b.events@)) as u64, min, max),
{
}

/// Two journals agree on everything but their events and destination.
pub open spec fn same_header(a: ReplayJournal, b: ReplayJournal) -> bool {
    &&& a.version == b.version
    &&& a.entry_script == b.entry_script
    &&& a.random_seed == b.random_seed
    &&& a.complete == b.complete
}

impl ReplayJournal {
    pub closed spec fn events_seq(&self) -> Seq<EventView> {
        events_view(self.events@)
    }

    pub fn new(entry_script: String, random_seed: u64) -> (j: Self)
        ensures
            j.version == JOURNAL_VERSION,
            j.entry_script == entry_script,
            j.random_seed == random_seed,
            j.events@.len() == 0,
            j.destination is None,
            !j.complete,
    {
        ReplayJournal {
            version: JOURNAL_VERSION,
            entry_script,
            random_seed,
            events: Vec::new(),
            destination: None,
            complete: false,
        }
    }

    /// Records reaching a dialogue continuation.
    pub fn dialogue(&mut self, point: &ReplayPoint) -> (r: Result<(), ReplayError>)
        ensures
            match record_dialogue(events_view(old(self).events@), point_view(*point)) {
                None => r == Err::<(), ReplayError>(ReplayError::Overflow) && *final(self)
                    == *old(self),
                Some(events) => r is Ok && events_view(final(self).events@) == events
                    && final(self).destination is None && same_header(*final(self), *old(self)),
            },
    {
        let ghost old_events = events_view(self.events@);
        let n = self.events.len();
        if n > 0 {
            if let ReplayEvent::Dialogue { count, digest } = &self.events[n - 1] {
                if *count == u64::MAX {
                    return Err(ReplayError::Overflow);
                }
                let next = *count + 1;
                let next_digest = extend_digest(digest.as_str(), point);
                self.events.set(n - 1, ReplayEvent::Dialogue { count: next, digest: next_digest });
                assert(events_view(self.events@) =~= record_dialogue(
                    old_events,
                    point_view(*point),
                )->0);
                self.destination = None;
                return Ok(());
            }
        }
        let empty = String::new();
        let digest = extend_digest(empty.as_str(), point);
        self.events.push(ReplayEvent::Dialogue { count: 1, digest });
        assert(events_view(self.events@) =~= record_dialogue(old_events, point_view(*point))->0);
        self.destination = None;
        Ok(())
    }

    /// Records an external input with the call identity that asked for it.
    pub fn input(&mut self, kind: InputKind, point: ReplayPoint, value: StoredValue)
        ensures
            events_view(final(self).events@) == events_view(old(self).events@).push(
                EventView::Input { kind, point: point_view(point), value: value@ },
            ),
            final(self).destination is None,
            same_header(*final(self), *old(self)),
    {
        let ghost old_events = events_view(self.events@);
        let ghost pv = point_view(point);
        let ghost vv = value@;
        self.events.push(ReplayEvent::Input { kind, point, value });
        assert(events_view(self.events@) =~= old_events.push(
            EventView::Input { kind, point: pv, value: vv },
        ));
        self.destination = None;
    }

    fn count_random_draws(&self) -> (n: u64)
        ensures
            n == random_draws(events_view(self.events@)),
    {
        let mut n: u64 = 0;
        let mut i: usize = 0;
        while i < self.events.len()
            invariant
                0 <= i <= self.events@.len(),
                n == random_draws(events_view(self.events@.subrange(0, i as int))),
                n <= i,
            decreases self.events@.len() - i,
        {
            assert(events_view(self.events@.subrange(0, i + 1)).drop_last() =~= events_view(
                self.events@.subrange(0, i as int),
            ));
            match &self.events[i] {
                ReplayEvent::Input { kind: InputKind::Random, .. } => {
                    n = n + 1;
                },
                _ => {},
            }
            i = i + 1;
        }
        assert(self.events@.subrange(0, self.events@.len() as int) =~= self.events@);
        n
    }

    /// A deterministic draw in `[min, max)` from the saved seed and the
    /// number of draws recorded so far; recorded at the pending destination
    /// when there is one. `None` (and no change) in the one case in which
    /// no attempt of the rejection sampling is accepted.
    pub fn try_random_int(&mut self, min: i64, max: i64) -> (r: Option<i64>)
        requires
            min < max,
            max - min <= i64::MAX,
        ensures
            r == drawn_value(
                old(self).random_seed,
                random_draws(events_view(old(self).events@)) as u64,
                min,
                max,
            ),
            r is None ==> *final(self) == *old(self),
            r matches Some(value) ==> same_header(*final(self), *old(self)) && match old(self).destination {
                None => *final(self) == *old(self),
                Some(p) => final(self).destination is None && events_view(final(self).events@)
                    == events_view(old(self).events@).push(
                    EventView::Input {
                        kind: InputKind::Random,
                        point: point_view(p),
                        value: StoredValueView::Int(value),
                    },
                ),
            },
    {
        let ordinal = self.count_random_draws();
        let width = (max - min) as u64;
        proof {
            lemma_first_accepted(self.random_seed, ordinal, width, 0);
        }
        if first_accepted_draw(self.random_seed, ordinal, width).is_none() {
            return None;
        }
        Some(self.random_int(min, max))
    }

    /// A deterministic draw in `[min, max)`; see `try_random_int`. Requires
    /// that some attempt of the rejection sampling is accepted (else the draw
    /// never ends).
    pub fn random_int(&mut self, min: i64, max: i64) -> (value: i64)
        requires
            min < max,
            max - min <= i64::MAX,
            drawn_value(
                old(self).random_seed,
                random_draws(events_view(old(self).events@)) as u64,
                min,
                max,
            ) is Some,
        ensures
            Some(value) == drawn_value(
                old(self).random_seed,
                random_draws(events_view(old(self).events@)) as u64,
                min,
                max,
            ),
            same_header(*final(self), *old(self)),
            match old(self).destination {
                None => *final(self) == *old(self),
                Some(p) => final(self).destination is None && events_view(final(self).events@)
                    == events_view(old(self).events@).push(
                    EventView::Input {
                        kind: InputKind::Random,
                        point: point_view(p),
                        value: StoredValueView::Int(value),
                    },
                ),
            },
    {
        let ordinal = self.count_random_draws();
        let width = (max - min) as u64;
        let draw = match first_accepted_draw(self.random_seed, ordinal, width) {
            Some(d) => d,
            None => {
                return 0;
            },
        };
        let value = min + draw as i64;
        match &self.destination {
            Some(point) => {
                let point = point.duplicate();
                self.input(InputKind::Random, point, StoredValue::Int(value));
            },
            None => {},
        }
        value
    }

    /// Starts replaying a complete journal of the current version.
    pub fn playback(&self) -> (r: Result<ReplayCursor<'_>, ReplayError>)
        ensures
            self.version != JOURNAL_VERSION ==> (r matches Err(ReplayError::Version(v)) && v
                == self.version),
            self.version == JOURNAL_VERSION && !self.complete ==> r matches Err(
                ReplayError::Incomplete,
            ),
            self.version == JOURNAL_VERSION && self.complete ==> (r matches Ok(c) && c.journal()
                == *self && c@ == (0usize, 0u64, Seq::<char>::empty())),
    {
        if self.version != JOURNAL_VERSION {
            return Err(ReplayError::Version(self.version));
        }
        if !self.complete {
            return Err(ReplayError::Incomplete);
        }
        Ok(ReplayCursor { journal: self, event: 0, dialogue_count: 0, digest: String::new() })
    }
}

// ---------------------------------------------------------------------------
// Playback
// ---------------------------------------------------------------------------
/// A read position in a journal: the event index, the continuations of the
/// current dialogue run already matched, and their digest.
pub struct ReplayCursor<'a> {
    journal: &'a ReplayJournal,
    event: usize,
    dialogue_count: u64,
    digest: String,
}

pub type CursorView = (usize, u64, Seq<char>);

/// How replaying one step ends.
pub enum ReplayOutcome {
    Advanced(CursorView),
    Diverged(Seq<char>),
    Overflow,
}

pub open spec fn replay_dialogue(events: Seq<EventView>, c: CursorView, p: PointView) -> ReplayOutcome {
    let (event, count, digest) = c;
    if event >= events.len() || !(events[event as int] is Dialogue) {
        ReplayOutcome::Diverged("expected a recorded dialogue continuation"@)
    } else if count == u64::MAX {
        ReplayOutcome::Overflow
    } else {
        let recorded = events[event as int]->Dialogue_count;
        let recorded_digest = events[event as int]->Dialogue_digest;
        let next = (count + 1) as u64;
        let candidate = dialogue_digest(digest, p);
        if next > recorded || (next == recorded && candidate != recorded_digest) {
            ReplayOutcome::Diverged("dialogue sequence changed"@)
        } else if next == recorded {
            ReplayOutcome::Advanced(((event + 1) as usize, 0u64, Seq::empty()))
        } else {
            ReplayOutcome::Advanced((event, next, candidate))
        }
    }
}

pub open spec fn replay_input(
    events: Seq<EventView>,
    c: CursorView,
    kind: InputKind,
    p: PointView,
) -> ReplayOutcome {
    let (event, count, digest) = c;
    if event >= events.len() || !(events[event as int] is Input) {
        ReplayOutcome::Diverged("expected a recorded external input"@)
    } else if events[event as int]->Input_kind != kind || events[event as int]->Input_point != p {
        ReplayOutcome::Diverged("external input kind or signature changed"@)
    } else {
        ReplayOutcome::Advanced(((event + 1) as usize, count, digest))
    }
}

/// A recorded input is handed back only to the call that recorded it:
/// replay advances past an input exactly when the next recorded event is an
/// input of the same kind made at the same point (script and signature);
/// any other kind or point diverges.
pub proof fn law_input_replays_only_to_its_call(
    events: Seq<EventView>,
    c: CursorView,
    kind: InputKind,
    p: PointView,
)
    ensures
        replay_input(events, c, kind, p) is Advanced <==> (c.0 < events.len() && events[c.0 as int] is Input
            && events[c.0 as int]->Input_kind == kind && events[c.0 as int]->Input_point.0 == p.0
            && events[c.0 as int]->Input_point.1 == p.1),
        !(replay_input(events, c, kind, p) is Advanced) ==> replay_input(events, c, kind, p) is Diverged,
{
}

impl<'a> View for ReplayCursor<'a> {
    type V = CursorView;

    closed spec fn view(&self) -> CursorView {
        (self.event, self.dialogue_count, self.digest@)
    }
}

impl<'a> ReplayCursor<'a> {
    pub closed spec fn journal(&self) -> ReplayJournal {
        *self.journal
    }

    fn mismatch(&self, reason: &str) -> (e: ReplayError)
        ensures
            e matches ReplayError::Diverged { event, reason: r } && event == self.event && r@
                == reason@,
    {
        ReplayError::Diverged { event: self.event, reason: reason.to_owned() }
    }

    /// Matches a dialogue continuation against the recorded run.
    pub fn dialogue(&mut self, point: &ReplayPoint) -> (r: Result<(), ReplayError>)
        ensures
            final(self).journal() == old(self).journal(),
            match replay_dialogue(
                events_view(old(self).journal().events@),
                old(self)@,
                point_view(*point),
            ) {
                ReplayOutcome::Advanced(c) => r is Ok && final(self)@ == c,
                ReplayOutcome::Diverged(reason) => final(self)@ == old(self)@ && (r matches Err(
                    ReplayError::Diverged { event, reason: m },
                ) && event == old(self)@.0 && m@ == reason),
                ReplayOutcome::Overflow => final(self)@ == old(self)@ && r == Err::<
                    (),
                    ReplayError,
                >(ReplayError::Overflow),
            },
    {
        let ghost events = events_view(self.journal.events@);
        let recorded = self.journal.events.len();
        if self.event >= recorded {
            return Err(self.mismatch("expected a recorded dialogue continuation"));
        }
        let (count, digest) = match &self.journal.events[self.event] {
            ReplayEvent::Dialogue { count, digest } => (*count, digest),
            _ => {
                return Err(self.mismatch("expected a recorded dialogue continuation"));
            },
        };
        if self.dialogue_count == u64::MAX {
            return Err(ReplayError::Overflow);
        }
        let next = self.dialogue_count + 1;
        let candidate = extend_digest(self.digest.as_str(), point);
        if next > count || (next == count && candidate != *digest) {
            return Err(self.mismatch("dialogue sequence changed"));
        }
        if next == count {
            self.event = self.event + 1;
            self.dialogue_count = 0;
            self.digest = String::new();
        } else {
            self.dialogue_count = next;
            self.digest = candidate;
        }
        Ok(())
    }

    /// Hands back the recorded input; never consults a random generator,
    /// clock or UI.
    pub fn input(&mut self, kind: InputKind, point: &ReplayPoint) -> (r: Result<
        StoredValue,
        ReplayError,
    >)
        ensures
            final(self).journal() == old(self).journal(),
            match replay_input(
                events_view(old(self).journal().events@),
                old(self)@,
                kind,
                point_view(*point),
            ) {
                ReplayOutcome::Advanced(c) => final(self)@ == c && (r matches Ok(v) && v@
                    == events_view(old(self).journal().events@)[old(self)@.0 as int]->Input_value),
                ReplayOutcome::Diverged(reason) => final(self)@ == old(self)@ && (r matches Err(
                    ReplayError::Diverged { event, reason: m },
                ) && event == old(self)@.0 && m@ == reason),
                ReplayOutcome::Overflow => false,
            },
    {
        if self.event >= self.journal.events.len() {
            return Err(self.mismatch("expected a recorded external input"));
        }
        match &self.journal.events[self.event] {
            ReplayEvent::Input { kind: expected, point: recorded, value } => {
                if *expected != kind || !recorded.same_as(point) {
                    return Err(self.mismatch("external input kind or signature changed"));
                }
                let value = value.duplicate();
                self.event = self.event + 1;
                Ok(value)
            },
            _ => Err(self.mismatch("expected a recorded external input")),
        }
    }

    /// Succeeds exactly when every recorded event was consumed and the saved
    /// destination is `destination`.
    pub fn finish(&self, destination: &ReplayPoint) -> (r: Result<(), ReplayError>)
        ensures
            (self@.0 == self.journal().events@.len() && destination_view(
                self.journal().destination,
            ) == Some(point_view(*destination))) ==> r is Ok,
            !(self@.0 == self.journal().events@.len() && destination_view(
                self.journal().destination,
            ) == Some(point_view(*destination))) ==> (r matches Err(
                ReplayError::Diverged { event, reason },
            ) && event == self@.0 && reason@ == "saved destination was not reached"@),
    {
        let reached = match &self.journal.destination {
            Some(saved) => saved.same_as(destination),
            None => false,
        };
        if self.event != self.journal.events.len() || !reached {
            return Err(self.mismatch("saved destination was not reached"));
        }
        Ok(())
    }
}

// ---------------------------------------------------------------------------
// Laws: a journal replays the session that recorded it
// ---------------------------------------------------------------------------
/// One recorded step of a session.
pub enum ReplayOp {
    Dialogue(PointView),
    Input(InputKind, PointView, StoredValueView),
}

pub open spec fn record_op(events: Seq<EventView>, op: ReplayOp) -> Option<Seq<EventView>> {
    match op {
        ReplayOp::Dialogue(p) => record_dialogue(events, p),
        ReplayOp::Input(kind, point, value) => Some(
            events.push(EventView::Input { kind, point, value }),
        ),
    }
}

/// The events that recording `ops` from an empty journal leaves.
pub open spec fn record_all(ops: Seq<ReplayOp>) -> Option<Seq<EventView>>
    decreases ops.len(),
{
    if ops.len() == 0 {
        Some(Seq::empty())
    } else {
        match record_all(ops.drop_last()) {
            None => None,
            Some(e) => record_op(e, ops.last()),
        }
    }
}

pub open spec fn replay_op(events: Seq<EventView>, c: CursorView, op: ReplayOp) -> ReplayOutcome {
    match op {
        ReplayOp::Dialogue(p) => replay_dialogue(events, c, p),
        ReplayOp::Input(kind, point, _) => replay_input(events, c, kind, point),
    }
}

/// The cursor after replaying `ops` against `events`, if no step diverged.
pub open spec fn replay_all(events: Seq<EventView>, ops: Seq<ReplayOp>) -> Option<CursorView>
    decreases ops.len(),
{
    if ops.len() == 0 {
        Some((0usize, 0u64, Seq::empty()))
    } else {
        match replay_all(events, ops.drop_last()) {
            None => None,
            Some(c) => match replay_op(events, c, ops.last()) {
                ReplayOutcome::Advanced(c2) => Some(c2),
                _ => None,
            },
        }
    }
}

/// `a` is an earlier stage of the recording that ends in `b`: all but its
/// last event are final, and its last event is final or a dialogue run
/// that later grows.
pub open spec fn grows_into(a: Seq<EventView>, b: Seq<EventView>) -> bool {
    &&& a.len() <= b.len()
    &&& forall|i: int| 0 <= i < a.len() - 1 ==> a[i] == b[i]
    &&& a.len() > 0 ==> (a.last() == b[a.len() - 1] || (a.last() is Dialogue && b[a.len()
        - 1] is Dialogue && a.last()->Dialogue_count < b[a.len() - 1]->Dialogue_count))
}

/// Where replay stands once the stage `a` of the recording `e` is matched.
pub open spec fn cursor_for(a: Seq<EventView>, e: Seq<EventView>) -> CursorView {
    if a.len() > 0 && a.last() is Dialogue && a.last() != e[a.len() - 1] {
        ((a.len() - 1) as usize, a.last()->Dialogue_count, a.last()->Dialogue_digest)
    } else {
        (a.len() as usize, 0u64, Seq::empty())
    }
}

proof fn lemma_grows_refl(a: Seq<EventView>)
    ensures
        grows_into(a, a),
{
}

proof fn lemma_grows_trans(a: Seq<EventView>, b: Seq<EventView>, c: Seq<EventView>)
    requires
        grows_into(a, b),
        grows_into(b, c),
    ensures
        grows_into(a, c),
{
    if a.len() > 0 && a.len() < b.len() {
        assert(b[a.len() - 1] == c[a.len() - 1]);
    }
    assert forall|i: int| 0 <= i < a.len() - 1 implies a[i] == c[i] by {
        assert(a[i] == b[i]);
        assert(b[i] == c[i]);
    }
}

proof fn lemma_record_grows(e: Seq<EventView>, op: ReplayOp)
    requires
        record_op(e, op) is Some,
    ensures
        grows_into(e, record_op(e, op)->0),
{
}

proof fn lemma_prefix_grows(ops: Seq<ReplayOp>, k: nat)
    requires
        k <= ops.len(),
        record_all(ops) is Some,
    ensures
        record_all(ops.subrange(0, k as int)) is Some,
        grows_into(record_all(ops.subrange(0, k as int))->0, record_all(ops)->0),
    decreases ops.len() - k,
{
    if k == ops.len() {
        assert(ops.subrange(0, k as int) =~= ops);
        lemma_grows_refl(record_all(ops)->0);
    } else {
        lemma_prefix_grows(ops, k + 1);
        let next = ops.subrange(0, (k + 1) as int);
        assert(next.drop_last() =~= ops.subrange(0, k as int));
        let ek = record_all(ops.subrange(0, k as int));
        assert(ek is Some);
        lemma_record_grows(ek->0, next.last());
        lemma_grows_trans(ek->0, record_all(next)->0, record_all(ops)->0);
    }
}

proof fn lemma_replay_step(a: Seq<EventView>, op: ReplayOp, e: Seq<EventView>)
    requires
        record_op(a, op) is Some,
        grows_into(a, e),
        grows_into(record_op(a, op)->0, e),
        e.len() <= usize::MAX,
    ensures
        replay_op(e, cursor_for(a, e), op) == ReplayOutcome::Advanced(
            cursor_for(record_op(a, op)->0, e),
        ),
{
    let b = record_op(a, op)->0;
    match op {
        ReplayOp::Dialogue(p) => {
            if a.len() > 0 && a.last() is Dialogue {
                // The run grows in place.
                assert(b.len() == a.len());
                assert(b.last() is Dialogue);
                if a.last() == e[a.len() - 1] {
                    assert(b.last()->Dialogue_count == a.last()->Dialogue_count + 1);
                    assert(false);
                }
            } else {
                assert(b.len() == a.len() + 1);
                assert(cursor_for(a, e) == (a.len() as usize, 0u64, Seq::<char>::empty()));
            }
        },
        ReplayOp::Input(kind, point, value) => {
            assert(b.len() == a.len() + 1);
            if a.len() > 0 {
                assert(b[a.len() - 1] == a.last());
                assert(a.last() == e[a.len() - 1]);
            }
            assert(cursor_for(a, e) == (a.len() as usize, 0u64, Seq::<char>::empty()));
        },
    }
}

proof fn lemma_replay_prefix(ops: Seq<ReplayOp>, k: nat)
    requires
        k <= ops.len(),
        record_all(ops) is Some,
        record_all(ops)->0.len() <= usize::MAX,
    ensures
        replay_all(record_all(ops)->0, ops.subrange(0, k as int)) == Some(
            cursor_for(record_all(ops.subrange(0, k as int))->0, record_all(ops)->0),
        ),
    decreases k,
{
    let e = record_all(ops)->0;
    lemma_prefix_grows(ops, k);
    if k == 0 {
        assert(ops.subrange(0, 0) =~= Seq::<ReplayOp>::empty());
    } else {
        lemma_replay_prefix(ops, (k - 1) as nat);
        lemma_prefix_grows(ops, (k - 1) as nat);
        let pre = ops.subrange(0, k as int);
        assert(pre.drop_last() =~= ops.subrange(0, k - 1));
        let a = record_all(ops.subrange(0, k - 1))->0;
        lemma_replay_step(a, pre.last(), e);
    }
}

/// Replaying, against a journal, the very session that recorded it
/// succeeds at every step and consumes every recorded event.
pub proof fn law_replay_accepts_its_recording(ops: Seq<ReplayOp>)
    requires
        record_all(ops) is Some,
        record_all(ops)->0.len() <= usize::MAX,
    ensures
        replay_all(record_all(ops)->0, ops) == Some(
            (record_all(ops)->0.len() as usize, 0u64, Seq::<char>::empty()),
        ),
{
    lemma_replay_prefix(ops, ops.len());
    assert(ops.subrange(0, ops.len() as int) =~= ops);
}

/// During that replay every external input is answered with exactly the
/// value that was recorded for it.
pub proof fn law_replayed_inputs_are_the_recorded_values(ops: Seq<ReplayOp>, k: nat)
    requires
        record_all(ops) is Some,
        record_all(ops)->0.len() <= usize::MAX,
        k < ops.len(),
        ops[k as int] is Input,
    ensures
        replay_all(record_all(ops)->0, ops.subrange(0, k as int)) matches Some(c) && record_all(
            ops,
        )->0[c.0 as int] == (EventView::Input {
            kind: ops[k as int]->Input_0,
            point: ops[k as int]->Input_1,
            value: ops[k as int]->Input_2,
        }),
{
    let e = record_all(ops)->0;
    lemma_replay_prefix(ops, k);
    lemma_prefix_grows(ops, k);
    lemma_prefix_grows(ops, k + 1);
    let a = record_all(ops.subrange(0, k as int))->0;
    let next = ops.subrange(0, (k + 1) as int);
    assert(next.drop_last() =~= ops.subrange(0, k as int));
    assert(next.last() == ops[k as int]);
    let b = record_all(next)->0;
    assert(b.len() == a.len() + 1);
    if a.len() > 0 {
        assert(b[a.len() - 1] == a.last());
    }
    assert(cursor_for(a, e) == (a.len() as usize, 0u64, Seq::<char>::empty()));
}

} // verus!
