//! The audio builders of a story statement. Each `bgm`, `sfx`, `voice` or
//! `stopBgm` call opens a pending entry under a fresh number, its modifiers
//! change that entry, and the end of the statement commits every entry, in
//! the order the calls were made, as one audio effect each. Volumes are kept
//! as `f32` bit patterns.
use vstd::prelude::*;
use crate::engine::copy_handle;
use crate::scene_api::F32_ONE_BITS;
use crate::text::{blank, is_blank};

verus! {

/// Music loops and replaces the music playing; a sound effect is a one-shot
/// that plays beside others; a voice line is a one-shot of its own channel.
#[derive(Clone, Copy, Debug, PartialEq, Eq, Structural)]
pub enum AudioChannel {
    Music,
    Sfx,
    Voice,
}

/// A playback that a statement has started and not yet committed.
#[derive(Debug, PartialEq)]
pub struct PendingSound {
    pub channel: AudioChannel,
    pub path: String,
    /// The volume's `f32` bits.
    pub volume: u32,
    pub fade_in_ms: Option<u64>,
    pub channel_name: Option<String>,
    pub looped: bool,
}

#[derive(Debug, PartialEq)]
pub enum PendingAudio {
    Playback(PendingSound),
    StopMusic { fade_ms: u64 },
}

/// What the engine is asked to do with its audio.
#[derive(Debug, PartialEq)]
pub enum AudioEffect {
    PlayBgm { path: String, volume: u32, fade_in_ms: Option<u64> },
    PlaySfx { path: String, volume: u32, fade_in_ms: Option<u64> },
    PlaySfxChannel { channel: String, path: String, volume: u32, fade_in_ms: Option<u64>, looped: bool },
    PlayVoice { path: String, volume: u32 },
    StopBgm { fade_ms: u64 },
    StopSfxChannel { channel: String, fade_ms: u64 },
}

/// The effect a pending entry commits as: a sound effect with a named
/// channel plays on that channel.
pub open spec fn committed_effect(p: PendingAudio) -> AudioEffect {
    match p {
        PendingAudio::StopMusic { fade_ms } => AudioEffect::StopBgm { fade_ms },
        PendingAudio::Playback(s) => match s.channel {
            AudioChannel::Music => AudioEffect::PlayBgm {
                path: s.path,
                volume: s.volume,
                fade_in_ms: s.fade_in_ms,
            },
            AudioChannel::Sfx => match s.channel_name {
                Some(name) => AudioEffect::PlaySfxChannel {
                    channel: name,
                    path: s.path,
                    volume: s.volume,
                    fade_in_ms: s.fade_in_ms,
                    looped: s.looped,
                },
                None => AudioEffect::PlaySfx {
                    path: s.path,
                    volume: s.volume,
                    fade_in_ms: s.fade_in_ms,
                },
            },
            AudioChannel::Voice => AudioEffect::PlayVoice { path: s.path, volume: s.volume },
        },
    }
}

/// The effects that a list of pending entries commits as, in its order.
pub open spec fn committed_effects(entries: Seq<(u64, PendingAudio)>) -> Seq<AudioEffect> {
    entries.map_values(|e: (u64, PendingAudio)| committed_effect(e.1))
}

/// A playback as its builder call starts it: full volume, no fade, no
/// named channel, not looped.
pub open spec fn fresh_sound(channel: AudioChannel, path: String) -> PendingSound {
    PendingSound { channel, path, volume: F32_ONE_BITS, fade_in_ms: None, channel_name: None, looped: false }
}

/// Entry numbers that rise strictly along the list.
pub open spec fn ids_increasing(entries: Seq<(u64, PendingAudio)>) -> bool {
    forall|i: int, j: int| 0 <= i < j < entries.len() ==> (#[trigger] entries[i]).0 < (#[trigger] entries[j]).0
}

pub open spec fn has_entry(entries: Seq<(u64, PendingAudio)>, id: u64) -> bool {
    exists|i: int| 0 <= i < entries.len() && (#[trigger] entries[i]).0 == id
}

/// Where the entry numbered `id` stands.
pub open spec fn index_of(entries: Seq<(u64, PendingAudio)>, id: u64) -> int {
    choose|i: int| 0 <= i < entries.len() && (#[trigger] entries[i]).0 == id
}

/// The playback numbered `id`, when one is pending.
pub open spec fn pending_sound(entries: Seq<(u64, PendingAudio)>, id: u64) -> Option<PendingSound> {
    if has_entry(entries, id) {
        match entries[index_of(entries, id)].1 {
            PendingAudio::Playback(s) => Some(s),
            PendingAudio::StopMusic { .. } => None,
        }
    } else {
        None
    }
}

/// Why the playback numbered `id` cannot be changed.
pub open spec fn pending_refusal(entries: Seq<(u64, PendingAudio)>, id: u64) -> Seq<char> {
    if has_entry(entries, id) {
        "playback modifiers cannot modify stopBgm"@
    } else {
        "audio builder was committed; start a new bgm()/sfx() statement"@
    }
}

/// The entries with the playback numbered `id` replaced by `s`.
pub open spec fn with_sound(entries: Seq<(u64, PendingAudio)>, id: u64, s: PendingSound) -> Seq<(u64, PendingAudio)> {
    entries.update(index_of(entries, id), (id, PendingAudio::Playback(s)))
}

pub open spec fn refused_with<T>(r: Result<T, String>, message: Seq<char>) -> bool {
    r matches Err(m) && m@ == message
}

/// The pending audio of the statement being run.
#[derive(Debug)]
pub struct SoundState {
    next: u64,
    pending: Vec<(u64, PendingAudio)>,
}

impl SoundState {
    /// The number of the last entry opened.
    pub closed spec fn last_id(&self) -> u64 {
        self.next
    }

    /// The pending entries, in the order they were opened.
    pub closed spec fn entries(&self) -> Seq<(u64, PendingAudio)> {
        self.pending@
    }

    /// Entries stand in the order of their numbers, none above the last
    /// number handed out.
    pub open spec fn wf(&self) -> bool {
        &&& ids_increasing(self.entries())
        &&& forall|i: int| 0 <= i < self.entries().len() ==> (#[trigger] self.entries()[i]).0 <= self.last_id()
    }

    pub fn new() -> (s: Self)
        ensures
            s.wf(),
            s.last_id() == 0,
            s.entries().len() == 0,
    {
        SoundState { next: 0, pending: Vec::new() }
    }

    proof fn lemma_index(&self, i: int)
        requires
            self.wf(),
            0 <= i < self.entries().len(),
        ensures
            has_entry(self.entries(), self.entries()[i].0),
            index_of(self.entries(), self.entries()[i].0) == i,
    {
        let s = self.entries();
        let id = s[i].0;
        assert(s[i].0 == id);
        let j = index_of(s, id);
        if j != i {
            if j < i {
                assert(s[j].0 < s[i].0);
            } else {
                assert(s[i].0 < s[j].0);
            }
        }
    }

    fn find(&self, id: u64) -> (r: Option<usize>)
        requires
            self.wf(),
        ensures
            r matches Some(i) ==> i < self.entries().len() && self.entries()[i as int].0 == id && index_of(
                self.entries(),
                id,
            ) == i && has_entry(self.entries(), id),
            r is None ==> !has_entry(self.entries(), id),
    {
        let mut i: usize = 0;
        while i < self.pending.len()
            invariant
                self.wf(),
                0 <= i <= self.pending@.len(),
                forall|j: int| 0 <= j < i ==> (#[trigger] self.pending@[j]).0 != id,
            decreases self.pending@.len() - i,
        {
            if self.pending[i].0 == id {
                proof {
                    self.lemma_index(i as int);
                }
                return Some(i);
            }
            i = i + 1;
        }
        None
    }

    /// Opens a playback of `path` on `channel`: refused for a blank path, or
    /// when the numbers are spent.
    pub fn begin(&mut self, channel: AudioChannel, path: String) -> (r: Result<u64, String>)
        requires
            old(self).wf(),
        ensures
            final(self).wf(),
            blank(path@) ==> *final(self) == *old(self) && refused_with(r, "audio key must not be empty"@),
            !blank(path@) && old(self).last_id() == u64::MAX ==> *final(self) == *old(self) && refused_with(
                r,
                "audio handles exhausted"@,
            ),
            !blank(path@) && old(self).last_id() < u64::MAX ==> {
                &&& r == Ok::<u64, String>((old(self).last_id() + 1) as u64)
                &&& final(self).last_id() == old(self).last_id() + 1
                &&& final(self).entries() == old(self).entries().push(
                    ((old(self).last_id() + 1) as u64, PendingAudio::Playback(fresh_sound(channel, path))),
                )
            },
    {
        if is_blank(path.as_str()) {
            return Err("audio key must not be empty".to_owned());
        }
        let id = match self.next.checked_add(1) {
            Some(n) => n,
            None => {
                return Err("audio handles exhausted".to_owned());
            },
        };
        self.next = id;
        self.pending.push(
            (
                id,
                PendingAudio::Playback(
                    PendingSound {
                        channel,
                        path,
                        volume: F32_ONE_BITS,
                        fade_in_ms: None,
                        channel_name: None,
                        looped: false,
                    },
                ),
            ),
        );
        Ok(id)
    }

    /// `stopBgm(ms)`: opens an entry that stops the music over `fade_ms`.
    pub fn stop_bgm(&mut self, fade_ms: u64) -> (r: Result<u64, String>)
        requires
            old(self).wf(),
        ensures
            final(self).wf(),
            old(self).last_id() == u64::MAX ==> *final(self) == *old(self) && refused_with(
                r,
                "audio handles exhausted"@,
            ),
            old(self).last_id() < u64::MAX ==> {
                &&& r == Ok::<u64, String>((old(self).last_id() + 1) as u64)
                &&& final(self).last_id() == old(self).last_id() + 1
                &&& final(self).entries() == old(self).entries().push(
                    ((old(self).last_id() + 1) as u64, PendingAudio::StopMusic { fade_ms }),
                )
            },
    {
        let id = match self.next.checked_add(1) {
            Some(n) => n,
            None => {
                return Err("audio handles exhausted".to_owned());
            },
        };
        self.next = id;
        self.pending.push((id, PendingAudio::StopMusic { fade_ms }));
        Ok(id)
    }

    /// The playback numbered `id`, or why it cannot be changed.
    pub fn pending(&self, id: u64) -> (r: Result<&PendingSound, String>)
        requires
            self.wf(),
        ensures
            pending_sound(self.entries(), id) matches Some(s) ==> r == Ok::<&PendingSound, String>(&s),
            pending_sound(self.entries(), id) is None ==> refused_with(r, pending_refusal(self.entries(), id)),
    {
        match self.find(id) {
            None => Err("audio builder was committed; start a new bgm()/sfx() statement".to_owned()),
            Some(i) => match &self.pending[i].1 {
                PendingAudio::Playback(s) => Ok(s),
                PendingAudio::StopMusic { .. } => Err("playback modifiers cannot modify stopBgm".to_owned()),
            },
        }
    }

    /// Where the playback numbered `id` stands, or why it cannot be changed.
    fn sound_index(&self, id: u64) -> (r: Result<usize, String>)
        requires
            self.wf(),
        ensures
            r matches Ok(i) ==> i == index_of(self.entries(), id) && i < self.entries().len()
                && self.entries()[i as int].0 == id,
            r is Ok <==> pending_sound(self.entries(), id) is Some,
            r is Err ==> refused_with(r, pending_refusal(self.entries(), id)),
    {
        match self.find(id) {
            None => Err("audio builder was committed; start a new bgm()/sfx() statement".to_owned()),
            Some(i) => match &self.pending[i].1 {
                PendingAudio::Playback(_) => Ok(i),
                PendingAudio::StopMusic { .. } => Err("playback modifiers cannot modify stopBgm".to_owned()),
            },
        }
    }

    /// A copy of the playback at `i`.
    fn sound_at(&self, i: usize) -> (r: PendingSound)
        requires
            i < self.entries().len(),
            self.entries()[i as int].1 is Playback,
        ensures
            PendingAudio::Playback(r) == self.entries()[i as int].1,
    {
        match &self.pending[i].1 {
            PendingAudio::Playback(s) => PendingSound {
                channel: s.channel,
                path: s.path.clone(),
                volume: s.volume,
                fade_in_ms: s.fade_in_ms,
                channel_name: copy_handle(&s.channel_name),
                looped: s.looped,
            },
            PendingAudio::StopMusic { .. } => {
                proof {
                    assert(false);
                }
                PendingSound {
                    channel: AudioChannel::Music,
                    path: String::new(),
                    volume: 0,
                    fade_in_ms: None,
                    channel_name: None,
                    looped: false,
                }
            },
        }
    }

    /// Puts `s` in place of the playback at `i`.
    fn replace_sound(&mut self, i: usize, s: PendingSound)
        requires
            old(self).wf(),
            i < old(self).entries().len(),
        ensures
            final(self).wf(),
            final(self).last_id() == old(self).last_id(),
            final(self).entries() == old(self).entries().update(
                i as int,
                (old(self).entries()[i as int].0, PendingAudio::Playback(s)),
            ),
    {
        let id = self.pending[i].0;
        self.pending.set(i, (id, PendingAudio::Playback(s)));
    }

    /// `.volume(v)`: `volume` is the volume's `f32` bits when it lies
    /// between 0 and 1.
    pub fn set_volume(&mut self, id: u64, volume: Option<u32>) -> (r: Result<u64, String>)
        requires
            old(self).wf(),
        ensures
            final(self).wf(),
            final(self).last_id() == old(self).last_id(),
            volume is None ==> *final(self) == *old(self) && refused_with(r, "audio volume must be between 0 and 1"@),
            volume matches Some(v) ==> match pending_sound(old(self).entries(), id) {
                None => *final(self) == *old(self) && refused_with(r, pending_refusal(old(self).entries(), id)),
                Some(s) => r == Ok::<u64, String>(id) && final(self).entries() == with_sound(
                    old(self).entries(),
                    id,
                    PendingSound { volume: v, ..s },
                ),
            },
    {
        let v = match volume {
            Some(v) => v,
            None => {
                return Err("audio volume must be between 0 and 1".to_owned());
            },
        };
        let i = match self.sound_index(id) {
            Ok(i) => i,
            Err(e) => {
                return Err(e);
            },
        };
        let s = self.sound_at(i);
        self.replace_sound(i, PendingSound { volume: v, ..s });
        Ok(id)
    }

    /// `.fadeIn(ms)`: `millis` is the fade in whole milliseconds, or the
    /// message of why the script's value is not one; a voice line has no
    /// fade, and a zero fade is none.
    pub fn set_fade_in(&mut self, id: u64, millis: Result<u64, String>) -> (r: Result<u64, String>)
        requires
            old(self).wf(),
        ensures
            final(self).wf(),
            final(self).last_id() == old(self).last_id(),
            match pending_sound(old(self).entries(), id) {
                None => *final(self) == *old(self) && refused_with(r, pending_refusal(old(self).entries(), id)),
                Some(s) => if s.channel == AudioChannel::Voice {
                    *final(self) == *old(self) && refused_with(r, "voice does not support fadeIn"@)
                } else {
                    match millis {
                        Err(m) => *final(self) == *old(self) && refused_with(r, m@),
                        Ok(ms) => r == Ok::<u64, String>(id) && final(self).entries() == with_sound(
                            old(self).entries(),
                            id,
                            PendingSound {
                                fade_in_ms: if ms > 0 {
                                    Some(ms)
                                } else {
                                    None
                                },
                                ..s
                            },
                        ),
                    }
                },
            },
    {
        let i = match self.sound_index(id) {
            Ok(i) => i,
            Err(e) => {
                return Err(e);
            },
        };
        let s = self.sound_at(i);
        if s.channel == AudioChannel::Voice {
            return Err("voice does not support fadeIn".to_owned());
        }
        let ms = match millis {
            Ok(ms) => ms,
            Err(m) => {
                return Err(m);
            },
        };
        let fade_in_ms = if ms > 0 {
            Some(ms)
        } else {
            None
        };
        self.replace_sound(i, PendingSound { fade_in_ms, ..s });
        Ok(id)
    }

    /// `.channel(name)`: plays a sound effect on a named channel that a
    /// later statement can stop.
    pub fn set_channel(&mut self, id: u64, name: String) -> (r: Result<u64, String>)
        requires
            old(self).wf(),
        ensures
            final(self).wf(),
            final(self).last_id() == old(self).last_id(),
            blank(name@) ==> *final(self) == *old(self) && refused_with(r, "audio channel must not be empty"@),
            !blank(name@) ==> match pending_sound(old(self).entries(), id) {
                None => *final(self) == *old(self) && refused_with(r, pending_refusal(old(self).entries(), id)),
                Some(s) => if s.channel != AudioChannel::Sfx {
                    *final(self) == *old(self) && refused_with(r, "channel is supported on sfx playback"@)
                } else {
                    r == Ok::<u64, String>(id) && final(self).entries() == with_sound(
                        old(self).entries(),
                        id,
                        PendingSound { channel_name: Some(name), ..s },
                    )
                },
            },
    {
        if is_blank(name.as_str()) {
            return Err("audio channel must not be empty".to_owned());
        }
        let i = match self.sound_index(id) {
            Ok(i) => i,
            Err(e) => {
                return Err(e);
            },
        };
        let s = self.sound_at(i);
        if s.channel != AudioChannel::Sfx {
            return Err("channel is supported on sfx playback".to_owned());
        }
        self.replace_sound(i, PendingSound { channel_name: Some(name), ..s });
        Ok(id)
    }

    /// `.looped()`: loops a sound effect that plays on a named channel.
    pub fn set_looped(&mut self, id: u64) -> (r: Result<u64, String>)
        requires
            old(self).wf(),
        ensures
            final(self).wf(),
            final(self).last_id() == old(self).last_id(),
            match pending_sound(old(self).entries(), id) {
                None => *final(self) == *old(self) && refused_with(r, pending_refusal(old(self).entries(), id)),
                Some(s) => if s.channel_name is None {
                    *final(self) == *old(self) && refused_with(r, "looped requires sfx(...).channel(name)"@)
                } else {
                    r == Ok::<u64, String>(id) && final(self).entries() == with_sound(
                        old(self).entries(),
                        id,
                        PendingSound { looped: true, ..s },
                    )
                },
            },
    {
        let i = match self.sound_index(id) {
            Ok(i) => i,
            Err(e) => {
                return Err(e);
            },
        };
        let s = self.sound_at(i);
        if s.channel_name.is_none() {
            return Err("looped requires sfx(...).channel(name)".to_owned());
        }
        self.replace_sound(i, PendingSound { looped: true, ..s });
        Ok(id)
    }

    /// `.await()`: accepted while the entry numbered `id` is pending; the
    /// statement then waits for its audio effects.
    pub fn await_audio(&self, id: u64) -> (r: Result<(), String>)
        requires
            self.wf(),
        ensures
            has_entry(self.entries(), id) ==> r is Ok,
            !has_entry(self.entries(), id) ==> refused_with(r, "audio builder has already committed"@),
    {
        match self.find(id) {
            Some(_) => Ok(()),
            None => Err("audio builder has already committed".to_owned()),
        }
    }

    /// Ends the statement: appends the effect of every pending entry, in
    /// the order they were opened, and forgets them.
    pub fn commit(&mut self, effects: &mut Vec<AudioEffect>)
        requires
            old(self).wf(),
        ensures
            final(self).wf(),
            final(self).last_id() == old(self).last_id(),
            final(self).entries().len() == 0,
            final(effects)@ == old(effects)@ + committed_effects(old(self).entries()),
    {
        let ghost start = effects@;
        let mut i: usize = 0;
        while i < self.pending.len()
            invariant
                0 <= i <= self.pending@.len(),
                effects@ == start + committed_effects(self.pending@.subrange(0, i as int)),
            decreases self.pending@.len() - i,
        {
            let e = effect_of(&self.pending[i].1);
            effects.push(e);
            proof {
                let s = self.pending@;
                assert(committed_effects(s.subrange(0, i + 1)) =~= committed_effects(s.subrange(0, i as int)).push(
                    committed_effect(s[i as int].1),
                ));
            }
            i = i + 1;
        }
        assert(self.pending@.subrange(0, i as int) =~= self.pending@);
        self.pending = Vec::new();
    }
}

/// Once a statement has committed its audio, no builder of it can be
/// changed any more: each number answers that its builder was committed.
pub proof fn law_committed_builders_cannot_be_changed(s: SoundState, id: u64)
    requires
        s.wf(),
        s.entries().len() == 0,
    ensures
        pending_sound(s.entries(), id) is None,
        pending_refusal(s.entries(), id) == "audio builder was committed; start a new bgm()/sfx() statement"@,
{
}

/// The number a new builder gets names no builder that is still pending.
pub proof fn law_new_builder_number_is_fresh(s: SoundState)
    requires
        s.wf(),
        s.last_id() < u64::MAX,
    ensures
        !has_entry(s.entries(), (s.last_id() + 1) as u64),
{
    if has_entry(s.entries(), (s.last_id() + 1) as u64) {
        let i = index_of(s.entries(), (s.last_id() + 1) as u64);
        assert(s.entries()[i].0 <= s.last_id());
    }
}

/// Builders commit in the order their calls were made: of two pending
/// entries, the one opened first stands first and its effect comes first.
pub proof fn law_builders_commit_in_call_order(s: SoundState, i: int, j: int)
    requires
        s.wf(),
        0 <= i < j < s.entries().len(),
    ensures
        s.entries()[i].0 < s.entries()[j].0,
        committed_effects(s.entries())[i] == committed_effect(s.entries()[i].1),
        committed_effects(s.entries())[j] == committed_effect(s.entries()[j].1),
{
}

impl Default for SoundState {
    fn default() -> (s: Self)
        ensures
            s.wf(),
            s.last_id() == 0,
            s.entries().len() == 0,
    {
        SoundState::new()
    }
}

/// The effect that `p` commits as.
fn effect_of(p: &PendingAudio) -> (e: AudioEffect)
    ensures
        e == committed_effect(*p),
{
    match p {
        PendingAudio::StopMusic { fade_ms } => AudioEffect::StopBgm { fade_ms: *fade_ms },
        PendingAudio::Playback(s) => match s.channel {
            AudioChannel::Music => AudioEffect::PlayBgm {
                path: s.path.clone(),
                volume: s.volume,
                fade_in_ms: s.fade_in_ms,
            },
            AudioChannel::Sfx => match &s.channel_name {
                Some(name) => AudioEffect::PlaySfxChannel {
                    channel: name.clone(),
                    path: s.path.clone(),
                    volume: s.volume,
                    fade_in_ms: s.fade_in_ms,
                    looped: s.looped,
                },
                None => AudioEffect::PlaySfx {
                    path: s.path.clone(),
                    volume: s.volume,
                    fade_in_ms: s.fade_in_ms,
                },
            },
            AudioChannel::Voice => AudioEffect::PlayVoice { path: s.path.clone(), volume: s.volume },
        },
    }
}

/// `audio.stop(channel, ms)`: stops a named channel over `fade_ms`, whole
/// milliseconds or the message of why the script's value is not one.
pub fn stop_channel(effects: &mut Vec<AudioEffect>, channel: String, fade_ms: Result<u64, String>) -> (r: Result<
    (),
    String,
>)
    ensures
        blank(channel@) ==> final(effects)@ == old(effects)@ && refused_with(r, "audio channel must not be empty"@),
        !blank(channel@) ==> match fade_ms {
            Err(m) => final(effects)@ == old(effects)@ && refused_with(r, m@),
            Ok(ms) => r is Ok && final(effects)@ == old(effects)@.push(
                AudioEffect::StopSfxChannel { channel, fade_ms: ms },
            ),
        },
{
    if is_blank(channel.as_str()) {
        return Err("audio channel must not be empty".to_owned());
    }
    let ms = match fade_ms {
        Ok(ms) => ms,
        Err(m) => {
            return Err(m);
        },
    };
    effects.push(AudioEffect::StopSfxChannel { channel, fade_ms: ms });
    Ok(())
}

} // verus!
