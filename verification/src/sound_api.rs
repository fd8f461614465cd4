//! The script API for sound: music, voices and effects.
use vstd::prelude::*;

use crate::encoding::{string_chars, string_from_chars};
use crate::engine::{
    copy_handle, duration_from_millis, lemma_timed_dispatch, millis_duration, timed_outcome,
};
use crate::host::{runtime_error, runtime_error_is, send_action, EngineAction, EngineError, HostState};
use crate::scene_api::F32_ONE_BITS;
use crate::script_command::ScriptCommand;
use crate::text::strings_equal;

verus! {

/// Where `c` last occurs in `s`, or -1.
pub open spec fn last_index_of(s: Seq<char>, c: char) -> int
    decreases s.len(),
{
    if s.len() == 0 {
        -1
    } else if s.last() == c {
        s.len() - 1
    } else {
        last_index_of(s.drop_last(), c)
    }
}

/// The text after the last `/`.
pub open spec fn last_segment(s: Seq<char>) -> Seq<char> {
    s.subrange(last_index_of(s, '/') + 1, s.len() as int)
}

/// The path without what ends it and names no file: trailing separators
/// and trailing `.` components.
pub open spec fn strip_tail(s: Seq<char>) -> Seq<char>
    decreases s.len(),
{
    if s.len() > 0 && s.last() == '/' {
        strip_tail(s.drop_last())
    } else if s.len() >= 2 && s.last() == '.' && s[s.len() - 2] == '/' {
        strip_tail(s.drop_last())
    } else {
        s
    }
}

/// The file name of a portable path: its last component.
pub open spec fn file_name_of(s: Seq<char>) -> Seq<char> {
    last_segment(strip_tail(s))
}

/// A path whose file name every platform reads the same way: no `\\`, no
/// `:`, no leading `//`, and a last component (separators and `.`
/// components at its end set aside) that is neither empty, `.` nor `..`.
pub open spec fn portable_path(s: Seq<char>) -> bool {
    &&& !s.contains('\\')
    &&& !s.contains(':')
    &&& !(s.len() >= 2 && s[0] == '/' && s[1] == '/')
    &&& file_name_of(s).len() > 0
    &&& file_name_of(s) != "."@
    &&& file_name_of(s) != ".."@
}

/// The extension of a portable path, as `Path::extension` documents it: the
/// file name's text after its final dot, unless the name has no dot or its
/// only dot starts it.
pub open spec fn portable_extension(s: Seq<char>) -> Option<Seq<char>> {
    let f = file_name_of(s);
    let i = last_index_of(f, '.');
    if i <= 0 {
        None
    } else {
        Some(f.subrange(i + 1, f.len() as int))
    }
}

/// The extension of `path` as `std::path::Path::extension` finds it, taken
/// as text. What the documentation of `Path::extension` gives on every
/// platform is stated: an extension is the part of the file name after its
/// final dot, so it holds no dot; a path without an embedded dot has none;
/// and for a portable path (see `portable_path`) the file name is its last
/// component, trailing separators and `.` components set aside. Paths with `\\`, `:` or a leading `//` read
/// differently on Windows, and nothing more is said of them.
#[verifier::external_body]
fn path_extension(path: &str) -> (r: Option<String>)
    ensures
        r matches Some(e) ==> !e@.contains('.'),
        !path@.contains('.') ==> r is None,
        portable_path(path@) ==> match portable_extension(path@) {
            Some(e) => r matches Some(x) && x@ == e,
            None => r is None,
        },
{
    match std::path::Path::new(path).extension() {
        Some(e) => e.to_str().map(String::from),
        None => None,
    }
}

pub open spec fn ascii_lower(c: char) -> char {
    if 'A' <= c && c <= 'Z' {
        ((c as u32) + 32) as char
    } else {
        c
    }
}

/// `str::to_ascii_lowercase`: ASCII capitals made small, other characters
/// kept.
pub open spec fn ascii_lowercase(s: Seq<char>) -> Seq<char> {
    Seq::new(s.len(), |i: int| ascii_lower(s[i]))
}

pub fn ascii_lowercase_text(s: &str) -> (r: String)
    ensures
        r@ == ascii_lowercase(s@),
{
    let chars = string_chars(s);
    let mut out: Vec<char> = Vec::new();
    let mut i: usize = 0;
    while i < chars.len()
        invariant
            chars@ == s@,
            0 <= i <= chars@.len(),
            out@ == ascii_lowercase(s@).subrange(0, i as int),
        decreases chars@.len() - i,
    {
        let c = chars[i];
        let lower = if 'A' <= c && c <= 'Z' {
            ((c as u32) + 32) as u8 as char
        } else {
            c
        };
        assert(lower == ascii_lower(c)) by {
            if 'A' <= c && c <= 'Z' {
                assert((c as u32) + 32 < 256);
            }
        }
        out.push(lower);
        i = i + 1;
        assert(out@ =~= ascii_lowercase(s@).subrange(0, i as int));
    }
    assert(out@ =~= ascii_lowercase(s@));
    string_from_chars(&out)
}

/// The one audio format the engine's audio build cannot play: Opus, by
/// its extension in any letter case.
pub open spec fn unsupported_extension(extension: Option<String>) -> bool {
    extension matches Some(e) && ascii_lowercase(e@) == "opus"@
}

pub fn is_unsupported_audio_extension(extension: &Option<String>) -> (r: bool)
    ensures
        r == unsupported_extension(*extension),
{
    match extension {
        Some(e) => {
            let lower = ascii_lowercase_text(e.as_str());
            strings_equal(lower.as_str(), "opus")
        },
        None => false,
    }
}

pub open spec fn audio_refusal_message() -> Seq<char> {
    "`.opus` audio is not supported by the current Bevy audio build; convert it to `.ogg`, `.wav`, `.mp3`, or `.flac` first"@
}

/// Whether the requested path is refused as Opus, where every platform
/// agrees: a portable path whose extension is `opus` in any letter case.
pub open spec fn refuses_audio(requested: Seq<char>) -> bool {
    portable_path(requested) && (portable_extension(requested) matches Some(e) && ascii_lowercase(e)
        == "opus"@)
}

/// Whether the requested path is accepted on every platform: it has no dot,
/// or it is portable and its extension is not `opus`.
pub open spec fn accepts_audio(requested: Seq<char>) -> bool {
    !requested.contains('.') || (portable_path(requested) && !refuses_audio(requested))
}

/// Refuses Opus audio before it reaches the engine: a path whose extension,
/// lowercased, is `opus`. How a path with `\\`, `:` or a leading `//` splits
/// into a file name is up to the platform.
pub fn reject_known_unsupported_audio_path(path: &str) -> (r: Result<(), EngineError>)
    ensures
        r is Err ==> runtime_error_is(r->Err_0, audio_refusal_message()),
        !path@.contains('.') ==> r is Ok,
        accepts_audio(path@) ==> r is Ok,
        refuses_audio(path@) ==> r is Err,
{
    let extension = path_extension(path);
    if is_unsupported_audio_extension(&extension) {
        return Err(
            runtime_error(
                "`.opus` audio is not supported by the current Bevy audio build; convert it to `.ogg`, `.wav`, `.mp3`, or `.flac` first",
            ),
        );
    }
    Ok(())
}

/// The audio check refused the requested file: nothing else happened.
pub open spec fn audio_refused<P>(h0: HostState<P>, h1: HostState<P>, r: Result<EngineAction<P>, EngineError>) -> bool {
    h1 == h0 && r is Err && runtime_error_is(r->Err_0, audio_refusal_message())
}

/// Playing music from `resolved`, faded in over `ms` when given.
pub open spec fn bgm_played<P>(
    h0: HostState<P>,
    h1: HostState<P>,
    resolved: Result<String, String>,
    volume: u32,
    ms: Option<i64>,
    r: Result<EngineAction<P>, EngineError>,
) -> bool {
    match resolved {
        Err(m) => h1 == h0 && r is Err && runtime_error_is(r->Err_0, m@),
        Ok(path) => match ms {
            None => h1 == h0 && r == Ok::<EngineAction<P>, EngineError>(
                send_action(
                    h0,
                    ScriptCommand::PlayBgm { path, volume, fade_in: None, animation_id: None },
                ),
            ),
            Some(ms) => match millis_duration(ms) {
                None => h1 == h0 && r is Err && runtime_error_is(
                    r->Err_0,
                    "duration cannot be negative"@,
                ),
                Some(d) => r is Ok && timed_outcome(
                    h0,
                    h1,
                    "bgm"@,
                    |aid: Option<String>|
                        (ScriptCommand::PlayBgm {
                            path,
                            volume,
                            fade_in: Some(d),
                            animation_id: aid,
                        }),
                    r->Ok_0,
                ),
            },
        },
    }
}

fn play_bgm_impl<P>(
    h: &mut HostState<P>,
    requested: String,
    resolved: Result<String, String>,
    volume: u32,
    ms: Option<i64>,
) -> (r: Result<EngineAction<P>, EngineError>)
    requires
        old(h).next_animation_id < u64::MAX,
    ensures
        audio_refused(*old(h), *final(h), r) || bgm_played(
            *old(h),
            *final(h),
            resolved,
            volume,
            ms,
            r,
        ),
        accepts_audio(requested@) ==> bgm_played(*old(h), *final(h), resolved, volume, ms, r),
        refuses_audio(requested@) ==> audio_refused(*old(h), *final(h), r),
{
    match reject_known_unsupported_audio_path(requested.as_str()) {
        Ok(()) => {},
        Err(e) => {
            return Err(e);
        },
    }
    let path = match resolved {
        Ok(p) => p,
        Err(m) => {
            return Err(EngineError::Runtime(m));
        },
    };
    match ms {
        None => Ok(
            h.send_only(ScriptCommand::PlayBgm { path, volume, fade_in: None, animation_id: None }),
        ),
        Some(ms) => {
            let fade = match duration_from_millis(ms) {
                Ok(d) => d,
                Err(e) => {
                    return Err(e);
                },
            };
            let ghost h0 = *h;
            let (mode, handle) = h.prepare_dispatch("bgm");
            let ghost hm = *h;
            let ghost build = |aid: Option<String>|
                ScriptCommand::PlayBgm { path: path, volume: volume, fade_in: Some(fade), animation_id: aid };
            let command = ScriptCommand::PlayBgm {
                path,
                volume,
                fade_in: Some(fade),
                animation_id: copy_handle(&handle),
            };
            let r = h.complete_dispatch(mode, handle, command);
            proof {
                lemma_timed_dispatch(h0, hm, *h, "bgm"@, build, mode, handle, r);
            }
            Ok(r)
        },
    }
}

/// `play_bgm(path)`: plays music at full volume. `requested` is the path
/// the script gave, `resolved` the file it names in the project or the
/// resolver's error message.
pub fn play_bgm<P>(h: &mut HostState<P>, requested: String, resolved: Result<String, String>) -> (r:
    Result<EngineAction<P>, EngineError>)
    requires
        old(h).next_animation_id < u64::MAX,
    ensures
        audio_refused(*old(h), *final(h), r) || bgm_played(
            *old(h),
            *final(h),
            resolved,
            F32_ONE_BITS,
            None,
            r,
        ),
        accepts_audio(requested@) ==> bgm_played(*old(h), *final(h), resolved, F32_ONE_BITS, None, r),
        refuses_audio(requested@) ==> audio_refused(*old(h), *final(h), r),
{
    play_bgm_impl(h, requested, resolved, F32_ONE_BITS, None)
}

/// `play_bgm(path, volume)`: `volume` is the clamped volume's `f32` bits.
pub fn play_bgm_volume<P>(
    h: &mut HostState<P>,
    requested: String,
    resolved: Result<String, String>,
    volume: u32,
) -> (r: Result<EngineAction<P>, EngineError>)
    requires
        old(h).next_animation_id < u64::MAX,
    ensures
        audio_refused(*old(h), *final(h), r) || bgm_played(
            *old(h),
            *final(h),
            resolved,
            volume,
            None,
            r,
        ),
        accepts_audio(requested@) ==> bgm_played(*old(h), *final(h), resolved, volume, None, r),
        refuses_audio(requested@) ==> audio_refused(*old(h), *final(h), r),
{
    play_bgm_impl(h, requested, resolved, volume, None)
}

/// `play_bgm(path, volume, ms)`: fades the music in over `ms`.
pub fn play_bgm_fade<P>(
    h: &mut HostState<P>,
    requested: String,
    resolved: Result<String, String>,
    volume: u32,
    ms: i64,
) -> (r: Result<EngineAction<P>, EngineError>)
    requires
        old(h).next_animation_id < u64::MAX,
    ensures
        audio_refused(*old(h), *final(h), r) || bgm_played(
            *old(h),
            *final(h),
            resolved,
            volume,
            Some(ms),
            r,
        ),
        accepts_audio(requested@) ==> bgm_played(*old(h), *final(h), resolved, volume, Some(ms), r),
        refuses_audio(requested@) ==> audio_refused(*old(h), *final(h), r),
{
    play_bgm_impl(h, requested, resolved, volume, Some(ms))
}

/// `set_bgm_volume(volume)`: `volume` is the clamped volume's `f32` bits.
pub fn set_bgm_volume<P>(h: &HostState<P>, volume: u32) -> (r: EngineAction<P>)
    ensures
        r == send_action(*h, ScriptCommand::SetBgmVolume { volume }),
{
    h.send_only(ScriptCommand::SetBgmVolume { volume })
}

/// `fade_bgm(volume, ms)`: fades the music's volume.
pub fn fade_bgm<P>(h: &mut HostState<P>, volume: u32, ms: i64) -> (r: Result<EngineAction<P>, EngineError>)
    requires
        old(h).next_animation_id < u64::MAX,
    ensures
        millis_duration(ms) is None ==> *final(h) == *old(h) && r is Err && runtime_error_is(
            r->Err_0,
            "duration cannot be negative"@,
        ),
        millis_duration(ms) is Some ==> r is Ok && timed_outcome(
            *old(h),
            *final(h),
            "bgm-fade"@,
            |aid: Option<String>|
                (ScriptCommand::FadeBgm {
                    volume,
                    duration: millis_duration(ms)->0,
                    animation_id: aid,
                }),
            r->Ok_0,
        ),
{
    let duration = match duration_from_millis(ms) {
        Ok(d) => d,
        Err(e) => {
            return Err(e);
        },
    };
    let ghost h0 = *h;
    let (mode, handle) = h.prepare_dispatch("bgm-fade");
    let ghost hm = *h;
    let ghost build = |aid: Option<String>|
        ScriptCommand::FadeBgm { volume: volume, duration: duration, animation_id: aid };
    let command = ScriptCommand::FadeBgm { volume, duration, animation_id: copy_handle(&handle) };
    let r = h.complete_dispatch(mode, handle, command);
    proof {
        lemma_timed_dispatch(h0, hm, *h, "bgm-fade"@, build, mode, handle, r);
    }
    Ok(r)
}

/// `stop_bgm()`.
pub fn stop_bgm<P>(h: &HostState<P>) -> (r: EngineAction<P>)
    ensures
        r == send_action(*h, ScriptCommand::StopBgm),
{
    h.send_only(ScriptCommand::StopBgm)
}

/// Playing a voice line from `resolved`.
pub open spec fn voice_played<P>(
    h0: HostState<P>,
    h1: HostState<P>,
    resolved: Result<String, String>,
    volume: u32,
    r: Result<EngineAction<P>, EngineError>,
) -> bool {
    match resolved {
        Err(m) => h1 == h0 && r is Err && runtime_error_is(r->Err_0, m@),
        Ok(path) => r is Ok && timed_outcome(
            h0,
            h1,
            "voice"@,
            |aid: Option<String>| (ScriptCommand::PlayVoice { path, volume, animation_id: aid }),
            r->Ok_0,
        ),
    }
}

fn play_voice_impl<P>(
    h: &mut HostState<P>,
    requested: String,
    resolved: Result<String, String>,
    volume: u32,
) -> (r: Result<EngineAction<P>, EngineError>)
    requires
        old(h).next_animation_id < u64::MAX,
    ensures
        audio_refused(*old(h), *final(h), r) || voice_played(*old(h), *final(h), resolved, volume, r),
        accepts_audio(requested@) ==> voice_played(*old(h), *final(h), resolved, volume, r),
        refuses_audio(requested@) ==> audio_refused(*old(h), *final(h), r),
{
    match reject_known_unsupported_audio_path(requested.as_str()) {
        Ok(()) => {},
        Err(e) => {
            return Err(e);
        },
    }
    let path = match resolved {
        Ok(p) => p,
        Err(m) => {
            return Err(EngineError::Runtime(m));
        },
    };
    let ghost h0 = *h;
    let (mode, handle) = h.prepare_dispatch("voice");
    let ghost hm = *h;
    let ghost build = |aid: Option<String>|
        ScriptCommand::PlayVoice { path: path, volume: volume, animation_id: aid };
    let command = ScriptCommand::PlayVoice { path, volume, animation_id: copy_handle(&handle) };
    let r = h.complete_dispatch(mode, handle, command);
    proof {
        lemma_timed_dispatch(h0, hm, *h, "voice"@, build, mode, handle, r);
    }
    Ok(r)
}

/// `play_voice(path)`: plays a voice line at full volume.
pub fn play_voice<P>(h: &mut HostState<P>, requested: String, resolved: Result<String, String>) -> (r:
    Result<EngineAction<P>, EngineError>)
    requires
        old(h).next_animation_id < u64::MAX,
    ensures
        audio_refused(*old(h), *final(h), r) || voice_played(
            *old(h),
            *final(h),
            resolved,
            F32_ONE_BITS,
            r,
        ),
        accepts_audio(requested@) ==> voice_played(*old(h), *final(h), resolved, F32_ONE_BITS, r),
        refuses_audio(requested@) ==> audio_refused(*old(h), *final(h), r),
{
    play_voice_impl(h, requested, resolved, F32_ONE_BITS)
}

/// `play_voice(path, volume)`.
pub fn play_voice_volume<P>(
    h: &mut HostState<P>,
    requested: String,
    resolved: Result<String, String>,
    volume: u32,
) -> (r: Result<EngineAction<P>, EngineError>)
    requires
        old(h).next_animation_id < u64::MAX,
    ensures
        audio_refused(*old(h), *final(h), r) || voice_played(*old(h), *final(h), resolved, volume, r),
        accepts_audio(requested@) ==> voice_played(*old(h), *final(h), resolved, volume, r),
        refuses_audio(requested@) ==> audio_refused(*old(h), *final(h), r),
{
    play_voice_impl(h, requested, resolved, volume)
}

/// `stop_voice()`.
pub fn stop_voice<P>(h: &HostState<P>) -> (r: EngineAction<P>)
    ensures
        r == send_action(*h, ScriptCommand::StopVoice),
{
    h.send_only(ScriptCommand::StopVoice)
}

/// Playing a sound effect from `resolved`, without waiting.
pub open spec fn sfx_played<P>(
    h: HostState<P>,
    resolved: Result<String, String>,
    volume: u32,
    r: Result<EngineAction<P>, EngineError>,
) -> bool {
    match resolved {
        Err(m) => r is Err && runtime_error_is(r->Err_0, m@),
        Ok(path) => r == Ok::<EngineAction<P>, EngineError>(
            send_action(h, ScriptCommand::PlaySfx { path, volume }),
        ),
    }
}

fn play_sfx_impl<P>(h: &HostState<P>, requested: String, resolved: Result<String, String>, volume: u32) -> (r:
    Result<EngineAction<P>, EngineError>)
    ensures
        (r is Err && runtime_error_is(r->Err_0, audio_refusal_message())) || sfx_played(
            *h,
            resolved,
            volume,
            r,
        ),
        accepts_audio(requested@) ==> sfx_played(*h, resolved, volume, r),
        refuses_audio(requested@) ==> r is Err && runtime_error_is(r->Err_0, audio_refusal_message()),
{
    match reject_known_unsupported_audio_path(requested.as_str()) {
        Ok(()) => {},
        Err(e) => {
            return Err(e);
        },
    }
    let path = match resolved {
        Ok(p) => p,
        Err(m) => {
            return Err(EngineError::Runtime(m));
        },
    };
    Ok(h.send_only(ScriptCommand::PlaySfx { path, volume }))
}

/// `play_sfx(path)`: plays a sound effect at full volume.
pub fn play_sfx<P>(h: &HostState<P>, requested: String, resolved: Result<String, String>) -> (r: Result<
    EngineAction<P>,
    EngineError,
>)
    ensures
        (r is Err && runtime_error_is(r->Err_0, audio_refusal_message())) || sfx_played(
            *h,
            resolved,
            F32_ONE_BITS,
            r,
        ),
        accepts_audio(requested@) ==> sfx_played(*h, resolved, F32_ONE_BITS, r),
        refuses_audio(requested@) ==> r is Err && runtime_error_is(r->Err_0, audio_refusal_message()),
{
    play_sfx_impl(h, requested, resolved, F32_ONE_BITS)
}

/// `play_sfx(path, volume)`.
pub fn play_sfx_volume<P>(
    h: &HostState<P>,
    requested: String,
    resolved: Result<String, String>,
    volume: u32,
) -> (r: Result<EngineAction<P>, EngineError>)
    ensures
        (r is Err && runtime_error_is(r->Err_0, audio_refusal_message())) || sfx_played(
            *h,
            resolved,
            volume,
            r,
        ),
        accepts_audio(requested@) ==> sfx_played(*h, resolved, volume, r),
        refuses_audio(requested@) ==> r is Err && runtime_error_is(r->Err_0, audio_refusal_message()),
{
    play_sfx_impl(h, requested, resolved, volume)
}

} // verus!
