use hiraku_engine::scene_api::F32_ONE_BITS;
use hiraku_engine::movie_ledger::{stop_movie, MovieEffect, MovieState};
use hiraku_engine::sound_ledger::{stop_channel, AudioChannel, AudioEffect, SoundState};
use hiraku_engine::story::StoryWait;
use hiraku_engine::sound_api::reject_known_unsupported_audio_path;

#[test]
fn pending_audio_commits_once_in_source_order() {
    let mut state = SoundState::default();
    state.begin(AudioChannel::Music, "music/theme".to_string()).expect("valid music key");
    let sound = state.begin(AudioChannel::Sfx, "sound/bell".to_string()).expect("valid sound key");
    state.set_volume(sound, Some(0.5f32.to_bits())).expect("pending sound");
    let mut effects = Vec::new();
    state.commit(&mut effects);
    state.commit(&mut effects);
    assert_eq!(
        effects,
        vec![
            AudioEffect::PlayBgm { path: "music/theme".to_string(), volume: 1.0f32.to_bits(), fade_in_ms: None },
            AudioEffect::PlaySfx { path: "sound/bell".to_string(), volume: 0.5f32.to_bits(), fade_in_ms: None },
        ]
    );
    assert!(state.pending(sound).is_err());
    assert!(state.begin(AudioChannel::Sfx, " ".to_string()).is_err());
}

#[test]
fn a_named_looping_channel_fades_in_and_stops_by_name() {
    let mut state = SoundState::new();
    let wind = state.begin(AudioChannel::Sfx, "sound/wind".to_string()).unwrap();
    assert_eq!(state.set_looped(wind).unwrap_err(), "looped requires sfx(...).channel(name)");
    assert_eq!(state.set_channel(wind, "  ".to_string()).unwrap_err(), "audio channel must not be empty");
    state.set_channel(wind, "ambient".to_string()).unwrap();
    state.set_looped(wind).unwrap();
    state.set_fade_in(wind, Ok(200)).unwrap();
    let mut effects = Vec::new();
    state.commit(&mut effects);
    stop_channel(&mut effects, "ambient".to_string(), Ok(1000)).unwrap();
    assert_eq!(
        effects,
        vec![
            AudioEffect::PlaySfxChannel {
                channel: "ambient".to_string(),
                path: "sound/wind".to_string(),
                volume: F32_ONE_BITS,
                fade_in_ms: Some(200),
                looped: true,
            },
            AudioEffect::StopSfxChannel { channel: "ambient".to_string(), fade_ms: 1000 },
        ]
    );
    assert_eq!(
        stop_channel(&mut effects, " ".to_string(), Ok(1)).unwrap_err(),
        "audio channel must not be empty"
    );
    assert_eq!(effects.len(), 2);
}

#[test]
fn modifiers_check_what_they_modify() {
    let mut state = SoundState::new();
    let voice = state.begin(AudioChannel::Voice, "voice/a1".to_string()).unwrap();
    let stop = state.stop_bgm(3000).unwrap();
    let music = state.begin(AudioChannel::Music, "music/calm".to_string()).unwrap();
    assert_eq!((voice, stop, music), (1, 2, 3));
    assert_eq!(state.set_fade_in(voice, Ok(100)).unwrap_err(), "voice does not support fadeIn");
    assert_eq!(state.set_channel(music, "bgm".to_string()).unwrap_err(), "channel is supported on sfx playback");
    assert_eq!(state.set_volume(stop, Some(0)).unwrap_err(), "playback modifiers cannot modify stopBgm");
    assert_eq!(state.set_volume(music, None).unwrap_err(), "audio volume must be between 0 and 1");
    assert_eq!(
        state.set_fade_in(music, Err("audio fade duration must be finite and non-negative".to_string())).unwrap_err(),
        "audio fade duration must be finite and non-negative"
    );
    state.set_fade_in(music, Ok(0)).unwrap();
    assert_eq!(state.pending(music).unwrap().fade_in_ms, None);
    assert!(state.await_audio(music).is_ok());
    let mut effects = Vec::new();
    state.commit(&mut effects);
    assert_eq!(
        effects,
        vec![
            AudioEffect::PlayVoice { path: "voice/a1".to_string(), volume: F32_ONE_BITS },
            AudioEffect::StopBgm { fade_ms: 3000 },
            AudioEffect::PlayBgm { path: "music/calm".to_string(), volume: F32_ONE_BITS, fade_in_ms: None },
        ]
    );
    assert_eq!(state.await_audio(music).unwrap_err(), "audio builder has already committed");
    assert_eq!(
        state.set_volume(music, Some(0)).unwrap_err(),
        "audio builder was committed; start a new bgm()/sfx() statement"
    );
    assert_eq!(state.begin(AudioChannel::Sfx, "sound/bell".to_string()).unwrap(), 4);
}

#[test]
fn a_movie_blocks_the_story_unless_it_plays_behind_it() {
    let mut movies = MovieState::default();
    let mut effects = Vec::new();
    let mut wait = None;
    let id = movies.start("clip".to_string()).unwrap();
    assert_eq!(movies.start("other".to_string()).unwrap_err(), "only one movie may be started per statement");
    movies.set_fade_out(id, Ok(1000)).unwrap();
    movies.commit(&mut effects, &mut wait);
    assert_eq!(wait, Some(StoryWait::Movie { path: "clip".to_string(), fade_out_ms: 1000 }));
    assert!(effects.is_empty());
    assert_eq!(movies.set_non_blocking(id).unwrap_err(), "movie builder already committed");

    let mut wait = None;
    let id = movies.start("movies/scene.webm".to_string()).unwrap();
    assert_eq!(id, 2);
    movies.set_non_blocking(id).unwrap();
    movies.commit(&mut effects, &mut wait);
    stop_movie(&mut effects);
    assert_eq!(wait, None);
    assert_eq!(
        effects,
        vec![
            MovieEffect::Background { path: "movies/scene.webm".to_string(), fade_out_ms: 0 },
            MovieEffect::Stop,
        ]
    );
}

#[test]
fn awaiting_a_movie_restores_blocking() {
    let mut movies = MovieState::new();
    let mut effects = Vec::new();
    let mut wait = None;
    assert_eq!(movies.start(" ".to_string()).unwrap_err(), "movie path must not be empty");
    let id = movies.start("movies/scene.webm".to_string()).unwrap();
    movies.set_non_blocking(id).unwrap();
    movies.await_movie(id).unwrap();
    assert_eq!(
        movies.set_fade_out(id, Err("movie fade duration is too large".to_string())).unwrap_err(),
        "movie fade duration is too large"
    );
    movies.commit(&mut effects, &mut wait);
    assert!(matches!(wait, Some(StoryWait::Movie { .. })));
    assert!(effects.is_empty());
}

#[test]
fn paths_without_a_dot_are_never_refused_as_opus() {
    assert!(reject_known_unsupported_audio_path("music/opus").is_ok());
    assert!(reject_known_unsupported_audio_path("theme").is_ok());
    assert!(reject_known_unsupported_audio_path("music/theme.Opus").is_err());
}
