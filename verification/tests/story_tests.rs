use hiraku_engine::easing::Easing;
use hiraku_engine::script_command::{AudioCatalog, TextureCatalog, TextureDefinition};
use hiraku_engine::story::{
    CharacterCapabilityError, NavigationKind, NavigationRequest, NavigationReset,
    NavigationResetValue, StoryTaskKind,
};
use hiraku_engine::story_call::{
    navigation_options, route_story_call, CallRoute, CallValue, NavigationOptions, StoryCall,
    StoryControl, StoryControlBuiltins, CHOICE_OPTION_HANDLE_TYPE,
};
use hiraku_engine::tables::NamedTable;

fn controls() -> StoryControlBuiltins {
    StoryControlBuiltins {
        random_int: 1,
        enable_option: 2,
        goto: 3,
        sequence: 4,
        parallel: 5,
        choice: 6,
        option: 7,
        open_ui: 8,
        open_ui_any: 9,
        wait: 10,
        await_task: 11,
    }
}

fn call(builtin: u64, receiver: Option<CallValue>, arguments: Vec<CallValue>) -> StoryCall {
    StoryCall { builtin, receiver, arguments }
}

fn invalid(message: &'static str) -> Result<CallRoute, CharacterCapabilityError> {
    Err(CharacterCapabilityError::InvalidArguments(message))
}

#[test]
fn control_builtins_become_story_controls() {
    let c = controls();
    assert_eq!(route_story_call(&c, &call(3, None, vec![])), Ok(CallRoute::Navigate));
    assert_eq!(
        route_story_call(&c, &call(5, None, vec![CallValue::Callable])),
        Ok(CallRoute::Control(StoryControl::SpawnTask { kind: StoryTaskKind::Parallel, closure: 0 }))
    );
    assert_eq!(route_story_call(&c, &call(4, None, vec![CallValue::Other])), invalid("seq/par require a trailing closure"));
    assert_eq!(
        route_story_call(&c, &call(6, None, vec![CallValue::Other, CallValue::Text("Pick".to_string()), CallValue::Callable])),
        Ok(CallRoute::Control(StoryControl::BeginChoice { prompt: "Pick".to_string(), closure: 2 }))
    );
    assert_eq!(
        route_story_call(&c, &call(6, None, vec![CallValue::Callable])),
        Ok(CallRoute::Control(StoryControl::BeginChoice { prompt: String::new(), closure: 0 }))
    );
    assert_eq!(route_story_call(&c, &call(6, None, vec![])), invalid("choice requires a trailing closure"));
    assert_eq!(
        route_story_call(&c, &call(7, None, vec![CallValue::Text("Yes".to_string()), CallValue::Callable])),
        Ok(CallRoute::Control(StoryControl::AddChoiceOption { label: "Yes".to_string(), closure: 1 }))
    );
    assert_eq!(route_story_call(&c, &call(7, None, vec![CallValue::Callable])), invalid("option requires a string label"));
    assert_eq!(route_story_call(&c, &call(7, None, vec![CallValue::Text("x".to_string())])), invalid("option requires a trailing closure"));
}

#[test]
fn option_enabling_random_draws_ui_and_waits_check_their_arguments() {
    let c = controls();
    let option = Some(CallValue::Handle { type_id: CHOICE_OPTION_HANDLE_TYPE, id: 9 });
    assert_eq!(
        route_story_call(&c, &call(2, option, vec![CallValue::Bool(false)])),
        Ok(CallRoute::Control(StoryControl::EnableChoiceOption { id: 9, enabled: false }))
    );
    assert_eq!(
        route_story_call(&c, &call(2, Some(CallValue::Handle { type_id: 1, id: 9 }), vec![CallValue::Bool(true)])),
        invalid("enable requires a ChoiceOption receiver")
    );
    let option = Some(CallValue::Handle { type_id: CHOICE_OPTION_HANDLE_TYPE, id: 9 });
    assert_eq!(route_story_call(&c, &call(2, option, vec![])), invalid("enable requires Bool"));
    assert_eq!(
        route_story_call(&c, &call(1, None, vec![CallValue::ExactInteger(1), CallValue::ExactInteger(6)])),
        Ok(CallRoute::Control(StoryControl::RandomInt { min: 1, max: 6 }))
    );
    assert_eq!(route_story_call(&c, &call(1, None, vec![CallValue::ExactInteger(1), CallValue::Other])), invalid("randomInt expects exact integers"));
    assert_eq!(route_story_call(&c, &call(1, None, vec![CallValue::ExactInteger(1)])), invalid("randomInt requires min and exclusive max"));
    assert_eq!(route_story_call(&c, &call(1, None, vec![CallValue::ExactInteger(6), CallValue::ExactInteger(6)])), invalid("randomInt requires min < max"));
    assert_eq!(
        route_story_call(&c, &call(9, None, vec![CallValue::Text("menu".to_string()), CallValue::Other])),
        Ok(CallRoute::Control(StoryControl::OpenUi { path: "menu".to_string() }))
    );
    assert_eq!(route_story_call(&c, &call(8, None, vec![])), invalid("ui.open requires a string role or component path"));
    assert_eq!(
        route_story_call(&c, &call(11, Some(CallValue::Task(4)), vec![])),
        Ok(CallRoute::Control(StoryControl::WaitTask { task: 4 }))
    );
    assert_eq!(
        route_story_call(&c, &call(10, None, vec![CallValue::Task(5)])),
        Ok(CallRoute::Control(StoryControl::WaitTask { task: 5 }))
    );
    assert_eq!(
        route_story_call(&c, &call(10, Some(CallValue::Other), vec![CallValue::Task(5)])),
        invalid("wait requires a task handle")
    );
    assert_eq!(route_story_call(&c, &call(42, None, vec![])), Ok(CallRoute::Registry));
}

#[test]
fn goto_calls_read_their_options() {
    let options = navigation_options(Some(vec!["reset".to_string()]), Ok(Some(NavigationResetValue::Presentation)), Ok(None)).unwrap();
    assert_eq!(options, NavigationOptions { reset: NavigationResetValue::Presentation, preload: None });
    assert_eq!(navigation_options(None, Ok(None), Ok(None)).unwrap_err(), "goto options must be a record");
    assert_eq!(
        navigation_options(Some(vec!["fade".to_string()]), Ok(None), Ok(None)).unwrap_err(),
        "goto options accept only `reset` and `preload`"
    );
    let request = NavigationRequest::from_goto_call(2, Ok("next.hks".to_string()), Ok(Some(options))).unwrap();
    assert_eq!(request.kind, NavigationKind::Goto);
    assert_eq!(request.reset, NavigationReset::Presentation);
    assert_eq!(
        NavigationRequest::from_goto_call(3, Ok("a".to_string()), Ok(None)).unwrap_err(),
        "story.goto expects a path and optional options record"
    );
    assert_eq!(
        NavigationRequest::from_goto_call(1, Ok(" ".to_string()), Ok(None)).unwrap_err(),
        "story path must not be empty"
    );
}

#[test]
fn easings_are_named_in_either_spelling() {
    assert_eq!(Easing::named("").unwrap(), Easing::Linear);
    assert_eq!(Easing::named("ease_in_out").unwrap(), Easing::EaseInOut);
    assert_eq!(Easing::named("easeInOut").unwrap(), Easing::EaseInOut);
    assert_eq!(Easing::named("easeInOutElastic").unwrap(), Easing::EaseInOutElastic);
    assert_eq!(Easing::named("wobble").unwrap_err(), "unknown easing `wobble`");
}

#[test]
fn catalogs_resolve_names_to_files() {
    let mut textures = NamedTable::new();
    textures.insert("bg".to_string(), TextureDefinition { path: "bg.png".to_string(), rect: None });
    textures.insert("icon".to_string(), TextureDefinition { path: "atlas.png".to_string(), rect: Some([0, 0, 1, 1]) });
    let catalog = TextureCatalog { textures };
    assert_eq!(catalog.resolve_image_path(&"bg".to_string()).unwrap(), "bg.png");
    assert_eq!(
        catalog.resolve_image_path(&"icon".to_string()).unwrap_err(),
        "texture `icon` is an atlas region and cannot be used where a full image is required"
    );
    assert_eq!(catalog.resolve_texture(&"none".to_string()).unwrap_err(), "texture `none` is not defined");
    let mut music = NamedTable::new();
    music.insert("theme".to_string(), "audio/theme.ogg".to_string());
    let audio = AudioCatalog { music, voices: NamedTable::new(), sfx: NamedTable::new() };
    assert_eq!(audio.resolve_music(&"theme".to_string()).unwrap(), "audio/theme.ogg");
    assert_eq!(audio.resolve_voice(&"v1".to_string()).unwrap_err(), "voice `v1` is not defined");
    assert_eq!(audio.resolve_sfx(&"s".to_string()).unwrap_err(), "sfx `s` is not defined");
}
