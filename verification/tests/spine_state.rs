use spine_node::{
    Animation, AnimationEvent, AnimationOptions, AnimationStateWithData, Atlas, AtlasFilter,
    AtlasPage, AtlasWrap, BlendMode, DecodedRig, EngineCommand, LoadSpineFromBytes, LoaderRequest,
    PageId, Pipeline, RenderRuntime, Renderable, ShaderError, ShaderType, SkeletonData, Skin,
    Spine, SpineAnimation, SpineError, SpineSkeletonBytes, SpineState, TextureHandle, TrackEntry,
};

fn page(path: &str) -> AtlasPage {
    AtlasPage {
        path: path.to_string(),
        pma: false,
        min_filter: AtlasFilter::Linear,
        mag_filter: AtlasFilter::Linear,
        u_wrap: AtlasWrap::ClampToEdge,
        v_wrap: AtlasWrap::ClampToEdge,
    }
}

fn spine(runtime: &mut RenderRuntime, pages: Vec<AtlasPage>) -> Spine {
    let info = LoadSpineFromBytes {
        atlas: b"skeleton.png\n".to_vec(),
        dir_path: "rig".to_string(),
        skeleton_data: SpineSkeletonBytes::Binary(vec![]),
        animation: None,
        position: [0, 0],
        scale: 0x3f800000,
        skin: None,
        backface_culling: false,
        preloaded_texture: None,
    };
    let decoded = DecodedRig {
        atlas: Atlas { pages },
        skeleton_data: SkeletonData {
            animations: vec!["idle".to_string(), "walk".to_string()],
            skins: vec!["default".to_string(), "hat".to_string()],
        },
    };
    Spine::load_from_bytes(info, runtime, Ok(decoded)).unwrap()
}

fn state(runtime: &mut RenderRuntime, pages: Vec<AtlasPage>) -> SpineState {
    SpineState::new(spine(runtime, pages), Ok(Pipeline { id: 1 })).unwrap()
}

fn renderable(attachment: Option<PageId>) -> Renderable {
    Renderable {
        vertices: vec![[0, 0], [1, 0], [0, 1]],
        uvs: vec![[0, 0], [1, 0], [0, 1]],
        indices: vec![0, 1, 2],
        colors: vec![[1, 1, 1, 1]; 3],
        dark_colors: vec![[0, 0, 0, 1]; 3],
        blend_mode: BlendMode::Normal,
        attachment,
    }
}

fn finish_all_loads(runtime: &mut RenderRuntime, first_id: u64) {
    let mut id = first_id;
    for request in runtime.loader.take_requests() {
        if let LoaderRequest::Load { ticket } = request {
            runtime.loader.finish_load(&mut runtime.cache, ticket, TextureHandle { id });
            id += 1;
        }
    }
}

#[test]
fn new_rig_has_no_slots_and_no_events() {
    let mut runtime = RenderRuntime::new();
    let state = state(&mut runtime, vec![]);
    assert_eq!(state.pipeline, Pipeline { id: 1 });
    assert_eq!(state.bindings, 0);
    assert!(state.events.is_empty());
}

#[test]
fn shader_error_makes_no_rig() {
    let mut runtime = RenderRuntime::new();
    let error = ShaderError::CompilationError {
        shader_type: ShaderType::Fragment,
        error_message: "syntax error".to_string(),
    };
    let result = SpineState::new(spine(&mut runtime, vec![]), Err(error.clone()));
    assert_eq!(result, Err(error));
    let link = ShaderError::LinkError("no main".to_string());
    let result = SpineState::new(spine(&mut runtime, vec![]), Err(link.clone()));
    assert_eq!(result, Err(link));
}

#[test]
fn new_spine_starts_over() {
    let mut runtime = RenderRuntime::new();
    let mut first = state(&mut runtime, vec![]);
    first.bindings = 4;
    first.push_event(AnimationEvent::Start { track_entry: TrackEntry { track_index: 0 } });
    let second = first.new_spine(spine(&mut runtime, vec![]), Ok(Pipeline { id: 2 })).unwrap();
    assert_eq!(second.pipeline, Pipeline { id: 2 });
    assert_eq!(second.bindings, 0);
    assert!(second.events.is_empty());
    let failed = second.new_spine(spine(&mut runtime, vec![]), Err(ShaderError::FFINulError));
    assert_eq!(failed, Err(ShaderError::FFINulError));
}

#[test]
fn known_animation_is_queued() {
    let mut runtime = RenderRuntime::new();
    let mut state = state(&mut runtime, vec![]);
    assert_eq!(state.set_animation_by_name(2, "walk", true), Ok(()));
    assert_eq!(
        state.spine.commands,
        vec![EngineCommand::SetAnimation {
            track_index: 2,
            animation_name: "walk".to_string(),
            looping: true
        }]
    );
}

#[test]
fn unknown_animation_changes_nothing() {
    let mut runtime = RenderRuntime::new();
    let mut state = state(&mut runtime, vec![]);
    state.set_animation_by_name(0, "idle", false).unwrap();
    let before = state.spine.commands.clone();
    assert_eq!(
        state.set_animation_by_name(0, "fly", true),
        Err(SpineError::NotFound { what: "Animation".to_string(), name: "fly".to_string() })
    );
    assert_eq!(state.spine.commands, before);
    assert_eq!(state.spine.skin, None);
}

#[test]
fn animation_callback_gets_the_track_or_the_error() {
    let mut runtime = RenderRuntime::new();
    let mut state = state(&mut runtime, vec![]);
    let track: Result<usize, String> =
        state.set_animation_by_name_with_cb(3, "idle", false, |outcome| {
            outcome.map(|entry| entry.track_index).map_err(|error| format!("{:?}", error))
        });
    assert_eq!(track, Ok(3));
    assert_eq!(state.spine.commands.len(), 1);
    let missing: Result<usize, SpineError> =
        state.set_animation_by_name_with_cb(3, "fly", false, |outcome| {
            outcome.map(|entry| entry.track_index)
        });
    assert_eq!(
        missing,
        Err(SpineError::NotFound { what: "Animation".to_string(), name: "fly".to_string() })
    );
    assert_eq!(state.spine.commands.len(), 1);
}

#[test]
fn animation_by_handle_is_queued() {
    let mut runtime = RenderRuntime::new();
    let mut state = state(&mut runtime, vec![]);
    let walk = Animation { name: "walk".to_string() };
    assert_eq!(walk.name(), "walk");
    state.set_animation(1, &walk, false);
    let track = state.set_animation_with_cb(4, &walk, true, |entry| entry.track_index);
    assert_eq!(track, 4);
    assert_eq!(
        state.spine.commands,
        vec![
            EngineCommand::SetAnimation {
                track_index: 1,
                animation_name: "walk".to_string(),
                looping: false
            },
            EngineCommand::SetAnimation {
                track_index: 4,
                animation_name: "walk".to_string(),
                looping: true
            },
        ]
    );
}

#[test]
fn known_skin_is_set_and_slots_are_reset() {
    let mut runtime = RenderRuntime::new();
    let mut state = state(&mut runtime, vec![]);
    assert_eq!(state.set_skin_by_name("hat"), Ok(()));
    assert_eq!(state.spine.skin, Some(Skin { name: "hat".to_string() }));
    assert_eq!(
        state.spine.commands,
        vec![
            EngineCommand::SetSkin { skin_name: "hat".to_string() },
            EngineCommand::SetSlotsToSetupPose,
        ]
    );
    let name = state.get_skin(|skin| skin.map(|skin| skin.name().to_string()));
    assert_eq!(name, Some("hat".to_string()));
}

#[test]
fn unknown_skin_changes_nothing() {
    let mut runtime = RenderRuntime::new();
    let mut state = state(&mut runtime, vec![]);
    state.set_skin_by_name("hat").unwrap();
    let before = state.spine.commands.clone();
    assert_eq!(
        state.set_skin_by_name("cape"),
        Err(SpineError::NotFound { what: "Skin".to_string(), name: "cape".to_string() })
    );
    assert_eq!(state.spine.skin, Some(Skin { name: "hat".to_string() }));
    assert_eq!(state.spine.commands, before);
}

#[test]
fn rig_without_skin_hands_none_to_the_callback() {
    let mut runtime = RenderRuntime::new();
    let state = state(&mut runtime, vec![]);
    assert!(state.get_skin(|skin| skin.is_none()));
}

#[test]
fn rig_is_fully_loaded_once_every_drawn_page_is() {
    let mut runtime = RenderRuntime::new();
    let state = state(&mut runtime, vec![page("a.png"), page("b.png")]);
    let renderables = vec![
        renderable(Some(state.spine.pages[0])),
        renderable(None),
        renderable(Some(state.spine.pages[1])),
        renderable(Some(state.spine.pages[1])),
    ];
    assert!(!state.is_fully_loaded(&runtime, &renderables));
    assert_eq!(
        state.process_loading(&runtime, &renderables),
        vec![state.spine.pages[0], state.spine.pages[1], state.spine.pages[1]]
    );
    finish_all_loads(&mut runtime, 10);
    assert!(state.is_fully_loaded(&runtime, &renderables));
    assert_eq!(state.process_loading(&runtime, &renderables), vec![]);
}

#[test]
fn rig_without_textured_renderables_is_fully_loaded() {
    let mut runtime = RenderRuntime::new();
    let state = state(&mut runtime, vec![page("a.png")]);
    assert!(state.is_fully_loaded(&runtime, &vec![]));
    assert!(state.is_fully_loaded(&runtime, &vec![renderable(None)]));
    assert!(!state.is_fully_loaded(&runtime, &vec![renderable(Some(PageId { index: 9 }))]));
}

#[test]
fn events_reach_the_callback_in_order_and_leave_the_buffer_empty() {
    let mut runtime = RenderRuntime::new();
    let mut rig = AnimationStateWithData {
        animation_state: state(&mut runtime, vec![]),
        extra_data: Vec::<String>::new(),
    };
    let track_entry = TrackEntry { track_index: 0 };
    rig.animation_state.push_event(AnimationEvent::Start { track_entry });
    rig.animation_state.push_event(AnimationEvent::Event {
        track_entry,
        name: "footstep".to_string(),
        time: 0x3e800000,
        int: 2,
        float: 0,
        string: String::new(),
        audio_path: String::new(),
        volume: 0x3f800000,
        balance: 0,
    });
    rig.animation_state.push_event(AnimationEvent::Complete { track_entry });
    let mut component = SpineAnimation::instantiate(
        |event: AnimationEvent, rig: &mut AnimationStateWithData<Vec<String>>| {
            let seen = match event {
                AnimationEvent::Start { track_entry } => format!("start {}", track_entry.track_index),
                AnimationEvent::Complete { track_entry } => {
                    format!("complete {}", track_entry.track_index)
                }
                AnimationEvent::Event { name, int, .. } => format!("event {} {}", name, int),
                other => format!("{:?}", other),
            };
            rig.extra_data.push(seen);
        },
    );
    component.process(&mut rig);
    assert_eq!(rig.extra_data, vec!["start 0", "event footstep 2", "complete 0"]);
    assert!(rig.animation_state.events.is_empty());
    component.process(&mut rig);
    assert_eq!(rig.extra_data.len(), 3);
}

#[test]
fn events_that_a_callback_adds_are_dropped() {
    let mut runtime = RenderRuntime::new();
    let mut rig = AnimationStateWithData { animation_state: state(&mut runtime, vec![]), extra_data: 0u32 };
    let track_entry = TrackEntry { track_index: 1 };
    rig.animation_state.push_event(AnimationEvent::End { track_entry });
    rig.animation_state.push_event(AnimationEvent::Dispose { track_entry });
    let mut component =
        SpineAnimation::instantiate(|event: AnimationEvent, rig: &mut AnimationStateWithData<u32>| {
            assert_eq!(event.track_entry(), TrackEntry { track_index: 1 });
            rig.extra_data += 1;
            rig.animation_state.set_skin_by_name("hat").unwrap();
            rig.animation_state.push_event(AnimationEvent::Interrupt {
                track_entry: TrackEntry { track_index: 5 },
            });
        });
    component.process(&mut rig);
    assert_eq!(rig.extra_data, 2);
    assert!(rig.animation_state.events.is_empty());
    assert_eq!(rig.animation_state.spine.skin, Some(Skin { name: "hat".to_string() }));
}

#[test]
fn starting_animation_of_the_rig_is_the_first_command() {
    let mut runtime = RenderRuntime::new();
    let info = LoadSpineFromBytes {
        atlas: vec![],
        dir_path: String::new(),
        skeleton_data: SpineSkeletonBytes::Json(vec![]),
        animation: Some(AnimationOptions { looping: false, animation_name: "idle".to_string() }),
        position: [0, 0],
        scale: 0,
        skin: None,
        backface_culling: false,
        preloaded_texture: None,
    };
    let decoded = DecodedRig {
        atlas: Atlas { pages: vec![] },
        skeleton_data: SkeletonData { animations: vec!["idle".to_string()], skins: vec![] },
    };
    let spine = Spine::load_from_bytes(info, &mut runtime, Ok(decoded)).unwrap();
    let mut state = SpineState::new(spine, Ok(Pipeline { id: 0 })).unwrap();
    state.set_animation_by_name(1, "idle", true).unwrap();
    assert_eq!(
        state.spine.take_commands(),
        vec![
            EngineCommand::SetAnimation {
                track_index: 0,
                animation_name: "idle".to_string(),
                looping: false
            },
            EngineCommand::SetAnimation {
                track_index: 1,
                animation_name: "idle".to_string(),
                looping: true
            },
        ]
    );
}
