use std::sync::{Arc, Mutex};

use rusty_spine::controller::{SkeletonController, SkeletonControllerSettings};
use rusty_spine::draw::{ColorSpace, CullDirection};
use rusty_spine::{AnimationStateData, Atlas, Physics, SkeletonJson};
use spine_node::{
    AnimationEvent, AnimationOptions, AnimationStateWithData, AtlasFilter, AtlasPage, AtlasWrap,
    BlendFactor, BlendMode, BlendState, BlendStates, BlendValue, DecodedRig, EngineCommand,
    Equation, LoadSpineFromBytes, PageId, Pipeline, RenderCommand, RenderRuntime, Renderable,
    SkeletonData, Spine, SpineAnimation, SpineSkeletonBytes, SpineState, TextureHandle, TrackEntry,
};

const ATLAS: &str = "skeleton.png\nsize: 4,4\nfilter: Nearest,Linear\nimage\nbounds: 0,0,2,2\n";

const SKELETON: &str = r#"{
"skeleton": { "spine": "4.2.0" },
"bones": [ { "name": "root" } ],
"slots": [ { "name": "body", "bone": "root", "attachment": "image" } ],
"skins": [ { "name": "default", "attachments": { "body": { "image": { "width": 2, "height": 2 } } } } ],
"animations": { "idle": {} }
}"#;

struct PageMarker(#[allow(dead_code)] u8);

fn filter(filter: rusty_spine::atlas::AtlasFilter) -> AtlasFilter {
    match filter {
        rusty_spine::atlas::AtlasFilter::Nearest => AtlasFilter::Nearest,
        rusty_spine::atlas::AtlasFilter::Linear => AtlasFilter::Linear,
        _ => AtlasFilter::UnknownFilter,
    }
}

fn wrap(wrap: rusty_spine::atlas::AtlasWrap) -> AtlasWrap {
    match wrap {
        rusty_spine::atlas::AtlasWrap::MirroredRepeat => AtlasWrap::MirroredRepeat,
        rusty_spine::atlas::AtlasWrap::ClampToEdge => AtlasWrap::ClampToEdge,
        rusty_spine::atlas::AtlasWrap::Repeat => AtlasWrap::Repeat,
        rusty_spine::atlas::AtlasWrap::Unknown => AtlasWrap::Unknown,
    }
}

fn blend_mode(mode: rusty_spine::BlendMode) -> BlendMode {
    match mode {
        rusty_spine::BlendMode::Normal => BlendMode::Normal,
        rusty_spine::BlendMode::Additive => BlendMode::Additive,
        rusty_spine::BlendMode::Multiply => BlendMode::Multiply,
        rusty_spine::BlendMode::Screen => BlendMode::Screen,
    }
}

struct Engine {
    controller: SkeletonController,
    events: Arc<Mutex<Vec<AnimationEvent>>>,
}

/// Decodes the rig with the animation runtime and describes it.
fn decode(dir: &str) -> (Engine, DecodedRig) {
    let created: Arc<Mutex<Vec<AtlasPage>>> = Arc::new(Mutex::new(Vec::new()));
    let sink = created.clone();
    rusty_spine::extension::set_create_texture_cb(move |page, path| {
        page.renderer_object().set(PageMarker(1));
        sink.lock().unwrap().push(AtlasPage {
            path: path.to_owned(),
            pma: page.pma(),
            min_filter: filter(page.min_filter()),
            mag_filter: filter(page.mag_filter()),
            u_wrap: wrap(page.u_wrap()),
            v_wrap: wrap(page.v_wrap()),
        });
    });
    let atlas = Arc::new(Atlas::new(ATLAS.as_bytes(), dir).unwrap());
    let skeleton_data =
        Arc::new(SkeletonJson::new(atlas).read_skeleton_data(SKELETON.as_bytes()).unwrap());
    let rig = DecodedRig {
        atlas: spine_node::Atlas { pages: created.lock().unwrap().clone() },
        skeleton_data: SkeletonData {
            animations: skeleton_data.animations().map(|a| a.name().to_owned()).collect(),
            skins: skeleton_data.skins().map(|s| s.name().to_owned()).collect(),
        },
    };
    let animation_state_data = Arc::new(AnimationStateData::new(skeleton_data.clone()));
    let mut controller = SkeletonController::new(skeleton_data, animation_state_data)
        .with_settings(SkeletonControllerSettings {
            premultiplied_alpha: false,
            cull_direction: CullDirection::CounterClockwise,
            color_space: ColorSpace::SRGB,
        });
    let events: Arc<Mutex<Vec<AnimationEvent>>> = Arc::new(Mutex::new(Vec::new()));
    let sink = events.clone();
    controller.animation_state.set_listener(move |_, event| {
        let seen = match event {
            rusty_spine::AnimationEvent::Start { track_entry } => AnimationEvent::Start {
                track_entry: TrackEntry { track_index: track_entry.track_index() },
            },
            rusty_spine::AnimationEvent::Complete { track_entry } => AnimationEvent::Complete {
                track_entry: TrackEntry { track_index: track_entry.track_index() },
            },
            _ => return,
        };
        sink.lock().unwrap().push(seen);
    });
    (Engine { controller, events }, rig)
}

fn renderables(engine: &mut Engine, pages: &[PageId]) -> Vec<Renderable> {
    engine
        .controller
        .combined_renderables()
        .iter()
        .map(|renderable| Renderable {
            vertices: renderable.vertices.iter().map(|v| [v[0].to_bits(), v[1].to_bits()]).collect(),
            uvs: renderable.uvs.iter().map(|v| [v[0].to_bits(), v[1].to_bits()]).collect(),
            indices: renderable.indices.clone(),
            colors: renderable.colors.iter().map(|c| c.map(f32::to_bits)).collect(),
            dark_colors: renderable.dark_colors.iter().map(|c| c.map(f32::to_bits)).collect(),
            blend_mode: blend_mode(renderable.blend_mode),
            attachment: renderable.attachment_renderer_object.map(|_| pages[0]),
        })
        .collect()
}

fn apply(engine: &mut Engine, commands: Vec<EngineCommand>) {
    for command in commands {
        match command {
            EngineCommand::SetAnimation { track_index, animation_name, looping } => {
                engine
                    .controller
                    .animation_state
                    .set_animation_by_name(track_index, &animation_name, looping)
                    .unwrap();
            }
            EngineCommand::SetSkin { skin_name } => {
                engine.controller.skeleton.set_skin_by_name(&skin_name).unwrap();
            }
            EngineCommand::SetSlotsToSetupPose => engine.controller.skeleton.set_slots_to_setup_pose(),
        }
    }
}

#[test]
fn decoded_rig_updates_and_draws_once() {
    let (mut engine, decoded) = decode("rig");
    assert_eq!(decoded.skeleton_data.animations, vec!["idle".to_string()]);
    assert_eq!(decoded.skeleton_data.skins, vec!["default".to_string()]);
    assert_eq!(decoded.atlas.pages.len(), 1);
    assert_eq!(decoded.atlas.pages[0].min_filter, AtlasFilter::Nearest);
    assert_eq!(decoded.atlas.pages[0].mag_filter, AtlasFilter::Linear);
    assert!(!decoded.atlas.pages[0].pma);

    let mut runtime = RenderRuntime::new();
    let info = LoadSpineFromBytes {
        atlas: ATLAS.as_bytes().to_vec(),
        dir_path: "rig".to_string(),
        skeleton_data: SpineSkeletonBytes::Json(SKELETON.as_bytes().to_vec()),
        animation: Some(AnimationOptions { looping: false, animation_name: "idle".to_string() }),
        position: [0, 0],
        scale: 1.0f32.to_bits(),
        skin: Some("default".to_string()),
        backface_culling: false,
        preloaded_texture: Some(TextureHandle { id: 17 }),
    };
    let spine = Spine::load_from_bytes(info, &mut runtime, Ok(decoded)).unwrap();
    // The path that the animation runtime gave the page is the path under
    // which the preloaded texture went into the cache.
    assert!(runtime.loader.is_loaded(spine.pages[0]));
    assert!(!spine.premultiplied_alpha);

    let mut rig = AnimationStateWithData {
        animation_state: SpineState::new(spine, Ok(Pipeline { id: 0 })).unwrap(),
        extra_data: Vec::<AnimationEvent>::new(),
    };
    let mut component = SpineAnimation::instantiate(
        |event: AnimationEvent, rig: &mut AnimationStateWithData<Vec<AnimationEvent>>| {
            rig.extra_data.push(event);
        },
    );

    apply(&mut engine, rig.animation_state.spine.take_commands());
    engine.controller.update(0.0, Physics::Update);
    for event in engine.events.lock().unwrap().drain(..) {
        rig.animation_state.push_event(event);
    }
    component.process(&mut rig);
    assert_eq!(
        rig.extra_data.first(),
        Some(&AnimationEvent::Start { track_entry: TrackEntry { track_index: 0 } })
    );
    assert!(rig.animation_state.events.is_empty());

    let pages = rig.animation_state.spine.pages.clone();
    let frame = renderables(&mut engine, &pages);
    assert_eq!(frame.len(), 1);
    assert!(frame[0].is_well_formed());
    assert!(rig.animation_state.is_fully_loaded(&runtime, &frame));
    let commands = component.render(&mut rig, &mut runtime, &frame);
    let normal = BlendStates {
        alpha_blend: BlendState {
            equation: Equation::Add,
            sfactor: BlendFactor::One,
            dfactor: BlendFactor::OneMinusValue(BlendValue::SourceAlpha),
        },
        color_blend: BlendState {
            equation: Equation::Add,
            sfactor: BlendFactor::Value(BlendValue::SourceAlpha),
            dfactor: BlendFactor::OneMinusValue(BlendValue::SourceAlpha),
        },
    };
    assert_eq!(
        commands,
        vec![
            RenderCommand::AllocateSlot { slot: 0 },
            RenderCommand::BindPipeline { blend: normal },
            RenderCommand::Upload { slot: 0 },
            RenderCommand::Draw {
                slot: 0,
                texture: TextureHandle { id: 17 },
                index_count: frame[0].indices.len()
            },
            RenderCommand::EndRenderPass,
        ]
    );
    assert_eq!(frame[0].pack_vertices().len(), 4);
    assert_eq!(frame[0].indices.len(), 6);
}
