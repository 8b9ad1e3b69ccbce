use spine_node::{
    convert_filter, convert_wrap, fallback_image, load_texture_or_fallback, prepare_texture,
    AsyncTextureLoader, AtlasFilter, AtlasWrap, FilterMode, Image, LoadState, LoadTicket,
    LoaderRequest, MipmapFilterMode, PageId, SamplerSettings, TextureCache, TextureCommand,
    TextureHandle, TextureWrap,
};

fn settings() -> SamplerSettings {
    SamplerSettings {
        mag_filter: FilterMode::Nearest,
        min_filter: FilterMode::Linear,
        x_wrap: TextureWrap::Repeat,
        y_wrap: TextureWrap::Clamp,
    }
}

#[test]
fn plain_filters_are_kept() {
    assert_eq!(convert_filter(AtlasFilter::Linear), FilterMode::Linear);
    assert_eq!(convert_filter(AtlasFilter::Nearest), FilterMode::Nearest);
}

#[test]
fn other_filters_fall_back_to_linear() {
    for filter in [
        AtlasFilter::UnknownFilter,
        AtlasFilter::Mipmap,
        AtlasFilter::MipmapNearestNearest,
        AtlasFilter::MipmapLinearNearest,
        AtlasFilter::MipmapNearestLinear,
        AtlasFilter::MipmapLinearLinear,
    ] {
        assert_eq!(convert_filter(filter), FilterMode::Linear);
    }
}

#[test]
fn wraps_are_mapped() {
    assert_eq!(convert_wrap(AtlasWrap::ClampToEdge), TextureWrap::Clamp);
    assert_eq!(convert_wrap(AtlasWrap::MirroredRepeat), TextureWrap::Mirror);
    assert_eq!(convert_wrap(AtlasWrap::Repeat), TextureWrap::Repeat);
    assert_eq!(convert_wrap(AtlasWrap::Unknown), TextureWrap::Clamp);
}

#[test]
fn prepare_texture_issues_four_calls_in_order() {
    let texture = TextureHandle { id: 4 };
    let commands = prepare_texture(
        texture,
        FilterMode::Nearest,
        FilterMode::Linear,
        TextureWrap::Repeat,
        TextureWrap::Mirror,
    );
    assert_eq!(
        commands,
        vec![
            TextureCommand::SetFilter {
                texture,
                filter: FilterMode::Linear,
                mipmap: MipmapFilterMode::Off
            },
            TextureCommand::SetMagFilter { texture, filter: FilterMode::Nearest },
            TextureCommand::SetMinFilter {
                texture,
                filter: FilterMode::Linear,
                mipmap: MipmapFilterMode::Off
            },
            TextureCommand::SetWrap {
                texture,
                x_wrap: TextureWrap::Repeat,
                y_wrap: TextureWrap::Mirror
            },
        ]
    );
}

#[test]
fn failed_load_gives_one_magenta_pixel() {
    let image = load_texture_or_fallback::<String>(Err("no such file".to_string()));
    assert_eq!(image, Image { width: 1, height: 1, bytes: vec![255, 0, 255, 255] });
    assert_eq!(fallback_image(), image);
}

#[test]
fn loaded_image_is_handed_on() {
    let loaded = Image { width: 2, height: 1, bytes: vec![1, 2, 3, 4, 5, 6, 7, 8] };
    assert_eq!(load_texture_or_fallback::<String>(Ok(loaded.clone())), loaded);
}

#[test]
fn load_state_starts_as_told() {
    let loading: LoadState<u32> = LoadState::new_loading();
    assert!(!loading.is_loaded());
    assert_eq!(loading.get_value(), None);
    let done = LoadState::new_done(5u32);
    assert!(done.is_loaded());
    assert_eq!(done.get_value(), Some(&5));
}

#[test]
fn load_state_never_goes_back() {
    let mut state: LoadState<u32> = LoadState::new_loading();
    state.to_done(1);
    assert_eq!(state, LoadState::Done(1));
    state.to_done(2);
    assert_eq!(state, LoadState::Done(1));
    assert!(state.is_loaded());
}

#[test]
fn uncached_page_is_loading_and_asks_for_a_load() {
    let cache = TextureCache::new();
    let mut loader = AsyncTextureLoader::new();
    let page = loader.create_texture(&cache, "rig/a.png".to_string(), settings());
    assert_eq!(page, PageId { index: 0 });
    assert!(loader.is_loading(page));
    assert!(!loader.is_loaded(page));
    assert_eq!(loader.resolve(&cache, Some(page)), None);
    assert_eq!(
        loader.take_requests(),
        vec![LoaderRequest::Load {
            ticket: LoadTicket { page, path: "rig/a.png".to_string(), settings: settings() }
        }]
    );
    assert_eq!(loader.take_requests(), vec![]);
}

#[test]
fn cached_page_is_done_at_once() {
    let mut cache = TextureCache::new();
    cache.insert("rig/a.png".to_string(), TextureHandle { id: 8 });
    let mut loader = AsyncTextureLoader::new();
    let page = loader.create_texture(&cache, "rig/a.png".to_string(), settings());
    assert!(loader.is_loaded(page));
    assert!(!loader.is_loading(page));
    assert_eq!(loader.resolve(&cache, Some(page)), Some(TextureHandle { id: 8 }));
    assert_eq!(
        loader.take_requests(),
        vec![LoaderRequest::Prepare { texture: TextureHandle { id: 8 }, settings: settings() }]
    );
}

#[test]
fn pages_are_numbered_in_order() {
    let cache = TextureCache::new();
    let mut loader = AsyncTextureLoader::new();
    assert_eq!(loader.create_texture(&cache, "a.png".to_string(), settings()).index, 0);
    assert_eq!(loader.create_texture(&cache, "b.png".to_string(), settings()).index, 1);
    assert_eq!(loader.create_texture(&cache, "a.png".to_string(), settings()).index, 2);
}

#[test]
fn finished_load_enters_the_cache_and_ends_the_loading() {
    let mut cache = TextureCache::new();
    let mut loader = AsyncTextureLoader::new();
    let page = loader.create_texture(&cache, "rig/a.png".to_string(), settings());
    let ticket = match loader.take_requests().pop() {
        Some(LoaderRequest::Load { ticket }) => ticket,
        other => panic!("unexpected request {:?}", other),
    };
    let previous = loader.finish_load(&mut cache, ticket, TextureHandle { id: 11 });
    assert_eq!(previous, None);
    assert_eq!(cache.lookup(&"rig/a.png".to_string()), Some(TextureHandle { id: 11 }));
    assert!(loader.is_loaded(page));
    assert_eq!(loader.resolve(&cache, Some(page)), Some(TextureHandle { id: 11 }));
    assert_eq!(
        loader.take_requests(),
        vec![LoaderRequest::Prepare { texture: TextureHandle { id: 11 }, settings: settings() }]
    );
}

#[test]
fn load_that_ends_after_disposal_still_enters_the_cache() {
    let mut cache = TextureCache::new();
    let mut loader = AsyncTextureLoader::new();
    let page = loader.create_texture(&cache, "rig/a.png".to_string(), settings());
    let ticket = match loader.take_requests().pop() {
        Some(LoaderRequest::Load { ticket }) => ticket,
        other => panic!("unexpected request {:?}", other),
    };
    assert_eq!(loader.dispose_texture(page), Some(LoadState::Loading));
    loader.finish_load(&mut cache, ticket, TextureHandle { id: 11 });
    assert_eq!(cache.lookup(&"rig/a.png".to_string()), Some(TextureHandle { id: 11 }));
    assert!(!loader.is_loaded(page));
    assert!(!loader.is_loading(page));
    assert_eq!(loader.resolve(&cache, Some(page)), None);
}

#[test]
fn dispose_releases_the_tag_once() {
    let mut cache = TextureCache::new();
    cache.insert("a.png".to_string(), TextureHandle { id: 1 });
    let mut loader = AsyncTextureLoader::new();
    let page = loader.create_texture(&cache, "a.png".to_string(), settings());
    assert_eq!(loader.dispose_texture(page), Some(LoadState::Done("a.png".to_string())));
    assert_eq!(loader.dispose_texture(page), None);
    assert_eq!(loader.dispose_texture(PageId { index: 40 }), None);
    assert_eq!(loader.resolve(&cache, Some(page)), None);
}

#[test]
fn done_page_without_cache_entry_resolves_to_nothing() {
    let mut cache = TextureCache::new();
    cache.insert("a.png".to_string(), TextureHandle { id: 1 });
    let mut loader = AsyncTextureLoader::new();
    let page = loader.create_texture(&cache, "a.png".to_string(), settings());
    let empty = TextureCache::new();
    assert_eq!(loader.resolve(&empty, Some(page)), None);
    assert_eq!(loader.resolve(&cache, None), None);
    assert_eq!(loader.resolve(&cache, Some(PageId { index: 3 })), None);
}
