use spine_node::{
    add_to_cache, get_cache_item, get_cache_mut, setup_runtime, unchecked_assume_runtime_created,
    HookSetup, RenderRuntime, TextureCache, TextureHandle, Token,
};

fn path(text: &str) -> String {
    text.to_string()
}

#[test]
fn new_cache_is_empty() {
    let cache = TextureCache::new();
    assert_eq!(cache.len(), 0);
    assert_eq!(cache.lookup(&path("a.png")), None);
    assert!(!cache.contains_key(&path("a.png")));
}

#[test]
fn insert_twice_leaves_one_entry() {
    let mut cache = TextureCache::new();
    assert_eq!(cache.insert(path("rig/skeleton.png"), TextureHandle { id: 7 }), None);
    assert_eq!(
        cache.insert(path("rig/skeleton.png"), TextureHandle { id: 7 }),
        Some(TextureHandle { id: 7 })
    );
    assert_eq!(cache.len(), 1);
    assert_eq!(cache.lookup(&path("rig/skeleton.png")), Some(TextureHandle { id: 7 }));
}

#[test]
fn lookup_finds_the_last_insert() {
    let mut cache = TextureCache::new();
    cache.insert(path("a.png"), TextureHandle { id: 1 });
    cache.insert(path("b.png"), TextureHandle { id: 2 });
    assert_eq!(cache.insert(path("a.png"), TextureHandle { id: 3 }), Some(TextureHandle { id: 1 }));
    assert_eq!(cache.lookup(&path("a.png")), Some(TextureHandle { id: 3 }));
    assert_eq!(cache.lookup(&path("b.png")), Some(TextureHandle { id: 2 }));
    assert_eq!(cache.len(), 2);
    assert!(cache.contains_key(&path("b.png")));
    assert!(!cache.contains_key(&path("c.png")));
}

#[test]
fn paths_are_compared_as_given() {
    let mut cache = TextureCache::new();
    cache.insert(path("rig/a.png"), TextureHandle { id: 1 });
    assert_eq!(cache.lookup(&path("rig//a.png")), None);
    assert_eq!(cache.lookup(&path("rig/a.PNG")), None);
    assert_eq!(cache.lookup(&path("")), None);
}

#[test]
fn add_to_cache_returns_what_it_replaces() {
    let mut runtime = RenderRuntime::new();
    assert_eq!(add_to_cache(&mut runtime, path("a.png"), TextureHandle { id: 1 }), None);
    assert_eq!(
        add_to_cache(&mut runtime, path("a.png"), TextureHandle { id: 2 }),
        Some(TextureHandle { id: 1 })
    );
    assert_eq!(runtime.cache.len(), 1);
}

#[test]
fn get_cache_item_hands_the_handle_to_the_callback() {
    let mut runtime = RenderRuntime::new();
    add_to_cache(&mut runtime, path("a.png"), TextureHandle { id: 5 });
    let found = get_cache_item(&runtime, &path("a.png"), |handle| handle.map(|h| h.id));
    assert_eq!(found, Some(5));
    let missing = get_cache_item(&runtime, &path("b.png"), |handle| handle.is_none());
    assert!(missing);
}

#[test]
fn get_cache_mut_hands_the_cache_to_the_callback() {
    let mut runtime = RenderRuntime::new();
    let present = get_cache_mut(&mut runtime, |cache| cache.contains_key(&path("a.png")));
    assert!(!present);
    let previous =
        get_cache_mut(&mut runtime, |cache| cache.insert(path("a.png"), TextureHandle { id: 9 }));
    assert_eq!(previous, None);
    assert_eq!(runtime.cache.lookup(&path("a.png")), Some(TextureHandle { id: 9 }));
}

#[test]
fn setup_asks_for_the_hooks_once() {
    let mut runtime = RenderRuntime::new();
    assert!(!runtime.created);
    assert_eq!(setup_runtime(&mut runtime), HookSetup::Install);
    assert!(runtime.created);
    assert_eq!(setup_runtime(&mut runtime), HookSetup::Installed);
    assert_eq!(setup_runtime(&mut runtime), HookSetup::Installed);
}

#[test]
fn assumed_runtime_is_not_set_up_again() {
    let mut runtime = RenderRuntime::new();
    unchecked_assume_runtime_created(&mut runtime);
    assert!(runtime.created);
    assert_eq!(setup_runtime(&mut runtime), HookSetup::Installed);
}

#[test]
fn setup_leaves_cache_and_queue() {
    let mut runtime = RenderRuntime::new();
    add_to_cache(&mut runtime, path("a.png"), TextureHandle { id: 1 });
    runtime.queue.enqueue_delete(TextureHandle { id: 2 });
    setup_runtime(&mut runtime);
    assert_eq!(runtime.cache.lookup(&path("a.png")), Some(TextureHandle { id: 1 }));
    assert_eq!(runtime.queue.len(), 1);
}

#[test]
fn drain_returns_the_queue_in_order() {
    let mut queue = Token::new();
    queue.enqueue_delete(TextureHandle { id: 3 });
    queue.enqueue_delete(TextureHandle { id: 1 });
    queue.enqueue_delete(TextureHandle { id: 2 });
    assert_eq!(queue.len(), 3);
    assert_eq!(
        queue.drain_deletes(),
        vec![TextureHandle { id: 3 }, TextureHandle { id: 1 }, TextureHandle { id: 2 }]
    );
}

#[test]
fn second_drain_is_empty_until_new_deletes_come() {
    let mut queue = Token::new();
    queue.enqueue_delete(TextureHandle { id: 3 });
    assert_eq!(queue.drain_deletes(), vec![TextureHandle { id: 3 }]);
    assert_eq!(queue.drain_deletes(), vec![]);
    assert_eq!(queue.len(), 0);
    queue.enqueue_delete(TextureHandle { id: 4 });
    assert_eq!(queue.drain_deletes(), vec![TextureHandle { id: 4 }]);
    assert_eq!(queue.drain_deletes(), vec![]);
}

#[test]
fn drain_of_a_new_queue_is_empty() {
    let mut queue = Token::new();
    assert_eq!(queue.drain_deletes(), vec![]);
}
