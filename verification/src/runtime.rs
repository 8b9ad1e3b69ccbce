//! The state that every rig of a process shares.

use vstd::prelude::*;
use crate::delete_queue::Token;
use crate::texture_cache::{TextureCache, TextureHandle};
use crate::texture_loader::AsyncTextureLoader;

verus! {

/// Whether the host has to install the texture hooks of the animation
/// runtime.
#[derive(Clone, Copy, Debug, PartialEq, Eq, Structural)]
pub enum HookSetup {
    /// The hooks are not in place: install them now.
    Install,
    /// The hooks were installed, or assumed to be, before.
    Installed,
}

/// The texture cache, the texture loader and the delete queue of a process.
///
/// The host makes one of these and hands it to every call that needs it.
pub struct RenderRuntime {
    pub cache: TextureCache,
    pub loader: AsyncTextureLoader,
    pub queue: Token,
    /// Whether the texture hooks are taken to be in place.
    pub created: bool,
}

impl RenderRuntime {
    /// A runtime that holds nothing and has no hooks in place.
    pub fn new() -> (runtime: Self)
        ensures
            !runtime.created,
            runtime.cache@ == Map::<Seq<char>, TextureHandle>::empty(),
            runtime.queue@ == Seq::<TextureHandle>::empty(),
            runtime.loader@.pages.len() == 0,
            runtime.loader@.requests.len() == 0,
    {
        RenderRuntime {
            cache: TextureCache::new(),
            loader: AsyncTextureLoader::new(),
            queue: Token::new(),
            created: false,
        }
    }
}

/// The handle under `path` in spec code, as the callback of
/// [`get_cache_item`] receives it.
pub open spec fn cache_item(cache: Map<Seq<char>, TextureHandle>, path: Seq<char>) -> Option<
    &'static TextureHandle,
> {
    match cache.get(path) {
        Some(handle) => Some(&handle),
        None => None,
    }
}

/// Calls `callback` with the handle that the cache holds under `a`.
pub fn get_cache_item<V, F: FnOnce(Option<&TextureHandle>) -> V>(
    runtime: &RenderRuntime,
    a: &String,
    callback: F,
) -> (value: V)
    requires
        callback.requires((cache_item(runtime.cache@, a@),)),
    ensures
        callback.ensures((cache_item(runtime.cache@, a@),), value),
{
    let found = runtime.cache.lookup(a);
    let item = match &found {
        Some(handle) => Some(handle),
        None => None,
    };
    callback(item)
}

/// Calls `callback` with the cache, which it may change.
pub fn get_cache_mut<V, F: FnOnce(&mut TextureCache) -> V>(
    runtime: &mut RenderRuntime,
    callback: F,
) -> (value: V)
    requires
        forall|cache: &mut TextureCache| *cache == old(runtime).cache ==> callback.requires((cache,)),
    ensures
        exists|cache: &mut TextureCache|
            *cache == old(runtime).cache && *final(cache) == final(runtime).cache
                && callback.ensures((cache,), value),
        final(runtime).queue == old(runtime).queue,
        final(runtime).loader == old(runtime).loader,
        final(runtime).created == old(runtime).created,
{
    callback(&mut runtime.cache)
}

/// Stores `value` under `key` and returns the handle that it replaces.
pub fn add_to_cache(runtime: &mut RenderRuntime, key: String, value: TextureHandle) -> (previous:
    Option<TextureHandle>)
    ensures
        final(runtime).cache@ == old(runtime).cache@.insert(key@, value),
        previous == old(runtime).cache@.get(key@),
        final(runtime).queue == old(runtime).queue,
        final(runtime).loader == old(runtime).loader,
        final(runtime).created == old(runtime).created,
{
    runtime.cache.insert(key, value)
}

/// Takes the texture hooks to be in place without asking for them.
///
/// The rigs work only with hooks that register every atlas page with the
/// loader of this runtime and dispose it there. [`setup_runtime`] asks the
/// host for such hooks; a host that installs its own calls this function
/// instead, so that `setup_runtime` does not ask again.
pub fn unchecked_assume_runtime_created(runtime: &mut RenderRuntime)
    ensures
        final(runtime).created,
        final(runtime).cache == old(runtime).cache,
        final(runtime).queue == old(runtime).queue,
        final(runtime).loader == old(runtime).loader,
{
    runtime.created = true;
}

/// Sets the runtime up. The first call asks the host to install the texture
/// hooks; every later one finds them in place.
pub fn setup_runtime(runtime: &mut RenderRuntime) -> (setup: HookSetup)
    ensures
        final(runtime).created,
        setup == if old(runtime).created {
            HookSetup::Installed
        } else {
            HookSetup::Install
        },
        final(runtime).cache == old(runtime).cache,
        final(runtime).queue == old(runtime).queue,
        final(runtime).loader == old(runtime).loader,
{
    if runtime.created {
        HookSetup::Installed
    } else {
        runtime.created = true;
        HookSetup::Install
    }
}

} // verus!
