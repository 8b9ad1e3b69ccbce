//! Bridges the texture hooks of the animation runtime to background loads.
//!
//! When the runtime creates an atlas page, the loader tags the page with a
//! [`LoadState`] and asks the host either to load the page's texture or, if
//! the cache has it, to apply the page's sampler settings to it. The host
//! reports back when a load has ended.

use vstd::prelude::*;
use crate::load_state::LoadState;
use crate::renderable::PageId;
use crate::texture_cache::{TextureCache, TextureHandle};
use crate::texture_settings::SamplerSettings;

verus! {

/// An image in CPU memory: `width * height` pixels of four bytes each, red,
/// green, blue and alpha.
#[derive(Clone, Debug, PartialEq, Eq)]
pub struct Image {
    pub width: u16,
    pub height: u16,
    pub bytes: Vec<u8>,
}

/// The bytes of `count` pixels of one color.
pub open spec fn solid_pixels(count: nat, rgba: Seq<u8>) -> Seq<u8> {
    Seq::new(count * 4, |i: int| rgba[i % 4])
}

/// Whether a color channel is fully off or fully on.
pub open spec fn is_saturated(channel: u8) -> bool {
    channel == 0 || channel == 255
}

/// Calls `Image::gen_image_color` of macroquad with the color that its
/// `Color::from_rgba` makes of the four channels.
///
/// Taken on trust: the image has the given size and every pixel of it has
/// the given channels. This holds for channels that are 0 or 255, which
/// pass unchanged through the fractions that macroquad holds colors in.
#[verifier::external_body]
fn solid_image(width: u16, height: u16, rgba: [u8; 4]) -> (image: Image)
    requires
        width * height * 4 <= usize::MAX,
        forall|k: int| 0 <= k < 4 ==> is_saturated(#[trigger] rgba[k]),
    ensures
        image.width == width,
        image.height == height,
        image.bytes@ == solid_pixels((width * height) as nat, rgba@),
{
    let color = macroquad::color::Color::from_rgba(rgba[0], rgba[1], rgba[2], rgba[3]);
    let image = macroquad::texture::Image::gen_image_color(width, height, color);
    Image { width: image.width, height: image.height, bytes: image.bytes }
}

/// The image that stands in for a texture that could not be loaded: one
/// opaque magenta pixel.
pub open spec fn is_fallback_image(image: Image) -> bool {
    &&& image.width == 1
    &&& image.height == 1
    &&& image.bytes@ == seq![255u8, 0u8, 255u8, 255u8]
}

pub fn fallback_image() -> (image: Image)
    ensures
        is_fallback_image(image),
{
    let magenta: [u8; 4] = [255, 0, 255, 255];
    let image = solid_image(1, 1, magenta);
    assert(image.bytes@ =~= seq![255u8, 0u8, 255u8, 255u8]);
    image
}

/// The image to upload for a load that ended with `loaded`: the loaded image,
/// or the fallback image if the load failed. A failed load never fails the
/// caller.
pub fn load_texture_or_fallback<E>(loaded: Result<Image, E>) -> (image: Image)
    ensures
        match loaded {
            Ok(found) => image == found,
            Err(_) => is_fallback_image(image),
        },
{
    match loaded {
        Ok(found) => found,
        Err(_) => fallback_image(),
    }
}

/// What the host holds while it loads the texture of a page, and hands back
/// with the loaded texture.
#[derive(Clone, Debug, PartialEq, Eq)]
pub struct LoadTicket {
    pub page: PageId,
    pub path: String,
    pub settings: SamplerSettings,
}

/// What the loader asks of the host.
#[derive(Clone, Debug, PartialEq, Eq)]
pub enum LoaderRequest {
    /// Apply the sampler settings to a texture that is loaded.
    Prepare { texture: TextureHandle, settings: SamplerSettings },
    /// Load the texture at the ticket's path, then call
    /// [`AsyncTextureLoader::finish_load`].
    Load { ticket: LoadTicket },
}

/// A request, with its path as a sequence of characters.
pub enum LoaderRequestView {
    Prepare { texture: TextureHandle, settings: SamplerSettings },
    Load { page: PageId, path: Seq<char>, settings: SamplerSettings },
}

impl View for LoaderRequest {
    type V = LoaderRequestView;

    open spec fn view(&self) -> LoaderRequestView {
        match *self {
            LoaderRequest::Prepare { texture, settings } => LoaderRequestView::Prepare {
                texture,
                settings,
            },
            LoaderRequest::Load { ticket } => LoaderRequestView::Load {
                page: ticket.page,
                path: ticket.path@,
                settings: ticket.settings,
            },
        }
    }
}

/// The load state of a page, with its path as a sequence of characters.
pub open spec fn state_view(state: LoadState<String>) -> LoadState<Seq<char>> {
    match state {
        LoadState::Loading => LoadState::Loading,
        LoadState::Done(path) => LoadState::Done(path@),
    }
}

/// The loader as a value: the tag of every page that was ever created, `None`
/// once the page is disposed, and the requests that the host has not taken.
pub struct LoaderView {
    pub pages: Seq<Option<LoadState<Seq<char>>>>,
    pub requests: Seq<LoaderRequestView>,
}

impl LoaderView {
    /// The tag of `page`, if the page exists.
    pub open spec fn tag(self, page: PageId) -> Option<LoadState<Seq<char>>> {
        if page.index < self.pages.len() {
            self.pages[page.index as int]
        } else {
            None
        }
    }

    /// The state after a page with the texture at `path` was created while
    /// the cache held `cache`.
    pub open spec fn created(
        self,
        cache: Map<Seq<char>, TextureHandle>,
        path: Seq<char>,
        settings: SamplerSettings,
    ) -> LoaderView {
        let page = PageId { index: self.pages.len() as usize };
        if cache.contains_key(path) {
            LoaderView {
                pages: self.pages.push(Some(LoadState::Done(path))),
                requests: self.requests.push(
                    LoaderRequestView::Prepare { texture: cache[path], settings },
                ),
            }
        } else {
            LoaderView {
                pages: self.pages.push(Some(LoadState::Loading)),
                requests: self.requests.push(LoaderRequestView::Load { page, path, settings }),
            }
        }
    }

    /// The state after the load of the texture of `page` has ended with
    /// `texture`. A page that was disposed meanwhile stays disposed.
    pub open spec fn finished(
        self,
        page: PageId,
        path: Seq<char>,
        settings: SamplerSettings,
        texture: TextureHandle,
    ) -> LoaderView {
        LoaderView {
            pages: match self.tag(page) {
                Some(state) => self.pages.update(page.index as int, Some(state.resolved(path))),
                None => self.pages,
            },
            requests: self.requests.push(LoaderRequestView::Prepare { texture, settings }),
        }
    }

    /// The state after `page` was disposed.
    pub open spec fn disposed(self, page: PageId) -> LoaderView {
        LoaderView {
            pages: if page.index < self.pages.len() {
                self.pages.update(page.index as int, None)
            } else {
                self.pages
            },
            requests: self.requests,
        }
    }
}

/// The texture that a renderable with the given attachment is drawn with.
///
/// There is none if the attachment has no page, if the page is disposed or
/// still loading, or if the cache does not hold the page's path.
pub open spec fn resolved_texture(
    pages: Seq<Option<LoadState<Seq<char>>>>,
    cache: Map<Seq<char>, TextureHandle>,
    attachment: Option<PageId>,
) -> Option<TextureHandle> {
    match attachment {
        Some(page) if page.index < pages.len() => match pages[page.index as int] {
            Some(LoadState::Done(path)) => cache.get(path),
            _ => None,
        },
        _ => None,
    }
}

/// Whether a renderable with the given attachment waits for a texture.
pub open spec fn is_pending(pages: Seq<Option<LoadState<Seq<char>>>>, attachment: Option<PageId>)
    -> bool {
    match attachment {
        Some(page) if page.index < pages.len() => pages[page.index as int] == Some(
            LoadState::<Seq<char>>::Loading,
        ),
        _ => false,
    }
}

/// The side table from atlas page to load state, and the requests to the
/// host.
pub struct AsyncTextureLoader {
    pages: Vec<Option<LoadState<String>>>,
    requests: Vec<LoaderRequest>,
}

impl View for AsyncTextureLoader {
    type V = LoaderView;

    closed spec fn view(&self) -> LoaderView {
        LoaderView {
            pages: Seq::new(
                self.pages@.len(),
                |i: int|
                    match self.pages@[i] {
                        Some(state) => Some(state_view(state)),
                        None => None,
                    },
            ),
            requests: Seq::new(self.requests@.len(), |i: int| self.requests@[i]@),
        }
    }
}

impl AsyncTextureLoader {
    /// A loader without pages or requests.
    pub fn new() -> (loader: Self)
        ensures
            loader@.pages == Seq::<Option<LoadState<Seq<char>>>>::empty(),
            loader@.requests == Seq::<LoaderRequestView>::empty(),
    {
        let loader = AsyncTextureLoader { pages: Vec::new(), requests: Vec::new() };
        assert(loader@.pages =~= Seq::<Option<LoadState<Seq<char>>>>::empty());
        assert(loader@.requests =~= Seq::<LoaderRequestView>::empty());
        loader
    }

    /// Registers a new atlas page whose texture lies at `path`.
    ///
    /// If the cache holds the path, the page is done at once and the host is
    /// asked to apply the settings to the cached texture. Otherwise the page
    /// is loading and the host is asked to load the texture.
    pub fn create_texture(
        &mut self,
        cache: &TextureCache,
        path: String,
        settings: SamplerSettings,
    ) -> (page: PageId)
        ensures
            page.index == old(self)@.pages.len(),
            final(self)@ == old(self)@.created(cache@, path@, settings),
    {
        let page = PageId { index: self.pages.len() };
        match cache.lookup(&path) {
            Some(texture) => {
                self.pages.push(Some(LoadState::new_done(path)));
                self.requests.push(LoaderRequest::Prepare { texture, settings });
            },
            None => {
                self.pages.push(Some(LoadState::new_loading()));
                self.requests.push(
                    LoaderRequest::Load { ticket: LoadTicket { page, path, settings } },
                );
            },
        }
        proof {
            let expected = old(self)@.created(cache@, path@, settings);
            assert(self@.pages =~= expected.pages);
            assert(self@.requests =~= expected.requests);
        }
        page
    }

    /// Takes note that the load of `ticket` has ended with `texture`.
    ///
    /// The texture enters the cache under the ticket's path, also when the
    /// page was disposed meanwhile; the page, if it still exists, is done; and
    /// the host is asked to apply the page's settings to the texture. Returns
    /// the handle that the cache held under that path before.
    pub fn finish_load(
        &mut self,
        cache: &mut TextureCache,
        ticket: LoadTicket,
        texture: TextureHandle,
    ) -> (previous: Option<TextureHandle>)
        ensures
            final(cache)@ == old(cache)@.insert(ticket.path@, texture),
            previous == old(cache)@.get(ticket.path@),
            final(self)@ == old(self)@.finished(ticket.page, ticket.path@, ticket.settings, texture),
    {
        let LoadTicket { page, path, settings } = ticket;
        let previous = cache.insert(path.clone(), texture);
        if page.index < self.pages.len() {
            let mut slot: Option<LoadState<String>> = None;
            self.pages.set_and_swap(page.index, &mut slot);
            match slot {
                Some(mut state) => {
                    state.to_done(path);
                    self.pages.set(page.index, Some(state));
                },
                None => {},
            }
        }
        self.requests.push(LoaderRequest::Prepare { texture, settings });
        proof {
            let expected = old(self)@.finished(ticket.page, ticket.path@, ticket.settings, texture);
            assert(self@.pages =~= expected.pages);
            assert(self@.requests =~= expected.requests);
        }
        previous
    }

    /// Releases the tag of `page`. Nothing is queued for deletion here: that
    /// is up to the rig that owns the page's texture.
    pub fn dispose_texture(&mut self, page: PageId) -> (released: Option<LoadState<String>>)
        ensures
            final(self)@ == old(self)@.disposed(page),
            match released {
                Some(state) => old(self)@.tag(page) == Some(state_view(state)),
                None => old(self)@.tag(page) is None,
            },
    {
        let mut released: Option<LoadState<String>> = None;
        if page.index < self.pages.len() {
            self.pages.set_and_swap(page.index, &mut released);
        }
        proof {
            assert(self@.pages =~= old(self)@.disposed(page).pages);
            assert(self@.requests =~= old(self)@.requests);
        }
        released
    }

    /// Takes the requests that have come since the last call, oldest first.
    pub fn take_requests(&mut self) -> (requests: Vec<LoaderRequest>)
        ensures
            requests@.len() == old(self)@.requests.len(),
            forall|i: int| 0 <= i < requests@.len() ==> requests@[i]@ == old(self)@.requests[i],
            final(self)@.requests == Seq::<LoaderRequestView>::empty(),
            final(self)@.pages == old(self)@.pages,
    {
        let mut requests: Vec<LoaderRequest> = Vec::new();
        core::mem::swap(&mut self.requests, &mut requests);
        proof {
            assert(self@.requests =~= Seq::<LoaderRequestView>::empty());
            assert(self@.pages =~= old(self)@.pages);
        }
        requests
    }

    /// Whether the texture of `page` is loaded. A page that does not exist
    /// is not.
    pub fn is_loaded(&self, page: PageId) -> (loaded: bool)
        ensures
            loaded == (self@.tag(page) matches Some(LoadState::Done(_))),
    {
        if page.index < self.pages.len() {
            match &self.pages[page.index] {
                Some(state) => state.is_loaded(),
                None => false,
            }
        } else {
            false
        }
    }

    /// Whether `page` exists and its texture is still loading.
    pub fn is_loading(&self, page: PageId) -> (loading: bool)
        ensures
            loading == is_pending(self@.pages, Some(page)),
    {
        if page.index < self.pages.len() {
            match &self.pages[page.index] {
                Some(state) => !state.is_loaded(),
                None => false,
            }
        } else {
            false
        }
    }

    /// The texture to draw an attachment with, if it is there yet.
    pub fn resolve(&self, cache: &TextureCache, attachment: Option<PageId>) -> (texture: Option<
        TextureHandle,
    >)
        ensures
            texture == resolved_texture(self@.pages, cache@, attachment),
    {
        match attachment {
            Some(page) => {
                if page.index < self.pages.len() {
                    match &self.pages[page.index] {
                        Some(LoadState::Done(path)) => cache.lookup(path),
                        _ => None,
                    }
                } else {
                    None
                }
            },
            None => None,
        }
    }
}

/// A page whose texture is loaded stays loaded until it is disposed: neither
/// a new page, nor the end of a load, nor the disposal of another page takes
/// its tag away or back to loading.
pub proof fn lemma_loaded_pages_stay_loaded(
    loader: LoaderView,
    page: PageId,
    cache: Map<Seq<char>, TextureHandle>,
    path: Seq<char>,
    settings: SamplerSettings,
    other: PageId,
    texture: TextureHandle,
)
    requires
        loader.tag(page) matches Some(LoadState::Done(_)),
    ensures
        loader.created(cache, path, settings).tag(page) == loader.tag(page),
        loader.finished(other, path, settings, texture).tag(page) == loader.tag(page),
        other != page ==> loader.disposed(other).tag(page) == loader.tag(page),
{
}

/// A renderable that was skipped while its page was loading is drawn once
/// the load has ended: it resolves to no texture before, and to the loaded
/// texture after.
pub proof fn lemma_finished_load_is_drawn(
    loader: LoaderView,
    cache: Map<Seq<char>, TextureHandle>,
    page: PageId,
    path: Seq<char>,
    settings: SamplerSettings,
    texture: TextureHandle,
)
    requires
        loader.tag(page) == Some(LoadState::<Seq<char>>::Loading),
    ensures
        resolved_texture(loader.pages, cache, Some(page)) is None,
        resolved_texture(
            loader.finished(page, path, settings, texture).pages,
            cache.insert(path, texture),
            Some(page),
        ) == Some(texture),
{
}

} // verus!
