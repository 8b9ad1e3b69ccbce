//! A rig as it is loaded: what its skeleton defines, how it is drawn, and the
//! commands that wait for the animation runtime.

use vstd::prelude::*;
use crate::paths::{preloaded_path, preloaded_texture_path};
use crate::renderable::PageId;
use crate::runtime::{add_to_cache, RenderRuntime};
use crate::texture_cache::TextureHandle;
use crate::texture_loader::LoaderView;
use crate::texture_settings::{
    convert_filter, convert_wrap, filter_mode_of, texture_wrap_of, AtlasFilter, AtlasWrap,
    SamplerSettings,
};

verus! {

/// The animation that a rig starts with.
#[derive(Clone, Debug, PartialEq, Eq)]
pub struct AnimationOptions {
    pub looping: bool,
    pub animation_name: String,
}

/// The two forms in which a skeleton is stored.
#[derive(Clone, Copy, Debug, PartialEq, Eq, Structural)]
pub enum SkeletonFormat {
    Binary,
    Json,
}

/// The path of a skeleton file, by its format.
#[derive(Clone, Debug, PartialEq, Eq)]
pub enum SpineSkeletonPath {
    Binary(String),
    Json(String),
}

/// The bytes of a skeleton, by their format.
#[derive(Clone, Debug, PartialEq, Eq)]
pub enum SpineSkeletonBytes {
    Binary(Vec<u8>),
    Json(Vec<u8>),
}

impl SpineSkeletonPath {
    /// The format that decides which reader decodes the file.
    pub fn format(&self) -> (format: SkeletonFormat)
        ensures
            format == (if self is Binary {
                SkeletonFormat::Binary
            } else {
                SkeletonFormat::Json
            }),
    {
        match self {
            SpineSkeletonPath::Binary(_) => SkeletonFormat::Binary,
            SpineSkeletonPath::Json(_) => SkeletonFormat::Json,
        }
    }

    pub fn path(&self) -> (path: &String)
        ensures
            *self == SpineSkeletonPath::Binary(*path) || *self == SpineSkeletonPath::Json(*path),
    {
        match self {
            SpineSkeletonPath::Binary(path) => path,
            SpineSkeletonPath::Json(path) => path,
        }
    }
}

impl SpineSkeletonBytes {
    /// The format that decides which reader decodes the bytes.
    pub fn format(&self) -> (format: SkeletonFormat)
        ensures
            format == (if self is Binary {
                SkeletonFormat::Binary
            } else {
                SkeletonFormat::Json
            }),
    {
        match self {
            SpineSkeletonBytes::Binary(_) => SkeletonFormat::Binary,
            SpineSkeletonBytes::Json(_) => SkeletonFormat::Json,
        }
    }

    pub fn bytes(&self) -> (bytes: &Vec<u8>)
        ensures
            *self == SpineSkeletonBytes::Binary(*bytes) || *self == SpineSkeletonBytes::Json(*bytes),
    {
        match self {
            SpineSkeletonBytes::Binary(bytes) => bytes,
            SpineSkeletonBytes::Json(bytes) => bytes,
        }
    }
}

/// Which faces of a triangle are not drawn.
#[derive(Clone, Copy, Debug, PartialEq, Eq, Structural)]
pub enum CullFace {
    Nothing,
    Front,
    Back,
}

/// A rig to load from files. The position and the scale are single-precision
/// numbers, held as their 32 bits.
#[derive(Clone, Debug, PartialEq, Eq)]
pub struct LoadSpineFromFile {
    pub atlas_path: String,
    pub skeleton_path: SpineSkeletonPath,
    pub animation: Option<AnimationOptions>,
    pub position: [u32; 2],
    pub scale: u32,
    pub skin: Option<String>,
    pub backface_culling: bool,
}

/// A rig to load from bytes in memory. The position and the scale are
/// single-precision numbers, held as their 32 bits.
#[derive(Clone, Debug, PartialEq, Eq)]
pub struct LoadSpineFromBytes {
    pub atlas: Vec<u8>,
    pub dir_path: String,
    pub skeleton_data: SpineSkeletonBytes,
    pub animation: Option<AnimationOptions>,
    pub position: [u32; 2],
    pub scale: u32,
    pub skin: Option<String>,
    pub backface_culling: bool,
    /// A texture that the host has loaded for the atlas already.
    pub preloaded_texture: Option<TextureHandle>,
}

/// One page of a decoded atlas.
#[derive(Clone, Debug, PartialEq, Eq)]
pub struct AtlasPage {
    /// The path of the page's texture, as the animation runtime resolved it.
    pub path: String,
    /// Whether the texture has premultiplied alpha.
    pub pma: bool,
    pub min_filter: AtlasFilter,
    pub mag_filter: AtlasFilter,
    pub u_wrap: AtlasWrap,
    pub v_wrap: AtlasWrap,
}

/// A decoded atlas: its pages, in the order of the atlas.
#[derive(Clone, Debug, PartialEq, Eq)]
pub struct Atlas {
    pub pages: Vec<AtlasPage>,
}

/// What a decoded skeleton defines: the names of its animations and skins.
#[derive(Clone, Debug, PartialEq, Eq)]
pub struct SkeletonData {
    pub animations: Vec<String>,
    pub skins: Vec<String>,
}

/// What the animation runtime has decoded for one rig.
#[derive(Clone, Debug, PartialEq, Eq)]
pub struct DecodedRig {
    pub atlas: Atlas,
    pub skeleton_data: SkeletonData,
}

/// Why the animation runtime, or a lookup in what it has decoded, failed.
#[derive(Clone, Debug, PartialEq, Eq)]
pub enum SpineError {
    /// The runtime could not parse the data.
    ParsingFailed { reason: String },
    /// A name or a path held a zero byte.
    NulError,
    /// Nothing of the kind `what` has the name `name`.
    NotFound { what: String, name: String },
    FailedToReadFile { file: String },
    PathNotUtf8,
    CreationFailed { what: String },
}

/// A skin of a skeleton.
#[derive(Clone, Debug, PartialEq, Eq)]
pub struct Skin {
    pub name: String,
}

/// An animation of a skeleton.
#[derive(Clone, Debug, PartialEq, Eq)]
pub struct Animation {
    pub name: String,
}

impl Skin {
    pub fn name(&self) -> (name: &str)
        ensures
            name@ == self.name@,
    {
        self.name.as_str()
    }
}

impl Animation {
    pub fn name(&self) -> (name: &str)
        ensures
            name@ == self.name@,
    {
        self.name.as_str()
    }
}

/// The name of a skin, if there is a skin.
pub open spec fn skin_name(skin: Option<Skin>) -> Option<Seq<char>> {
    match skin {
        Some(skin) => Some(skin.name@),
        None => None,
    }
}

/// The name, if there is one, as a sequence of characters.
pub open spec fn name_view(name: Option<String>) -> Option<Seq<char>> {
    match name {
        Some(name) => Some(name@),
        None => None,
    }
}

/// A call that the host makes on the animation runtime on behalf of a rig.
#[derive(Clone, Debug, PartialEq, Eq)]
pub enum EngineCommand {
    SetAnimation { track_index: usize, animation_name: String, looping: bool },
    SetSkin { skin_name: String },
    SetSlotsToSetupPose,
}

/// An engine command, with its name as a sequence of characters.
pub enum EngineCommandView {
    SetAnimation { track_index: usize, animation_name: Seq<char>, looping: bool },
    SetSkin { skin_name: Seq<char> },
    SetSlotsToSetupPose,
}

impl View for EngineCommand {
    type V = EngineCommandView;

    open spec fn view(&self) -> EngineCommandView {
        match *self {
            EngineCommand::SetAnimation {
                track_index,
                animation_name,
                looping,
            } => EngineCommandView::SetAnimation {
                track_index,
                animation_name: animation_name@,
                looping,
            },
            EngineCommand::SetSkin { skin_name } => EngineCommandView::SetSkin {
                skin_name: skin_name@,
            },
            EngineCommand::SetSlotsToSetupPose => EngineCommandView::SetSlotsToSetupPose,
        }
    }
}

/// The names in a list, each as a sequence of characters.
pub open spec fn names(list: Seq<String>) -> Seq<Seq<char>> {
    Seq::new(list.len(), |i: int| list[i]@)
}

/// The commands in a list, each by its view.
pub open spec fn command_views(list: Seq<EngineCommand>) -> Seq<EngineCommandView> {
    Seq::new(list.len(), |i: int| list[i]@)
}

/// Whether `error` says that nothing of the kind `what` is called `name`.
pub open spec fn is_not_found(error: SpineError, what: Seq<char>, name: Seq<char>) -> bool {
    error matches SpineError::NotFound { what: w, name: n } && w@ == what && n@ == name
}

/// Whether `name` is in the list.
pub fn contains_name(list: &Vec<String>, name: &str) -> (found: bool)
    ensures
        found == names(list@).contains(name@),
{
    let wanted = name.to_owned();
    let mut i: usize = 0;
    while i < list.len()
        invariant
            i <= list.len(),
            wanted@ == name@,
            forall|j: int| 0 <= j < i ==> names(list@)[j] != name@,
        decreases list.len() - i,
    {
        if list[i] == wanted {
            assert(names(list@)[i as int] == name@);
            return true;
        }
        i = i + 1;
    }
    false
}

/// A loaded rig.
///
/// The skeleton itself lives in the animation runtime. The rig holds what
/// this crate decides with: the names that the skeleton defines, how the rig
/// is blended, culled and placed, its skin, the atlas pages that it draws
/// from, and the commands that the host has yet to pass to the runtime.
#[derive(Debug, PartialEq, Eq)]
pub struct Spine {
    pub animations: Vec<String>,
    pub skins: Vec<String>,
    /// Whether the textures of the rig have premultiplied alpha.
    pub premultiplied_alpha: bool,
    pub cull_face: CullFace,
    pub position: [u32; 2],
    pub scale: u32,
    /// The current skin.
    pub skin: Option<Skin>,
    /// The pages of the rig's atlas, as the texture loader knows them.
    pub pages: Vec<PageId>,
    /// The commands for the animation runtime, oldest first.
    pub commands: Vec<EngineCommand>,
}

struct SpineCreationOptions {
    position: [u32; 2],
    scale: u32,
    skin: Option<String>,
    backface_culling: bool,
    animation: Option<AnimationOptions>,
    skeleton_data: SkeletonData,
    atlas: Atlas,
}

/// Whether any page has premultiplied alpha.
pub open spec fn any_premultiplied(pages: Seq<AtlasPage>) -> bool {
    exists|i: int| 0 <= i < pages.len() && pages[i].pma
}

/// The faces that are culled with and without backface culling.
pub open spec fn cull_face_of(backface_culling: bool) -> CullFace {
    if backface_culling {
        CullFace::Back
    } else {
        CullFace::Nothing
    }
}

/// The sampler settings that a page asks for.
pub open spec fn sampler_of(page: AtlasPage) -> SamplerSettings {
    SamplerSettings {
        mag_filter: filter_mode_of(page.mag_filter),
        min_filter: filter_mode_of(page.min_filter),
        x_wrap: texture_wrap_of(page.u_wrap),
        y_wrap: texture_wrap_of(page.v_wrap),
    }
}

/// The loader after the given pages were created, in their order, while the
/// cache held `cache`.
pub open spec fn registered(
    loader: LoaderView,
    cache: Map<Seq<char>, TextureHandle>,
    pages: Seq<AtlasPage>,
) -> LoaderView
    decreases pages.len(),
{
    if pages.len() == 0 {
        loader
    } else {
        registered(loader, cache, pages.drop_last()).created(
            cache,
            pages.last().path@,
            sampler_of(pages.last()),
        )
    }
}

/// `count` page ids in a row, the first with the index `first`.
pub open spec fn page_ids(first: nat, count: nat) -> Seq<PageId> {
    Seq::new(count, |i: int| PageId { index: (first + i) as usize })
}

/// The kind and the name of what a rig asks for and the skeleton lacks: the
/// starting animation if it is unknown, else the skin if that is unknown.
pub open spec fn missing_name(
    data: SkeletonData,
    animation: Option<AnimationOptions>,
    skin: Option<String>,
) -> Option<(Seq<char>, Seq<char>)> {
    let unknown_animation = match animation {
        Some(options) => !names(data.animations@).contains(options.animation_name@),
        None => false,
    };
    let unknown_skin = match skin {
        Some(name) => !names(data.skins@).contains(name@),
        None => false,
    };
    if unknown_animation {
        Some(("Animation"@, animation->0.animation_name@))
    } else if unknown_skin {
        Some(("Skin"@, skin->0@))
    } else {
        None
    }
}

/// The commands that a new rig starts with: its animation on track 0, then
/// its skin, as far as it asks for them.
pub open spec fn initial_commands(animation: Option<AnimationOptions>, skin: Option<String>)
    -> Seq<EngineCommandView> {
    let first = match animation {
        Some(options) => seq![
            EngineCommandView::SetAnimation {
                track_index: 0,
                animation_name: options.animation_name@,
                looping: options.looping,
            },
        ],
        None => seq![],
    };
    let second = match skin {
        Some(name) => seq![EngineCommandView::SetSkin { skin_name: name@ }],
        None => seq![],
    };
    first + second
}

/// Every page adds one to the loader's pages.
pub proof fn lemma_registered_len(
    loader: LoaderView,
    cache: Map<Seq<char>, TextureHandle>,
    pages: Seq<AtlasPage>,
)
    ensures
        registered(loader, cache, pages).pages.len() == loader.pages.len() + pages.len(),
    decreases pages.len(),
{
    if pages.len() > 0 {
        lemma_registered_len(loader, cache, pages.drop_last());
    }
}

/// Creates the given pages with the loader, in their order.
fn register_pages(runtime: &mut RenderRuntime, pages: &Vec<AtlasPage>) -> (ids: Vec<PageId>)
    ensures
        final(runtime).loader@ == registered(old(runtime).loader@, old(runtime).cache@, pages@),
        ids@ == page_ids(old(runtime).loader@.pages.len(), pages@.len()),
        final(runtime).cache == old(runtime).cache,
        final(runtime).queue == old(runtime).queue,
        final(runtime).created == old(runtime).created,
{
    let mut ids: Vec<PageId> = Vec::new();
    let mut i: usize = 0;
    while i < pages.len()
        invariant
            i <= pages.len(),
            runtime.loader@ == registered(
                old(runtime).loader@,
                old(runtime).cache@,
                pages@.take(i as int),
            ),
            ids@ == page_ids(old(runtime).loader@.pages.len(), i as nat),
            runtime.cache == old(runtime).cache,
            runtime.queue == old(runtime).queue,
            runtime.created == old(runtime).created,
        decreases pages.len() - i,
    {
        let page = &pages[i];
        let settings = SamplerSettings {
            mag_filter: convert_filter(page.mag_filter),
            min_filter: convert_filter(page.min_filter),
            x_wrap: convert_wrap(page.u_wrap),
            y_wrap: convert_wrap(page.v_wrap),
        };
        proof {
            lemma_registered_len(old(runtime).loader@, old(runtime).cache@, pages@.take(i as int));
            assert(pages@.take(i + 1).drop_last() =~= pages@.take(i as int));
        }
        let id = runtime.loader.create_texture(&runtime.cache, page.path.clone(), settings);
        ids.push(id);
        assert(ids@ =~= page_ids(old(runtime).loader@.pages.len(), (i + 1) as nat));
        i = i + 1;
    }
    assert(pages@.take(pages@.len() as int) =~= pages@);
    ids
}

/// Whether any page has premultiplied alpha.
fn has_premultiplied_page(pages: &Vec<AtlasPage>) -> (found: bool)
    ensures
        found == any_premultiplied(pages@),
{
    let mut i: usize = 0;
    while i < pages.len()
        invariant
            i <= pages.len(),
            forall|j: int| 0 <= j < i ==> !pages@[j].pma,
        decreases pages.len() - i,
    {
        if pages[i].pma {
            return true;
        }
        i = i + 1;
    }
    false
}

impl Spine {
    /// Whether the skeleton defines an animation of the given name.
    pub open spec fn has_animation(&self, name: Seq<char>) -> bool {
        names(self.animations@).contains(name)
    }

    /// Whether the skeleton defines a skin of the given name.
    pub open spec fn has_skin(&self, name: Seq<char>) -> bool {
        names(self.skins@).contains(name)
    }

    /// Whether `other` differs from this rig in its commands at most.
    pub open spec fn same_but_commands(&self, other: Spine) -> bool {
        &&& other.animations == self.animations
        &&& other.skins == self.skins
        &&& other.premultiplied_alpha == self.premultiplied_alpha
        &&& other.cull_face == self.cull_face
        &&& other.position == self.position
        &&& other.scale == self.scale
        &&& other.skin == self.skin
        &&& other.pages == self.pages
    }

    /// Whether `other` differs from this rig in its commands and its skin
    /// at most.
    pub open spec fn same_but_skin(&self, other: Spine) -> bool {
        &&& other.animations == self.animations
        &&& other.skins == self.skins
        &&& other.premultiplied_alpha == self.premultiplied_alpha
        &&& other.cull_face == self.cull_face
        &&& other.position == self.position
        &&& other.scale == self.scale
        &&& other.pages == self.pages
    }

    /// Takes the commands that wait for the animation runtime, oldest first.
    pub fn take_commands(&mut self) -> (commands: Vec<EngineCommand>)
        ensures
            commands@ == old(self).commands@,
            final(self).commands@ == Seq::<EngineCommand>::empty(),
            old(self).same_but_commands(*final(self)),
    {
        let mut commands: Vec<EngineCommand> = Vec::new();
        core::mem::swap(&mut self.commands, &mut commands);
        commands
    }

    /// Whether `spine` is the rig that `new` makes of the given parts, with
    /// the given page ids.
    pub open spec fn is_new(
        spine: Spine,
        decoded: DecodedRig,
        animation: Option<AnimationOptions>,
        skin: Option<String>,
        position: [u32; 2],
        scale: u32,
        backface_culling: bool,
        pages: Seq<PageId>,
    ) -> bool {
        &&& spine.animations == decoded.skeleton_data.animations
        &&& spine.skins == decoded.skeleton_data.skins
        &&& spine.premultiplied_alpha == any_premultiplied(decoded.atlas.pages@)
        &&& spine.cull_face == cull_face_of(backface_culling)
        &&& spine.position == position
        &&& spine.scale == scale
        &&& skin_name(spine.skin) == name_view(skin)
        &&& spine.pages@ == pages
        &&& command_views(spine.commands@) == initial_commands(animation, skin)
    }

    /// Whether `result` and the loader `after` are what `new` gives for the
    /// given parts, with the loader `before` and the cache `cache`.
    pub open spec fn is_created(
        result: Result<Spine, SpineError>,
        before: LoaderView,
        after: LoaderView,
        cache: Map<Seq<char>, TextureHandle>,
        decoded: DecodedRig,
        animation: Option<AnimationOptions>,
        skin: Option<String>,
        position: [u32; 2],
        scale: u32,
        backface_culling: bool,
    ) -> bool {
        match missing_name(decoded.skeleton_data, animation, skin) {
            Some((what, name)) => {
                &&& result matches Err(error)
                &&& is_not_found(error, what, name)
                &&& after == before
            },
            None => {
                &&& result matches Ok(spine)
                &&& Spine::is_new(
                    spine,
                    decoded,
                    animation,
                    skin,
                    position,
                    scale,
                    backface_culling,
                    page_ids(before.pages.len(), decoded.atlas.pages@.len()),
                )
                &&& after == registered(before, cache, decoded.atlas.pages@)
            },
        }
    }

    /// Makes a rig of what was decoded for it.
    ///
    /// Fails, and leaves the runtime as it is, if the skeleton does not
    /// define the starting animation or the skin. Otherwise the pages of the
    /// atlas are created with the texture loader, and the commands that start
    /// the animation and set the skin wait for the animation runtime.
    fn new(info: SpineCreationOptions, runtime: &mut RenderRuntime) -> (result: Result<
        Self,
        SpineError,
    >)
        ensures
            Spine::is_created(
                result,
                old(runtime).loader@,
                final(runtime).loader@,
                old(runtime).cache@,
                DecodedRig { atlas: info.atlas, skeleton_data: info.skeleton_data },
                info.animation,
                info.skin,
                info.position,
                info.scale,
                info.backface_culling,
            ),
            final(runtime).cache == old(runtime).cache,
            final(runtime).queue == old(runtime).queue,
            final(runtime).created == old(runtime).created,
    {
        let SpineCreationOptions {
            position,
            scale,
            skin,
            backface_culling,
            animation,
            skeleton_data,
            atlas,
        } = info;
        let premultiplied_alpha = has_premultiplied_page(&atlas.pages);
        let mut commands: Vec<EngineCommand> = Vec::new();
        if let Some(options) = &animation {
            if !contains_name(&skeleton_data.animations, options.animation_name.as_str()) {
                return Err(
                    SpineError::NotFound {
                        what: "Animation".to_owned(),
                        name: options.animation_name.clone(),
                    },
                );
            }
            commands.push(
                EngineCommand::SetAnimation {
                    track_index: 0,
                    animation_name: options.animation_name.clone(),
                    looping: options.looping,
                },
            );
        }
        if let Some(name) = &skin {
            if !contains_name(&skeleton_data.skins, name.as_str()) {
                return Err(SpineError::NotFound { what: "Skin".to_owned(), name: name.clone() });
            }
            commands.push(EngineCommand::SetSkin { skin_name: name.clone() });
        }
        assert(command_views(commands@) =~= initial_commands(animation, skin));
        let pages = register_pages(runtime, &atlas.pages);
        let skin = match skin {
            Some(name) => Some(Skin { name }),
            None => None,
        };
        Ok(
            Spine {
                animations: skeleton_data.animations,
                skins: skeleton_data.skins,
                premultiplied_alpha,
                cull_face: match backface_culling {
                    false => CullFace::Nothing,
                    true => CullFace::Back,
                },
                position,
                scale,
                skin,
                pages,
                commands,
            },
        )
    }

    /// Makes a rig of bytes in memory and of what the animation runtime has
    /// decoded of them.
    ///
    /// A preloaded texture enters the cache first, under the path of the
    /// atlas's texture, whatever comes after. Then the rig is made as far as
    /// the decoding went: a decoding error is handed on, and so is the error
    /// for a starting animation or a skin that the skeleton lacks; in both
    /// cases the texture loader stays as it is.
    pub fn load_from_bytes(
        info: LoadSpineFromBytes,
        runtime: &mut RenderRuntime,
        decoded: Result<DecodedRig, SpineError>,
    ) -> (result: Result<Self, SpineError>)
        ensures
            final(runtime).cache@ == match info.preloaded_texture {
                Some(texture) => old(runtime).cache@.insert(
                    preloaded_path(info.atlas@, info.dir_path@),
                    texture,
                ),
                None => old(runtime).cache@,
            },
            match decoded {
                Ok(rig) => Spine::is_created(
                    result,
                    old(runtime).loader@,
                    final(runtime).loader@,
                    final(runtime).cache@,
                    rig,
                    info.animation,
                    info.skin,
                    info.position,
                    info.scale,
                    info.backface_culling,
                ),
                Err(error) => result == Err::<Spine, SpineError>(error) && final(runtime).loader@
                    == old(runtime).loader@,
            },
            final(runtime).queue == old(runtime).queue,
            final(runtime).created == old(runtime).created,
    {
        if let Some(preloaded_texture) = info.preloaded_texture {
            let full_path = preloaded_texture_path(&info.atlas, info.dir_path.as_str());
            add_to_cache(runtime, full_path, preloaded_texture);
        }
        match decoded {
            Ok(rig) => Spine::new(
                SpineCreationOptions {
                    position: info.position,
                    scale: info.scale,
                    skin: info.skin,
                    backface_culling: info.backface_culling,
                    animation: info.animation,
                    skeleton_data: rig.skeleton_data,
                    atlas: rig.atlas,
                },
                runtime,
            ),
            Err(error) => Err(error),
        }
    }

    /// Makes a rig of files and of what the animation runtime has decoded
    /// of them.
    ///
    /// A decoding error is handed on, and so is the error for a starting
    /// animation or a skin that the skeleton lacks; in both cases the runtime
    /// stays as it is.
    pub fn load(
        info: LoadSpineFromFile,
        runtime: &mut RenderRuntime,
        decoded: Result<DecodedRig, SpineError>,
    ) -> (result: Result<Self, SpineError>)
        ensures
            match decoded {
                Ok(rig) => Spine::is_created(
                    result,
                    old(runtime).loader@,
                    final(runtime).loader@,
                    old(runtime).cache@,
                    rig,
                    info.animation,
                    info.skin,
                    info.position,
                    info.scale,
                    info.backface_culling,
                ),
                Err(error) => result == Err::<Spine, SpineError>(error) && final(runtime).loader@
                    == old(runtime).loader@,
            },
            final(runtime).cache == old(runtime).cache,
            final(runtime).queue == old(runtime).queue,
            final(runtime).created == old(runtime).created,
    {
        match decoded {
            Ok(rig) => Spine::new(
                SpineCreationOptions {
                    position: info.position,
                    scale: info.scale,
                    skin: info.skin,
                    backface_culling: info.backface_culling,
                    animation: info.animation,
                    skeleton_data: rig.skeleton_data,
                    atlas: rig.atlas,
                },
                runtime,
            ),
            Err(error) => Err(error),
        }
    }
}

} // verus!
