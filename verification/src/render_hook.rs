//! The state that the UI render hook carries from frame to frame, and the
//! decisions of a frame that depend on it.

use crate::assets::{spec_load_needed, load_needed, AssetRef, HandleId, LoadState, RetentionSet};
use crate::batch::{all_supported, first_unsupported, Batch};
use crate::draw::{clip_ops, draw_calls, plan_draws, DrawCall};
use crate::textures::{TextTextures, TextureInfo};
use std::collections::HashMap;
use vstd::prelude::*;

verus! {

/// The pixel size of an image, under the path by which the UI names it.
#[derive(Clone, Debug)]
pub struct ImageSize {
    pub path: String,
    pub width: u32,
    pub height: u32,
}

/// An image size with its path as a sequence of characters.
pub struct ImageSizeView {
    pub path: Seq<char>,
    pub width: u32,
    pub height: u32,
}

impl View for ImageSize {
    type V = ImageSizeView;

    open spec fn view(&self) -> ImageSizeView {
        ImageSizeView { path: self.path@, width: self.width, height: self.height }
    }
}

/// The sizes of those of the first `n` textures whose handle has a path on
/// record, in the order of the textures.
pub open spec fn image_sizes_upto(paths: Map<HandleId, Seq<char>>, textures: Seq<TextureInfo>, n: int) -> Seq<
    ImageSizeView,
>
    decreases n,
{
    if n <= 0 {
        Seq::empty()
    } else {
        let before = image_sizes_upto(paths, textures, n - 1);
        let texture = textures[n - 1];
        if paths.contains_key(texture.handle) {
            before.push(
                ImageSizeView { path: paths[texture.handle], width: texture.width, height: texture.height },
            )
        } else {
            before
        }
    }
}

/// Every texture whose handle has a path on record has its size named.
pub proof fn lemma_image_sizes_cover(paths: Map<HandleId, Seq<char>>, textures: Seq<TextureInfo>, n: int, i: int)
    requires
        0 <= i < n <= textures.len(),
        paths.contains_key(textures[i].handle),
    ensures
        image_sizes_upto(paths, textures, n).contains(
            ImageSizeView {
                path: paths[textures[i].handle],
                width: textures[i].width,
                height: textures[i].height,
            },
        ),
    decreases n,
{
    let size = ImageSizeView {
        path: paths[textures[i].handle],
        width: textures[i].width,
        height: textures[i].height,
    };
    let before = image_sizes_upto(paths, textures, n - 1);
    let now = image_sizes_upto(paths, textures, n);
    if i == n - 1 {
        assert(now[before.len() as int] == size);
    } else {
        lemma_image_sizes_cover(paths, textures, n - 1, i);
        let p = choose|p: int| 0 <= p < before.len() && before[p] == size;
        assert(now[p] == size);
    }
}

/// What a frame's batch list is drawn as.
pub struct DrawPlan {
    /// The draw calls, in the order in which they are issued.
    pub calls: Vec<DrawCall>,
    /// Whether to warn, now and never again, that clip regions are only
    /// approximate under rotation.
    pub warn_clipping: bool,
}

/// Why a batch list cannot be drawn.
#[derive(Clone, Copy, Debug, PartialEq, Eq, Structural)]
pub enum RenderError {
    /// The batch at this position holds tesselated font glyphs.
    FontTriangles(usize),
}

impl RenderError {
    /// What went wrong, in words.
    pub fn message(&self) -> (message: &'static str)
        ensures
            message@ == "Tesselated font rendering not implemented"@,
    {
        match self {
            RenderError::FontTriangles(_) => "Tesselated font rendering not implemented",
        }
    }
}

/// The render hook of the UI: the handles it retains, the paths it knows them
/// by, and whether it has warned about clipping.
#[verifier::reject_recursive_types(H)]
pub struct UiRenderHook<H> {
    image_cache: RetentionSet<H>,
    handle_to_path: HashMap<HandleId, String>,
    font_cache: RetentionSet<H>,
    has_shown_clipping_warning: bool,
}

impl<H> UiRenderHook<H> {
    /// The image handles retained, by identifier.
    pub closed spec fn images(&self) -> Map<HandleId, H> {
        self.image_cache@
    }

    /// The font handles retained, by identifier.
    pub closed spec fn fonts(&self) -> Map<HandleId, H> {
        self.font_cache@
    }

    /// The path under which each image handle was first referenced.
    pub closed spec fn paths(&self) -> Map<HandleId, Seq<char>> {
        Map::new(
            |id: HandleId| self.handle_to_path@.contains_key(id),
            |id: HandleId| self.handle_to_path@[id]@,
        )
    }

    /// Whether the clipping warning has been given.
    pub closed spec fn warned(&self) -> bool {
        self.has_shown_clipping_warning
    }

    /// Everything that `earlier` retained or had on record is still there,
    /// unchanged, and a warning once given stays given.
    pub open spec fn keeps(&self, earlier: &UiRenderHook<H>) -> bool {
        &&& forall|id: HandleId| #[trigger]
            earlier.images().contains_key(id) ==> self.images().contains_key(id) && self.images()[id]
                == earlier.images()[id]
        &&& forall|id: HandleId| #[trigger]
            earlier.fonts().contains_key(id) ==> self.fonts().contains_key(id) && self.fonts()[id]
                == earlier.fonts()[id]
        &&& forall|id: HandleId| #[trigger]
            earlier.paths().contains_key(id) ==> self.paths().contains_key(id) && self.paths()[id]
                == earlier.paths()[id]
        &&& earlier.warned() ==> self.warned()
    }

    /// A hook that retains nothing and has not warned.
    pub fn new() -> (hook: UiRenderHook<H>)
        ensures
            hook.images() == Map::<HandleId, H>::empty(),
            hook.fonts() == Map::<HandleId, H>::empty(),
            hook.paths() == Map::<HandleId, Seq<char>>::empty(),
            !hook.warned(),
    {
        let hook = UiRenderHook {
            image_cache: RetentionSet::new(),
            handle_to_path: HashMap::new(),
            font_cache: RetentionSet::new(),
            has_shown_clipping_warning: false,
        };
        assert(hook.paths() =~= Map::<HandleId, Seq<char>>::empty());
        hook
    }

    /// Takes note of an image that a batch references. `handle` is the
    /// owning handle that the host gave for `image`, `state` the load state it
    /// reports. The path is put on record under the handle unless one is
    /// there, and the handle is retained unless one is. The result says
    /// whether the host is to be asked to load the image.
    pub fn resolve_image(&mut self, image: &AssetRef, handle: H, state: LoadState) -> (request_load: bool)
        ensures
            request_load == spec_load_needed(state),
            final(self).paths() == if old(self).paths().contains_key(image.handle) {
                old(self).paths()
            } else {
                old(self).paths().insert(image.handle, image.path@)
            },
            final(self).images() == if old(self).images().contains_key(image.handle) {
                old(self).images()
            } else {
                old(self).images().insert(image.handle, handle)
            },
            final(self).fonts() == old(self).fonts(),
            final(self).warned() == old(self).warned(),
            final(self).keeps(old(self)),
    {
        broadcast use vstd::std_specs::hash::group_hash_axioms;

        if !self.handle_to_path.contains_key(&image.handle) {
            self.handle_to_path.insert(image.handle, image.path.clone());
            assert(self.paths() =~= old(self).paths().insert(image.handle, image.path@));
        } else {
            assert(self.paths() =~= old(self).paths());
        }
        let request_load = load_needed(state);
        self.image_cache.insert(image.handle, handle);
        request_load
    }

    /// Takes note of a font that a text batch references: the handle is
    /// retained unless one is. The result says whether the host is to be asked
    /// to load the font.
    pub fn resolve_font(&mut self, font: &AssetRef, handle: H, state: LoadState) -> (request_load: bool)
        ensures
            request_load == spec_load_needed(state),
            final(self).fonts() == if old(self).fonts().contains_key(font.handle) {
                old(self).fonts()
            } else {
                old(self).fonts().insert(font.handle, handle)
            },
            final(self).images() == old(self).images(),
            final(self).paths() == old(self).paths(),
            final(self).warned() == old(self).warned(),
            final(self).keeps(old(self)),
    {
        let request_load = load_needed(state);
        self.font_cache.insert(font.handle, handle);
        request_load
    }

    /// Whether an image handle is retained under `id`.
    pub fn retains_image(&self, id: HandleId) -> (held: bool)
        ensures
            held == self.images().contains_key(id),
    {
        self.image_cache.contains(id)
    }

    /// Whether a font handle is retained under `id`.
    pub fn retains_font(&self, id: HandleId) -> (held: bool)
        ensures
            held == self.fonts().contains_key(id),
    {
        self.font_cache.contains(id)
    }

    /// The path on record for the image handle `id`.
    pub fn path_of(&self, id: HandleId) -> (path: Option<&String>)
        ensures
            match path {
                Some(p) => self.paths().contains_key(id) && p@ == self.paths()[id],
                None => !self.paths().contains_key(id),
            },
    {
        broadcast use vstd::std_specs::hash::group_hash_axioms;

        self.handle_to_path.get(&id)
    }

    /// Whether the clipping warning has been given.
    pub fn has_shown_clipping_warning(&self) -> (shown: bool)
        ensures
            shown == self.warned(),
    {
        self.has_shown_clipping_warning
    }

    /// Names the sizes of the images that the layout may ask for: for each
    /// texture whose handle has a path on record, that path with the
    /// texture's size. Textures of handles that the UI never referenced are
    /// left out.
    pub fn image_sizes(&self, textures: &Vec<TextureInfo>) -> (sizes: Vec<ImageSize>)
        ensures
            sizes@.map_values(|s: ImageSize| s@) == image_sizes_upto(
                self.paths(),
                textures@,
                textures.len() as int,
            ),
    {
        broadcast use vstd::std_specs::hash::group_hash_axioms;

        let mut sizes: Vec<ImageSize> = Vec::new();
        let mut i: usize = 0;
        assert(sizes@.map_values(|s: ImageSize| s@) =~= Seq::<ImageSizeView>::empty());
        while i < textures.len()
            invariant
                i <= textures.len(),
                sizes@.map_values(|s: ImageSize| s@) == image_sizes_upto(self.paths(), textures@, i as int),
            decreases textures.len() - i,
        {
            let texture = textures[i];
            let ghost before = sizes@;
            match self.handle_to_path.get(&texture.handle) {
                Some(path) => {
                    let size = ImageSize { path: path.clone(), width: texture.width, height: texture.height };
                    sizes.push(size);
                    assert(sizes@.map_values(|s: ImageSize| s@) =~= before.map_values(|s: ImageSize| s@).push(
                        size@,
                    ));
                },
                None => {},
            }
            i += 1;
        }
        sizes
    }

    /// Plans the drawing of a frame's batch list against the textures at
    /// hand. The first time a batch list holds a clip operation the plan asks
    /// for the clipping warning; the hook remembers that it did.
    pub fn render<T>(
        &mut self,
        batches: &Vec<Batch>,
        textures: &Vec<TextureInfo>,
        texts: &TextTextures<T>,
    ) -> (plan: DrawPlan)
        requires
            all_supported(batches@),
        ensures
            plan.calls@ == draw_calls(batches@, textures@, texts@),
            forall|p: int| 0 <= p < plan.calls.len() ==> (#[trigger] plan.calls[p]).batch < batches.len(),
            plan.warn_clipping == (!old(self).warned() && clip_ops(batches@).len() > 0),
            final(self).warned() == (old(self).warned() || clip_ops(batches@).len() > 0),
            final(self).images() == old(self).images(),
            final(self).fonts() == old(self).fonts(),
            final(self).paths() == old(self).paths(),
            final(self).keeps(old(self)),
    {
        let calls = plan_draws(batches, textures, texts);
        let clips = has_clip_ops(batches);
        let warn_clipping = clips && !self.has_shown_clipping_warning;
        if clips {
            self.has_shown_clipping_warning = true;
        }
        DrawPlan { calls, warn_clipping }
    }

    /// Plans the drawing of a frame's batch list as `render` does, after
    /// making sure that every batch can be drawn. Where one cannot, nothing is
    /// planned, the hook stays as it is, and the error names the first such
    /// batch.
    pub fn try_render<T>(
        &mut self,
        batches: &Vec<Batch>,
        textures: &Vec<TextureInfo>,
        texts: &TextTextures<T>,
    ) -> (result: Result<DrawPlan, RenderError>)
        ensures
            result is Ok <==> all_supported(batches@),
            match result {
                Ok(plan) => {
                    &&& plan.calls@ == draw_calls(batches@, textures@, texts@)
                    &&& forall|p: int|
                        0 <= p < plan.calls.len() ==> (#[trigger] plan.calls[p]).batch < batches.len()
                    &&& plan.warn_clipping == (!old(self).warned() && clip_ops(batches@).len() > 0)
                    &&& final(self).warned() == (old(self).warned() || clip_ops(batches@).len() > 0)
                },
                Err(RenderError::FontTriangles(i)) => {
                    &&& i < batches.len()
                    &&& batches[i as int] is FontTriangles
                    &&& all_supported(batches@.take(i as int))
                    &&& final(self).warned() == old(self).warned()
                },
            },
            final(self).images() == old(self).images(),
            final(self).fonts() == old(self).fonts(),
            final(self).paths() == old(self).paths(),
            final(self).keeps(old(self)),
    {
        match first_unsupported(batches) {
            Some(i) => Err(RenderError::FontTriangles(i)),
            None => Ok(self.render(batches, textures, texts)),
        }
    }
}

/// Whether a batch list pushes or pops a clip region anywhere.
pub fn has_clip_ops(batches: &Vec<Batch>) -> (found: bool)
    ensures
        found == (clip_ops(batches@).len() > 0),
{
    let mut i: usize = 0;
    proof {
        assert(batches@.take(0) =~= Seq::<Batch>::empty());
    }
    while i < batches.len()
        invariant
            i <= batches.len(),
            clip_ops(batches@.take(i as int)).len() == 0,
        decreases batches.len() - i,
    {
        proof {
            assert(batches@.take(i + 1).drop_last() =~= batches@.take(i as int));
            assert(batches@.take(i + 1).last() == batches@[i as int]);
        }
        if batches[i].clip_op().is_some() {
            proof {
                lemma_clip_ops_grow(batches@, i + 1);
            }
            return true;
        }
        i += 1;
    }
    proof {
        assert(batches@.take(i as int) =~= batches@);
    }
    false
}

/// A longer stretch of a batch list holds at least the clip operations of a
/// shorter one.
proof fn lemma_clip_ops_grow(batches: Seq<Batch>, n: int)
    requires
        0 <= n <= batches.len(),
    ensures
        clip_ops(batches.take(n)).len() <= clip_ops(batches).len(),
    decreases batches.len() - n,
{
    if n == batches.len() {
        assert(batches.take(n) =~= batches);
    } else {
        lemma_clip_ops_grow(batches, n + 1);
        assert(batches.take(n + 1).drop_last() =~= batches.take(n));
    }
}

/// What a hook keeps, it keeps through any number of further steps.
pub proof fn lemma_keeps_is_transitive<H>(first: &UiRenderHook<H>, second: &UiRenderHook<H>, third: &UiRenderHook<H>)
    requires
        second.keeps(first),
        third.keeps(second),
    ensures
        third.keeps(first),
{
}

} // verus!
