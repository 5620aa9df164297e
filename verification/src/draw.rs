//! The draw plan: one draw call per renderable batch, in batch order, each
//! under the scissor that the clip operations before it leave active.

use crate::assets::HandleId;
use crate::batch::{all_supported, Batch, IndexRange};
use crate::clip::{
    apply_clip_op, apply_clip_ops, lemma_apply_clip_ops_push, lemma_balanced_ops_restore, net_depth,
    pops_are_matched, top_region, ClipOp, ClipStack, ScissorRegion,
};
use crate::pipeline::RenderState;
use crate::textures::{
    has_texture, lemma_text_slot, text_slot, texture_available, TextTexture, TextTextures, TextureInfo,
};
use vstd::prelude::*;

verus! {

/// How the shared shader program shades a draw call.
#[derive(Clone, Copy, Debug, PartialEq, Eq, Structural)]
pub enum ShadingMode {
    ColoredTriangles,
    ImageTriangles,
    Text,
}

impl ShadingMode {
    /// The value of the shader's widget type uniform that selects this mode.
    pub open spec fn spec_uniform_value(self) -> i32 {
        match self {
            ShadingMode::ColoredTriangles => 0i32,
            ShadingMode::ImageTriangles => 1i32,
            ShadingMode::Text => 2i32,
        }
    }

    #[verifier::when_used_as_spec(spec_uniform_value)]
    pub fn uniform_value(self) -> (value: i32)
        ensures
            value == self.spec_uniform_value(),
    {
        match self {
            ShadingMode::ColoredTriangles => 0,
            ShadingMode::ImageTriangles => 1,
            ShadingMode::Text => 2,
        }
    }
}

/// What a draw call draws.
#[derive(Clone, Copy, Debug, PartialEq, Eq, Structural)]
pub enum DrawKind {
    /// Triangles of the frame's mesh in their vertex colours.
    ColoredTriangles { range: IndexRange },
    /// Triangles of the frame's mesh with the texture of an image.
    ImageTriangles { image: HandleId, range: IndexRange },
    /// The unit quad, placed by the text block's transform, with the texture
    /// in the given slot of the frame's text textures. The size is that of the
    /// texture.
    TextQuad { texture: usize, width: u32, height: u32 },
}

impl DrawKind {
    /// The shading mode that the draw call selects.
    pub open spec fn spec_mode(self) -> ShadingMode {
        match self {
            DrawKind::ColoredTriangles { .. } => ShadingMode::ColoredTriangles,
            DrawKind::ImageTriangles { .. } => ShadingMode::ImageTriangles,
            DrawKind::TextQuad { .. } => ShadingMode::Text,
        }
    }

    #[verifier::when_used_as_spec(spec_mode)]
    pub fn mode(self) -> (mode: ShadingMode)
        ensures
            mode == self.spec_mode(),
    {
        match self {
            DrawKind::ColoredTriangles { .. } => ShadingMode::ColoredTriangles,
            DrawKind::ImageTriangles { .. } => ShadingMode::ImageTriangles,
            DrawKind::TextQuad { .. } => ShadingMode::Text,
        }
    }
}

/// One draw call: the batch it draws, by position in the batch list, what is
/// drawn, and the pipeline state to draw it with, which holds the scissor in
/// force.
#[derive(Clone, Copy, Debug, PartialEq, Eq, Structural)]
pub struct DrawCall {
    pub batch: usize,
    pub kind: DrawKind,
    pub state: RenderState,
}

/// The clip operations of a batch list, in order.
pub open spec fn clip_ops(batches: Seq<Batch>) -> Seq<ClipOp>
    decreases batches.len(),
{
    if batches.len() == 0 {
        Seq::empty()
    } else {
        let before = clip_ops(batches.drop_last());
        match batches.last().spec_clip_op() {
            Some(op) => before.push(op),
            None => before,
        }
    }
}

/// The clip stack as the first `n` batches leave it, starting from no clip
/// region.
pub open spec fn clip_stack_before(batches: Seq<Batch>, n: int) -> Seq<ScissorRegion> {
    apply_clip_ops(Seq::empty(), clip_ops(batches.take(n)))
}

/// What batch `i` draws, given the textures at hand. An image batch is drawn
/// only when its image has a texture, a text batch only when its widget has
/// one; clip operations and empty batches draw nothing.
pub open spec fn draw_kind_for<T>(
    batch: Batch,
    textures: Seq<TextureInfo>,
    texts: Seq<TextTexture<T>>,
) -> Option<DrawKind> {
    match batch {
        Batch::ColoredTriangles(range) => Some(DrawKind::ColoredTriangles { range }),
        Batch::ImageTriangles(image, range) => if has_texture(textures, image.handle) {
            Some(DrawKind::ImageTriangles { image: image.handle, range })
        } else {
            None
        },
        Batch::ExternalText(widget, _) => match text_slot(texts, widget@) {
            Some(slot) => Some(
                DrawKind::TextQuad {
                    texture: slot as usize,
                    width: texts[slot].width,
                    height: texts[slot].height,
                },
            ),
            None => None,
        },
        _ => None,
    }
}

/// The draw call for batch `i` of the list, if the batch is drawn.
pub open spec fn draw_for<T>(
    batches: Seq<Batch>,
    i: int,
    textures: Seq<TextureInfo>,
    texts: Seq<TextTexture<T>>,
) -> Option<DrawCall> {
    match draw_kind_for(batches[i], textures, texts) {
        Some(kind) => Some(
            DrawCall {
                batch: i as usize,
                kind,
                state: RenderState::spec_ui().spec_set_scissor(top_region(clip_stack_before(batches, i))),
            },
        ),
        None => None,
    }
}

/// The draw calls of the first `n` batches.
pub open spec fn draws_upto<T>(
    batches: Seq<Batch>,
    n: int,
    textures: Seq<TextureInfo>,
    texts: Seq<TextTexture<T>>,
) -> Seq<DrawCall>
    decreases n,
{
    if n <= 0 {
        Seq::empty()
    } else {
        let before = draws_upto(batches, n - 1, textures, texts);
        match draw_for(batches, n - 1, textures, texts) {
            Some(call) => before.push(call),
            None => before,
        }
    }
}

/// The draw calls of a whole batch list.
pub open spec fn draw_calls<T>(
    batches: Seq<Batch>,
    textures: Seq<TextureInfo>,
    texts: Seq<TextTexture<T>>,
) -> Seq<DrawCall> {
    draws_upto(batches, batches.len() as int, textures, texts)
}

/// Taking one more batch into account adds its clip operation, if it has one.
pub proof fn lemma_clip_stack_step(batches: Seq<Batch>, i: int)
    requires
        0 <= i < batches.len(),
    ensures
        clip_stack_before(batches, i + 1) == match batches[i].spec_clip_op() {
            Some(op) => apply_clip_op(clip_stack_before(batches, i), op),
            None => clip_stack_before(batches, i),
        },
{
    let longer = batches.take(i + 1);
    assert(longer.drop_last() =~= batches.take(i));
    assert(longer.last() == batches[i]);
    match batches[i].spec_clip_op() {
        Some(op) => {
            lemma_apply_clip_ops_push(Seq::empty(), clip_ops(batches.take(i)), op);
        },
        None => {},
    }
}

/// The draw calls of the first `n` batches are those of the list cut off
/// after `n`: no batch changes what was drawn before it.
pub proof fn lemma_draws_ignore_later_batches<T>(
    batches: Seq<Batch>,
    n: int,
    textures: Seq<TextureInfo>,
    texts: Seq<TextTexture<T>>,
)
    requires
        0 <= n <= batches.len(),
    ensures
        draws_upto(batches, n, textures, texts) == draw_calls(batches.take(n), textures, texts),
{
    lemma_draws_of_prefix(batches, n, n, textures, texts);
}

proof fn lemma_draws_of_prefix<T>(
    batches: Seq<Batch>,
    n: int,
    m: int,
    textures: Seq<TextureInfo>,
    texts: Seq<TextTexture<T>>,
)
    requires
        0 <= m <= n <= batches.len(),
    ensures
        draws_upto(batches, m, textures, texts) == draws_upto(batches.take(n), m, textures, texts),
    decreases m,
{
    if m > 0 {
        lemma_draws_of_prefix(batches, n, m - 1, textures, texts);
        assert(batches.take(n)[m - 1] == batches[m - 1]);
        assert(batches.take(n).take(m - 1) =~= batches.take(m - 1));
    }
}

/// Draw calls come in batch order: each is the draw call of its batch, and
/// the batches of later calls come later in the list.
pub proof fn lemma_draw_calls_in_batch_order<T>(
    batches: Seq<Batch>,
    textures: Seq<TextureInfo>,
    texts: Seq<TextTexture<T>>,
)
    requires
        batches.len() <= usize::MAX,
    ensures
        forall|p: int|
            0 <= p < draw_calls(batches, textures, texts).len() ==> {
                let call = #[trigger] draw_calls(batches, textures, texts)[p];
                &&& call.batch < batches.len()
                &&& draw_for(batches, call.batch as int, textures, texts) == Some(call)
            },
        forall|p: int, q: int|
            #![trigger draw_calls(batches, textures, texts)[p], draw_calls(batches, textures, texts)[q]]
            0 <= p < q < draw_calls(batches, textures, texts).len() ==> draw_calls(
                batches,
                textures,
                texts,
            )[p].batch < draw_calls(batches, textures, texts)[q].batch,
{
    lemma_draws_upto_ordered(batches, batches.len() as int, textures, texts);
}

proof fn lemma_draws_upto_ordered<T>(
    batches: Seq<Batch>,
    n: int,
    textures: Seq<TextureInfo>,
    texts: Seq<TextTexture<T>>,
)
    requires
        0 <= n <= batches.len() <= usize::MAX,
    ensures
        forall|p: int|
            0 <= p < draws_upto(batches, n, textures, texts).len() ==> {
                let call = #[trigger] draws_upto(batches, n, textures, texts)[p];
                &&& call.batch < n
                &&& draw_for(batches, call.batch as int, textures, texts) == Some(call)
            },
        forall|p: int, q: int|
            #![trigger draws_upto(batches, n, textures, texts)[p], draws_upto(batches, n, textures, texts)[q]]
            0 <= p < q < draws_upto(batches, n, textures, texts).len() ==> draws_upto(
                batches,
                n,
                textures,
                texts,
            )[p].batch < draws_upto(batches, n, textures, texts)[q].batch,
    decreases n,
{
    if n > 0 {
        lemma_draws_upto_ordered(batches, n - 1, textures, texts);
        let before = draws_upto(batches, n - 1, textures, texts);
        let now = draws_upto(batches, n, textures, texts);
        assert forall|p: int| 0 <= p < now.len() implies {
            let call = #[trigger] now[p];
            &&& call.batch < n
            &&& draw_for(batches, call.batch as int, textures, texts) == Some(call)
        } by {
            if p < before.len() {
                assert(now[p] == before[p]);
            }
        }
        assert forall|p: int, q: int| #![trigger now[p], now[q]] 0 <= p < q < now.len() implies now[p].batch
            < now[q].batch by {
            assert(now[p] == before[p]);
            if q < before.len() {
                assert(now[q] == before[q]);
            }
        }
    }
}

/// No renderable batch is passed over: every batch that has a draw call has it
/// in the plan.
pub proof fn lemma_every_renderable_batch_is_drawn<T>(
    batches: Seq<Batch>,
    i: int,
    textures: Seq<TextureInfo>,
    texts: Seq<TextTexture<T>>,
)
    requires
        0 <= i < batches.len(),
        draw_for(batches, i, textures, texts).is_some(),
    ensures
        draw_calls(batches, textures, texts).contains(draw_for(batches, i, textures, texts).unwrap()),
{
    lemma_drawn_upto(batches, batches.len() as int, i, textures, texts);
}

proof fn lemma_drawn_upto<T>(
    batches: Seq<Batch>,
    n: int,
    i: int,
    textures: Seq<TextureInfo>,
    texts: Seq<TextTexture<T>>,
)
    requires
        0 <= i < n <= batches.len(),
        draw_for(batches, i, textures, texts).is_some(),
    ensures
        draws_upto(batches, n, textures, texts).contains(draw_for(batches, i, textures, texts).unwrap()),
    decreases n,
{
    let call = draw_for(batches, i, textures, texts).unwrap();
    let before = draws_upto(batches, n - 1, textures, texts);
    let now = draws_upto(batches, n, textures, texts);
    if i == n - 1 {
        assert(now == before.push(call));
        assert(now[before.len() as int] == call);
    } else {
        lemma_drawn_upto(batches, n - 1, i, textures, texts);
        let p = choose|p: int| 0 <= p < before.len() && before[p] == call;
        assert(now[p] == call);
    }
}

/// What the batches of a list draw, in order, leaving aside where in the list
/// they stand and what clips them.
pub open spec fn drawn_kinds<T>(
    batches: Seq<Batch>,
    textures: Seq<TextureInfo>,
    texts: Seq<TextTexture<T>>,
) -> Seq<DrawKind>
    decreases batches.len(),
{
    if batches.len() == 0 {
        Seq::empty()
    } else {
        let before = drawn_kinds(batches.drop_last(), textures, texts);
        match draw_kind_for(batches.last(), textures, texts) {
            Some(kind) => before.push(kind),
            None => before,
        }
    }
}

/// The plan draws what the batches draw one by one, in the order of the list.
pub proof fn lemma_draw_calls_kinds<T>(batches: Seq<Batch>, textures: Seq<TextureInfo>, texts: Seq<TextTexture<T>>)
    ensures
        draw_calls(batches, textures, texts).map_values(|call: DrawCall| call.kind) == drawn_kinds(
            batches,
            textures,
            texts,
        ),
    decreases batches.len(),
{
    let kind_of = |call: DrawCall| call.kind;
    if batches.len() == 0 {
        assert(draw_calls(batches, textures, texts).map_values(kind_of) =~= Seq::<DrawKind>::empty());
    } else {
        let n = batches.len() as int;
        let init = batches.drop_last();
        lemma_draw_calls_kinds(init, textures, texts);
        assert(init =~= batches.take(n - 1));
        lemma_draws_ignore_later_batches(batches, n - 1, textures, texts);
        let before = draws_upto(batches, n - 1, textures, texts);
        match draw_for(batches, n - 1, textures, texts) {
            Some(call) => {
                assert(before.push(call).map_values(kind_of) =~= before.map_values(kind_of).push(call.kind));
            },
            None => {},
        }
    }
}

/// What is drawn for two lists one after the other is what is drawn for the
/// first followed by what is drawn for the second. So moving a run of batches
/// within the list moves its draw calls in the same way.
pub proof fn lemma_drawn_kinds_concat<T>(
    first: Seq<Batch>,
    second: Seq<Batch>,
    textures: Seq<TextureInfo>,
    texts: Seq<TextTexture<T>>,
)
    ensures
        drawn_kinds(first + second, textures, texts) == drawn_kinds(first, textures, texts) + drawn_kinds(
            second,
            textures,
            texts,
        ),
    decreases second.len(),
{
    if second.len() == 0 {
        assert(first + second =~= first);
        assert(drawn_kinds(first, textures, texts) + Seq::<DrawKind>::empty() =~= drawn_kinds(
            first,
            textures,
            texts,
        ));
    } else {
        let whole = first + second;
        assert(whole.drop_last() =~= first + second.drop_last());
        assert(whole.last() == second.last());
        lemma_drawn_kinds_concat(first, second.drop_last(), textures, texts);
        let a = drawn_kinds(first, textures, texts);
        let b = drawn_kinds(second.drop_last(), textures, texts);
        match draw_kind_for(second.last(), textures, texts) {
            Some(kind) => {
                assert((a + b).push(kind) =~= a + b.push(kind));
            },
            None => {},
        }
    }
}

/// Walks the batch list and plans its draw calls. The batches are taken in
/// order and none is drawn twice; a batch whose texture is missing is left out
/// and the walk goes on.
pub fn plan_draws<T>(batches: &Vec<Batch>, textures: &Vec<TextureInfo>, texts: &TextTextures<T>) -> (calls:
    Vec<DrawCall>)
    requires
        all_supported(batches@),
    ensures
        calls@ == draw_calls(batches@, textures@, texts@),
        forall|p: int| 0 <= p < calls.len() ==> (#[trigger] calls[p]).batch < batches.len(),
{
    proof {
        assert(batches@.len() == batches.len());
        lemma_draw_calls_in_batch_order(batches@, textures@, texts@);
    }
    let mut calls: Vec<DrawCall> = Vec::new();
    let mut stack = ClipStack::new();
    let mut i: usize = 0;
    proof {
        assert(batches@.take(0) =~= Seq::<Batch>::empty());
    }
    while i < batches.len()
        invariant
            i <= batches.len(),
            stack@ == clip_stack_before(batches@, i as int),
            calls@ == draws_upto(batches@, i as int, textures@, texts@),
        decreases batches.len() - i,
    {
        let state = RenderState::ui().set_scissor(stack.active());
        proof {
            lemma_clip_stack_step(batches@, i as int);
        }
        match &batches[i] {
            Batch::ColoredTriangles(range) => {
                calls.push(DrawCall { batch: i, kind: DrawKind::ColoredTriangles { range: *range }, state });
            },
            Batch::ImageTriangles(image, range) => {
                if texture_available(textures, image.handle) {
                    calls.push(
                        DrawCall {
                            batch: i,
                            kind: DrawKind::ImageTriangles { image: image.handle, range: *range },
                            state,
                        },
                    );
                }
            },
            Batch::ExternalText(widget, _) => {
                proof {
                    lemma_text_slot(texts@, widget@);
                }
                match texts.find(widget) {
                    Some(slot) => match texts.get(slot) {
                        Some(texture) => {
                            calls.push(
                                DrawCall {
                                    batch: i,
                                    kind: DrawKind::TextQuad {
                                        texture: slot,
                                        width: texture.width,
                                        height: texture.height,
                                    },
                                    state,
                                },
                            );
                        },
                        None => {},
                    },
                    None => {},
                }
            },
            Batch::ClipPush(clip) => {
                stack.push(clip.scissor());
            },
            Batch::ClipPop => {
                stack.pop();
            },
            Batch::Empty => {},
            Batch::FontTriangles(_, _) => {},
        }
        i += 1;
    }
    calls
}

/// Walks the clip operations of a batch list and returns the clip stack that
/// they leave behind. Its top is the scissor in force after the last batch.
pub fn clip_stack_after(batches: &Vec<Batch>) -> (stack: ClipStack)
    ensures
        stack@ == clip_stack_before(batches@, batches.len() as int),
{
    let mut stack = ClipStack::new();
    let mut i: usize = 0;
    proof {
        assert(batches@.take(0) =~= Seq::<Batch>::empty());
    }
    while i < batches.len()
        invariant
            i <= batches.len(),
            stack@ == clip_stack_before(batches@, i as int),
        decreases batches.len() - i,
    {
        proof {
            lemma_clip_stack_step(batches@, i as int);
        }
        match batches[i].clip_op() {
            Some(op) => stack.apply(op),
            None => {},
        }
        i += 1;
    }
    stack
}

/// A batch list whose clip regions nest, each push with its pop, ends with no
/// scissor: the whole viewport is drawn to again.
pub proof fn lemma_nested_clips_end_unclipped(batches: Seq<Batch>)
    requires
        pops_are_matched(clip_ops(batches)),
        net_depth(clip_ops(batches)) == 0,
    ensures
        top_region(clip_stack_before(batches, batches.len() as int)).is_none(),
{
    assert(batches.take(batches.len() as int) =~= batches);
    lemma_balanced_ops_restore(Seq::empty(), clip_ops(batches));
}

} // verus!
