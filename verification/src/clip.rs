//! Nested scissor rectangles.
//!
//! A clip region is pushed as the four corners of a box after projection into
//! viewport space; the scissor is their axis-aligned bounding rectangle. The
//! stack is last-in first-out and its top is the scissor under which drawing
//! happens.

use vstd::prelude::*;

verus! {

/// A rectangular pixel area outside which rendering is discarded.
#[derive(Clone, Copy, Debug, PartialEq, Eq, Structural)]
pub struct ScissorRegion {
    pub x: u32,
    pub y: u32,
    pub width: u32,
    pub height: u32,
}

/// A position in viewport space, in whole pixels.
#[derive(Clone, Copy, Debug, PartialEq, Eq, Structural)]
pub struct PixelPoint {
    pub x: i64,
    pub y: i64,
}

/// The corners of a clip box after projection through its transform, each
/// rounded to the nearest pixel. Rounding is monotone, so rounding the corners
/// before taking their extremes gives the same rectangle as rounding the
/// extremes.
#[derive(Clone, Copy, Debug, PartialEq, Eq, Structural)]
pub struct ProjectedBox {
    pub top_left: PixelPoint,
    pub top_right: PixelPoint,
    pub bottom_right: PixelPoint,
    pub bottom_left: PixelPoint,
}

/// The smaller of two numbers.
pub open spec fn min2(a: int, b: int) -> int {
    if a <= b { a } else { b }
}

/// The larger of two numbers.
pub open spec fn max2(a: int, b: int) -> int {
    if a >= b { a } else { b }
}

/// The value of `v` as a pixel count: negative values become 0 and values past
/// the largest `u32` become that largest value.
pub open spec fn saturate_u32(v: int) -> u32 {
    if v < 0 {
        0u32
    } else if v > u32::MAX {
        u32::MAX
    } else {
        v as u32
    }
}

impl ProjectedBox {
    /// The smallest x of the four corners.
    pub open spec fn min_x(self) -> int {
        min2(min2(self.top_left.x as int, self.top_right.x as int),
             min2(self.bottom_right.x as int, self.bottom_left.x as int))
    }

    /// The largest x of the four corners.
    pub open spec fn max_x(self) -> int {
        max2(max2(self.top_left.x as int, self.top_right.x as int),
             max2(self.bottom_right.x as int, self.bottom_left.x as int))
    }

    /// The smallest y of the four corners.
    pub open spec fn min_y(self) -> int {
        min2(min2(self.top_left.y as int, self.top_right.y as int),
             min2(self.bottom_right.y as int, self.bottom_left.y as int))
    }

    /// The largest y of the four corners.
    pub open spec fn max_y(self) -> int {
        max2(max2(self.top_left.y as int, self.top_right.y as int),
             max2(self.bottom_right.y as int, self.bottom_left.y as int))
    }

    /// The axis-aligned bounding rectangle of the four corners. The origin is
    /// the smallest x and y, the extent the distance to the largest, each
    /// brought into the range of a pixel count.
    pub open spec fn bounding_scissor(self) -> ScissorRegion {
        ScissorRegion {
            x: saturate_u32(self.min_x()),
            y: saturate_u32(self.min_y()),
            width: saturate_u32(self.max_x() - self.min_x()),
            height: saturate_u32(self.max_y() - self.min_y()),
        }
    }

    /// The box of size `width` by `height` with its top left corner at the
    /// origin, which is what an identity transform projects it to.
    pub open spec fn spec_axis_aligned(width: i64, height: i64) -> ProjectedBox {
        ProjectedBox {
            top_left: PixelPoint { x: 0, y: 0 },
            top_right: PixelPoint { x: width, y: 0 },
            bottom_right: PixelPoint { x: width, y: height },
            bottom_left: PixelPoint { x: 0, y: height },
        }
    }

    #[verifier::when_used_as_spec(spec_axis_aligned)]
    pub fn axis_aligned(width: i64, height: i64) -> (b: ProjectedBox)
        ensures
            b == Self::spec_axis_aligned(width, height),
    {
        ProjectedBox {
            top_left: PixelPoint { x: 0, y: 0 },
            top_right: PixelPoint { x: width, y: 0 },
            bottom_right: PixelPoint { x: width, y: height },
            bottom_left: PixelPoint { x: 0, y: height },
        }
    }

    /// Computes the scissor rectangle that encloses the projected box.
    pub fn scissor(&self) -> (region: ScissorRegion)
        ensures
            region == self.bounding_scissor(),
    {
        let x1: i64 = smallest(self.top_left.x, self.top_right.x, self.bottom_right.x, self.bottom_left.x);
        let x2: i64 = largest(self.top_left.x, self.top_right.x, self.bottom_right.x, self.bottom_left.x);
        let y1: i64 = smallest(self.top_left.y, self.top_right.y, self.bottom_right.y, self.bottom_left.y);
        let y2: i64 = largest(self.top_left.y, self.top_right.y, self.bottom_right.y, self.bottom_left.y);
        ScissorRegion {
            x: saturating_pixels(x1 as i128),
            y: saturating_pixels(y1 as i128),
            width: saturating_pixels(x2 as i128 - x1 as i128),
            height: saturating_pixels(y2 as i128 - y1 as i128),
        }
    }
}

fn smallest(a: i64, b: i64, c: i64, d: i64) -> (m: i64)
    ensures
        m == min2(min2(a as int, b as int), min2(c as int, d as int)),
{
    let ab: i64 = if a <= b { a } else { b };
    let cd: i64 = if c <= d { c } else { d };
    if ab <= cd { ab } else { cd }
}

fn largest(a: i64, b: i64, c: i64, d: i64) -> (m: i64)
    ensures
        m == max2(max2(a as int, b as int), max2(c as int, d as int)),
{
    let ab: i64 = if a >= b { a } else { b };
    let cd: i64 = if c >= d { c } else { d };
    if ab >= cd { ab } else { cd }
}

fn saturating_pixels(v: i128) -> (p: u32)
    ensures
        p == saturate_u32(v as int),
{
    if v < 0 {
        0
    } else if v > 0xffff_ffff {
        u32::MAX
    } else {
        v as u32
    }
}

/// With an identity transform the box of size `width` by `height` projects to
/// itself, and its scissor starts at the origin and has that size.
pub proof fn lemma_identity_projection(width: i64, height: i64)
    requires
        0 <= width,
        0 <= height,
    ensures
        ProjectedBox::spec_axis_aligned(width, height).bounding_scissor() == (ScissorRegion {
            x: 0,
            y: 0,
            width: saturate_u32(width as int),
            height: saturate_u32(height as int),
        }),
{
}

/// One step of a clip sequence.
#[derive(Clone, Copy, Debug, PartialEq, Eq, Structural)]
pub enum ClipOp {
    Push(ScissorRegion),
    Pop,
}

/// The top of a stack of regions, or no scissor when the stack is empty.
pub open spec fn top_region(stack: Seq<ScissorRegion>) -> Option<ScissorRegion> {
    if stack.len() > 0 {
        Some(stack.last())
    } else {
        None
    }
}

/// The stack after one operation. A pop on an empty stack leaves it empty.
pub open spec fn apply_clip_op(stack: Seq<ScissorRegion>, op: ClipOp) -> Seq<ScissorRegion> {
    match op {
        ClipOp::Push(region) => stack.push(region),
        ClipOp::Pop => if stack.len() > 0 {
            stack.drop_last()
        } else {
            stack
        },
    }
}

/// The stack after a sequence of operations, applied first to last.
pub open spec fn apply_clip_ops(stack: Seq<ScissorRegion>, ops: Seq<ClipOp>) -> Seq<ScissorRegion>
    decreases ops.len(),
{
    if ops.len() == 0 {
        stack
    } else {
        apply_clip_op(apply_clip_ops(stack, ops.drop_last()), ops.last())
    }
}

/// Pushes minus pops.
pub open spec fn net_depth(ops: Seq<ClipOp>) -> int
    decreases ops.len(),
{
    if ops.len() == 0 {
        0
    } else {
        net_depth(ops.drop_last()) + match ops.last() {
            ClipOp::Push(_) => 1int,
            ClipOp::Pop => -1int,
        }
    }
}

/// No prefix of `ops` pops more than it has pushed.
pub open spec fn pops_are_matched(ops: Seq<ClipOp>) -> bool {
    forall|k: int| 0 <= k <= ops.len() ==> net_depth(#[trigger] ops.take(k)) >= 0
}

/// The stack of clip regions in force while a batch list is walked.
pub struct ClipStack {
    regions: Vec<ScissorRegion>,
}

impl View for ClipStack {
    type V = Seq<ScissorRegion>;

    closed spec fn view(&self) -> Seq<ScissorRegion> {
        self.regions@
    }
}

impl ClipStack {
    /// A stack with no clip region: the whole viewport is drawn to.
    pub fn new() -> (stack: ClipStack)
        ensures
            stack@ == Seq::<ScissorRegion>::empty(),
    {
        ClipStack { regions: Vec::new() }
    }

    /// Makes `region` the active scissor.
    pub fn push(&mut self, region: ScissorRegion)
        ensures
            final(self)@ == apply_clip_op(old(self)@, ClipOp::Push(region)),
            top_region(final(self)@) == Some(region),
    {
        self.regions.push(region);
    }

    /// Leaves the innermost clip region. The active scissor becomes the one
    /// below it; with nothing left, or nothing to leave, there is no scissor.
    pub fn pop(&mut self)
        ensures
            final(self)@ == apply_clip_op(old(self)@, ClipOp::Pop),
            old(self)@.len() <= 1 ==> top_region(final(self)@).is_none(),
    {
        self.regions.pop();
    }

    /// Applies one operation of a clip sequence.
    pub fn apply(&mut self, op: ClipOp)
        ensures
            final(self)@ == apply_clip_op(old(self)@, op),
    {
        match op {
            ClipOp::Push(region) => self.push(region),
            ClipOp::Pop => self.pop(),
        }
    }

    /// Applies a sequence of operations, first to last. Afterwards the active
    /// scissor is the top of the stack that the sequence leaves.
    pub fn apply_all(&mut self, ops: &Vec<ClipOp>)
        ensures
            final(self)@ == apply_clip_ops(old(self)@, ops@),
    {
        let mut i: usize = 0;
        assert(ops@.take(0) =~= Seq::<ClipOp>::empty());
        while i < ops.len()
            invariant
                i <= ops.len(),
                self@ == apply_clip_ops(old(self)@, ops@.take(i as int)),
            decreases ops.len() - i,
        {
            assert(ops@.take(i + 1).drop_last() =~= ops@.take(i as int));
            self.apply(ops[i]);
            i += 1;
        }
        assert(ops@.take(i as int) =~= ops@);
    }

    /// The scissor under which drawing happens now.
    pub fn active(&self) -> (region: Option<ScissorRegion>)
        ensures
            region == top_region(self@),
    {
        let n: usize = self.regions.len();
        if n > 0 {
            Some(self.regions[n - 1])
        } else {
            None
        }
    }

    /// How many clip regions are nested at this point.
    pub fn depth(&self) -> (n: usize)
        ensures
            n == self@.len(),
    {
        self.regions.len()
    }
}

/// A pop with nothing pushed is not an error: it leaves no scissor.
pub proof fn lemma_unmatched_pop_leaves_no_scissor()
    ensures
        top_region(apply_clip_op(Seq::empty(), ClipOp::Pop)).is_none(),
{
}

/// Applying a sequence and then one more operation is applying the longer
/// sequence.
pub proof fn lemma_apply_clip_ops_push(stack: Seq<ScissorRegion>, ops: Seq<ClipOp>, op: ClipOp)
    ensures
        apply_clip_ops(stack, ops.push(op)) == apply_clip_op(apply_clip_ops(stack, ops), op),
{
    assert(ops.push(op).drop_last() =~= ops);
}

/// Where no pop is unmatched, the stack that a sequence starts from stays
/// below whatever the sequence pushes, and the depth grows by pushes minus
/// pops.
pub proof fn lemma_matched_ops_keep_base(stack: Seq<ScissorRegion>, ops: Seq<ClipOp>)
    requires
        pops_are_matched(ops),
    ensures
        apply_clip_ops(stack, ops).len() == stack.len() + net_depth(ops),
        apply_clip_ops(stack, ops).take(stack.len() as int) == stack,
    decreases ops.len(),
{
    if ops.len() == 0 {
        assert(stack.take(stack.len() as int) =~= stack);
    } else {
        let init = ops.drop_last();
        assert forall|k: int| 0 <= k <= init.len() implies net_depth(#[trigger] init.take(k)) >= 0 by {
            assert(init.take(k) =~= ops.take(k));
        }
        lemma_matched_ops_keep_base(stack, init);
        assert(ops.take(ops.len() as int) =~= ops);
        assert(ops.take(init.len() as int) =~= init);
        let before = apply_clip_ops(stack, init);
        let after = apply_clip_ops(stack, ops);
        assert(after == apply_clip_op(before, ops.last()));
        assert(after.take(stack.len() as int) =~= before.take(stack.len() as int));
    }
}

/// A sequence in which every push is popped again and no pop is unmatched
/// leaves the stack as it found it. Started with no scissor, it ends with no
/// scissor.
pub proof fn lemma_balanced_ops_restore(stack: Seq<ScissorRegion>, ops: Seq<ClipOp>)
    requires
        pops_are_matched(ops),
        net_depth(ops) == 0,
    ensures
        apply_clip_ops(stack, ops) == stack,
        stack.len() == 0 ==> top_region(apply_clip_ops(stack, ops)).is_none(),
{
    lemma_matched_ops_keep_base(stack, ops);
    let after = apply_clip_ops(stack, ops);
    assert(after.take(stack.len() as int) =~= after);
}

} // verus!
