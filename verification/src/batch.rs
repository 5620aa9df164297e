//! The batch list of a tesselated widget tree, reduced to what the render
//! hook decides on. Floating-point payload (vertex data, colours, transforms)
//! stays with the caller, who finds it again by a batch's position in the
//! list.

use crate::assets::AssetRef;
use crate::clip::{ClipOp, ProjectedBox};
use vstd::prelude::*;

verus! {

/// A run of triangle indices.
#[derive(Clone, Copy, Debug, PartialEq, Eq, Structural)]
pub struct IndexRange {
    pub start: usize,
    pub end: usize,
}

/// Where a text stands in its box from left to right.
#[derive(Clone, Copy, Debug, PartialEq, Eq, Structural)]
pub enum HorizontalAlign {
    Left,
    Center,
    Right,
}

/// Where a text stands in its box from top to bottom.
#[derive(Clone, Copy, Debug, PartialEq, Eq, Structural)]
pub enum VerticalAlign {
    Top,
    Middle,
    Bottom,
}

/// A block of text that is rasterized outside the tesselation and drawn as one
/// textured quad. The box size is in whole pixels.
#[derive(Clone, Debug)]
pub struct TextBatch {
    pub text: String,
    pub font: AssetRef,
    pub box_width: u32,
    pub box_height: u32,
    pub horizontal_align: HorizontalAlign,
    pub vertical_align: VerticalAlign,
}

/// One drawable unit of a tesselation. The order of a batch list is the order
/// of drawing: later batches draw on top, and clip regions nest.
#[derive(Clone, Debug)]
pub enum Batch {
    /// A batch that draws nothing.
    Empty,
    ColoredTriangles(IndexRange),
    ImageTriangles(AssetRef, IndexRange),
    /// Glyphs tesselated from the named font. Drawing them is not supported.
    FontTriangles(String, IndexRange),
    /// Text of the widget with the given identity.
    ExternalText(String, TextBatch),
    ClipPush(ProjectedBox),
    ClipPop,
}

impl Batch {
    /// The image that the batch maps onto its triangles.
    pub open spec fn spec_image(&self) -> Option<AssetRef> {
        match self {
            Batch::ImageTriangles(image, _) => Some(*image),
            _ => None,
        }
    }

    /// The font that the batch's text is set in.
    pub open spec fn spec_font(&self) -> Option<AssetRef> {
        match self {
            Batch::ExternalText(_, text) => Some(text.font),
            _ => None,
        }
    }

    /// What the batch does to the clip stack, if anything.
    pub open spec fn spec_clip_op(&self) -> Option<ClipOp> {
        match self {
            Batch::ClipPush(clip) => Some(ClipOp::Push(clip.bounding_scissor())),
            Batch::ClipPop => Some(ClipOp::Pop),
            _ => None,
        }
    }

    /// Whether the batch is of a kind that can be drawn.
    pub open spec fn spec_is_supported(&self) -> bool {
        !(self is FontTriangles)
    }

    pub fn image(&self) -> (image: Option<&AssetRef>)
        ensures
            match image {
                Some(r) => self.spec_image() == Some(*r),
                None => self.spec_image().is_none(),
            },
    {
        match self {
            Batch::ImageTriangles(image, _) => Some(image),
            _ => None,
        }
    }

    pub fn font(&self) -> (font: Option<&AssetRef>)
        ensures
            match font {
                Some(r) => self.spec_font() == Some(*r),
                None => self.spec_font().is_none(),
            },
    {
        match self {
            Batch::ExternalText(_, text) => Some(&text.font),
            _ => None,
        }
    }

    #[verifier::when_used_as_spec(spec_clip_op)]
    pub fn clip_op(&self) -> (op: Option<ClipOp>)
        ensures
            op == self.spec_clip_op(),
    {
        match self {
            Batch::ClipPush(clip) => Some(ClipOp::Push(clip.scissor())),
            Batch::ClipPop => Some(ClipOp::Pop),
            _ => None,
        }
    }

    #[verifier::when_used_as_spec(spec_is_supported)]
    pub fn is_supported(&self) -> (supported: bool)
        ensures
            supported == self.spec_is_supported(),
    {
        match self {
            Batch::FontTriangles(_, _) => false,
            _ => true,
        }
    }
}

/// Every batch of the list can be drawn.
pub open spec fn all_supported(batches: Seq<Batch>) -> bool {
    forall|i: int| 0 <= i < batches.len() ==> (#[trigger] batches[i]).spec_is_supported()
}

/// Finds the first batch of a kind that cannot be drawn. A list in which one
/// is found must not be handed to the draw planner.
pub fn first_unsupported(batches: &Vec<Batch>) -> (found: Option<usize>)
    ensures
        match found {
            Some(i) => i < batches.len() && !batches[i as int].spec_is_supported() && all_supported(
                batches@.take(i as int),
            ),
            None => all_supported(batches@),
        },
{
    let mut i: usize = 0;
    while i < batches.len()
        invariant
            i <= batches.len(),
            all_supported(batches@.take(i as int)),
        decreases batches.len() - i,
    {
        if !batches[i].is_supported() {
            return Some(i);
        }
        assert forall|k: int| 0 <= k < i + 1 implies (#[trigger] batches@.take(i + 1)[k]).spec_is_supported() by {
            if k < i {
                assert(batches@.take(i as int)[k] == batches@[k]);
            }
        }
        i += 1;
    }
    assert(batches@.take(i as int) =~= batches@);
    None
}

} // verus!
