//! From text batches to rasterization requests. A text batch is rasterized
//! only while the data of its font is at hand; otherwise it is passed over for
//! this frame.

use crate::assets::HandleId;
use crate::batch::{Batch, HorizontalAlign, TextBatch, VerticalAlign};
use crate::pipeline::Sampler;
use vstd::prelude::*;

verus! {

/// The box that a text is laid out in, as the rasterizer takes it.
#[derive(Clone, Copy, Debug, PartialEq, Eq, Structural)]
pub struct TextBlock {
    pub width: u32,
    pub height: Option<u32>,
    pub horizontal_align: HorizontalAlign,
    pub vertical_align: VerticalAlign,
}

/// A text batch to rasterize, by its position in the batch list, with the
/// block to lay it out in and the sampling of the texture that the bitmap is
/// uploaded to.
#[derive(Clone, Copy, Debug, PartialEq, Eq, Structural)]
pub struct TextRequest {
    pub batch: usize,
    pub block: TextBlock,
    pub sampler: Sampler,
}

impl TextBatch {
    /// The batch's box and alignment, taken over as they are. The height is
    /// always given.
    pub open spec fn spec_block(&self) -> TextBlock {
        TextBlock {
            width: self.box_width,
            height: Some(self.box_height),
            horizontal_align: self.horizontal_align,
            vertical_align: self.vertical_align,
        }
    }

    #[verifier::when_used_as_spec(spec_block)]
    pub fn block(&self) -> (block: TextBlock)
        ensures
            block == self.spec_block(),
    {
        TextBlock {
            width: self.box_width,
            height: Some(self.box_height),
            horizontal_align: self.horizontal_align,
            vertical_align: self.vertical_align,
        }
    }
}

/// The request for batch `i`, if it is a text batch whose font is among the
/// loaded ones. Text textures are always sampled pixel-perfectly.
pub open spec fn request_for(batches: Seq<Batch>, i: int, loaded_fonts: Seq<HandleId>) -> Option<
    TextRequest,
> {
    match batches[i] {
        Batch::ExternalText(_, text) => if loaded_fonts.contains(text.font.handle) {
            Some(TextRequest { batch: i as usize, block: text.spec_block(), sampler: Sampler::spec_pixelated() })
        } else {
            None
        },
        _ => None,
    }
}

/// The requests for the first `n` batches, in batch order.
pub open spec fn requests_upto(batches: Seq<Batch>, n: int, loaded_fonts: Seq<HandleId>) -> Seq<
    TextRequest,
>
    decreases n,
{
    if n <= 0 {
        Seq::empty()
    } else {
        let before = requests_upto(batches, n - 1, loaded_fonts);
        match request_for(batches, n - 1, loaded_fonts) {
            Some(request) => before.push(request),
            None => before,
        }
    }
}

/// Requests come in batch order, each for a text batch of the list whose font
/// is loaded.
pub proof fn lemma_requests_in_batch_order(batches: Seq<Batch>, n: int, loaded_fonts: Seq<HandleId>)
    requires
        0 <= n <= batches.len() <= usize::MAX,
    ensures
        forall|p: int|
            0 <= p < requests_upto(batches, n, loaded_fonts).len() ==> {
                let request = #[trigger] requests_upto(batches, n, loaded_fonts)[p];
                &&& request.batch < n
                &&& request_for(batches, request.batch as int, loaded_fonts) == Some(request)
            },
        forall|p: int, q: int|
            #![trigger requests_upto(batches, n, loaded_fonts)[p], requests_upto(batches, n, loaded_fonts)[q]]
            0 <= p < q < requests_upto(batches, n, loaded_fonts).len() ==> requests_upto(
                batches,
                n,
                loaded_fonts,
            )[p].batch < requests_upto(batches, n, loaded_fonts)[q].batch,
    decreases n,
{
    if n > 0 {
        lemma_requests_in_batch_order(batches, n - 1, loaded_fonts);
        let before = requests_upto(batches, n - 1, loaded_fonts);
        let now = requests_upto(batches, n, loaded_fonts);
        assert forall|p: int| 0 <= p < now.len() implies {
            let request = #[trigger] now[p];
            &&& request.batch < n
            &&& request_for(batches, request.batch as int, loaded_fonts) == Some(request)
        } by {
            if p < before.len() {
                assert(now[p] == before[p]);
            }
        }
        assert forall|p: int, q: int| #![trigger now[p], now[q]] 0 <= p < q < now.len() implies now[p].batch
            < now[q].batch by {
            assert(now[p] == before[p]);
            if q < before.len() {
                assert(now[q] == before[q]);
            }
        }
    }
}

fn font_loaded(loaded_fonts: &Vec<HandleId>, font: HandleId) -> (loaded: bool)
    ensures
        loaded == loaded_fonts@.contains(font),
{
    let mut i: usize = 0;
    while i < loaded_fonts.len()
        invariant
            i <= loaded_fonts.len(),
            forall|k: int| 0 <= k < i ==> loaded_fonts@[k] != font,
        decreases loaded_fonts.len() - i,
    {
        if loaded_fonts[i] == font {
            return true;
        }
        i += 1;
    }
    false
}

/// Lists the text batches to rasterize this frame: every text batch whose font
/// is loaded, in batch order. The others are left out without complaint.
pub fn text_requests(batches: &Vec<Batch>, loaded_fonts: &Vec<HandleId>) -> (requests: Vec<TextRequest>)
    ensures
        requests@ == requests_upto(batches@, batches.len() as int, loaded_fonts@),
        forall|p: int|
            0 <= p < requests.len() ==> (#[trigger] requests[p]).batch < batches.len() && batches[requests[p].batch as int] is ExternalText,
{
    proof {
        lemma_requests_in_batch_order(batches@, batches.len() as int, loaded_fonts@);
    }
    let mut requests: Vec<TextRequest> = Vec::new();
    let mut i: usize = 0;
    while i < batches.len()
        invariant
            i <= batches.len(),
            requests@ == requests_upto(batches@, i as int, loaded_fonts@),
        decreases batches.len() - i,
    {
        match &batches[i] {
            Batch::ExternalText(_, text) => {
                if font_loaded(loaded_fonts, text.font.handle) {
                    requests.push(TextRequest { batch: i, block: text.block(), sampler: Sampler::pixelated() });
                }
            },
            _ => {},
        }
        i += 1;
    }
    requests
}

} // verus!
