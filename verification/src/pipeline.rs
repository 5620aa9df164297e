//! How the UI is put on screen: the fixed state of the graphics pipeline for
//! every UI draw call, and the sampling of text textures.

use crate::clip::ScissorRegion;
use vstd::prelude::*;

verus! {

/// How source and destination are combined.
#[derive(Clone, Copy, Debug, PartialEq, Eq, Structural)]
pub enum Equation {
    Additive,
    Subtract,
    ReverseSubtract,
    Min,
    Max,
}

/// What a colour is weighted with before blending.
#[derive(Clone, Copy, Debug, PartialEq, Eq, Structural)]
pub enum Factor {
    One,
    Zero,
    SrcColor,
    SrcColorComplement,
    DestColor,
    DestColorComplement,
    SrcAlpha,
    SrcAlphaComplement,
    DstAlpha,
    DstAlphaComplement,
    SrcAlphaSaturate,
}

/// How a draw call is blended with what is there.
#[derive(Clone, Copy, Debug, PartialEq, Eq, Structural)]
pub struct Blending {
    pub equation: Equation,
    pub src: Factor,
    pub dst: Factor,
}

/// The winding of a front face.
#[derive(Clone, Copy, Debug, PartialEq, Eq, Structural)]
pub enum FaceCullingOrder {
    CW,
    CCW,
}

/// The faces that are not drawn.
#[derive(Clone, Copy, Debug, PartialEq, Eq, Structural)]
pub enum FaceCullingMode {
    Front,
    Back,
    Both,
}

/// Which faces are culled.
#[derive(Clone, Copy, Debug, PartialEq, Eq, Structural)]
pub struct FaceCulling {
    pub order: FaceCullingOrder,
    pub mode: FaceCullingMode,
}

/// When a fragment passes the depth test.
#[derive(Clone, Copy, Debug, PartialEq, Eq, Structural)]
pub enum DepthComparison {
    Never,
    Always,
    Equal,
    NotEqual,
    Less,
    LessOrEqual,
    Greater,
    GreaterOrEqual,
}

/// The state of the pipeline for one draw call.
#[derive(Clone, Copy, Debug, PartialEq, Eq, Structural)]
pub struct RenderState {
    pub blending: Option<Blending>,
    pub face_culling: Option<FaceCulling>,
    pub depth_test: Option<DepthComparison>,
    pub scissor: Option<ScissorRegion>,
}

impl RenderState {
    /// The state that all of the UI is drawn with: source-over alpha
    /// blending, back faces of clockwise winding culled, and no depth test, so
    /// that the UI lies on top of everything drawn before it. No scissor is
    /// set.
    pub open spec fn spec_ui() -> RenderState {
        RenderState {
            blending: Some(
                Blending { equation: Equation::Additive, src: Factor::SrcAlpha, dst: Factor::SrcAlphaComplement },
            ),
            face_culling: Some(FaceCulling { order: FaceCullingOrder::CW, mode: FaceCullingMode::Back }),
            depth_test: None,
            scissor: None,
        }
    }

    /// This state with the scissor replaced.
    pub open spec fn spec_set_scissor(self, scissor: Option<ScissorRegion>) -> RenderState {
        RenderState {
            blending: self.blending,
            face_culling: self.face_culling,
            depth_test: self.depth_test,
            scissor,
        }
    }

    #[verifier::when_used_as_spec(spec_ui)]
    pub fn ui() -> (state: RenderState)
        ensures
            state == Self::spec_ui(),
    {
        RenderState {
            blending: Some(
                Blending { equation: Equation::Additive, src: Factor::SrcAlpha, dst: Factor::SrcAlphaComplement },
            ),
            face_culling: Some(FaceCulling { order: FaceCullingOrder::CW, mode: FaceCullingMode::Back }),
            depth_test: None,
            scissor: None,
        }
    }

    #[verifier::when_used_as_spec(spec_set_scissor)]
    pub fn set_scissor(self, scissor: Option<ScissorRegion>) -> (state: RenderState)
        ensures
            state == self.spec_set_scissor(scissor),
    {
        RenderState {
            blending: self.blending,
            face_culling: self.face_culling,
            depth_test: self.depth_test,
            scissor,
        }
    }
}

/// What a texture gives outside its edges.
#[derive(Clone, Copy, Debug, PartialEq, Eq, Structural)]
pub enum Wrap {
    ClampToEdge,
    Repeat,
    MirroredRepeat,
}

/// How a texture is read between its pixels.
#[derive(Clone, Copy, Debug, PartialEq, Eq, Structural)]
pub enum Filter {
    Nearest,
    Linear,
}

/// How a texture is sampled.
#[derive(Clone, Copy, Debug, PartialEq, Eq, Structural)]
pub struct Sampler {
    pub wrap_r: Wrap,
    pub wrap_s: Wrap,
    pub wrap_t: Wrap,
    pub min_filter: Filter,
    pub mag_filter: Filter,
}

impl Sampler {
    /// Pixel-perfect sampling: the nearest pixel, never a blend of several,
    /// and the edge pixel outside the texture.
    pub open spec fn spec_pixelated() -> Sampler {
        Sampler {
            wrap_r: Wrap::ClampToEdge,
            wrap_s: Wrap::ClampToEdge,
            wrap_t: Wrap::ClampToEdge,
            min_filter: Filter::Nearest,
            mag_filter: Filter::Nearest,
        }
    }

    #[verifier::when_used_as_spec(spec_pixelated)]
    pub fn pixelated() -> (sampler: Sampler)
        ensures
            sampler == Self::spec_pixelated(),
    {
        Sampler {
            wrap_r: Wrap::ClampToEdge,
            wrap_s: Wrap::ClampToEdge,
            wrap_t: Wrap::ClampToEdge,
            min_filter: Filter::Nearest,
            mag_filter: Filter::Nearest,
        }
    }
}

} // verus!
