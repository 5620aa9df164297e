use bevy_retro::assets::{AssetRef, LoadState};
use bevy_retro::batch::{first_unsupported, Batch, HorizontalAlign, IndexRange, TextBatch, VerticalAlign};
use bevy_retro::clip::{PixelPoint, ProjectedBox, ScissorRegion};
use bevy_retro::draw::{clip_stack_after, plan_draws, DrawCall, DrawKind, ShadingMode};
use bevy_retro::pipeline::{
    Blending, Equation, Factor, FaceCulling, FaceCullingMode, FaceCullingOrder, Filter, RenderState, Sampler, Wrap,
};
use bevy_retro::render_hook::{has_clip_ops, RenderError, UiRenderHook};
use bevy_retro::text::{text_requests, TextBlock, TextRequest};
use bevy_retro::textures::{texture_available, TextTextures, TextureInfo};
use bevy_retro::vertex::VertexSemantics;

fn range(start: usize, end: usize) -> IndexRange {
    IndexRange { start, end }
}

fn image(path: &str, handle: u64) -> AssetRef {
    AssetRef { path: path.to_string(), handle }
}

fn text(widget: &str, content: &str, font: &str, font_handle: u64, size: (u32, u32)) -> Batch {
    Batch::ExternalText(
        widget.to_string(),
        TextBatch {
            text: content.to_string(),
            font: image(font, font_handle),
            box_width: size.0,
            box_height: size.1,
            horizontal_align: HorizontalAlign::Center,
            vertical_align: VerticalAlign::Middle,
        },
    )
}

fn rect(x: i64, y: i64, width: i64, height: i64) -> ProjectedBox {
    ProjectedBox {
        top_left: PixelPoint { x, y },
        top_right: PixelPoint { x: x + width, y },
        bottom_right: PixelPoint { x: x + width, y: y + height },
        bottom_left: PixelPoint { x, y: y + height },
    }
}

fn region(x: u32, y: u32, width: u32, height: u32) -> ScissorRegion {
    ScissorRegion { x, y, width, height }
}

fn unclipped() -> RenderState {
    RenderState::ui()
}

fn clipped(x: u32, y: u32, width: u32, height: u32) -> RenderState {
    RenderState::ui().set_scissor(Some(region(x, y, width, height)))
}

fn texture(handle: u64) -> TextureInfo {
    TextureInfo { handle, width: 8, height: 8 }
}

#[test]
fn empty_batch_list_draws_nothing() {
    let calls = plan_draws(&Vec::new(), &Vec::new(), &TextTextures::<&str>::new());
    assert!(calls.is_empty());
}

#[test]
fn draw_calls_keep_the_batch_order() {
    let batches = vec![
        Batch::ColoredTriangles(range(0, 3)),
        Batch::Empty,
        Batch::ImageTriangles(image("a.png", 1), range(3, 9)),
        Batch::ColoredTriangles(range(9, 12)),
        Batch::ImageTriangles(image("b.png", 2), range(12, 18)),
    ];
    let textures = vec![texture(2), texture(1)];
    let calls = plan_draws(&batches, &textures, &TextTextures::<&str>::new());
    assert_eq!(
        calls,
        vec![
            DrawCall { batch: 0, kind: DrawKind::ColoredTriangles { range: range(0, 3) }, state: unclipped() },
            DrawCall { batch: 2, kind: DrawKind::ImageTriangles { image: 1, range: range(3, 9) }, state: unclipped() },
            DrawCall { batch: 3, kind: DrawKind::ColoredTriangles { range: range(9, 12) }, state: unclipped() },
            DrawCall { batch: 4, kind: DrawKind::ImageTriangles { image: 2, range: range(12, 18) }, state: unclipped() },
        ]
    );
}

#[test]
fn reordered_batches_give_reordered_draw_calls() {
    let a = Batch::ColoredTriangles(range(0, 3));
    let b = Batch::ImageTriangles(image("a.png", 1), range(3, 9));
    let c = Batch::ColoredTriangles(range(9, 12));
    let textures = vec![texture(1)];
    let texts = TextTextures::<&str>::new();
    let kinds = |batches: Vec<Batch>| -> Vec<DrawKind> {
        plan_draws(&batches, &textures, &texts).iter().map(|call| call.kind).collect()
    };
    let ka = DrawKind::ColoredTriangles { range: range(0, 3) };
    let kb = DrawKind::ImageTriangles { image: 1, range: range(3, 9) };
    let kc = DrawKind::ColoredTriangles { range: range(9, 12) };
    assert_eq!(kinds(vec![a.clone(), b.clone(), c.clone()]), vec![ka, kb, kc]);
    assert_eq!(kinds(vec![c.clone(), a.clone(), b.clone()]), vec![kc, ka, kb]);
    assert_eq!(kinds(vec![b, c, a]), vec![kb, kc, ka]);
}

#[test]
fn missing_image_is_requested_once_and_skipped_until_loaded() {
    let batches = vec![Batch::ImageTriangles(image("missing.png", 42), range(0, 6))];
    let mut hook: UiRenderHook<u8> = UiRenderHook::new();
    let texts = TextTextures::<&str>::new();

    // First frame: nothing was requested yet.
    let mut loads = 0;
    for batch in &batches {
        if let Some(image) = batch.image() {
            if hook.resolve_image(image, 0, LoadState::NotLoaded) {
                loads += 1;
            }
        }
    }
    assert_eq!(loads, 1);
    let plan = hook.render(&batches, &Vec::new(), &texts);
    assert!(plan.calls.is_empty());

    // While the load is in flight the batch stays skipped and is not requested again.
    for _ in 0..3 {
        for batch in &batches {
            if let Some(image) = batch.image() {
                assert!(!hook.resolve_image(image, 0, LoadState::Loading));
            }
        }
        assert!(hook.render(&batches, &Vec::new(), &texts).calls.is_empty());
    }

    // Loaded: the texture is there and the batch is drawn.
    let textures = vec![texture(42)];
    let plan = hook.render(&batches, &textures, &texts);
    assert_eq!(
        plan.calls,
        vec![DrawCall { batch: 0, kind: DrawKind::ImageTriangles { image: 42, range: range(0, 6) }, state: unclipped() }]
    );
}

#[test]
fn missing_image_does_not_hold_up_other_batches() {
    let batches = vec![
        Batch::ColoredTriangles(range(0, 3)),
        Batch::ImageTriangles(image("missing.png", 42), range(3, 9)),
        Batch::ColoredTriangles(range(9, 12)),
    ];
    let calls = plan_draws(&batches, &vec![texture(7)], &TextTextures::<&str>::new());
    assert_eq!(calls.len(), 2);
    assert_eq!(calls[0].batch, 0);
    assert_eq!(calls[1].batch, 2);
}

#[test]
fn text_batch_with_loaded_font_is_one_quad() {
    let batches = vec![text("label", "Hi", "test.ttf", 5, (40, 20))];

    let requests = text_requests(&batches, &vec![5]);
    assert_eq!(
        requests,
        vec![TextRequest {
            batch: 0,
            block: TextBlock {
                width: 40,
                height: Some(20),
                horizontal_align: HorizontalAlign::Center,
                vertical_align: VerticalAlign::Middle,
            },
            sampler: Sampler::pixelated(),
        }]
    );

    // The rasterizer decides the size of the bitmap.
    let mut texts = TextTextures::<&str>::new();
    let slot = texts.insert("label".to_string(), 37, 11, "bitmap of Hi");
    assert_eq!(slot, 0);
    assert_eq!(texts.len(), 1);

    let calls = plan_draws(&batches, &Vec::new(), &texts);
    assert_eq!(
        calls,
        vec![DrawCall { batch: 0, kind: DrawKind::TextQuad { texture: 0, width: 37, height: 11 }, state: unclipped() }]
    );
    assert_eq!(calls[0].kind.mode(), ShadingMode::Text);
    assert_eq!(calls[0].kind.mode().uniform_value(), 2);
}

#[test]
fn text_batch_without_its_font_is_passed_over() {
    let batches = vec![text("label", "Hi", "test.ttf", 5, (40, 20))];
    assert!(text_requests(&batches, &Vec::new()).is_empty());
    assert!(text_requests(&batches, &vec![4, 6]).is_empty());
    // No texture was made, so nothing is drawn for it either.
    assert!(plan_draws(&batches, &Vec::new(), &TextTextures::<&str>::new()).is_empty());
}

#[test]
fn text_requests_come_in_batch_order() {
    let batches = vec![
        text("a", "one", "x.ttf", 1, (10, 11)),
        Batch::ColoredTriangles(range(0, 3)),
        text("b", "two", "y.ttf", 2, (20, 21)),
        text("c", "three", "x.ttf", 1, (30, 31)),
    ];
    let requests = text_requests(&batches, &vec![1]);
    assert_eq!(requests.len(), 2);
    assert_eq!((requests[0].batch, requests[0].block.width, requests[0].block.height), (0, 10, Some(11)));
    assert_eq!((requests[1].batch, requests[1].block.width, requests[1].block.height), (3, 30, Some(31)));
}

#[test]
fn text_block_takes_box_and_alignment_verbatim() {
    let batch = TextBatch {
        text: "x".to_string(),
        font: image("f.ttf", 1),
        box_width: 0,
        box_height: u32::MAX,
        horizontal_align: HorizontalAlign::Right,
        vertical_align: VerticalAlign::Top,
    };
    assert_eq!(
        batch.block(),
        TextBlock {
            width: 0,
            height: Some(u32::MAX),
            horizontal_align: HorizontalAlign::Right,
            vertical_align: VerticalAlign::Top,
        }
    );
}

#[test]
fn text_textures_keep_one_slot_per_widget() {
    let mut texts = TextTextures::<&str>::new();
    assert_eq!(texts.find(&"a".to_string()), None);
    assert_eq!(texts.insert("a".to_string(), 1, 2, "first a"), 0);
    assert_eq!(texts.insert("b".to_string(), 3, 4, "b"), 1);
    assert_eq!(texts.insert("a".to_string(), 5, 6, "second a"), 0);
    assert_eq!(texts.len(), 2);
    assert_eq!(texts.find(&"a".to_string()), Some(0));
    assert_eq!(texts.find(&"b".to_string()), Some(1));
    assert_eq!(texts.find(&"c".to_string()), None);
    let a = texts.get(0).unwrap();
    assert_eq!((a.widget.as_str(), a.width, a.height, a.texture), ("a", 5, 6, "second a"));
    let b = texts.get(1).unwrap();
    assert_eq!((b.widget.as_str(), b.width, b.height, b.texture), ("b", 3, 4, "b"));
    assert!(texts.get(2).is_none());
    let handed_over: Vec<&str> = texts.into_entries().into_iter().map(|t| t.texture).collect();
    assert_eq!(handed_over, vec!["second a", "b"]);
}

#[test]
fn two_text_batches_of_one_widget_share_the_last_texture() {
    let batches = vec![text("w", "old", "f.ttf", 1, (10, 10)), text("w", "new", "f.ttf", 1, (10, 10))];
    let mut texts = TextTextures::<&str>::new();
    for request in text_requests(&batches, &vec![1]) {
        // Stand-in for the rasterizer: the size depends on the batch.
        texts.insert("w".to_string(), 100 + request.batch as u32, 7, "bitmap");
    }
    let calls = plan_draws(&batches, &Vec::new(), &texts);
    assert_eq!(calls.len(), 2);
    assert_eq!(calls[0].kind, DrawKind::TextQuad { texture: 0, width: 101, height: 7 });
    assert_eq!(calls[1].kind, DrawKind::TextQuad { texture: 0, width: 101, height: 7 });
}

#[test]
fn nested_clip_draws_under_the_innermost_scissor() {
    let a = rect(0, 0, 100, 50);
    let b = rect(10, 5, 30, 20);
    let batches = vec![
        Batch::ClipPush(a),
        Batch::ClipPush(b),
        Batch::ColoredTriangles(range(0, 6)),
        Batch::ClipPop,
        Batch::ClipPop,
    ];
    let calls = plan_draws(&batches, &Vec::new(), &TextTextures::<&str>::new());
    assert_eq!(
        calls,
        vec![DrawCall {
            batch: 2,
            kind: DrawKind::ColoredTriangles { range: range(0, 6) },
            state: clipped(10, 5, 30, 20),
        }]
    );
    assert_eq!(clip_stack_after(&batches).active(), None);
    assert_eq!(clip_stack_after(&batches).depth(), 0);
}

#[test]
fn scissor_follows_pushes_and_pops_between_draws() {
    let batches = vec![
        Batch::ColoredTriangles(range(0, 3)),
        Batch::ClipPush(rect(0, 0, 100, 50)),
        Batch::ColoredTriangles(range(3, 6)),
        Batch::ClipPush(rect(10, 5, 30, 20)),
        Batch::ClipPop,
        Batch::ColoredTriangles(range(6, 9)),
        Batch::ClipPop,
        Batch::ColoredTriangles(range(9, 12)),
    ];
    let calls = plan_draws(&batches, &Vec::new(), &TextTextures::<&str>::new());
    let scissors: Vec<Option<ScissorRegion>> = calls.iter().map(|c| c.state.scissor).collect();
    assert_eq!(scissors, vec![None, Some(region(0, 0, 100, 50)), Some(region(0, 0, 100, 50)), None]);
    let drawn: Vec<usize> = calls.iter().map(|c| c.batch).collect();
    assert_eq!(drawn, vec![0, 2, 5, 7]);
}

#[test]
fn excess_pop_draws_without_scissor() {
    let batches = vec![
        Batch::ClipPop,
        Batch::ColoredTriangles(range(0, 3)),
        Batch::ClipPush(rect(1, 1, 2, 2)),
        Batch::ClipPop,
        Batch::ClipPop,
        Batch::ColoredTriangles(range(3, 6)),
    ];
    let calls = plan_draws(&batches, &Vec::new(), &TextTextures::<&str>::new());
    assert_eq!(calls.len(), 2);
    assert_eq!(calls[0].state.scissor, None);
    assert_eq!(calls[1].state.scissor, None);
    assert_eq!(clip_stack_after(&batches).active(), None);
}

#[test]
fn unclosed_clip_stays_in_force() {
    let batches = vec![Batch::ClipPush(rect(1, 2, 3, 4)), Batch::ColoredTriangles(range(0, 3))];
    assert_eq!(clip_stack_after(&batches).active(), Some(region(1, 2, 3, 4)));
    assert_eq!(clip_stack_after(&batches).depth(), 1);
}

#[test]
fn clip_push_uses_the_bounding_rectangle_of_the_corners() {
    let turned = ProjectedBox {
        top_left: PixelPoint { x: 10, y: 0 },
        top_right: PixelPoint { x: 20, y: 10 },
        bottom_right: PixelPoint { x: 10, y: 20 },
        bottom_left: PixelPoint { x: 0, y: 10 },
    };
    let batches = vec![Batch::ClipPush(turned), Batch::ColoredTriangles(range(0, 3))];
    let calls = plan_draws(&batches, &Vec::new(), &TextTextures::<&str>::new());
    assert_eq!(calls[0].state, clipped(0, 0, 20, 20));
    assert_eq!(batches[0].clip_op(), Some(bevy_retro::clip::ClipOp::Push(region(0, 0, 20, 20))));
    assert_eq!(batches[1].clip_op(), None);
}

#[test]
fn clipping_warning_is_given_once() {
    let mut hook: UiRenderHook<u8> = UiRenderHook::new();
    let texts = TextTextures::<&str>::new();
    let plain = vec![Batch::ColoredTriangles(range(0, 3))];
    let clipped = vec![Batch::ClipPush(rect(0, 0, 1, 1)), Batch::ClipPop];

    assert!(!hook.render(&plain, &Vec::new(), &texts).warn_clipping);
    assert!(!hook.has_shown_clipping_warning());
    assert!(hook.render(&clipped, &Vec::new(), &texts).warn_clipping);
    assert!(hook.has_shown_clipping_warning());
    assert!(!hook.render(&clipped, &Vec::new(), &texts).warn_clipping);
    assert!(!hook.render(&plain, &Vec::new(), &texts).warn_clipping);
    assert!(hook.has_shown_clipping_warning());
}

#[test]
fn clip_operations_are_found_anywhere_in_the_list() {
    assert!(!has_clip_ops(&Vec::new()));
    assert!(!has_clip_ops(&vec![Batch::Empty, Batch::ColoredTriangles(range(0, 3))]));
    assert!(has_clip_ops(&vec![Batch::Empty, Batch::ClipPop]));
    assert!(has_clip_ops(&vec![Batch::ClipPush(rect(0, 0, 1, 1)), Batch::Empty]));
}

#[test]
fn font_triangles_are_reported_as_unsupported() {
    let supported = vec![Batch::Empty, Batch::ClipPop, text("w", "t", "f.ttf", 1, (1, 1))];
    assert_eq!(first_unsupported(&supported), None);
    assert_eq!(first_unsupported(&Vec::new()), None);
    let batches = vec![
        Batch::ColoredTriangles(range(0, 3)),
        Batch::FontTriangles("f.ttf".to_string(), range(3, 6)),
        Batch::FontTriangles("g.ttf".to_string(), range(6, 9)),
    ];
    assert_eq!(first_unsupported(&batches), Some(1));
    assert!(batches[0].is_supported());
    assert!(!batches[1].is_supported());
}

#[test]
fn batches_name_their_assets() {
    let img = Batch::ImageTriangles(image("a.png", 1), range(0, 3));
    assert_eq!(img.image().map(|r| (r.path.as_str(), r.handle)), Some(("a.png", 1)));
    assert!(img.font().is_none());
    let txt = text("w", "t", "f.ttf", 9, (1, 1));
    assert_eq!(txt.font().map(|r| (r.path.as_str(), r.handle)), Some(("f.ttf", 9)));
    assert!(txt.image().is_none());
    assert!(Batch::Empty.image().is_none());
    assert!(Batch::ClipPop.font().is_none());
}

#[test]
fn texture_lookup_goes_by_handle() {
    let textures = vec![texture(3), texture(1)];
    assert!(texture_available(&textures, 1));
    assert!(texture_available(&textures, 3));
    assert!(!texture_available(&textures, 2));
    assert!(!texture_available(&Vec::new(), 1));
}

#[test]
fn shading_modes_select_the_shader_path() {
    assert_eq!(ShadingMode::ColoredTriangles.uniform_value(), 0);
    assert_eq!(ShadingMode::ImageTriangles.uniform_value(), 1);
    assert_eq!(ShadingMode::Text.uniform_value(), 2);
    assert_eq!(DrawKind::ColoredTriangles { range: range(0, 0) }.mode(), ShadingMode::ColoredTriangles);
    assert_eq!(DrawKind::ImageTriangles { image: 0, range: range(0, 0) }.mode(), ShadingMode::ImageTriangles);
}

#[test]
fn vertex_attributes_match_the_shader() {
    assert_eq!(VertexSemantics::Position.name(), "v_pos");
    assert_eq!(VertexSemantics::Uv.name(), "v_uv");
    assert_eq!(VertexSemantics::Color.name(), "v_color");
    assert_eq!(VertexSemantics::Position.components(), 2);
    assert_eq!(VertexSemantics::Uv.components(), 2);
    assert_eq!(VertexSemantics::Color.components(), 4);
    assert_eq!(VertexSemantics::Position.index(), 0);
    assert_eq!(VertexSemantics::Uv.index(), 1);
    assert_eq!(VertexSemantics::Color.index(), 2);
}

#[test]
fn ui_is_blended_over_the_scene_without_depth_test() {
    let state = RenderState::ui();
    assert_eq!(
        state.blending,
        Some(Blending { equation: Equation::Additive, src: Factor::SrcAlpha, dst: Factor::SrcAlphaComplement })
    );
    assert_eq!(state.face_culling, Some(FaceCulling { order: FaceCullingOrder::CW, mode: FaceCullingMode::Back }));
    assert_eq!(state.depth_test, None);
    assert_eq!(state.scissor, None);
}

#[test]
fn set_scissor_changes_only_the_scissor() {
    let state = RenderState::ui().set_scissor(Some(region(1, 2, 3, 4)));
    assert_eq!(state.scissor, Some(region(1, 2, 3, 4)));
    assert_eq!(state.blending, RenderState::ui().blending);
    assert_eq!(state.face_culling, RenderState::ui().face_culling);
    assert_eq!(state.depth_test, RenderState::ui().depth_test);
    assert_eq!(state.set_scissor(None), RenderState::ui());
}

#[test]
fn every_draw_call_uses_the_ui_pipeline_state() {
    let batches = vec![
        Batch::ClipPush(rect(0, 0, 4, 4)),
        Batch::ColoredTriangles(range(0, 3)),
        Batch::ImageTriangles(image("a.png", 1), range(3, 6)),
        Batch::ClipPop,
        text("w", "t", "f.ttf", 1, (1, 1)),
    ];
    let mut texts = TextTextures::<&str>::new();
    texts.insert("w".to_string(), 5, 5, "bitmap");
    let calls = plan_draws(&batches, &vec![texture(1)], &texts);
    assert_eq!(calls.len(), 3);
    for call in &calls {
        assert_eq!(call.state.set_scissor(None), RenderState::ui());
    }
    assert_eq!(calls[0].state.scissor, Some(region(0, 0, 4, 4)));
    assert_eq!(calls[1].state.scissor, Some(region(0, 0, 4, 4)));
    assert_eq!(calls[2].state.scissor, None);
}

#[test]
fn text_textures_are_sampled_pixel_perfectly() {
    let sampler = Sampler::pixelated();
    assert_eq!(sampler.wrap_r, Wrap::ClampToEdge);
    assert_eq!(sampler.wrap_s, Wrap::ClampToEdge);
    assert_eq!(sampler.wrap_t, Wrap::ClampToEdge);
    assert_eq!(sampler.min_filter, Filter::Nearest);
    assert_eq!(sampler.mag_filter, Filter::Nearest);
    let requests = text_requests(&vec![text("w", "t", "f.ttf", 1, (1, 1))], &vec![1]);
    assert_eq!(requests[0].sampler, sampler);
}

#[test]
fn try_render_refuses_font_triangles() {
    let mut hook: UiRenderHook<u8> = UiRenderHook::new();
    let texts = TextTextures::<&str>::new();
    let batches = vec![
        Batch::ClipPush(rect(0, 0, 1, 1)),
        Batch::ColoredTriangles(range(0, 3)),
        Batch::FontTriangles("f.ttf".to_string(), range(3, 6)),
        Batch::FontTriangles("g.ttf".to_string(), range(6, 9)),
    ];
    let error = hook.try_render(&batches, &Vec::new(), &texts).err();
    assert_eq!(error, Some(RenderError::FontTriangles(2)));
    assert_eq!(error.unwrap().message(), "Tesselated font rendering not implemented");
    // Nothing was planned, so nothing was warned about either.
    assert!(!hook.has_shown_clipping_warning());
}

#[test]
fn try_render_plans_what_render_plans() {
    let batches = vec![
        Batch::ClipPush(rect(0, 0, 4, 4)),
        Batch::ColoredTriangles(range(0, 3)),
        Batch::ImageTriangles(image("a.png", 1), range(3, 6)),
        Batch::ClipPop,
    ];
    let textures = vec![texture(1)];
    let texts = TextTextures::<&str>::new();
    let mut first: UiRenderHook<u8> = UiRenderHook::new();
    let mut second: UiRenderHook<u8> = UiRenderHook::new();
    let planned = first.try_render(&batches, &textures, &texts).unwrap();
    let expected = second.render(&batches, &textures, &texts);
    assert_eq!(planned.calls, expected.calls);
    assert_eq!(planned.calls, plan_draws(&batches, &textures, &texts));
    assert_eq!(planned.calls.len(), 2);
    assert!(planned.warn_clipping);
    assert!(expected.warn_clipping);
    assert!(first.has_shown_clipping_warning());
}
