use technoir::config::Config;
use technoir::manifest::{default_pipelines, PluginType};
use technoir::pipelines::{
    default_depth_write_enabled, default_sample_count, default_sample_mask, default_stencil_mask,
    default_targets, BlendPreset, BlendState, ColorChannel, ColorTarget, CompareFunction, CullMode,
    DepthBiasState, DepthState, DepthStencilState, FrontFace, MultisampleState, Pipeline, Pipelines,
    PolygonMode, PrimitiveState, PrimitiveTopology, StencilFaceState, StencilOperation,
    StencilState, StepMode, TextureFormat, WriteMask, WriteMaskRepr,
};
use technoir::wallpaper::DrawWallpaperContext;

fn pipeline(shader: &str) -> Pipeline {
    Pipeline {
        shader: shader.to_string(),
        entry_points: None,
        constants: [("speed".to_string(), 1.5f64.to_bits())].into_iter().collect(),
        vertex_buffers: Vec::new(),
        targets: default_targets(),
        primitive: PrimitiveState::default(),
        depth_stencil: None,
        multisample: MultisampleState::default(),
    }
}

#[test]
fn config_starts_with_hidden_manager() {
    assert!(!Config::load().open_manager);
}

#[test]
fn manifest_defaults() {
    assert_eq!(default_pipelines(), "pipelines.toml");
    assert_eq!(PluginType::Wallpaper, PluginType::Wallpaper);
}

#[test]
fn pipeline_defaults_are_explicit() {
    let targets = default_targets();
    assert_eq!(targets.len(), 1);
    assert!(matches!(
        targets[0],
        Some(ColorTarget { blend: BlendState::Preset(BlendPreset::Opaque), write_mask: WriteMask::All })
    ));
    assert_eq!(StepMode::default(), StepMode::Vertex);
    assert_eq!(BlendState::default(), BlendState::Preset(BlendPreset::Opaque));
    assert_eq!(BlendPreset::default(), BlendPreset::Opaque);
    let primitive = PrimitiveState::default();
    assert_eq!(primitive.topology, PrimitiveTopology::TriangleList);
    assert_eq!(primitive.strip_index_format, None);
    assert_eq!(primitive.front_face, FrontFace::Ccw);
    assert_eq!(primitive.cull_mode, CullMode::NoCulling);
    assert!(!primitive.unclipped_depth);
    assert_eq!(primitive.polygon_mode, PolygonMode::Fill);
    assert!(!primitive.conservative);
}

#[test]
fn depth_stencil_defaults() {
    let ds = DepthStencilState::default();
    assert_eq!(ds.format, TextureFormat::Depth32Float);
    assert_eq!(ds.depth, None);
    assert_eq!(ds.stencil, None);
    assert_eq!(ds.bias, DepthBiasState { constant: 0, slope_scale_bits: 0, clamp_bits: 0 });
    assert_eq!(f32::from_bits(ds.bias.slope_scale_bits), 0.0f32);
    assert!(default_depth_write_enabled());
    assert_eq!(DepthState::default(), DepthState { write_enabled: true, compare: CompareFunction::LessEqual });
    assert_eq!(default_stencil_mask(), 0xFF);
    let stencil = StencilState::default();
    assert_eq!(stencil.read_mask, 0xFF);
    assert_eq!(stencil.write_mask, 0xFF);
    let face = StencilFaceState::default();
    assert_eq!(face.compare, CompareFunction::Always);
    assert_eq!(face.fail_op, StencilOperation::Keep);
    assert_eq!(face.depth_fail_op, StencilOperation::Keep);
    assert_eq!(face.pass_op, StencilOperation::Keep);
    assert_eq!(stencil.front, face);
    assert_eq!(stencil.back, face);
    assert_eq!(StencilOperation::default(), StencilOperation::Keep);
    assert_eq!(CompareFunction::default(), CompareFunction::LessEqual);
}

#[test]
fn multisample_defaults() {
    assert_eq!(default_sample_count(), 1);
    assert_eq!(default_sample_mask(), u64::MAX);
    assert_eq!(
        MultisampleState::default(),
        MultisampleState { count: 1, mask: u64::MAX, alpha_to_coverage_enabled: false }
    );
}

#[test]
fn write_mask_presets() {
    assert!(matches!(WriteMask::from_repr(WriteMaskRepr::Preset("All".to_string())), Ok(WriteMask::All)));
    assert!(matches!(WriteMask::from_repr(WriteMaskRepr::Preset("None".to_string())), Ok(WriteMask::NoChannels)));
    match WriteMask::from_repr(WriteMaskRepr::Preset("all".to_string())) {
        Err(e) => assert_eq!(e.value, "all"),
        Ok(_) => panic!("presets are case-sensitive"),
    }
    match WriteMask::from_repr(WriteMaskRepr::Channels(vec![ColorChannel::Red, ColorChannel::Alpha])) {
        Ok(WriteMask::Channels(c)) => assert_eq!(c, vec![ColorChannel::Red, ColorChannel::Alpha]),
        _ => panic!("channels are kept"),
    }
}

#[test]
fn write_mask_round_trip() {
    for mask in [WriteMask::All, WriteMask::NoChannels, WriteMask::Channels(vec![ColorChannel::Green])] {
        let repr = mask.to_repr();
        let back = WriteMask::from_repr(repr.clone()).ok().expect("round trip");
        match (&mask, &back) {
            (WriteMask::All, WriteMask::All) | (WriteMask::NoChannels, WriteMask::NoChannels) => {}
            (WriteMask::Channels(a), WriteMask::Channels(b)) => assert_eq!(a, b),
            _ => panic!("round trip changed the mask"),
        }
    }
    assert!(matches!(WriteMask::All.to_repr(), WriteMaskRepr::Preset(ref s) if s == "All"));
    assert!(matches!(WriteMask::NoChannels.to_repr(), WriteMaskRepr::Preset(ref s) if s == "None"));
    assert!(matches!(WriteMask::default(), WriteMask::All));
}

#[test]
fn pipelines_lookup_by_name() {
    let pipelines = Pipelines::from_entries(vec![
        ("main".to_string(), pipeline("main.wgsl")),
        ("blur".to_string(), pipeline("blur.wgsl")),
    ]);
    assert_eq!(pipelines.get("blur").map(|p| p.shader.as_str()), Some("blur.wgsl"));
    assert_eq!(pipelines.get("main").map(|p| p.shader.as_str()), Some("main.wgsl"));
    assert!(pipelines.get("missing").is_none());
    assert!(pipelines.get("mai").is_none());
    let mut names: Vec<&str> = pipelines.iter().iter().map(|(name, _)| name.as_str()).collect();
    names.sort();
    assert_eq!(names, ["blur", "main"]);
    assert_eq!(f64::from_bits(pipelines.get("main").unwrap().constants["speed"]), 1.5);
    let mut taken: Vec<String> = pipelines.into_entries().into_iter().map(|(name, _)| name).collect();
    taken.sort();
    assert_eq!(taken, ["blur", "main"]);
}

#[test]
fn draw_context_carries_frame_count() {
    let ctx = DrawWallpaperContext { frame_count: 42 };
    assert_eq!(ctx.frame_count, 42);
}
