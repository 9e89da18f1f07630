use terminal_miku3d::animation::{AnimationChannel, AnimationClip, ChannelCounts, ChannelTarget, SceneCpu};
use terminal_miku3d::scene::{
    MaterialAlphaMode, MaterialCpu, MeshCpu, MeshInstance, MeshLayer, Node, SkinCpu, TextureColorSpace,
    TextureCpu, TextureFilterMode, TextureWrapMode,
};
use terminal_miku3d::scene_stats::{scene_summary, AnimationReport, MaterialSampler};
use terminal_miku3d::text::text_less;

fn mesh(positions: usize, triangles: usize, morph_targets: usize, colors: bool, uv: bool) -> MeshCpu {
    MeshCpu {
        positions,
        triangles,
        morph_targets,
        has_vertex_colors: colors,
        has_uv0: uv,
    }
}

fn instance(mesh_index: usize, weights: usize) -> MeshInstance {
    MeshInstance {
        mesh_index,
        node_index: mesh_index,
        skin_index: None,
        default_morph_weights: weights,
        layer: MeshLayer::Subject,
    }
}

fn clip(name: &str, targets: &[ChannelTarget]) -> AnimationClip {
    AnimationClip {
        name: Some(name.to_owned()),
        channels: targets
            .iter()
            .map(|&target| AnimationChannel { node_index: 0, target })
            .collect(),
        looping: false,
    }
}

fn texture(format: &str) -> TextureCpu {
    texture_in(format, TextureColorSpace::Srgb)
}

fn texture_in(format: &str, color_space: TextureColorSpace) -> TextureCpu {
    TextureCpu {
        width: 1,
        height: 1,
        rgba8: vec![255, 255, 255, 255],
        source_format: format.to_owned(),
        color_space,
        mip_levels: Vec::new(),
    }
}

fn material(wrap: TextureWrapMode, filter: TextureFilterMode) -> MaterialCpu {
    MaterialCpu {
        base_color_texture: Some(0),
        base_color_tex_coord: 0,
        base_color_wrap_s: wrap,
        base_color_wrap_t: wrap,
        base_color_min_filter: filter,
        base_color_mag_filter: filter,
        alpha_mode: MaterialAlphaMode::Opaque,
        double_sided: false,
    }
}

fn node(name: Option<&str>) -> Node {
    Node {
        name: name.map(|n| n.to_owned()),
        parent: None,
        children: Vec::new(),
    }
}

fn sample_scene() -> SceneCpu {
    SceneCpu {
        meshes: vec![mesh(24, 12, 2, true, true), mesh(3, 1, 0, false, true), mesh(100, 40, 5, false, false)],
        materials: vec![
            material(TextureWrapMode::Repeat, TextureFilterMode::Linear),
            material(TextureWrapMode::ClampToEdge, TextureFilterMode::Nearest),
            material(TextureWrapMode::Repeat, TextureFilterMode::Linear),
        ],
        textures: vec![texture("Png"), texture("FallbackWhite")],
        skins: vec![SkinCpu { joints: vec![0, 1, 2] }, SkinCpu { joints: vec![4, 5] }],
        nodes: vec![node(Some("root")), node(None)],
        mesh_instances: vec![instance(0, 2), instance(1, 0), instance(2, 5)],
        animations: vec![
            clip(
                "dance",
                &[
                    ChannelTarget::Translation,
                    ChannelTarget::Rotation,
                    ChannelTarget::Rotation,
                    ChannelTarget::Scale,
                    ChannelTarget::MorphWeights,
                    ChannelTarget::MaterialMorphWeights,
                ],
            ),
            clip("blink", &[ChannelTarget::MorphWeights]),
        ],
        root_center_node: Some(0),
    }
}

#[test]
fn scene_totals_sum_meshes_and_skins() {
    let scene = sample_scene();
    assert_eq!(scene.total_vertices(), 127);
    assert_eq!(scene.total_triangles(), 53);
    assert_eq!(scene.total_joints(), 5);
    assert_eq!(scene.meshes[0].vertex_count(), 24);
    assert_eq!(scene.meshes[2].triangle_count(), 40);
}

#[test]
fn scene_summary_reports_counts_and_clip_channels() {
    let scene = sample_scene();
    let s = scene_summary(&scene);
    assert_eq!(s.meshes, 3);
    assert_eq!(s.mesh_instances, 3);
    assert_eq!(s.nodes, 2);
    assert_eq!(s.materials, 3);
    assert_eq!(s.root_center, Some((0, "root".to_owned())));
    assert_eq!(s.skins, 2);
    assert_eq!(s.textures, 2);
    assert_eq!(s.fallback_white_textures, 1);
    assert_eq!(s.animations, 2);
    assert_eq!(s.total_morph_targets, 7);
    assert_eq!(s.morph_weighted_instances, 2);
    assert_eq!(s.vertex_color_primitives, 1);
    assert_eq!(s.uv_primitives, 2);
    assert_eq!(s.total_vertices, 127);
    assert_eq!(s.total_triangles, 53);
    assert_eq!(s.total_joints, 5);
    assert_eq!(
        s.clips,
        vec![
            AnimationReport {
                channels: 6,
                counts: ChannelCounts { translation: 1, rotation: 2, scale: 1, morph: 2 },
            },
            AnimationReport {
                channels: 1,
                counts: ChannelCounts { translation: 0, rotation: 0, scale: 0, morph: 1 },
            },
        ]
    );
}

#[test]
fn empty_scene_summary_is_all_zero() {
    let scene = SceneCpu {
        meshes: Vec::new(),
        materials: Vec::new(),
        textures: Vec::new(),
        skins: Vec::new(),
        nodes: Vec::new(),
        mesh_instances: Vec::new(),
        animations: Vec::new(),
        root_center_node: None,
    };
    let s = scene_summary(&scene);
    assert_eq!(s.total_vertices, 0);
    assert_eq!(s.total_triangles, 0);
    assert_eq!(s.total_joints, 0);
    assert_eq!(s.uv_primitives, 0);
    assert!(s.clips.is_empty());
}

#[test]
fn every_clip_report_adds_up_to_its_channel_count() {
    let s = scene_summary(&sample_scene());
    for report in &s.clips {
        let c = report.counts;
        assert_eq!(c.translation + c.rotation + c.scale + c.morph, report.channels);
    }
}

#[test]
fn texture_and_sampler_distributions_are_ordered_by_name() {
    let mut scene = sample_scene();
    scene.textures = vec![
        texture_in("Png", TextureColorSpace::Srgb),
        texture_in("jpeg", TextureColorSpace::Linear),
        texture_in("FallbackWhite", TextureColorSpace::Srgb),
        texture_in("Png", TextureColorSpace::Linear),
    ];
    let s = scene_summary(&scene);
    assert_eq!(
        s.texture_formats,
        vec![("FallbackWhite".to_owned(), 1), ("Png".to_owned(), 2), ("jpeg".to_owned(), 1)]
    );
    assert_eq!(
        s.texture_color_spaces,
        vec![(TextureColorSpace::Linear, 2), (TextureColorSpace::Srgb, 2)]
    );
    // "wrap=(ClampToEdge,..." sorts before "wrap=(Repeat,...".
    assert_eq!(
        s.base_color_samplers,
        vec![
            (
                MaterialSampler {
                    wrap_s: TextureWrapMode::ClampToEdge,
                    wrap_t: TextureWrapMode::ClampToEdge,
                    min_filter: TextureFilterMode::Nearest,
                    mag_filter: TextureFilterMode::Nearest,
                },
                1
            ),
            (
                MaterialSampler {
                    wrap_s: TextureWrapMode::Repeat,
                    wrap_t: TextureWrapMode::Repeat,
                    min_filter: TextureFilterMode::Linear,
                    mag_filter: TextureFilterMode::Linear,
                },
                2
            ),
        ]
    );
}

#[test]
fn only_used_colour_spaces_are_listed() {
    let s = scene_summary(&sample_scene());
    assert_eq!(s.texture_color_spaces, vec![(TextureColorSpace::Srgb, 2)]);
}

#[test]
fn root_centre_node_without_a_name_is_unnamed() {
    let mut scene = sample_scene();
    scene.root_center_node = Some(1);
    assert_eq!(scene_summary(&scene).root_center, Some((1, "<unnamed>".to_owned())));
    scene.root_center_node = Some(7);
    assert_eq!(scene_summary(&scene).root_center, Some((7, "<unnamed>".to_owned())));
    scene.root_center_node = None;
    assert_eq!(scene_summary(&scene).root_center, None);
}

#[test]
fn text_order_is_that_of_str() {
    let words = ["", "A", "AB", "B", "a", "ab", "é", "Png", "jpeg"];
    for a in words {
        for b in words {
            assert_eq!(text_less(a, b), a < b, "{a:?} < {b:?}");
        }
    }
}
