use terminal_miku3d::animation::{
    channel_counts, default_body_animation_index, is_morph_only_clip, resolve_animation_index,
    AnimationChannel, AnimationClip, AnimationSelectError, ChannelTarget, SceneCpu,
};
use terminal_miku3d::scene::{TextureColorSpace, TextureCpu};

fn clip(name: &str, targets: &[ChannelTarget]) -> AnimationClip {
    AnimationClip {
        name: Some(name.to_owned()),
        channels: targets
            .iter()
            .map(|&target| AnimationChannel { node_index: 0, target })
            .collect(),
        looping: true,
    }
}

fn scene_with(animations: Vec<AnimationClip>) -> SceneCpu {
    SceneCpu {
        meshes: Vec::new(),
        materials: Vec::new(),
        textures: Vec::new(),
        skins: Vec::new(),
        nodes: Vec::new(),
        mesh_instances: Vec::new(),
        animations,
        root_center_node: Some(0),
    }
}

#[test]
fn morph_only_clip_detection() {
    let clip = AnimationClip {
        name: Some("facial".to_owned()),
        channels: vec![AnimationChannel {
            node_index: 0,
            target: ChannelTarget::MorphWeights,
        }],
        looping: true,
    };
    assert!(is_morph_only_clip(&clip));
}

#[test]
fn clip_without_channels_or_with_body_channel_is_not_morph_only() {
    assert!(!is_morph_only_clip(&clip("empty", &[])));
    assert!(!is_morph_only_clip(&clip(
        "mixed",
        &[ChannelTarget::MorphWeights, ChannelTarget::Rotation]
    )));
    assert!(!is_morph_only_clip(&clip(
        "material",
        &[ChannelTarget::MaterialMorphWeights]
    )));
}

#[test]
fn default_animation_prefers_non_morph_clip() {
    let scene = scene_with(vec![
        clip("face", &[ChannelTarget::MorphWeights]),
        clip("body", &[ChannelTarget::Translation]),
    ]);
    assert_eq!(default_body_animation_index(&scene), Some(1));
}

#[test]
fn default_animation_falls_back_to_first_clip_or_none() {
    let scene = scene_with(vec![
        clip("face", &[ChannelTarget::MorphWeights]),
        clip("face2", &[ChannelTarget::MorphWeights]),
    ]);
    assert_eq!(default_body_animation_index(&scene), Some(0));
    assert_eq!(default_body_animation_index(&scene_with(Vec::new())), None);
}

#[test]
fn selector_by_index_then_by_name() {
    let scene = scene_with(vec![
        clip("idle", &[ChannelTarget::Rotation]),
        clip("dance", &[ChannelTarget::Translation]),
        clip("7", &[ChannelTarget::Scale]),
    ]);
    assert_eq!(scene.animation_index_by_selector(Some("1")), Some(1));
    assert_eq!(scene.animation_index_by_selector(Some("dance")), Some(1));
    assert_eq!(scene.animation_index_by_selector(Some("idle")), Some(0));
    // A decimal selector is an index, never a name.
    assert_eq!(scene.animation_index_by_selector(Some("7")), None);
    assert_eq!(scene.animation_index_by_selector(Some("missing")), None);
    assert_eq!(scene.animation_index_by_selector(None), None);
}

#[test]
fn resolve_animation_index_reports_unknown_selector() {
    let scene = scene_with(vec![
        clip("face", &[ChannelTarget::MorphWeights]),
        clip("body", &[ChannelTarget::Translation]),
    ]);
    assert_eq!(resolve_animation_index(&scene, None), Ok(Some(1)));
    assert_eq!(resolve_animation_index(&scene, Some("face")), Ok(Some(0)));
    let err = resolve_animation_index(&scene, Some("walk"));
    assert_eq!(err, Err(AnimationSelectError::NotFound("walk".to_owned())));
    assert_eq!(
        err.unwrap_err().message(),
        "animation selector not found: walk"
    );
}

#[test]
fn channel_counts_group_morph_channels() {
    let c = clip(
        "all",
        &[
            ChannelTarget::Translation,
            ChannelTarget::Rotation,
            ChannelTarget::Rotation,
            ChannelTarget::Scale,
            ChannelTarget::MorphWeights,
            ChannelTarget::MaterialMorphWeights,
        ],
    );
    let counts = channel_counts(&c);
    assert_eq!(counts.translation, 1);
    assert_eq!(counts.rotation, 2);
    assert_eq!(counts.scale, 1);
    assert_eq!(counts.morph, 2);
}

#[test]
fn fallback_textures_are_counted() {
    let texture = |format: &str| TextureCpu {
        width: 1,
        height: 1,
        rgba8: vec![255, 255, 255, 255],
        source_format: format.to_owned(),
        color_space: TextureColorSpace::Srgb,
        mip_levels: Vec::new(),
    };
    let scene = SceneCpu {
        meshes: Vec::new(),
        materials: Vec::new(),
        textures: vec![texture("Png"), texture("FallbackWhite"), texture("FallbackWhite")],
        skins: Vec::new(),
        nodes: Vec::new(),
        mesh_instances: Vec::new(),
        animations: Vec::new(),
        root_center_node: None,
    };
    assert_eq!(scene.fallback_texture_count(), 2);
}
