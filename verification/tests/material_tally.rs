use terminal_miku3d::material_stats::{tally_primitives, BaseColorTextureInfo, PrimitiveMaterialInfo};

fn prim(base: Option<(u32, Option<Option<u32>>)>) -> PrimitiveMaterialInfo {
    PrimitiveMaterialInfo {
        triangles: true,
        base_color: base.map(|(tex_coord, transform)| BaseColorTextureInfo { tex_coord, transform }),
        normal_texture: false,
        emissive_texture: false,
        occlusion_texture: false,
        metallic_roughness_texture: false,
        double_sided: false,
    }
}

#[test]
fn tally_counts_features_and_texcoord_sets() {
    let mut lines = prim(None);
    lines.triangles = false;
    lines.double_sided = true;
    let mut textured = prim(Some((1, Some(Some(0)))));
    textured.normal_texture = true;
    textured.metallic_roughness_texture = true;
    let prims = vec![
        prim(Some((0, None))),
        textured,
        prim(Some((1, Some(None)))),
        lines,
        prim(Some((0, None))),
        prim(Some((2, Some(Some(3))))),
    ];
    let t = tally_primitives(&prims);
    assert_eq!(t.base_color_texcoords, vec![(0, 2), (1, 2), (2, 1)]);
    assert_eq!(t.texcoord_overrides, vec![(0, 1), (3, 1)]);
    assert_eq!(t.khr_texture_transform_primitives, 3);
    assert_eq!(t.non_triangle_primitives, 1);
    assert_eq!(t.normal_texture_primitives, 1);
    assert_eq!(t.metallic_roughness_texture_primitives, 1);
    assert_eq!(t.emissive_texture_primitives, 0);
    assert_eq!(t.occlusion_texture_primitives, 0);
    assert_eq!(t.double_sided_materials, 1);
}

#[test]
fn tally_of_no_primitives_is_empty() {
    let t = tally_primitives(&Vec::new());
    assert!(t.base_color_texcoords.is_empty());
    assert!(t.texcoord_overrides.is_empty());
    assert_eq!(t.non_triangle_primitives, 0);
}

#[test]
fn untextured_primitives_list_no_texcoord_sets() {
    let t = tally_primitives(&vec![prim(None), prim(None)]);
    assert!(t.base_color_texcoords.is_empty());
    assert!(t.texcoord_overrides.is_empty());
}
