use terminal_miku3d::physics::{
    collision_pair_enabled, ik_chain_conflicts_with_physics, ik_chains_to_solve, PmxJointCpu, PmxPhysicsMeta,
    PmxRigidBodyCpu, PmxRigidCalcMethod, PmxRigidShape,
};
use terminal_miku3d::pmx_rig::{
    IKChain, IKLink, PmxBoneMeta, PmxGrantTransform, PmxRigMeta, BONE_FLAG_APPEND_TRANSLATION,
    BONE_FLAG_IK,
};

fn bone(name: &str, depth: i32, flags: u16, grant_parent: Option<usize>) -> PmxBoneMeta {
    PmxBoneMeta {
        name: name.to_owned(),
        name_en: name.to_owned(),
        parent_index: -1,
        deform_depth: depth,
        boneflag: flags,
        child: -1,
        append_bone_index: grant_parent.map(|p| p as i32).unwrap_or(-1),
        grant_transform: grant_parent.map(|parent_index| PmxGrantTransform {
            parent_index,
            is_local: false,
            affects_rotation: false,
            affects_translation: true,
        }),
        key_value: 0,
        ik_target_index: -1,
        ik_iter_count: 0,
    }
}

fn rig(bones: Vec<PmxBoneMeta>) -> PmxRigMeta {
    PmxRigMeta {
        bones,
        ik_chains: Vec::new(),
        grant_evaluation_order: Vec::new(),
        grant_cycle_bones: Vec::new(),
    }
}

#[test]
fn test_empty_rig_meta() {
    let meta = PmxRigMeta::default();
    assert!(meta.is_empty());
    assert!(meta.ik_chains.is_empty());
}

#[test]
fn rig_with_an_ik_chain_is_not_empty() {
    let mut meta = rig(Vec::new());
    meta.ik_chains.push(IKChain {
        controller_bone_index: 0,
        target_bone_index: 1,
        chain_root_bone_index: 2,
        iterations: 1,
        links: vec![IKLink { bone_index: 2 }],
    });
    assert!(!meta.is_empty());
}

#[test]
fn test_ik_chain_creation() {
    let chain = IKChain {
        controller_bone_index: 1,
        target_bone_index: 5,
        chain_root_bone_index: 2,
        iterations: 10,
        links: vec![
            IKLink { bone_index: 2 },
            IKLink { bone_index: 3 },
            IKLink { bone_index: 4 },
        ],
    };
    assert_eq!(chain.controller_bone_index, 1);
    assert_eq!(chain.target_bone_index, 5);
    assert_eq!(chain.links.len(), 3);
}

#[test]
fn test_grant_evaluation_order_applies_parent_before_child() {
    let mut meta = rig(vec![
        PmxBoneMeta {
            parent_index: -1,
            ..bone("root", 0, 0, None)
        },
        PmxBoneMeta {
            parent_index: 0,
            ..bone("mid", 1, 0x0200, Some(0))
        },
        PmxBoneMeta {
            parent_index: 1,
            ..bone("leaf", 2, 0x0200, Some(1))
        },
    ]);
    meta.rebuild_grant_evaluation_order();
    assert_eq!(meta.grant_evaluation_order, vec![1, 2]);
    assert!(meta.grant_cycle_bones.is_empty());
}

#[test]
fn grant_order_visits_source_first_whatever_the_depths() {
    // Bone 1 inherits from bone 2, which sits deeper; the source still comes first.
    let mut meta = rig(vec![
        bone("root", 0, 0, None),
        bone("child", 0, 0x0200, Some(2)),
        bone("source", 5, 0x0200, Some(0)),
    ]);
    meta.rebuild_grant_evaluation_order();
    assert_eq!(meta.grant_evaluation_order, vec![2, 1]);
    assert!(meta.grant_cycle_bones.is_empty());
}

#[test]
fn grant_cycle_is_reported_and_every_grant_bone_ordered_once() {
    let mut meta = rig(vec![
        bone("a", 0, 0x0200, Some(1)),
        bone("b", 0, 0x0200, Some(0)),
        bone("plain", 0, 0, None),
    ]);
    meta.rebuild_grant_evaluation_order();
    assert_eq!(meta.grant_evaluation_order, vec![1, 0]);
    // Both bones lie on the cycle a -> b -> a.
    assert_eq!(meta.grant_cycle_bones, vec![0, 1]);
}

#[test]
fn rig_statistics_count_flags_and_grants() {
    let meta = rig(vec![
        bone("ik", 0, BONE_FLAG_IK, None),
        bone("append", 0, BONE_FLAG_APPEND_TRANSLATION, Some(0)),
        bone("both", 0, BONE_FLAG_IK | BONE_FLAG_APPEND_TRANSLATION, Some(1)),
    ]);
    // Bones but no IK chains: the rig counts as empty.
    assert!(meta.is_empty());
    assert_eq!(meta.count_bones_with_ik(), 2);
    assert_eq!(meta.count_bones_with_append(), 2);
    assert_eq!(meta.count_bones_with_grant(), 2);
    assert_eq!(meta.count_bones_with_local_grant(), 0);
    assert_eq!(meta.count_bones_with_flag(BONE_FLAG_IK), meta.count_bones_with_ik());
    assert_eq!(meta.count_bones_with_fixed_axis(), 0);
    assert!(meta.bones[0].uses_ik());
    assert!(!meta.bones[0].uses_append_translation());
    assert!(meta.bones[1].has_flag(BONE_FLAG_APPEND_TRANSLATION));
}

fn body(bone_index: i32, calc_method: PmxRigidCalcMethod) -> PmxRigidBodyCpu {
    PmxRigidBodyCpu {
        name: "body".to_owned(),
        name_en: "body".to_owned(),
        bone_index,
        group: 0,
        un_collision_group_flag: 0,
        form: PmxRigidShape::Sphere,
        calc_method,
    }
}

#[test]
fn physics_meta_emptiness() {
    assert!(PmxPhysicsMeta::default().is_empty());
    let meta = PmxPhysicsMeta {
        rigid_bodies: Vec::new(),
        joints: vec![PmxJointCpu {
            name: "j".to_owned(),
            name_en: "j".to_owned(),
            a_rigid_index: 0,
            b_rigid_index: 1,
        }],
    };
    assert!(!meta.is_empty());
}

#[test]
fn ik_chain_conflicts_only_with_simulated_bodies_on_its_links() {
    let chain = IKChain {
        controller_bone_index: 1,
        target_bone_index: 5,
        chain_root_bone_index: 2,
        iterations: 10,
        links: vec![IKLink { bone_index: 2 }, IKLink { bone_index: 3 }],
    };
    let static_only = PmxPhysicsMeta {
        rigid_bodies: vec![body(2, PmxRigidCalcMethod::Static)],
        joints: Vec::new(),
    };
    assert!(!ik_chain_conflicts_with_physics(&chain, Some(&static_only)));
    let dynamic_elsewhere = PmxPhysicsMeta {
        rigid_bodies: vec![body(7, PmxRigidCalcMethod::Dynamic), body(-1, PmxRigidCalcMethod::Dynamic)],
        joints: Vec::new(),
    };
    assert!(!ik_chain_conflicts_with_physics(&chain, Some(&dynamic_elsewhere)));
    let dynamic_on_link = PmxPhysicsMeta {
        rigid_bodies: vec![body(3, PmxRigidCalcMethod::DynamicWithBonePosition)],
        joints: Vec::new(),
    };
    assert!(ik_chain_conflicts_with_physics(&chain, Some(&dynamic_on_link)));
    assert!(!ik_chain_conflicts_with_physics(&chain, None));
}

#[test]
fn collision_groups_respect_masks() {
    assert!(collision_pair_enabled(0, 0, 3));
    assert!(!collision_pair_enabled(0, 1 << 3, 3));
    assert!(collision_pair_enabled(0, 1 << 3, 4));
    // Group numbers from 16 up have no mask bit.
    assert!(collision_pair_enabled(0, 0xffff, 20));
    // The body's own group must be a valid one.
    assert!(!collision_pair_enabled(16, 0, 3));
}

#[test]
fn conflicting_chains_are_left_to_physics() {
    let chain = |bone: usize| IKChain {
        controller_bone_index: 0,
        target_bone_index: bone + 1,
        chain_root_bone_index: bone,
        iterations: 4,
        links: vec![IKLink { bone_index: bone }],
    };
    let chains = vec![chain(1), chain(2), chain(3)];
    let physics = PmxPhysicsMeta {
        rigid_bodies: vec![body(2, PmxRigidCalcMethod::Dynamic)],
        joints: Vec::new(),
    };
    assert_eq!(ik_chains_to_solve(&chains, Some(&physics), true), vec![0, 2]);
    assert_eq!(ik_chains_to_solve(&chains, Some(&physics), false), vec![0, 1, 2]);
    assert_eq!(ik_chains_to_solve(&chains, None, true), vec![0, 1, 2]);
}
