//! PMX rigid bodies and joints as far as the rig logic reads them: which bone
//! a body follows, how it is simulated and which collision groups it meets.
//! Shapes' sizes, masses and joint limits are floats and stay with the
//! physics step.

use vstd::prelude::*;

use crate::pmx_rig::IKChain;

verus! {

/// Collision shape of a PMX rigid body.
#[derive(Debug, Clone, Copy, PartialEq, Eq, Structural)]
pub enum PmxRigidShape {
    Sphere,
    Box,
    Capsule,
}

/// How a PMX rigid body is driven.
#[derive(Debug, Clone, Copy, PartialEq, Eq, Structural)]
pub enum PmxRigidCalcMethod {
    /// Follows its bone; not simulated.
    Static,
    /// Simulated; drives its bone.
    Dynamic,
    /// Simulated, with the bone's position kept.
    DynamicWithBonePosition,
}

/// A PMX rigid body (its integral fields).
#[derive(Debug, Clone)]
pub struct PmxRigidBodyCpu {
    pub name: String,
    pub name_en: String,
    /// Bone the body is attached to; negative when none.
    pub bone_index: i32,
    /// Collision group (0..16).
    pub group: u8,
    /// Bit `g` set: the body does not collide with group `g`.
    pub un_collision_group_flag: u16,
    pub form: PmxRigidShape,
    pub calc_method: PmxRigidCalcMethod,
}

/// A PMX joint between two rigid bodies (its integral fields).
#[derive(Debug, Clone)]
pub struct PmxJointCpu {
    pub name: String,
    pub name_en: String,
    pub a_rigid_index: i32,
    pub b_rigid_index: i32,
}

/// The rigid bodies and joints of a PMX model.
#[derive(Debug, Clone)]
pub struct PmxPhysicsMeta {
    pub rigid_bodies: Vec<PmxRigidBodyCpu>,
    pub joints: Vec<PmxJointCpu>,
}

impl Default for PmxPhysicsMeta {
    fn default() -> (res: Self)
        ensures
            res.rigid_bodies@.len() == 0,
            res.joints@.len() == 0,
    {
        PmxPhysicsMeta { rigid_bodies: Vec::new(), joints: Vec::new() }
    }
}

impl PmxPhysicsMeta {
    /// True when the model declares neither rigid bodies nor joints.
    pub fn is_empty(&self) -> (res: bool)
        ensures
            res == (self.rigid_bodies@.len() == 0 && self.joints@.len() == 0),
    {
        self.rigid_bodies.len() == 0 && self.joints.len() == 0
    }
}

/// A body of group `group` whose mask is `mask` collides with a body of
/// group `other_group`: its own group is a valid one (below 16) and the mask
/// does not exclude the other group (groups from 16 up have no mask bit).
pub open spec fn collision_pair_spec(group: u8, mask: u16, other_group: u8) -> bool {
    group < 16 && (other_group >= 16 || (mask >> other_group) & 1u16 == 0u16)
}

/// Whether two rigid bodies' collision groups allow a contact between them.
pub fn collision_pair_enabled(group: u8, mask: u16, other_group: u8) -> (res: bool)
    ensures
        res == collision_pair_spec(group, mask, other_group),
{
    let bit: u16 = if other_group < 16 {
        1u16 << other_group
    } else {
        0
    };
    assert(other_group < 16 ==> ((mask & (1u16 << other_group)) == 0u16 <==> (mask >> other_group)
        & 1u16 == 0u16)) by (bit_vector);
    assert(mask & 0u16 == 0u16) by (bit_vector);
    (mask & bit) == 0 && group < 16
}

/// A body that the physics step moves is attached to `bone`.
pub open spec fn simulated_body_on(bodies: Seq<PmxRigidBodyCpu>, bone: usize) -> bool {
    exists|r: int|
        0 <= r < bodies.len() && #[trigger] bodies[r].bone_index >= 0 && bodies[r].bone_index
            == bone && bodies[r].calc_method != PmxRigidCalcMethod::Static
}

/// Some link of the chain moves a bone that a simulated rigid body drives.
pub open spec fn chain_conflicts_spec(chain: IKChain, physics: Option<PmxPhysicsMeta>) -> bool {
    match physics {
        None => false,
        Some(meta) => exists|l: int|
            0 <= l < chain.links@.len() && simulated_body_on(
                meta.rigid_bodies@,
                #[trigger] chain.links@[l].bone_index,
            ),
    }
}

fn bone_is_simulated(meta: &PmxPhysicsMeta, bone: usize) -> (res: bool)
    ensures
        res == simulated_body_on(meta.rigid_bodies@, bone),
{
    let n = meta.rigid_bodies.len();
    for r in 0..n
        invariant
            n == meta.rigid_bodies@.len(),
            forall|k: int|
                0 <= k < r ==> !(#[trigger] meta.rigid_bodies@[k].bone_index >= 0
                    && meta.rigid_bodies@[k].bone_index == bone
                    && meta.rigid_bodies@[k].calc_method != PmxRigidCalcMethod::Static),
    {
        let rigid = &meta.rigid_bodies[r];
        if rigid.bone_index >= 0 && rigid.bone_index as usize == bone && !matches!(
            rigid.calc_method,
            PmxRigidCalcMethod::Static
        ) {
            assert(meta.rigid_bodies@[r as int].bone_index >= 0);
            return true;
        }
    }
    false
}

/// Whether an IK chain would fight the physics step: one of its links is a
/// bone that a simulated (non-static) rigid body drives.  Without physics
/// data there is no conflict.
pub fn ik_chain_conflicts_with_physics(chain: &IKChain, physics: Option<&PmxPhysicsMeta>) -> (res:
    bool)
    ensures
        res == chain_conflicts_spec(
            *chain,
            match physics {
                Some(m) => Some(*m),
                None => None,
            },
        ),
{
    let meta = match physics {
        Some(m) => m,
        None => {
            return false;
        },
    };
    let n = chain.links.len();
    for l in 0..n
        invariant
            n == chain.links@.len(),
            physics == Some(meta),
            forall|k: int|
                0 <= k < l ==> !simulated_body_on(meta.rigid_bodies@, #[trigger] chain.links@[k].bone_index),
    {
        if bone_is_simulated(meta, chain.links[l].bone_index) {
            return true;
        }
    }
    false
}

/// The indices, in order, of the first `n` IK chains that the pose stack
/// solves: while physics runs, chains that conflict with a simulated body
/// are left to the physics step.
pub open spec fn chains_to_solve_spec(
    chains: Seq<IKChain>,
    physics: Option<PmxPhysicsMeta>,
    physics_active: bool,
    n: nat,
) -> Seq<usize>
    decreases n,
{
    if n == 0 {
        Seq::empty()
    } else {
        let before = chains_to_solve_spec(chains, physics, physics_active, (n - 1) as nat);
        if physics_active && chain_conflicts_spec(chains[n - 1], physics) {
            before
        } else {
            before.push((n - 1) as usize)
        }
    }
}

/// The IK chains of a rig that the pose stack solves, in rig order (see
/// `chains_to_solve_spec`); the solving itself is done by the IK solver.
pub fn ik_chains_to_solve(
    chains: &Vec<IKChain>,
    physics: Option<&PmxPhysicsMeta>,
    physics_active: bool,
) -> (res: Vec<usize>)
    ensures
        res@ == chains_to_solve_spec(
            chains@,
            match physics {
                Some(m) => Some(*m),
                None => None,
            },
            physics_active,
            chains@.len(),
        ),
{
    let ghost phys = match physics {
        Some(m) => Some(*m),
        None => None,
    };
    let mut res: Vec<usize> = Vec::new();
    let n = chains.len();
    for i in 0..n
        invariant
            n == chains@.len(),
            phys == match physics {
                Some(m) => Some(*m),
                None => None,
            },
            res@ == chains_to_solve_spec(chains@, phys, physics_active, i as nat),
    {
        if !(physics_active && ik_chain_conflicts_with_physics(&chains[i], physics)) {
            res.push(i);
        }
    }
    res
}

/// Chain `i` is solved: physics is off, or the chain does not conflict with
/// a simulated body.
pub open spec fn chain_solved(
    chains: Seq<IKChain>,
    physics: Option<PmxPhysicsMeta>,
    physics_active: bool,
    i: int,
) -> bool {
    !(physics_active && chain_conflicts_spec(chains[i], physics))
}

proof fn lemma_solve_list_bounded(
    chains: Seq<IKChain>,
    physics: Option<PmxPhysicsMeta>,
    physics_active: bool,
    n: nat,
)
    requires
        n <= usize::MAX + 1,
    ensures
        forall|k: int|
            0 <= k < chains_to_solve_spec(chains, physics, physics_active, n).len() ==> (
            #[trigger] chains_to_solve_spec(chains, physics, physics_active, n)[k]) < n,
        forall|a: int, b: int|
            0 <= a < b < chains_to_solve_spec(chains, physics, physics_active, n).len() ==> (
            #[trigger] chains_to_solve_spec(chains, physics, physics_active, n)[a])
                < #[trigger] chains_to_solve_spec(chains, physics, physics_active, n)[b],
    decreases n,
{
    if n > 0 {
        let m = (n - 1) as nat;
        lemma_solve_list_bounded(chains, physics, physics_active, m);
        let before = chains_to_solve_spec(chains, physics, physics_active, m);
        let all = chains_to_solve_spec(chains, physics, physics_active, n);
        assert forall|k: int| 0 <= k < all.len() implies #[trigger] all[k] < n by {
            if k < before.len() {
                assert(all[k] == before[k]);
            }
        }
        assert forall|a: int, b: int| 0 <= a < b < all.len() implies #[trigger] all[a]
            < #[trigger] all[b] by {
            assert(all[a] == before[a]);
            if b < before.len() {
                assert(all[b] == before[b]);
            } else {
                assert(all[b] == m as usize);
                assert(before[a] < m);
            }
        }
    }
}

proof fn lemma_solve_list_members(
    chains: Seq<IKChain>,
    physics: Option<PmxPhysicsMeta>,
    physics_active: bool,
    n: nat,
    i: int,
)
    requires
        0 <= i < n,
        n <= usize::MAX + 1,
    ensures
        chains_to_solve_spec(chains, physics, physics_active, n).contains(i as usize) <==> chain_solved(
            chains,
            physics,
            physics_active,
            i,
        ),
    decreases n,
{
    let m = (n - 1) as nat;
    let before = chains_to_solve_spec(chains, physics, physics_active, m);
    let all = chains_to_solve_spec(chains, physics, physics_active, n);
    lemma_solve_list_bounded(chains, physics, physics_active, m);
    if i < m {
        lemma_solve_list_members(chains, physics, physics_active, m, i);
        if all.contains(i as usize) {
            let k = choose|k: int| 0 <= k < all.len() && all[k] == i as usize;
            if k < before.len() {
                assert(before[k] == i as usize);
            }
        }
        if before.contains(i as usize) {
            let k = choose|k: int| 0 <= k < before.len() && before[k] == i as usize;
            assert(all[k] == i as usize);
        }
    } else {
        if all.contains(i as usize) {
            let k = choose|k: int| 0 <= k < all.len() && all[k] == i as usize;
            if k < before.len() {
                assert(before[k] < m);
            }
        }
        if chain_solved(chains, physics, physics_active, i) {
            assert(all[before.len() as int] == i as usize);
        }
    }
}

/// Without active physics every chain is solved, in order; with it, a
/// chain is solved exactly when it does not conflict with a simulated body.
/// Chains are solved in increasing index order.
pub proof fn lemma_chains_to_solve(
    chains: Seq<IKChain>,
    physics: Option<PmxPhysicsMeta>,
    physics_active: bool,
    n: nat,
)
    requires
        n <= usize::MAX + 1,
    ensures
        !physics_active ==> chains_to_solve_spec(chains, physics, physics_active, n) == Seq::new(
            n,
            |i: int| i as usize,
        ),
        forall|i: int|
            0 <= i < n ==> (chains_to_solve_spec(chains, physics, physics_active, n).contains(
                i as usize,
            ) <==> #[trigger] chain_solved(chains, physics, physics_active, i)),
        forall|a: int, b: int|
            0 <= a < b < chains_to_solve_spec(chains, physics, physics_active, n).len() ==> (
            #[trigger] chains_to_solve_spec(chains, physics, physics_active, n)[a])
                < #[trigger] chains_to_solve_spec(chains, physics, physics_active, n)[b],
    decreases n,
{
    lemma_solve_list_bounded(chains, physics, physics_active, n);
    assert forall|i: int| 0 <= i < n implies (chains_to_solve_spec(
        chains,
        physics,
        physics_active,
        n,
    ).contains(i as usize) <==> #[trigger] chain_solved(chains, physics, physics_active, i)) by {
        lemma_solve_list_members(chains, physics, physics_active, n, i);
    }
    if !physics_active && n > 0 {
        lemma_chains_to_solve(chains, physics, physics_active, (n - 1) as nat);
        assert(chains_to_solve_spec(chains, physics, physics_active, n) =~= Seq::new(
            n,
            |i: int| i as usize,
        ));
    }
}

} // verus!
