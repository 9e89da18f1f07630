//! PMX rig metadata: bone flags, IK chain definitions and the evaluation order
//! of grant ("append") bones.

use vstd::prelude::*;

verus! {

/// Bone flag: the bone is driven by an IK solver.
pub const BONE_FLAG_IK: u16 = 0x0020;
/// Bone flag: grant transforms are applied in local space.
pub const BONE_FLAG_APPEND_LOCAL: u16 = 0x0080;
/// Bone flag: the bone inherits rotation from its grant source.
pub const BONE_FLAG_APPEND_ROTATION: u16 = 0x0100;
/// Bone flag: the bone inherits its position offset from its grant source.
pub const BONE_FLAG_APPEND_TRANSLATION: u16 = 0x0200;
/// Bone flag: the bone may only twist around a fixed axis.
pub const BONE_FLAG_FIXED_AXIS: u16 = 0x0400;
/// Bone flag: the bone declares a local coordinate frame.
pub const BONE_FLAG_LOCAL_AXIS: u16 = 0x0800;
/// Bone flag: the bone has an external parent.
pub const BONE_FLAG_EXTERNAL_PARENT: u16 = 0x2000;

/// The integral part of a PMX grant ("append") relation: which bone the
/// transform is inherited from and which channels it affects.  The blend
/// weight is a float and is carried by the rendering side.
#[derive(Debug, Clone, Copy, PartialEq, Eq, Structural)]
pub struct PmxGrantTransform {
    pub parent_index: usize,
    pub is_local: bool,
    pub affects_rotation: bool,
    pub affects_translation: bool,
}

/// Raw PMX bone metadata (the integral fields; positions and axes are floats
/// and stay with the renderer).
#[derive(Debug, Clone)]
pub struct PmxBoneMeta {
    pub name: String,
    pub name_en: String,
    pub parent_index: i32,
    pub deform_depth: i32,
    pub boneflag: u16,
    pub child: i32,
    pub append_bone_index: i32,
    pub grant_transform: Option<PmxGrantTransform>,
    pub key_value: i32,
    pub ik_target_index: i32,
    pub ik_iter_count: i32,
}

/// A single link in an IK chain.
#[derive(Debug, Clone, Copy, PartialEq, Eq, Structural)]
pub struct IKLink {
    /// Bone index in the skeleton.
    pub bone_index: usize,
}

/// An IK chain definition from PMX (its angle limits are floats and stay
/// with the solver).
#[derive(Debug, Clone)]
pub struct IKChain {
    pub controller_bone_index: usize,
    /// The effector bone that IK tries to bring onto the controller.
    pub target_bone_index: usize,
    /// Root of the IK chain (usually the first link).
    pub chain_root_bone_index: usize,
    /// Maximum iterations for the solver.
    pub iterations: u32,
    /// Links in the chain, from root towards target.
    pub links: Vec<IKLink>,
}

/// PMX-specific rig metadata extracted from a model.
#[derive(Debug, Clone)]
pub struct PmxRigMeta {
    /// Raw PMX bone metadata in loader order.
    pub bones: Vec<PmxBoneMeta>,
    /// All IK chains defined in the model.
    pub ik_chains: Vec<IKChain>,
    /// Grant evaluation order, sources before the bones that inherit from them.
    pub grant_evaluation_order: Vec<usize>,
    /// Grant bones that participated in a detected cycle of grant relations.
    pub grant_cycle_bones: Vec<usize>,
}

/// The bone selections that the rig statistics count.
#[derive(Debug, Clone, Copy, PartialEq, Eq, Structural)]
pub enum BoneQuery {
    Flag(u16),
    Ik,
    Append,
    Grant,
    LocalGrant,
    FixedAxis,
    LocalAxis,
    ExternalParent,
}

pub open spec fn has_flag_spec(bone: PmxBoneMeta, flag: u16) -> bool {
    bone.boneflag & flag != 0u16
}

/// Whether a bone belongs to the selection `q`.
pub open spec fn bone_matches(bone: PmxBoneMeta, q: BoneQuery) -> bool {
    match q {
        BoneQuery::Flag(flag) => has_flag_spec(bone, flag),
        BoneQuery::Ik => has_flag_spec(bone, BONE_FLAG_IK),
        BoneQuery::Append => has_flag_spec(bone, BONE_FLAG_APPEND_ROTATION) || has_flag_spec(
            bone,
            BONE_FLAG_APPEND_TRANSLATION,
        ),
        BoneQuery::Grant => bone.grant_transform is Some,
        BoneQuery::LocalGrant => bone.grant_transform matches Some(g) && g.is_local,
        BoneQuery::FixedAxis => has_flag_spec(bone, BONE_FLAG_FIXED_AXIS),
        BoneQuery::LocalAxis => has_flag_spec(bone, BONE_FLAG_LOCAL_AXIS),
        BoneQuery::ExternalParent => has_flag_spec(bone, BONE_FLAG_EXTERNAL_PARENT),
    }
}

/// Number of bones of `bones` in the selection `q`.
pub open spec fn count_bones(bones: Seq<PmxBoneMeta>, q: BoneQuery) -> nat
    decreases bones.len(),
{
    if bones.len() == 0 {
        0
    } else {
        count_bones(bones.drop_last(), q) + if bone_matches(bones.last(), q) {
            1nat
        } else {
            0nat
        }
    }
}

impl PmxBoneMeta {
    pub fn has_flag(&self, flag: u16) -> (res: bool)
        ensures
            res == has_flag_spec(*self, flag),
    {
        self.boneflag & flag != 0
    }

    pub fn uses_ik(&self) -> (res: bool)
        ensures
            res == has_flag_spec(*self, BONE_FLAG_IK),
    {
        self.has_flag(BONE_FLAG_IK)
    }

    pub fn uses_append_rotation(&self) -> (res: bool)
        ensures
            res == has_flag_spec(*self, BONE_FLAG_APPEND_ROTATION),
    {
        self.has_flag(BONE_FLAG_APPEND_ROTATION)
    }

    pub fn uses_append_translation(&self) -> (res: bool)
        ensures
            res == has_flag_spec(*self, BONE_FLAG_APPEND_TRANSLATION),
    {
        self.has_flag(BONE_FLAG_APPEND_TRANSLATION)
    }

    pub fn uses_append_local(&self) -> (res: bool)
        ensures
            res == has_flag_spec(*self, BONE_FLAG_APPEND_LOCAL),
    {
        self.has_flag(BONE_FLAG_APPEND_LOCAL)
    }

    pub fn uses_fixed_axis(&self) -> (res: bool)
        ensures
            res == has_flag_spec(*self, BONE_FLAG_FIXED_AXIS),
    {
        self.has_flag(BONE_FLAG_FIXED_AXIS)
    }

    pub fn uses_local_axis(&self) -> (res: bool)
        ensures
            res == has_flag_spec(*self, BONE_FLAG_LOCAL_AXIS),
    {
        self.has_flag(BONE_FLAG_LOCAL_AXIS)
    }

    pub fn uses_external_parent(&self) -> (res: bool)
        ensures
            res == has_flag_spec(*self, BONE_FLAG_EXTERNAL_PARENT),
    {
        self.has_flag(BONE_FLAG_EXTERNAL_PARENT)
    }

    fn matches_query(&self, q: BoneQuery) -> (res: bool)
        ensures
            res == bone_matches(*self, q),
    {
        match q {
            BoneQuery::Flag(flag) => self.has_flag(flag),
            BoneQuery::Ik => self.uses_ik(),
            BoneQuery::Append => self.uses_append_rotation() || self.uses_append_translation(),
            BoneQuery::Grant => self.grant_transform.is_some(),
            BoneQuery::LocalGrant => match &self.grant_transform {
                Some(g) => g.is_local,
                None => false,
            },
            BoneQuery::FixedAxis => self.uses_fixed_axis(),
            BoneQuery::LocalAxis => self.uses_local_axis(),
            BoneQuery::ExternalParent => self.uses_external_parent(),
        }
    }
}

fn count_matching(bones: &Vec<PmxBoneMeta>, q: BoneQuery) -> (res: usize)
    ensures
        res == count_bones(bones@, q),
{
    let mut count: usize = 0;
    let n = bones.len();
    for i in 0..n
        invariant
            n == bones@.len(),
            count == count_bones(bones@.take(i as int), q),
            count <= i,
    {
        assert(bones@.take(i + 1).drop_last() =~= bones@.take(i as int));
        if bones[i].matches_query(q) {
            count = count + 1;
        }
    }
    assert(bones@.take(n as int) =~= bones@);
    count
}

impl Default for PmxRigMeta {
    fn default() -> (res: Self)
        ensures
            res.bones@.len() == 0,
            res.ik_chains@.len() == 0,
            res.grant_evaluation_order@.len() == 0,
            res.grant_cycle_bones@.len() == 0,
    {
        PmxRigMeta {
            bones: Vec::new(),
            ik_chains: Vec::new(),
            grant_evaluation_order: Vec::new(),
            grant_cycle_bones: Vec::new(),
        }
    }
}

impl PmxRigMeta {
    /// Returns true if there are no IK chains.
    pub fn is_empty(&self) -> (res: bool)
        ensures
            res == (self.ik_chains@.len() == 0),
    {
        self.ik_chains.len() == 0
    }

    pub fn count_bones_with_flag(&self, flag: u16) -> (res: usize)
        ensures
            res == count_bones(self.bones@, BoneQuery::Flag(flag)),
    {
        count_matching(&self.bones, BoneQuery::Flag(flag))
    }

    pub fn count_bones_with_ik(&self) -> (res: usize)
        ensures
            res == count_bones(self.bones@, BoneQuery::Ik),
    {
        count_matching(&self.bones, BoneQuery::Ik)
    }

    pub fn count_bones_with_append(&self) -> (res: usize)
        ensures
            res == count_bones(self.bones@, BoneQuery::Append),
    {
        count_matching(&self.bones, BoneQuery::Append)
    }

    pub fn count_bones_with_grant(&self) -> (res: usize)
        ensures
            res == count_bones(self.bones@, BoneQuery::Grant),
    {
        count_matching(&self.bones, BoneQuery::Grant)
    }

    pub fn count_bones_with_local_grant(&self) -> (res: usize)
        ensures
            res == count_bones(self.bones@, BoneQuery::LocalGrant),
    {
        count_matching(&self.bones, BoneQuery::LocalGrant)
    }

    pub fn count_bones_with_fixed_axis(&self) -> (res: usize)
        ensures
            res == count_bones(self.bones@, BoneQuery::FixedAxis),
    {
        count_matching(&self.bones, BoneQuery::FixedAxis)
    }

    pub fn count_bones_with_local_axis(&self) -> (res: usize)
        ensures
            res == count_bones(self.bones@, BoneQuery::LocalAxis),
    {
        count_matching(&self.bones, BoneQuery::LocalAxis)
    }

    pub fn count_bones_with_external_parent(&self) -> (res: usize)
        ensures
            res == count_bones(self.bones@, BoneQuery::ExternalParent),
    {
        count_matching(&self.bones, BoneQuery::ExternalParent)
    }
}

/// Two selections that agree on every bone count the same bones.
proof fn lemma_count_same_selection(bones: Seq<PmxBoneMeta>, q1: BoneQuery, q2: BoneQuery)
    requires
        forall|b: PmxBoneMeta| bone_matches(b, q1) == bone_matches(b, q2),
    ensures
        count_bones(bones, q1) == count_bones(bones, q2),
    decreases bones.len(),
{
    if bones.len() > 0 {
        lemma_count_same_selection(bones.drop_last(), q1, q2);
    }
}

/// A selection contained in another counts no more bones.
proof fn lemma_count_sub_selection(bones: Seq<PmxBoneMeta>, q1: BoneQuery, q2: BoneQuery)
    requires
        forall|b: PmxBoneMeta| bone_matches(b, q1) ==> bone_matches(b, q2),
    ensures
        count_bones(bones, q1) <= count_bones(bones, q2),
    decreases bones.len(),
{
    if bones.len() > 0 {
        lemma_count_sub_selection(bones.drop_last(), q1, q2);
    }
}

/// No selection counts more bones than there are.
proof fn lemma_count_at_most_len(bones: Seq<PmxBoneMeta>, q: BoneQuery)
    ensures
        count_bones(bones, q) <= bones.len(),
    decreases bones.len(),
{
    if bones.len() > 0 {
        lemma_count_at_most_len(bones.drop_last(), q);
    }
}

/// The named flag statistics are the flag count of their flag bit: IK bones
/// are the bones with flag 0x0020, fixed-axis bones those with 0x0400,
/// local-axis bones those with 0x0800 and external-parent bones those with
/// 0x2000; local grants are a subset of grants, and no statistic exceeds
/// the number of bones.
pub proof fn lemma_rig_statistics_agree(bones: Seq<PmxBoneMeta>, q: BoneQuery)
    ensures
        count_bones(bones, BoneQuery::Ik) == count_bones(bones, BoneQuery::Flag(BONE_FLAG_IK)),
        count_bones(bones, BoneQuery::FixedAxis) == count_bones(
            bones,
            BoneQuery::Flag(BONE_FLAG_FIXED_AXIS),
        ),
        count_bones(bones, BoneQuery::LocalAxis) == count_bones(
            bones,
            BoneQuery::Flag(BONE_FLAG_LOCAL_AXIS),
        ),
        count_bones(bones, BoneQuery::ExternalParent) == count_bones(
            bones,
            BoneQuery::Flag(BONE_FLAG_EXTERNAL_PARENT),
        ),
        count_bones(bones, BoneQuery::LocalGrant) <= count_bones(bones, BoneQuery::Grant),
        count_bones(bones, q) <= bones.len(),
{
    lemma_count_same_selection(bones, BoneQuery::Ik, BoneQuery::Flag(BONE_FLAG_IK));
    lemma_count_same_selection(bones, BoneQuery::FixedAxis, BoneQuery::Flag(BONE_FLAG_FIXED_AXIS));
    lemma_count_same_selection(bones, BoneQuery::LocalAxis, BoneQuery::Flag(BONE_FLAG_LOCAL_AXIS));
    lemma_count_same_selection(
        bones,
        BoneQuery::ExternalParent,
        BoneQuery::Flag(BONE_FLAG_EXTERNAL_PARENT),
    );
    lemma_count_sub_selection(bones, BoneQuery::LocalGrant, BoneQuery::Grant);
    lemma_count_at_most_len(bones, q);
}


// ---------------------------------------------------------------------------
// Grant evaluation order
// ---------------------------------------------------------------------------

/// Bone `i` exists and carries a grant relation.
pub open spec fn is_grant_bone(bones: Seq<PmxBoneMeta>, i: int) -> bool {
    0 <= i < bones.len() && bones[i].grant_transform is Some
}

/// The grant source that bone `i` inherits from, where that source is itself
/// a grant bone other than `i`: the edges the evaluation order must respect.
pub open spec fn grant_source(bones: Seq<PmxBoneMeta>, i: int) -> Option<int> {
    if is_grant_bone(bones, i) {
        let p = bones[i].grant_transform->0.parent_index as int;
        if p != i && is_grant_bone(bones, p) {
            Some(p)
        } else {
            None
        }
    } else {
        None
    }
}

/// The bone reached from `i` after following `n` grant-source edges.
pub open spec fn grant_step(bones: Seq<PmxBoneMeta>, i: int, n: nat) -> Option<int>
    decreases n,
{
    if n == 0 {
        Some(i)
    } else {
        match grant_step(bones, i, (n - 1) as nat) {
            Some(j) => grant_source(bones, j),
            None => None,
        }
    }
}

/// Bone `c` lies on a cycle of grant-source edges.
pub open spec fn on_grant_cycle(bones: Seq<PmxBoneMeta>, c: int) -> bool {
    exists|n: nat| n >= 1 && grant_step(bones, c, n) == Some(c)
}

/// The order in which grant bones are visited: by deform depth, then index.
pub open spec fn grant_key_lt(bones: Seq<PmxBoneMeta>, a: int, b: int) -> bool {
    bones[a].deform_depth < bones[b].deform_depth || (bones[a].deform_depth
        == bones[b].deform_depth && a < b)
}

/// `order` lists each grant bone exactly once, puts every grant source before
/// the bones inheriting from it unless that source closes a cycle, and
/// `cycles` lists, in increasing order, grant bones lying on a cycle.
pub open spec fn grant_order_valid(
    bones: Seq<PmxBoneMeta>,
    order: Seq<usize>,
    cycles: Seq<usize>,
) -> bool {
    &&& order.no_duplicates()
    &&& forall|i: usize| #[trigger] order.contains(i) <==> is_grant_bone(bones, i as int)
    &&& forall|k: int|
        0 <= k < order.len() ==> (#[trigger] grant_source(bones, order[k] as int) matches Some(p)
            ==> (exists|j: int| 0 <= j < k && order[j] == p) || cycles.contains(p as usize))
    &&& forall|a: int, b: int| 0 <= a < b < cycles.len() ==> cycles[a] < cycles[b]
    &&& forall|c: usize|
        #[trigger] cycles.contains(c) ==> is_grant_bone(bones, c as int) && on_grant_cycle(
            bones,
            c as int,
        )
}


/// The grant bones listed once each, by increasing deform depth and then
/// index: the order in which the traversal starts from them.
pub open spec fn grant_keys_in_order(bones: Seq<PmxBoneMeta>, keys: Seq<usize>) -> bool {
    &&& forall|i: usize| #[trigger] keys.contains(i) <==> is_grant_bone(bones, i as int)
    &&& forall|a: int, b: int|
        0 <= a < b < keys.len() ==> grant_key_lt(bones, keys[a] as int, keys[b] as int)
}

/// The grant bones in the order the traversal starts from them.
pub open spec fn grant_key_order(bones: Seq<PmxBoneMeta>) -> Seq<usize> {
    choose|keys: Seq<usize>| grant_keys_in_order(bones, keys)
}

/// The chain walked from the last bone of `chain`: its grant source is
/// appended, and so on, until the source is missing, already evaluated
/// (in `done`), or already on the chain.
pub open spec fn grant_walk(bones: Seq<PmxBoneMeta>, done: Seq<usize>, chain: Seq<usize>) -> Seq<
    usize,
>
    decreases bones.len() - chain.len(),
{
    if chain.len() == 0 || chain.len() >= bones.len() {
        chain
    } else {
        match grant_source(bones, chain.last() as int) {
            Some(p) => if done.contains(p as usize) || chain.contains(p as usize) {
                chain
            } else {
                grant_walk(bones, done, chain.push(p as usize))
            },
            None => chain,
        }
    }
}

/// The bone at which a walked chain closes a cycle, if it does.
pub open spec fn walk_hit(bones: Seq<PmxBoneMeta>, done: Seq<usize>, full: Seq<usize>) -> Option<
    usize,
> {
    match grant_source(bones, full.last() as int) {
        Some(p) => if !done.contains(p as usize) && full.contains(p as usize) {
            Some(p as usize)
        } else {
            None
        },
        None => None,
    }
}

/// The part of a walked chain `full` from the bone `h` on: the bones of the
/// cycle that the walk closed at `h`.
pub open spec fn cycle_segment(full: Seq<usize>, h: usize) -> Seq<usize> {
    full.subrange(choose|m: int| 0 <= m < full.len() && full[m] == h, full.len() as int)
}

/// The bones of the cycle a walked chain closes, if it closes one.
pub open spec fn walk_cycle(bones: Seq<PmxBoneMeta>, done: Seq<usize>, full: Seq<usize>) -> Seq<
    usize,
> {
    match walk_hit(bones, done, full) {
        Some(h) => cycle_segment(full, h),
        None => Seq::empty(),
    }
}

/// The evaluation order, and the cycle bones in the order they were met,
/// of a depth-first traversal starting from the grant bones `keys` in turn:
/// a bone not yet evaluated contributes its walked chain, farthest source
/// first, and every bone of the cycle that chain closes, if any.
pub open spec fn grant_dfs(bones: Seq<PmxBoneMeta>, keys: Seq<usize>) -> (Seq<usize>, Seq<usize>)
    decreases keys.len(),
{
    if keys.len() == 0 {
        (Seq::empty(), Seq::empty())
    } else {
        let (order, hits) = grant_dfs(bones, keys.drop_last());
        let s = keys.last();
        if order.contains(s) {
            (order, hits)
        } else {
            let full = grant_walk(bones, order, seq![s]);
            (order + full.reverse(), hits + walk_cycle(bones, order, full))
        }
    }
}

/// Two sequences with the same elements, each strictly increasing by grant
/// key, are equal.
proof fn lemma_key_order_unique(bones: Seq<PmxBoneMeta>, k1: Seq<usize>, k2: Seq<usize>)
    requires
        forall|i: usize| #![trigger k1.contains(i)] #![trigger k2.contains(i)] k1.contains(i) <==> k2.contains(i),
        forall|a: int, b: int|
            0 <= a < b < k1.len() ==> grant_key_lt(bones, k1[a] as int, k1[b] as int),
        forall|a: int, b: int|
            0 <= a < b < k2.len() ==> grant_key_lt(bones, k2[a] as int, k2[b] as int),
    ensures
        k1 == k2,
    decreases k1.len(),
{
    if k1.len() == 0 {
        if k2.len() > 0 {
            assert(k2.contains(k2[0]));
        }
        assert(k1 =~= k2);
    } else {
        let x = k1.last();
        assert(k1.contains(x));
        assert(k2.contains(x));
        let y = k2.last();
        assert(k2.contains(y));
        assert(k1.contains(y));
        if x != y {
            let i = choose|i: int| 0 <= i < k1.len() && k1[i] == y;
            let j = choose|j: int| 0 <= j < k2.len() && k2[j] == x;
            assert(grant_key_lt(bones, y as int, x as int));
            assert(grant_key_lt(bones, x as int, y as int));
        }
        let d1 = k1.drop_last();
        let d2 = k2.drop_last();
        assert forall|i: usize| #[trigger] d1.contains(i) <==> d2.contains(i) by {
            if d1.contains(i) {
                let a = choose|a: int| 0 <= a < d1.len() && d1[a] == i;
                assert(grant_key_lt(bones, k1[a] as int, x as int));
                assert(k1[a] == i);
                assert(k1.contains(i));
                assert(k2.contains(i));
                let b = choose|b: int| 0 <= b < k2.len() && k2[b] == i;
                assert(b != k2.len() - 1);
                assert(d2[b] == i);
            }
            if d2.contains(i) {
                let b = choose|b: int| 0 <= b < d2.len() && d2[b] == i;
                assert(grant_key_lt(bones, k2[b] as int, y as int));
                assert(k2[b] == i);
                assert(k2.contains(i));
                assert(k1.contains(i));
                let a = choose|a: int| 0 <= a < k1.len() && k1[a] == i;
                assert(a != k1.len() - 1);
                assert(d1[a] == i);
            }
        }
        lemma_key_order_unique(bones, d1, d2);
        assert(k1 =~= d1.push(x));
        assert(k2 =~= d2.push(y));
    }
}

/// A sequence of distinct values below `n` has at most `n` elements.
proof fn lemma_distinct_below_len(s: Seq<usize>, n: nat)
    requires
        s.no_duplicates(),
        forall|i: int| 0 <= i < s.len() ==> s[i] < n,
    ensures
        s.len() <= n,
    decreases n,
{
    if s.len() > 0 {
        if n == 0 {
            assert(s[0] < n);
        } else if exists|k: int| 0 <= k < s.len() && s[k] == n - 1 {
            let k = choose|k: int| 0 <= k < s.len() && s[k] == n - 1;
            let rest = s.remove(k);
            s.remove_ensures(k);
            assert forall|i: int| 0 <= i < rest.len() implies rest[i] < (n - 1) as nat by {
                if i < k {
                    assert(s[i] != s[k]);
                } else {
                    assert(s[i + 1] != s[k]);
                }
            }
            assert forall|i: int, j: int|
                0 <= i < rest.len() && 0 <= j < rest.len() && i != j implies rest[i]
                != rest[j] by {
                let si = if i < k {
                    i
                } else {
                    i + 1
                };
                let sj = if j < k {
                    j
                } else {
                    j + 1
                };
                assert(rest[i] == s[si] && rest[j] == s[sj]);
            }
            lemma_distinct_below_len(rest, (n - 1) as nat);
        } else {
            assert forall|i: int| 0 <= i < s.len() implies s[i] < (n - 1) as nat by {
                assert(s[i] != n - 1);
            }
            lemma_distinct_below_len(s, (n - 1) as nat);
        }
    }
}

/// Along a chain of grant-source edges, position `q` is reached from
/// position `m` in `q - m` steps.
proof fn lemma_chain_steps(bones: Seq<PmxBoneMeta>, ch: Seq<usize>, m: int, q: int)
    requires
        0 <= m <= q < ch.len(),
        forall|t: int|
            0 <= t < ch.len() - 1 ==> grant_source(bones, ch[t] as int) == Some(ch[t + 1] as int),
    ensures
        grant_step(bones, ch[m] as int, (q - m) as nat) == Some(ch[q] as int),
    decreases q - m,
{
    if q > m {
        lemma_chain_steps(bones, ch, m, q - 1);
        assert(grant_source(bones, ch[q - 1] as int) == Some(ch[q] as int));
    }
}


/// What holds of the traversal state between two visits: every bone is
/// unvisited (0) or finished (2), the finished bones are exactly those in
/// `order`, and `order`/`cycles` satisfy the evaluation-order properties
/// for the bones finished so far.
spec fn traversal_inv(
    bones: Seq<PmxBoneMeta>,
    st: Seq<u8>,
    order: Seq<usize>,
    cycles: Seq<usize>,
) -> bool {
    &&& st.len() == bones.len()
    &&& forall|i: int| 0 <= i < st.len() ==> (st[i] == 0 || st[i] == 2)
    &&& forall|i: usize| i < st.len() ==> (st[i as int] == 2 <==> order.contains(i))
    &&& order_part_valid(bones, order, cycles)
}

/// The evaluation-order properties of a partial order.
spec fn order_part_valid(bones: Seq<PmxBoneMeta>, order: Seq<usize>, cycles: Seq<usize>) -> bool {
    &&& forall|j: int| 0 <= j < order.len() ==> is_grant_bone(bones, #[trigger] order[j] as int)
    &&& order.no_duplicates()
    &&& forall|k: int|
        0 <= k < order.len() ==> (#[trigger] grant_source(bones, order[k] as int) matches Some(p)
            ==> (exists|j: int| 0 <= j < k && order[j] == p) || cycles.contains(p as usize))
    &&& cycles.no_duplicates()
    &&& forall|c: usize| #[trigger]
        cycles.contains(c) ==> order.contains(c) && on_grant_cycle(bones, c as int)
}


/// Finishing a visited chain (pushed in reverse after the bones finished
/// earlier) keeps the evaluation-order properties.
proof fn lemma_finish_visit(
    bones: Seq<PmxBoneMeta>,
    o0: Seq<usize>,
    c0: Seq<usize>,
    c1: Seq<usize>,
    full: Seq<usize>,
    hit: Option<usize>,
    order: Seq<usize>,
)
    requires
        order_part_valid(bones, o0, c0),
        full.len() >= 1,
        full.no_duplicates(),
        forall|m: int| 0 <= m < full.len() ==> is_grant_bone(bones, #[trigger] full[m] as int),
        forall|m: int|
            0 <= m < full.len() - 1 ==> grant_source(bones, #[trigger] full[m] as int) == Some(
                full[m + 1] as int,
            ),
        forall|m: int| 0 <= m < full.len() ==> !o0.contains(#[trigger] full[m]),
        order == o0 + Seq::new(full.len(), |k: int| full[full.len() - 1 - k]),
        hit matches Some(h) ==> full.contains(h) && grant_source(bones, full[full.len() - 1] as int)
            == Some(h as int) && c1 == c0 + cycle_segment(full, h) && cycle_ok(bones, full, h, c0),
        hit is None ==> c1 == c0 && (grant_source(bones, full[full.len() - 1] as int) matches Some(
            p,
        ) ==> o0.contains(p as usize)),
    ensures
        order_part_valid(bones, order, c1),
        forall|i: usize| #[trigger] order.contains(i) <==> (o0.contains(i) || full.contains(i)),
{
    let len = full.len();
    let base = o0.len();
    assert forall|k: int| 0 <= k < order.len() implies (k < base ==> order[k] == o0[k]) && (k
        >= base ==> order[k] == full[len - 1 - (k - base)]) by {}
    assert forall|c: usize| #[trigger] c0.contains(c) implies c1.contains(c) by {
        if hit is Some {
            let k = choose|k: int| 0 <= k < c0.len() && c0[k] == c;
            assert(c1[k] == c);
        }
    }
    assert forall|i: usize| #[trigger] order.contains(i) <==> (o0.contains(i) || full.contains(i)) by {
        if order.contains(i) {
            let k = choose|k: int| 0 <= k < order.len() && order[k] == i;
            if k >= base {
                assert(full[len - 1 - (k - base)] == i);
            }
        }
        if o0.contains(i) {
            let k = choose|k: int| 0 <= k < o0.len() && o0[k] == i;
            assert(order[k] == i);
        }
        if full.contains(i) {
            let m = choose|m: int| 0 <= m < len && full[m] == i;
            assert(order[base + (len - 1 - m)] == i);
        }
    }
    // every entry is a grant bone
    assert forall|j: int| 0 <= j < order.len() implies is_grant_bone(
        bones,
        #[trigger] order[j] as int,
    ) by {
        if j >= base {
            assert(is_grant_bone(bones, full[len - 1 - (j - base)] as int));
        }
    }
    // no duplicates
    assert forall|i: int, j: int|
        0 <= i < order.len() && 0 <= j < order.len() && i != j implies order[i] != order[j] by {
        if i < base && j >= base {
            assert(!o0.contains(full[len - 1 - (j - base)]));
        } else if i >= base && j < base {
            assert(!o0.contains(full[len - 1 - (i - base)]));
        }
    }
    // sources come first unless they close a cycle
    assert forall|k: int| 0 <= k < order.len() implies (#[trigger] grant_source(
        bones,
        order[k] as int,
    ) matches Some(p) ==> (exists|j: int| 0 <= j < k && order[j] == p) || c1.contains(
        p as usize,
    )) by {
        if let Some(p) = grant_source(bones, order[k] as int) {
            if k < base {
                if !c0.contains(p as usize) {
                    let j = choose|j: int| 0 <= j < k && o0[j] == p;
                    assert(order[j] == p);
                }
            } else {
                let t = k - base;
                let m = len - 1 - t;
                if t > 0 {
                    assert(grant_source(bones, full[m] as int) == Some(full[m + 1] as int));
                    assert(order[k - 1] == full[m + 1]);
                } else {
                    if hit is None {
                        assert(o0.contains(p as usize));
                        let j = choose|j: int| 0 <= j < o0.len() && o0[j] == p;
                        assert(order[j] == p);
                    } else {
                        let h = hit->0;
                        let seg = cycle_segment(full, h);
                        let q = choose|q: int| 0 <= q < seg.len() && seg[q] == h;
                        assert(c1[c0.len() + q] == h);
                    }
                }
            }
        }
    }
    // cycle entries
    assert forall|c: usize| #[trigger] c1.contains(c) implies order.contains(c) && on_grant_cycle(
        bones,
        c as int,
    ) by {
        if let Some(h) = hit {
            let seg = cycle_segment(full, h);
            let k = choose|k: int| 0 <= k < c1.len() && c1[k] == c;
            if k < c0.len() {
                assert(c0[k] == c);
                assert(c0.contains(c));
            } else {
                assert(seg[k - c0.len()] == c);
                assert(seg.contains(c));
            }
        } else {
            assert(c0.contains(c));
        }
    }
    if let Some(h) = hit {
        let seg = cycle_segment(full, h);
        assert forall|i: int, j: int|
            0 <= i < c1.len() && 0 <= j < c1.len() && i != j implies c1[i] != c1[j] by {
            if i < c0.len() && j < c0.len() {
                assert(c1[i] == c0[i] && c1[j] == c0[j]);
            } else if i >= c0.len() && j >= c0.len() {
                assert(c1[i] == seg[i - c0.len()] && c1[j] == seg[j - c0.len()]);
            } else if i < c0.len() {
                assert(seg.contains(c1[j])) by {
                    assert(seg[j - c0.len()] == c1[j]);
                }
                assert(c0.contains(c1[i]));
            } else {
                assert(seg.contains(c1[i])) by {
                    assert(seg[i - c0.len()] == c1[i]);
                }
                assert(c0.contains(c1[j]));
            }
        }
    }
}

/// The cycle segment of a walk closed at `h`: distinct bones of the walk,
/// each on a cycle, none recorded before, `h` among them.
spec fn cycle_ok(bones: Seq<PmxBoneMeta>, full: Seq<usize>, h: usize, c0: Seq<usize>) -> bool {
    let seg = cycle_segment(full, h);
    &&& seg.no_duplicates()
    &&& seg.contains(h)
    &&& forall|x: usize| #[trigger]
        seg.contains(x) ==> full.contains(x) && on_grant_cycle(bones, x as int) && !c0.contains(x)
}

/// In a chain without repeats, the segment from the position `m` of `h`.
proof fn lemma_cycle_segment_at(full: Seq<usize>, h: usize, m: int)
    requires
        full.no_duplicates(),
        0 <= m < full.len(),
        full[m] == h,
    ensures
        cycle_segment(full, h) == full.subrange(m, full.len() as int),
        cycle_segment(full, h).no_duplicates(),
        cycle_segment(full, h).contains(h),
        forall|x: usize| #[trigger] cycle_segment(full, h).contains(x) ==> full.contains(x),
{
    let w = choose|w: int| 0 <= w < full.len() && full[w] == h;
    assert(w == m);
    let seg = full.subrange(m, full.len() as int);
    assert(seg[0] == h);
    assert forall|x: usize| #[trigger] seg.contains(x) implies full.contains(x) by {
        let k = choose|k: int| 0 <= k < seg.len() && seg[k] == x;
        assert(full[m + k] == x);
    }
}

/// Following `a` grant-source steps from `i` to `j`, then `b` more, is the
/// same as following `b` steps from `j`.
proof fn lemma_step_compose(bones: Seq<PmxBoneMeta>, i: int, a: nat, b: nat, j: int)
    requires
        grant_step(bones, i, a) == Some(j),
    ensures
        grant_step(bones, i, a + b) == grant_step(bones, j, b),
    decreases b,
{
    if b > 0 {
        lemma_step_compose(bones, i, a, (b - 1) as nat, j);
        assert(grant_step(bones, i, a + b) == match grant_step(bones, i, (a + b - 1) as nat) {
            Some(x) => grant_source(bones, x),
            None => None,
        });
    }
}

/// When a walked chain's last source is its bone at `m`, every bone from `m`
/// on lies on a cycle.
proof fn lemma_segment_on_cycle(bones: Seq<PmxBoneMeta>, full: Seq<usize>, m: int)
    requires
        0 <= m < full.len(),
        forall|t: int|
            0 <= t < full.len() - 1 ==> grant_source(bones, #[trigger] full[t] as int) == Some(
                full[t + 1] as int,
            ),
        grant_source(bones, full[full.len() - 1] as int) == Some(full[m] as int),
    ensures
        forall|t: int| m <= t < full.len() ==> on_grant_cycle(bones, #[trigger] full[t] as int),
{
    let len = full.len();
    assert forall|t: int| m <= t < len implies on_grant_cycle(bones, #[trigger] full[t] as int) by {
        lemma_chain_steps(bones, full, t, len - 1);
        assert(grant_step(bones, full[t] as int, (len - t) as nat) == Some(full[m] as int)) by {
            assert(grant_step(bones, full[t] as int, (len - t) as nat) == match grant_step(
                bones,
                full[t] as int,
                (len - 1 - t) as nat,
            ) {
                Some(x) => grant_source(bones, x),
                None => None,
            });
        }
        lemma_chain_steps(bones, full, m, t);
        lemma_step_compose(bones, full[t] as int, (len - t) as nat, (t - m) as nat, full[m] as int);
        assert(grant_step(bones, full[t] as int, (len - m) as nat) == Some(full[t] as int));
    }
}

/// Visits the unvisited grant bone `s`: walks its chain of grant sources up
/// to a finished bone, a bone without a grant source, or a bone of the chain
/// itself (a cycle, recorded in `cycles`), then finishes the chain from the
/// farthest source back to `s`.
fn visit_grant_chain(
    bones: &Vec<PmxBoneMeta>,
    s: usize,
    state: &mut Vec<u8>,
    order: &mut Vec<usize>,
    cycles: &mut Vec<usize>,
)
    requires
        traversal_inv(bones@, old(state)@, old(order)@, old(cycles)@),
        is_grant_bone(bones@, s as int),
        old(state)@[s as int] == 0,
    ensures
        traversal_inv(bones@, final(state)@, final(order)@, final(cycles)@),
        final(state)@[s as int] == 2,
        forall|i: int| 0 <= i < old(state)@.len() && old(state)@[i] == 2 ==> final(state)@[i] == 2,
        final(order)@ == old(order)@ + grant_walk(bones@, old(order)@, seq![s]).reverse(),
        final(cycles)@ == old(cycles)@ + walk_cycle(
            bones@,
            old(order)@,
            grant_walk(bones@, old(order)@, seq![s]),
        ),
{
    let n = bones.len();
    let ghost o0 = order@;
    let ghost c0 = cycles@;
    let ghost st0 = state@;
    let mut chain: Vec<usize> = Vec::new();
    chain.push(s);
    state.set(s, 1);
    let mut cur = s;
    let mut hit: Option<usize> = None;
    proof {
        assert(chain@ =~= seq![s]);
        assert forall|i: usize| i < n implies (state@[i as int] == 1 <==> chain@.contains(i)) by {
            if i == s {
                assert(chain@[0] == s);
            }
        }
    }
    loop
        invariant_except_break
            hit is None,
        invariant
            n == bones@.len(),
            state@.len() == n,
            order@ == o0,
            cycles@ == c0,
            order_part_valid(bones@, o0, c0),
            chain@.len() >= 1,
            chain@[0] == s,
            cur == chain@.last(),
            forall|m: int|
                0 <= m < chain@.len() ==> chain@[m] < n && is_grant_bone(
                    bones@,
                    #[trigger] chain@[m] as int,
                ),
            chain@.no_duplicates(),
            forall|m: int|
                0 <= m < chain@.len() - 1 ==> grant_source(bones@, #[trigger] chain@[m] as int)
                    == Some(chain@[m + 1] as int),
            forall|i: int| 0 <= i < n ==> state@[i] <= 2,
            forall|i: usize| i < n ==> (state@[i as int] == 2 <==> o0.contains(i)),
            forall|i: usize| i < n ==> (state@[i as int] == 1 <==> chain@.contains(i)),
            forall|i: int| 0 <= i < n && st0[i] == 2 ==> state@[i] == 2,
            st0.len() == n,
            grant_walk(bones@, o0, chain@) == grant_walk(bones@, o0, seq![s]),
        ensures
            hit matches Some(h) ==> chain@.contains(h) && grant_source(bones@, cur as int) == Some(
                h as int,
            ),
            hit is None ==> (grant_source(bones@, cur as int) matches Some(p) ==> o0.contains(
                p as usize,
            )),
            grant_walk(bones@, o0, chain@) == chain@,
            hit == walk_hit(bones@, o0, chain@),
        decreases n - chain@.len(),
    {
        let p: usize = match &bones[cur].grant_transform {
            Some(g) => g.parent_index,
            None => {
                proof {
                    assert(is_grant_bone(bones@, chain@[chain@.len() - 1] as int));
                }
                break ;
            },
        };
        if p < n && p != cur && bones[p].grant_transform.is_some() {
            let st = state[p];
            if st == 2 {
                proof {
                    assert(o0.contains(p));
                    reveal_with_fuel(grant_walk, 1);
                }
                break ;
            }
            if st == 1 {
                hit = Some(p);
                proof {
                    assert(chain@.contains(p));
                    assert(!o0.contains(p));
                    reveal_with_fuel(grant_walk, 1);
                }
                break ;
            }
            proof {
                assert(!chain@.contains(p));
                let ext = chain@.push(p);
                assert forall|i: int, j: int|
                    0 <= i < ext.len() && 0 <= j < ext.len() && i != j implies ext[i]
                    != ext[j] by {
                    if i < chain@.len() && j < chain@.len() {
                        assert(ext[i] == chain@[i] && ext[j] == chain@[j]);
                    } else if i < chain@.len() {
                        assert(chain@.contains(ext[i]));
                    } else {
                        assert(chain@.contains(ext[j]));
                    }
                }
                lemma_distinct_below_len(ext, n as nat);
            }
            let ghost prev = chain@;
            let ghost st_prev = state@;
            state.set(p, 1);
            chain.push(p);
            cur = p;
            proof {
                assert forall|i: int| 0 <= i < n && i != p implies state@[i] == st_prev[i] by {}
                assert forall|i: usize| i < n implies (state@[i as int] == 1 <==> chain@.contains(
                    i,
                )) by {
                    if i == p {
                        assert(chain@[prev.len() as int] == p);
                    } else if state@[i as int] == 1 {
                        assert(st_prev[i as int] == 1);
                        assert(prev.contains(i));
                        let k = choose|k: int| 0 <= k < prev.len() && prev[k] == i;
                        assert(chain@[k] == i);
                    } else if chain@.contains(i) {
                        let k = choose|k: int| 0 <= k < chain@.len() && chain@[k] == i;
                        assert(prev[k] == i);
                        assert(prev.contains(i));
                        assert(st_prev[i as int] == 1);
                    }
                }
                assert forall|m: int|
                    0 <= m < chain@.len() - 1 implies grant_source(bones@, #[trigger] chain@[m] as int)
                    == Some(chain@[m + 1] as int) by {
                    if m < prev.len() - 1 {
                        assert(chain@[m] == prev[m] && chain@[m + 1] == prev[m + 1]);
                    } else {
                        assert(chain@[m] == prev.last());
                    }
                }
                assert forall|i: int, j: int|
                    0 <= i < chain@.len() && 0 <= j < chain@.len() && i != j implies chain@[i]
                    != chain@[j] by {
                    if i < prev.len() && j < prev.len() {
                        assert(chain@[i] == prev[i] && chain@[j] == prev[j]);
                    } else if i < prev.len() {
                        assert(prev.contains(chain@[i]));
                    } else {
                        assert(prev.contains(chain@[j]));
                    }
                }
            }
        } else {
            proof {
                assert(grant_source(bones@, cur as int) is None);
                reveal_with_fuel(grant_walk, 1);
            }
            break ;
        }
    }
    let ghost full = chain@;
    let ghost len = full.len();
    if let Some(h) = hit {
        let clen = chain.len();
        let mut m: usize = 0;
        while chain[m] != h
            invariant
                chain@ == full,
                clen == full.len(),
                full.contains(h),
                m < clen,
                forall|k: int| 0 <= k < m ==> full[k] != h,
            decreases clen - m,
        {
            proof {
                let w = choose|w: int| 0 <= w < full.len() && full[w] == h;
                assert(w != m);
                assert(w > m);
            }
            m = m + 1;
        }
        proof {
            lemma_cycle_segment_at(full, h, m as int);
            lemma_segment_on_cycle(bones@, full, m as int);
            assert forall|x: usize| #[trigger] cycle_segment(full, h).contains(x) implies !c0.contains(
                x,
            ) by {
                let k = choose|k: int| 0 <= k < cycle_segment(full, h).len() && cycle_segment(
                    full,
                    h,
                )[k] == x;
                assert(full[m + k] == x);
                assert(full.contains(x));
                if c0.contains(x) {
                    assert(o0.contains(x));
                }
            }
        }
        let mut t = m;
        while t < clen
            invariant
                chain@ == full,
                clen == full.len(),
                m <= t <= clen,
                cycles@ == c0 + full.subrange(m as int, t as int),
            decreases clen - t,
        {
            cycles.push(chain[t]);
            t = t + 1;
            proof {
                assert(full.subrange(m as int, t as int) =~= full.subrange(m as int, t - 1).push(
                    full[t - 1],
                ));
                assert(c0 + full.subrange(m as int, t as int) =~= (c0 + full.subrange(
                    m as int,
                    t - 1,
                )).push(full[t - 1]));
            }
        }
        proof {
            assert(cycles@ == c0 + cycle_segment(full, h));
        }
    }
    let ghost c1 = cycles@;
    proof {
        if hit is None {
            assert(c1 =~= c0 + walk_cycle(bones@, o0, full));
        } else {
            assert(c1 == c0 + walk_cycle(bones@, o0, full));
        }
    }
    proof {
        assert forall|m: int| 0 <= m < len implies !o0.contains(#[trigger] full[m]) by {
            assert(full.contains(full[m]));
        }
        reveal(chain_facts);
        reveal(pop_state);
        assert(chain@ == full.take(chain@.len() as int));
    }
    while chain.len() > 0
        invariant
            n == bones@.len(),
            state@.len() == n,
            st0.len() == n,
            chain@.len() <= len,
            chain@ == full.take(chain@.len() as int),
            order@ == o0 + Seq::new((len - chain@.len()) as nat, |k: int| full[len - 1 - k]),
            cycles@ == c1,
            len == full.len(),
            chain_facts(bones@, o0, c0, c1, full, hit, s),
            pop_state(state@, st0, o0, full, chain@),
        decreases chain@.len(),
    {
        let ghost prev = chain@;
        let ghost st_prev = state@;
        proof {
            reveal(chain_facts);
            assert(prev[prev.len() - 1] == full.take(prev.len() as int)[prev.len() - 1]);
        }
        let b = chain.pop().unwrap();
        proof {
            assert(b == full[prev.len() - 1]);
        }
        state.set(b, 2);
        order.push(b);
        proof {
            lemma_pop_step(st_prev, state@, st0, o0, full, prev, chain@, b);
            assert(order@ =~= o0 + Seq::new(
                (len - chain@.len()) as nat,
                |k: int| full[len - 1 - k],
            ));
        }
    }
    proof {
        reveal(chain_facts);
        reveal(pop_state);
        lemma_finish_visit(bones@, o0, c0, c1, full, hit, order@);
        assert(chain@.len() == 0);
        assert(full.contains(s)) by {
            assert(full[0] == s);
        }
        assert forall|i: int| 0 <= i < n implies (state@[i] == 0 || state@[i] == 2) by {
            assert(!chain@.contains(i as usize));
        }
        assert forall|i: usize| i < n implies (state@[i as int] == 2 <==> order@.contains(i)) by {
            assert(!chain@.contains(i));
        }
    }
}

/// What the walk established about the visited chain `full`, kept while it is
/// finished.
#[verifier::opaque]
spec fn chain_facts(
    bones: Seq<PmxBoneMeta>,
    o0: Seq<usize>,
    c0: Seq<usize>,
    c1: Seq<usize>,
    full: Seq<usize>,
    hit: Option<usize>,
    s: usize,
) -> bool {
    let len = full.len();
    &&& forall|m: int| 0 <= m < len ==> full[m] < bones.len()
    &&& full.no_duplicates()
    &&& len >= 1
    &&& full[0] == s
    &&& order_part_valid(bones, o0, c0)
    &&& forall|m: int| 0 <= m < len ==> is_grant_bone(bones, #[trigger] full[m] as int)
    &&& forall|m: int|
        0 <= m < len - 1 ==> grant_source(bones, #[trigger] full[m] as int) == Some(
            full[m + 1] as int,
        )
    &&& forall|m: int| 0 <= m < len ==> !o0.contains(#[trigger] full[m])
    &&& hit matches Some(h) ==> full.contains(h) && grant_source(bones, full[len - 1] as int)
        == Some(h as int) && c1 == c0 + cycle_segment(full, h) && cycle_ok(bones, full, h, c0)
    &&& hit is None ==> c1 == c0 && (grant_source(bones, full[len - 1] as int) matches Some(p)
        ==> o0.contains(p as usize))
}

/// The traversal state while the chain is finished: the remaining prefix
/// `chain` is in progress, the rest of `full` is finished.
#[verifier::opaque]
spec fn pop_state(
    st: Seq<u8>,
    st0: Seq<u8>,
    o0: Seq<usize>,
    full: Seq<usize>,
    chain: Seq<usize>,
) -> bool {
    &&& forall|m: int| 0 <= m < full.len() ==> full[m] < st.len()
    &&& full.no_duplicates()
    &&& forall|i: int| 0 <= i < st.len() ==> st[i] <= 2
    &&& forall|i: usize|
        i < st.len() ==> (st[i as int] == 2 <==> (o0.contains(i) || (full.contains(i)
            && !chain.contains(i))))
    &&& forall|i: usize| i < st.len() ==> (st[i as int] == 1 <==> chain.contains(i))
    &&& forall|i: int| 0 <= i < st.len() && st0[i] == 2 ==> st[i] == 2
}

proof fn lemma_pop_step(
    st_prev: Seq<u8>,
    st: Seq<u8>,
    st0: Seq<u8>,
    o0: Seq<usize>,
    full: Seq<usize>,
    prev: Seq<usize>,
    chain: Seq<usize>,
    b: usize,
)
    requires
        pop_state(st_prev, st0, o0, full, prev),
        prev.len() >= 1,
        prev.len() <= full.len(),
        prev == full.take(prev.len() as int),
        chain == prev.subrange(0, prev.len() - 1),
        b == full[prev.len() - 1],
        b < st_prev.len(),
        st == st_prev.update(b as int, 2),
        st0.len() == st.len(),
    ensures
        pop_state(st, st0, o0, full, chain),
{
    reveal(pop_state);
    let n = st.len();
    assert forall|i: usize| i < n implies (st[i as int] == 1 <==> chain.contains(i)) by {
        if i != b {
            if chain.contains(i) {
                let k = choose|k: int| 0 <= k < chain.len() && chain[k] == i;
                assert(prev[k] == i);
                assert(prev.contains(i));
            }
            if prev.contains(i) {
                let k = choose|k: int| 0 <= k < prev.len() && prev[k] == i;
                assert(prev[k] == full[k]);
                assert(k != prev.len() - 1);
                assert(chain[k] == i);
            }
        } else {
            if chain.contains(i) {
                let k = choose|k: int| 0 <= k < chain.len() && chain[k] == i;
                assert(prev[k] == full[k]);
                assert(full[k] == full[prev.len() - 1]);
            }
        }
    }
    assert forall|i: usize|
        i < n implies (st[i as int] == 2 <==> (o0.contains(i) || (full.contains(i)
        && !chain.contains(i)))) by {
        if i != b {
            if chain.contains(i) {
                let k = choose|k: int| 0 <= k < chain.len() && chain[k] == i;
                assert(prev[k] == i);
                assert(prev.contains(i));
            }
            if prev.contains(i) {
                let k = choose|k: int| 0 <= k < prev.len() && prev[k] == i;
                assert(prev[k] == full[k]);
                assert(k != prev.len() - 1);
                assert(chain[k] == i);
            }
        } else {
            assert(full.contains(i)) by {
                assert(full[prev.len() - 1] == i);
            }
            if chain.contains(i) {
                let k = choose|k: int| 0 <= k < chain.len() && chain[k] == i;
                assert(prev[k] == full[k]);
                assert(full[k] == full[prev.len() - 1]);
            }
        }
    }
}

/// The grant bones of `bones`, by increasing deform depth and then index.
fn sorted_grant_bones(bones: &Vec<PmxBoneMeta>) -> (res: Vec<usize>)
    ensures
        forall|i: usize| #[trigger] res@.contains(i) <==> is_grant_bone(bones@, i as int),
        forall|a: int, b: int|
            0 <= a < b < res@.len() ==> grant_key_lt(bones@, res@[a] as int, res@[b] as int),
{
    let n = bones.len();
    let mut res: Vec<usize> = Vec::new();
    for j in 0..n
        invariant
            n == bones@.len(),
            forall|i: usize| #[trigger]
                res@.contains(i) <==> (i < j && is_grant_bone(bones@, i as int)),
            forall|a: int, b: int|
                0 <= a < b < res@.len() ==> grant_key_lt(bones@, res@[a] as int, res@[b] as int),
            forall|a: int| 0 <= a < res@.len() ==> res@[a] < j,
    {
        if bones[j].grant_transform.is_some() {
            let depth = bones[j].deform_depth;
            let mut pos: usize = 0;
            while pos < res.len() && bones[res[pos]].deform_depth <= depth
                invariant
                    pos <= res@.len(),
                    j < n,
                    n == bones@.len(),
                    forall|a: int| 0 <= a < res@.len() ==> res@[a] < j,
                    forall|a: int| 0 <= a < pos ==> bones@[res@[a] as int].deform_depth <= depth,
                    depth == bones@[j as int].deform_depth,
                decreases res@.len() - pos,
            {
                pos = pos + 1;
            }
            let ghost old_res = res@;
            proof {
                assert forall|t: int| pos <= t < old_res.len() implies bones@[
                    old_res[t] as int
                ].deform_depth > depth by {
                    if t > pos {
                        assert(grant_key_lt(bones@, old_res[pos as int] as int, old_res[t] as int));
                    }
                }
            }
            res.insert(pos, j);
            proof {
                old_res.insert_ensures(pos as int, j);
                assert(res@ == old_res.insert(pos as int, j));
                assert forall|t: int| pos <= t < old_res.len() implies res@[t + 1] == old_res[t] by {
                }
                assert forall|i: usize| #[trigger]
                    res@.contains(i) <==> (i < j + 1 && is_grant_bone(bones@, i as int)) by {
                    if res@.contains(i) {
                        let k = choose|k: int| 0 <= k < res@.len() && res@[k] == i;
                        if k < pos {
                            assert(old_res[k] == i);
                            assert(old_res.contains(i));
                        } else if k > pos {
                            assert(old_res[k - 1] == i);
                            assert(old_res.contains(i));
                        } else {
                            assert(i == j);
                        }
                    }
                    if i < j + 1 && is_grant_bone(bones@, i as int) {
                        if i == j {
                            assert(res@[pos as int] == i);
                        } else {
                            assert(old_res.contains(i));
                            let k = choose|k: int| 0 <= k < old_res.len() && old_res[k] == i;
                            if k < pos {
                                assert(res@[k] == i);
                            } else {
                                assert(res@[k + 1] == i);
                            }
                        }
                    }
                }
                assert forall|a: int, b: int| 0 <= a < b < res@.len() implies grant_key_lt(
                    bones@,
                    res@[a] as int,
                    res@[b] as int,
                ) by {
                    if b < pos {
                        assert(res@[a] == old_res[a] && res@[b] == old_res[b]);
                    } else if b == pos {
                        assert(res@[a] == old_res[a]);
                    } else if a < pos {
                        assert(res@[a] == old_res[a] && res@[b] == old_res[b - 1]);
                    } else if a == pos {
                        assert(res@[b] == old_res[b - 1]);
                    } else {
                        assert(res@[a] == old_res[a - 1] && res@[b] == old_res[b - 1]);
                    }
                }
            }
        }
    }
    res
}


/// The distinct values of `v` in increasing order.
fn sort_distinct(v: &Vec<usize>) -> (res: Vec<usize>)
    requires
        v@.no_duplicates(),
    ensures
        forall|x: usize| #[trigger] res@.contains(x) <==> v@.contains(x),
        forall|a: int, b: int| 0 <= a < b < res@.len() ==> res@[a] < res@[b],
{
    let mut res: Vec<usize> = Vec::new();
    for j in 0..v.len()
        invariant
            v@.no_duplicates(),
            forall|x: usize| #[trigger]
                res@.contains(x) <==> v@.subrange(0, j as int).contains(x),
            forall|a: int, b: int| 0 <= a < b < res@.len() ==> res@[a] < res@[b],
    {
        let x = v[j];
        let mut pos: usize = 0;
        while pos < res.len() && res[pos] < x
            invariant
                pos <= res@.len(),
                forall|a: int| 0 <= a < pos ==> res@[a] < x,
            decreases res@.len() - pos,
        {
            pos = pos + 1;
        }
        let ghost old_res = res@;
        proof {
            assert(!v@.subrange(0, j as int).contains(x)) by {
                if v@.subrange(0, j as int).contains(x) {
                    let k = choose|k: int| 0 <= k < j && v@.subrange(0, j as int)[k] == x;
                    assert(v@[k] == v@[j as int]);
                }
            }
            assert forall|t: int| pos <= t < old_res.len() implies old_res[t] > x by {
                if t > pos {
                    assert(old_res[pos as int] < old_res[t]);
                }
                assert(old_res.contains(old_res[t]));
            }
        }
        res.insert(pos, x);
        let ghost pre0 = v@.subrange(0, j as int);
        let ghost pre1 = v@.subrange(0, j + 1);
        proof {
            old_res.insert_ensures(pos as int, x);
            assert(res@ == old_res.insert(pos as int, x));
            assert forall|t: int| pos <= t < old_res.len() implies res@[t + 1] == old_res[t] by {}
            assert forall|y: usize| #[trigger]
                res@.contains(y) <==> pre1.contains(y) by {
                if res@.contains(y) {
                    let k = choose|k: int| 0 <= k < res@.len() && res@[k] == y;
                    if k < pos {
                        assert(old_res[k] == y);
                        assert(old_res.contains(y));
                        let t = choose|t: int| 0 <= t < j && pre0[t] == y;
                        assert(pre1[t] == y);
                    } else if k > pos {
                        assert(old_res[k - 1] == y);
                        assert(old_res.contains(y));
                        let t = choose|t: int| 0 <= t < j && pre0[t] == y;
                        assert(pre1[t] == y);
                    } else {
                        assert(pre1[j as int] == y);
                    }
                }
                if pre1.contains(y) {
                    let t = choose|t: int| 0 <= t < j + 1 && pre1[t] == y;
                    if t == j {
                        assert(res@[pos as int] == y);
                    } else {
                        assert(pre0[t] == y);
                        assert(old_res.contains(y));
                        let k = choose|k: int| 0 <= k < old_res.len() && old_res[k] == y;
                        if k < pos {
                            assert(res@[k] == y);
                        } else {
                            assert(res@[k + 1] == y);
                        }
                    }
                }
            }
            assert forall|a: int, b: int| 0 <= a < b < res@.len() implies res@[a] < res@[b] by {
                if b < pos {
                    assert(res@[a] == old_res[a] && res@[b] == old_res[b]);
                } else if b == pos {
                    assert(res@[a] == old_res[a]);
                } else if a < pos {
                    assert(res@[a] == old_res[a] && res@[b] == old_res[b - 1]);
                } else if a == pos {
                    assert(res@[b] == old_res[b - 1]);
                } else {
                    assert(res@[a] == old_res[a - 1] && res@[b] == old_res[b - 1]);
                }
            }
        }
    }
    proof {
        assert(v@.subrange(0, v@.len() as int) =~= v@);
    }
    res
}

/// Builds the evaluation order of the grant bones and the grant bones that
/// lie on a detected cycle of grant relations (see `grant_order_valid`).
fn build_grant_evaluation_order(bones: &Vec<PmxBoneMeta>) -> (res: (Vec<usize>, Vec<usize>))
    ensures
        grant_order_valid(bones@, res.0@, res.1@),
        res.1@.len() == 0 <==> forall|i: int| !#[trigger] on_grant_cycle(bones@, i),
        grant_keys_in_order(bones@, grant_key_order(bones@)),
        res.0@ == grant_dfs(bones@, grant_key_order(bones@)).0,
        forall|x: usize| #[trigger]
            res.1@.contains(x) <==> grant_dfs(bones@, grant_key_order(bones@)).1.contains(x),
{
    let n = bones.len();
    let sorted = sorted_grant_bones(bones);
    let mut state: Vec<u8> = Vec::new();
    for i in 0..n
        invariant
            state@.len() == i,
            forall|k: int| 0 <= k < i ==> state@[k] == 0,
    {
        state.push(0);
    }
    let mut order: Vec<usize> = Vec::new();
    let mut cycles: Vec<usize> = Vec::new();
    for idx in 0..sorted.len()
        invariant
            n == bones@.len(),
            traversal_inv(bones@, state@, order@, cycles@),
            forall|i: usize| #[trigger] sorted@.contains(i) <==> is_grant_bone(bones@, i as int),
            forall|t: int| 0 <= t < idx ==> state@[#[trigger] sorted@[t] as int] == 2,
            (order@, cycles@) == grant_dfs(bones@, sorted@.take(idx as int)),
    {
        let s = sorted[idx];
        proof {
            assert(sorted@.contains(s));
            assert(sorted@.take(idx + 1).drop_last() =~= sorted@.take(idx as int));
            assert(sorted@.take(idx + 1).last() == s);
        }
        if state[s] == 0 {
            let ghost st_before = state@;
            proof {
                assert(!order@.contains(s));
            }
            visit_grant_chain(bones, s, &mut state, &mut order, &mut cycles);
            proof {
                assert forall|t: int| 0 <= t < idx implies state@[#[trigger] sorted@[t] as int]
                    == 2 by {
                    assert(sorted@.contains(sorted@[t]));
                    assert(st_before[sorted@[t] as int] == 2);
                }
            }
        } else {
            proof {
                assert(order@.contains(s));
            }
        }
    }
    proof {
        assert(sorted@.take(sorted@.len() as int) =~= sorted@);
        assert(grant_keys_in_order(bones@, sorted@));
        let keys = grant_key_order(bones@);
        assert(grant_keys_in_order(bones@, keys));
        lemma_key_order_unique(bones@, keys, sorted@);
    }
    let sorted_cycles = sort_distinct(&cycles);
    proof {
        assert forall|i: usize| #[trigger] order@.contains(i) <==> is_grant_bone(bones@, i as int) by {
            if is_grant_bone(bones@, i as int) {
                assert(sorted@.contains(i));
                let t = choose|t: int| 0 <= t < sorted@.len() && sorted@[t] == i;
                assert(state@[sorted@[t] as int] == 2);
            }
            if order@.contains(i) {
                let j = choose|j: int| 0 <= j < order@.len() && order@[j] == i;
                assert(is_grant_bone(bones@, order@[j] as int));
            }
        }
    }
    proof {
        lemma_cycle_bones_empty_iff_acyclic(bones@, order@, sorted_cycles@);
    }
    (order, sorted_cycles)
}

impl PmxRigMeta {
    /// Recomputes `grant_evaluation_order` and `grant_cycle_bones` from the
    /// bones' grant relations: a depth-first traversal from the grant bones
    /// by deform depth and index (see `grant_dfs`), whose cycle bones are
    /// then listed in increasing order.
    pub fn rebuild_grant_evaluation_order(&mut self)
        ensures
            final(self).bones == old(self).bones,
            final(self).ik_chains == old(self).ik_chains,
            grant_keys_in_order(old(self).bones@, grant_key_order(old(self).bones@)),
            final(self).grant_evaluation_order@ == grant_dfs(
                old(self).bones@,
                grant_key_order(old(self).bones@),
            ).0,
            forall|x: usize| #[trigger]
                final(self).grant_cycle_bones@.contains(x) <==> grant_dfs(
                    old(self).bones@,
                    grant_key_order(old(self).bones@),
                ).1.contains(x),
            grant_order_valid(
                final(self).bones@,
                final(self).grant_evaluation_order@,
                final(self).grant_cycle_bones@,
            ),
            final(self).grant_cycle_bones@.len() == 0 <==> forall|i: int|
                !#[trigger] on_grant_cycle(old(self).bones@, i),
    {
        let (order, cycle_bones) = build_grant_evaluation_order(&self.bones);
        self.grant_evaluation_order = order;
        self.grant_cycle_bones = cycle_bones;
        proof {
            lemma_cycle_bones_empty_iff_acyclic(
                self.bones@,
                self.grant_evaluation_order@,
                self.grant_cycle_bones@,
            );
        }
    }
}

/// Where no grant bone lies on a cycle of grant relations, a valid order
/// records no cycle bones and places every grant source strictly before each
/// bone that inherits from it.
pub proof fn lemma_acyclic_grant_order_is_topological(
    bones: Seq<PmxBoneMeta>,
    order: Seq<usize>,
    cycles: Seq<usize>,
)
    requires
        grant_order_valid(bones, order, cycles),
        forall|i: int| is_grant_bone(bones, i) ==> !#[trigger] on_grant_cycle(bones, i),
    ensures
        cycles.len() == 0,
        forall|k: int|
            0 <= k < order.len() ==> (#[trigger] grant_source(bones, order[k] as int) matches Some(
                p,
            ) ==> exists|j: int| 0 <= j < k && order[j] == p),
{
    if cycles.len() > 0 {
        assert(cycles.contains(cycles[0]));
        assert(on_grant_cycle(bones, cycles[0] as int));
    }
    assert forall|k: int|
        0 <= k < order.len() && (#[trigger] grant_source(bones, order[k] as int) matches Some(p))
        implies exists|j: int| 0 <= j < k && order[j] == grant_source(bones, order[k] as int)->0 by {
        let p = grant_source(bones, order[k] as int)->0;
        assert(!cycles.contains(p as usize));
    }
}

/// Once a walk of grant sources stops, it stays stopped.
proof fn lemma_step_none_stays(bones: Seq<PmxBoneMeta>, i: int, a: nat, b: nat)
    requires
        grant_step(bones, i, a) is None,
    ensures
        grant_step(bones, i, a + b) is None,
    decreases b,
{
    if b > 0 {
        lemma_step_none_stays(bones, i, a, (b - 1) as nat);
    }
}

/// With no cycle bones recorded, following `m` grant sources from the bone
/// at position `i0` of a valid order lands at a position at least `m` earlier.
proof fn lemma_sources_move_earlier(
    bones: Seq<PmxBoneMeta>,
    order: Seq<usize>,
    cycles: Seq<usize>,
    c: int,
    n: nat,
    i0: int,
    m: nat,
)
    requires
        grant_order_valid(bones, order, cycles),
        cycles.len() == 0,
        grant_step(bones, c, n) == Some(c),
        0 <= i0 < order.len(),
        order[i0] == c,
        m <= n,
    ensures
        grant_step(bones, c, m) is Some,
        exists|j: int| 0 <= j <= i0 - m && order[j] == grant_step(bones, c, m)->0,
    decreases m,
{
    if m > 0 {
        let pm = (m - 1) as nat;
        lemma_sources_move_earlier(bones, order, cycles, c, n, i0, pm);
        let x = grant_step(bones, c, pm)->0;
        let j = choose|j: int| 0 <= j <= i0 - pm && order[j] == x;
        if grant_step(bones, c, m) is None {
            lemma_step_none_stays(bones, c, m, (n - m) as nat);
        }
        let p = grant_step(bones, c, m)->0;
        assert(grant_source(bones, order[j] as int) == Some(p));
        assert(!cycles.contains(p as usize));
        let j2 = choose|j2: int| 0 <= j2 < j && order[j2] == p;
        assert(0 <= j2 <= i0 - m && order[j2] == grant_step(bones, c, m)->0);
    }
}

/// The recorded cycle bones are empty exactly when following grant sources
/// never comes back to a bone.
pub proof fn lemma_cycle_bones_empty_iff_acyclic(
    bones: Seq<PmxBoneMeta>,
    order: Seq<usize>,
    cycles: Seq<usize>,
)
    requires
        grant_order_valid(bones, order, cycles),
    ensures
        cycles.len() == 0 <==> forall|i: int| !#[trigger] on_grant_cycle(bones, i),
{
    if cycles.len() > 0 {
        assert(cycles.contains(cycles[0]));
        assert(on_grant_cycle(bones, cycles[0] as int));
    } else {
        assert forall|c: int| !#[trigger] on_grant_cycle(bones, c) by {
            if on_grant_cycle(bones, c) {
                let n = choose|n: nat| n >= 1 && grant_step(bones, c, n) == Some(c);
                if grant_step(bones, c, 1) is None {
                    lemma_step_none_stays(bones, c, 1, (n - 1) as nat);
                }
                assert(is_grant_bone(bones, c));
                assert(order.contains(c as usize));
                let i0 = choose|i0: int| 0 <= i0 < order.len() && order[i0] == c as usize;
                lemma_sources_move_earlier(bones, order, cycles, c, n, i0, n);
                let j = choose|j: int| 0 <= j <= i0 - n && order[j] == grant_step(bones, c, n)->0;
                assert(order[j] == order[i0]);
            }
        }
    }
}

} // verus!
