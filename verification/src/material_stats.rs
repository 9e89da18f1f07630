//! Statistics over the materials of a glTF file's primitives, as the model
//! inspector reports them: which texture kinds are used, how many primitives
//! are not triangle lists, and which texture-coordinate sets the base colour
//! textures read.

use vstd::prelude::*;

verus! {

/// The base colour texture of a primitive's material.
#[derive(Debug, Clone, Copy, PartialEq, Eq, Structural)]
pub struct BaseColorTextureInfo {
    /// Texture-coordinate set the texture reads.
    pub tex_coord: u32,
    /// `Some` when a texture transform is attached; it holds the
    /// texture-coordinate set the transform switches to, if any.
    pub transform: Option<Option<u32>>,
}

/// What the inspector reads of one glTF primitive and its material.
#[derive(Debug, Clone, Copy, PartialEq, Eq, Structural)]
pub struct PrimitiveMaterialInfo {
    /// The primitive is a triangle list.
    pub triangles: bool,
    pub base_color: Option<BaseColorTextureInfo>,
    pub normal_texture: bool,
    pub emissive_texture: bool,
    pub occlusion_texture: bool,
    pub metallic_roughness_texture: bool,
    pub double_sided: bool,
}

/// The tallies the inspector prints.  Each distribution lists the
/// texture-coordinate sets met, in increasing order, with how many
/// primitives use each.
#[derive(Debug, Clone, PartialEq, Eq)]
pub struct PrimitiveTally {
    pub khr_texture_transform_primitives: usize,
    pub non_triangle_primitives: usize,
    pub normal_texture_primitives: usize,
    pub emissive_texture_primitives: usize,
    pub occlusion_texture_primitives: usize,
    pub metallic_roughness_texture_primitives: usize,
    pub double_sided_materials: usize,
    pub base_color_texcoords: Vec<(u32, usize)>,
    pub texcoord_overrides: Vec<(u32, usize)>,
}

/// Number of primitives of `prims` satisfying `p`.
pub open spec fn count_prims(prims: Seq<PrimitiveMaterialInfo>, p: spec_fn(PrimitiveMaterialInfo) -> bool) -> nat
    decreases prims.len(),
{
    if prims.len() == 0 {
        0
    } else {
        count_prims(prims.drop_last(), p) + if p(prims.last()) {
            1nat
        } else {
            0nat
        }
    }
}

/// The texture-coordinate set the base colour texture of `m` reads, if it
/// has one.
pub open spec fn base_coord(m: PrimitiveMaterialInfo) -> Option<u32> {
    match m.base_color {
        Some(t) => Some(t.tex_coord),
        None => None,
    }
}

/// The texture-coordinate set a texture transform of `m`'s base colour
/// texture switches to, if there is one.
pub open spec fn override_coord(m: PrimitiveMaterialInfo) -> Option<u32> {
    match m.base_color {
        Some(t) => match t.transform {
            Some(Some(c)) => Some(c),
            _ => None,
        },
        None => None,
    }
}

/// Number of items of `prims` for which `key` gives `k`.
pub open spec fn count_key<T>(
    prims: Seq<T>,
    key: spec_fn(T) -> Option<u32>,
    k: u32,
) -> nat
    decreases prims.len(),
{
    if prims.len() == 0 {
        0
    } else {
        count_key(prims.drop_last(), key, k) + if key(prims.last()) == Some(k) {
            1nat
        } else {
            0nat
        }
    }
}

/// `dist` lists, in strictly increasing order, exactly the values that
/// `key` gives on `prims`, each with the number of items giving it.
pub open spec fn distribution_of<T>(
    dist: Seq<(u32, usize)>,
    prims: Seq<T>,
    key: spec_fn(T) -> Option<u32>,
) -> bool {
    &&& forall|a: int, b: int| 0 <= a < b < dist.len() ==> dist[a].0 < dist[b].0
    &&& forall|i: int| 0 <= i < dist.len() ==> #[trigger] dist[i].1 == count_key(prims, key, dist[i].0)
    &&& forall|i: int| 0 <= i < dist.len() ==> #[trigger] dist[i].1 > 0
    &&& forall|k: u32|
        count_key(prims, key, k) > 0 ==> exists|i: int| 0 <= i < dist.len() && #[trigger] dist[i].0 == k
}

proof fn lemma_count_key_step<T>(
    prims: Seq<T>,
    key: spec_fn(T) -> Option<u32>,
    i: int,
    k: u32,
)
    requires
        0 <= i < prims.len(),
    ensures
        count_key(prims.take(i + 1), key, k) == count_key(prims.take(i), key, k) + if key(prims[i])
            == Some(k) {
            1nat
        } else {
            0nat
        },
{
    assert(prims.take(i + 1).drop_last() =~= prims.take(i));
}

proof fn lemma_count_key_bounded<T>(
    prims: Seq<T>,
    key: spec_fn(T) -> Option<u32>,
    k: u32,
)
    ensures
        count_key(prims, key, k) <= prims.len(),
    decreases prims.len(),
{
    if prims.len() > 0 {
        lemma_count_key_bounded(prims.drop_last(), key, k);
    }
}

/// The counts of `post` are those of `pre` with one more `k`.
pub open spec fn one_more<T>(
    pre: Seq<T>,
    post: Seq<T>,
    key: spec_fn(T) -> Option<u32>,
    k: u32,
) -> bool {
    forall|c: u32| #[trigger]
        count_key(post, key, c) == count_key(pre, key, c) + if c == k {
            1nat
        } else {
            0nat
        }
}

/// Raising the entry of `k` found at `pos` by one gives the distribution
/// with one more `k`.
proof fn lemma_dist_bump<T>(
    before: Seq<(u32, usize)>,
    after: Seq<(u32, usize)>,
    pos: int,
    k: u32,
    pre: Seq<T>,
    post: Seq<T>,
    key: spec_fn(T) -> Option<u32>,
)
    requires
        distribution_of(before, pre, key),
        one_more(pre, post, key, k),
        0 <= pos < before.len(),
        before[pos].0 == k,
        before[pos].1 < usize::MAX,
        after == before.update(pos, (k, (before[pos].1 + 1) as usize)),
    ensures
        distribution_of(after, post, key),
{
    assert(count_key(post, key, k) == count_key(pre, key, k) + 1);
    assert forall|j: int| 0 <= j < after.len() implies #[trigger] after[j].1 == count_key(
        post,
        key,
        after[j].0,
    ) by {
        if j != pos {
            assert(after[j] == before[j]);
            assert(before[j].1 == count_key(pre, key, before[j].0));
            assert(before[j].0 != k) by {
                if j < pos {
                    assert(before[j].0 < before[pos].0);
                } else {
                    assert(before[pos].0 < before[j].0);
                }
            }
            assert(count_key(post, key, before[j].0) == count_key(pre, key, before[j].0));
        } else {
            assert(before[pos].1 == count_key(pre, key, k));
        }
    }
    assert forall|c: u32| count_key(post, key, c) > 0 implies exists|j: int|
        0 <= j < after.len() && #[trigger] after[j].0 == c by {
        if c == k {
            assert(after[pos].0 == c);
        } else {
            assert(count_key(post, key, c) == count_key(pre, key, c));
            let j = choose|j: int| 0 <= j < before.len() && #[trigger] before[j].0 == c;
            assert(after[j].0 == c);
        }
    }
    assert forall|a: int, b: int| 0 <= a < b < after.len() implies after[a].0 < after[b].0 by {
        assert(after[a].0 == before[a].0 && after[b].0 == before[b].0);
    }
}

/// Inserting a new entry `(k, 1)` at the position where `k` belongs gives
/// the distribution with one more `k`.
proof fn lemma_dist_insert<T>(
    before: Seq<(u32, usize)>,
    after: Seq<(u32, usize)>,
    pos: int,
    k: u32,
    pre: Seq<T>,
    post: Seq<T>,
    key: spec_fn(T) -> Option<u32>,
)
    requires
        distribution_of(before, pre, key),
        one_more(pre, post, key, k),
        0 <= pos <= before.len(),
        forall|a: int| 0 <= a < pos ==> before[a].0 < k,
        pos < before.len() ==> before[pos].0 > k,
        after == before.insert(pos, (k, 1usize)),
    ensures
        distribution_of(after, post, key),
{
    assert forall|t: int| pos <= t < before.len() implies before[t].0 > k by {
        if t > pos {
            assert(before[pos].0 < before[t].0);
        }
    }
    assert(count_key(pre, key, k) == 0) by {
        if count_key(pre, key, k) > 0 {
            let j = choose|j: int| 0 <= j < before.len() && #[trigger] before[j].0 == k;
            if j < pos {
                assert(before[j].0 < k);
            } else {
                assert(before[j].0 > k);
            }
        }
    }
    assert(count_key(post, key, k) == 1);
    assert forall|a: int, b: int| 0 <= a < b < after.len() implies after[a].0 < after[b].0 by {
        if b < pos {
            assert(after[a] == before[a] && after[b] == before[b]);
        } else if b == pos {
            assert(after[a] == before[a]);
        } else if a < pos {
            assert(after[a] == before[a] && after[b] == before[b - 1]);
        } else if a == pos {
            assert(after[b] == before[b - 1]);
        } else {
            assert(after[a] == before[a - 1] && after[b] == before[b - 1]);
        }
    }
    assert forall|j: int| 0 <= j < after.len() implies #[trigger] after[j].1 == count_key(
        post,
        key,
        after[j].0,
    ) by {
        if j < pos {
            assert(after[j] == before[j]);
            assert(before[j].1 == count_key(pre, key, before[j].0));
            assert(count_key(post, key, before[j].0) == count_key(pre, key, before[j].0));
        } else if j > pos {
            assert(after[j] == before[j - 1]);
            assert(before[j - 1].1 == count_key(pre, key, before[j - 1].0));
            assert(count_key(post, key, before[j - 1].0) == count_key(pre, key, before[j - 1].0));
        }
    }
    assert forall|c: u32| count_key(post, key, c) > 0 implies exists|j: int|
        0 <= j < after.len() && #[trigger] after[j].0 == c by {
        if c == k {
            assert(after[pos].0 == c);
        } else {
            assert(count_key(post, key, c) == count_key(pre, key, c));
            let j = choose|j: int| 0 <= j < before.len() && #[trigger] before[j].0 == c;
            if j < pos {
                assert(after[j].0 == c);
            } else {
                assert(after[j + 1].0 == c);
            }
        }
    }
}

/// Adds one occurrence of `k` to a distribution of the first `i` primitives,
/// giving the distribution of the first `i + 1`.
pub(crate) fn add_to_distribution<T>(
    dist: &mut Vec<(u32, usize)>,
    k: u32,
    Ghost(prims): Ghost<Seq<T>>,
    Ghost(key): Ghost<spec_fn(T) -> Option<u32>>,
    Ghost(i): Ghost<int>,
)
    requires
        0 <= i < prims.len(),
        prims.len() <= usize::MAX,
        key(prims[i]) == Some(k),
        distribution_of(old(dist)@, prims.take(i), key),
    ensures
        distribution_of(final(dist)@, prims.take(i + 1), key),
{
    let ghost before = dist@;
    let ghost pre = prims.take(i);
    let ghost post = prims.take(i + 1);
    proof {
        assert forall|c: u32| #[trigger] count_key(post, key, c) == count_key(pre, key, c) + if c
            == k {
            1nat
        } else {
            0nat
        } by {
            lemma_count_key_step(prims, key, i, c);
        }
        assert(one_more(pre, post, key, k));
        lemma_count_key_bounded(pre, key, k);
    }
    let n = dist.len();
    let mut pos: usize = 0;
    while pos < n && dist[pos].0 < k
        invariant
            n == dist@.len(),
            dist@ == before,
            pos <= n,
            forall|a: int| 0 <= a < pos ==> dist@[a].0 < k,
        decreases n - pos,
    {
        pos = pos + 1;
    }
    if pos < n && dist[pos].0 == k {
        let c = dist[pos].1;
        proof {
            assert(c == count_key(pre, key, k));
        }
        dist.set(pos, (k, c + 1));
        proof {
            lemma_dist_bump(before, dist@, pos as int, k, pre, post, key);
        }
    } else {
        dist.insert(pos, (k, 1));
        proof {
            before.insert_ensures(pos as int, (k, 1usize));
            lemma_dist_insert(before, dist@, pos as int, k, pre, post, key);
        }
    }
}

/// Primitives that are not triangle lists.
pub open spec fn non_triangle() -> spec_fn(PrimitiveMaterialInfo) -> bool {
    |m: PrimitiveMaterialInfo| !m.triangles
}

/// Primitives whose base colour texture carries a texture transform.
pub open spec fn texture_transformed() -> spec_fn(PrimitiveMaterialInfo) -> bool {
    |m: PrimitiveMaterialInfo| m.base_color matches Some(t) && t.transform is Some
}

pub open spec fn with_normal_texture() -> spec_fn(PrimitiveMaterialInfo) -> bool {
    |m: PrimitiveMaterialInfo| m.normal_texture
}

pub open spec fn with_emissive_texture() -> spec_fn(PrimitiveMaterialInfo) -> bool {
    |m: PrimitiveMaterialInfo| m.emissive_texture
}

pub open spec fn with_occlusion_texture() -> spec_fn(PrimitiveMaterialInfo) -> bool {
    |m: PrimitiveMaterialInfo| m.occlusion_texture
}

pub open spec fn with_metallic_roughness_texture() -> spec_fn(PrimitiveMaterialInfo) -> bool {
    |m: PrimitiveMaterialInfo| m.metallic_roughness_texture
}

pub open spec fn double_sided() -> spec_fn(PrimitiveMaterialInfo) -> bool {
    |m: PrimitiveMaterialInfo| m.double_sided
}

/// The base colour texture-coordinate set of a primitive.
pub open spec fn base_key() -> spec_fn(PrimitiveMaterialInfo) -> Option<u32> {
    |m: PrimitiveMaterialInfo| base_coord(m)
}

/// The texture-coordinate set a primitive's texture transform switches to.
pub open spec fn override_key() -> spec_fn(PrimitiveMaterialInfo) -> Option<u32> {
    |m: PrimitiveMaterialInfo| override_coord(m)
}

/// Tallies the material features of a file's primitives: each count is
/// the number of primitives with that feature, and the distributions count
/// the base colour texture-coordinate sets and the sets texture transforms
/// switch to.
pub fn tally_primitives(prims: &Vec<PrimitiveMaterialInfo>) -> (res: PrimitiveTally)
    ensures
        res.khr_texture_transform_primitives == count_prims(prims@, texture_transformed()),
        res.non_triangle_primitives == count_prims(prims@, non_triangle()),
        res.normal_texture_primitives == count_prims(prims@, with_normal_texture()),
        res.emissive_texture_primitives == count_prims(prims@, with_emissive_texture()),
        res.occlusion_texture_primitives == count_prims(prims@, with_occlusion_texture()),
        res.metallic_roughness_texture_primitives == count_prims(
            prims@,
            with_metallic_roughness_texture(),
        ),
        res.double_sided_materials == count_prims(prims@, double_sided()),
        distribution_of(res.base_color_texcoords@, prims@, base_key()),
        distribution_of(res.texcoord_overrides@, prims@, override_key()),
{
    let ghost s = prims@;
    let mut t = PrimitiveTally {
        khr_texture_transform_primitives: 0,
        non_triangle_primitives: 0,
        normal_texture_primitives: 0,
        emissive_texture_primitives: 0,
        occlusion_texture_primitives: 0,
        metallic_roughness_texture_primitives: 0,
        double_sided_materials: 0,
        base_color_texcoords: Vec::new(),
        texcoord_overrides: Vec::new(),
    };
    let n = prims.len();
    for i in 0..n
        invariant
            n == s.len(),
            s == prims@,
            t.khr_texture_transform_primitives == count_prims(s.take(i as int), texture_transformed()),
            t.non_triangle_primitives == count_prims(s.take(i as int), non_triangle()),
            t.normal_texture_primitives == count_prims(s.take(i as int), with_normal_texture()),
            t.emissive_texture_primitives == count_prims(s.take(i as int), with_emissive_texture()),
            t.occlusion_texture_primitives == count_prims(s.take(i as int), with_occlusion_texture()),
            t.metallic_roughness_texture_primitives == count_prims(s.take(i as int), with_metallic_roughness_texture()),
            t.double_sided_materials == count_prims(s.take(i as int), double_sided()),
            t.khr_texture_transform_primitives <= i,
            t.non_triangle_primitives <= i,
            t.normal_texture_primitives <= i,
            t.emissive_texture_primitives <= i,
            t.occlusion_texture_primitives <= i,
            t.metallic_roughness_texture_primitives <= i,
            t.double_sided_materials <= i,
            distribution_of(t.base_color_texcoords@, s.take(i as int), base_key()),
            distribution_of(t.texcoord_overrides@, s.take(i as int), override_key()),
    {
        let m = prims[i];
        proof {
            assert(s.take(i + 1).drop_last() =~= s.take(i as int));
            assert(s.take(i + 1).last() == m);
            assert(s[i as int] == m);
            assert(base_key()(m) == base_coord(m));
            assert(override_key()(m) == override_coord(m));
        }
        if !m.triangles {
            t.non_triangle_primitives = t.non_triangle_primitives + 1;
        }
        if let Some(base) = m.base_color {
            add_to_distribution::<PrimitiveMaterialInfo>(
                &mut t.base_color_texcoords,
                base.tex_coord,
                Ghost(s),
                Ghost(base_key()),
                Ghost(i as int),
            );
            if let Some(transform) = base.transform {
                t.khr_texture_transform_primitives = t.khr_texture_transform_primitives + 1;
                if let Some(c) = transform {
                    add_to_distribution::<PrimitiveMaterialInfo>(
                        &mut t.texcoord_overrides,
                        c,
                        Ghost(s),
                        Ghost(override_key()),
                        Ghost(i as int),
                    );
                } else {
                    proof {
                        lemma_distribution_unchanged(t.texcoord_overrides@, s, override_key(), i as int);
                    }
                }
            } else {
                proof {
                    lemma_distribution_unchanged(t.texcoord_overrides@, s, override_key(), i as int);
                }
            }
        } else {
            proof {
                lemma_distribution_unchanged(t.base_color_texcoords@, s, base_key(), i as int);
                lemma_distribution_unchanged(t.texcoord_overrides@, s, override_key(), i as int);
            }
        }
        if m.normal_texture {
            t.normal_texture_primitives = t.normal_texture_primitives + 1;
        }
        if m.emissive_texture {
            t.emissive_texture_primitives = t.emissive_texture_primitives + 1;
        }
        if m.occlusion_texture {
            t.occlusion_texture_primitives = t.occlusion_texture_primitives + 1;
        }
        if m.metallic_roughness_texture {
            t.metallic_roughness_texture_primitives = t.metallic_roughness_texture_primitives + 1;
        }
        if m.double_sided {
            t.double_sided_materials = t.double_sided_materials + 1;
        }
    }
    proof {
        assert(s.take(n as int) =~= s);
    }
    t
}

/// A primitive without a key leaves a distribution as it was.
pub(crate) proof fn lemma_distribution_unchanged<T>(
    dist: Seq<(u32, usize)>,
    prims: Seq<T>,
    key: spec_fn(T) -> Option<u32>,
    i: int,
)
    requires
        0 <= i < prims.len(),
        key(prims[i]) is None,
        distribution_of(dist, prims.take(i), key),
    ensures
        distribution_of(dist, prims.take(i + 1), key),
{
    assert forall|c: u32| #[trigger] count_key(prims.take(i + 1), key, c) == count_key(
        prims.take(i),
        key,
        c,
    ) by {
        lemma_count_key_step(prims, key, i, c);
    }
}

} // verus!
