//! Scene statistics of the model inspector: totals over meshes, instances and
//! skins, and the per-clip channel report.

use vstd::prelude::*;

use crate::animation::{
    channel_counts, count_fallback, tallies_channels, ChannelCounts, SceneCpu,
};
use crate::material_stats::{add_to_distribution, count_key, distribution_of};
use crate::text::{
    eq_text, lemma_text_lt_irreflexive, lemma_text_lt_total, lemma_text_lt_transitive, text_less,
    text_lt,
};
use crate::scene::{
    MaterialCpu, MeshCpu, MeshInstance, SkinCpu, TextureColorSpace, TextureCpu, TextureFilterMode,
    TextureWrapMode,
};

verus! {

/// Sum of `f` over the items of `s`.
pub open spec fn sum_over<T>(s: Seq<T>, f: spec_fn(T) -> nat) -> nat
    decreases s.len(),
{
    if s.len() == 0 {
        0
    } else {
        sum_over(s.drop_last(), f) + f(s.last())
    }
}

/// Total number of vertices of the meshes.
pub open spec fn vertex_total(meshes: Seq<MeshCpu>) -> nat {
    sum_over(meshes, |m: MeshCpu| m.positions as nat)
}

/// Total number of triangles of the meshes.
pub open spec fn triangle_total(meshes: Seq<MeshCpu>) -> nat {
    sum_over(meshes, |m: MeshCpu| m.triangles as nat)
}

/// Total number of morph targets of the meshes.
pub open spec fn morph_target_total(meshes: Seq<MeshCpu>) -> nat {
    sum_over(meshes, |m: MeshCpu| m.morph_targets as nat)
}

/// Total number of joints of the skins.
pub open spec fn joint_total(skins: Seq<SkinCpu>) -> nat {
    sum_over(skins, |k: SkinCpu| k.joints@.len())
}

/// Number of meshes with vertex colours.
pub open spec fn vertex_color_mesh_count(meshes: Seq<MeshCpu>) -> nat {
    sum_over(meshes, |m: MeshCpu| if m.has_vertex_colors { 1nat } else { 0nat })
}

/// Number of meshes with a first texture-coordinate stream.
pub open spec fn uv_mesh_count(meshes: Seq<MeshCpu>) -> nat {
    sum_over(meshes, |m: MeshCpu| if m.has_uv0 { 1nat } else { 0nat })
}

/// Number of instances that start from default morph weights.
pub open spec fn weighted_instance_count(instances: Seq<MeshInstance>) -> nat {
    sum_over(instances, |i: MeshInstance| if i.default_morph_weights > 0 { 1nat } else { 0nat })
}

/// A prefix never sums to more than the whole.
pub proof fn lemma_sum_prefix_le<T>(s: Seq<T>, f: spec_fn(T) -> nat, i: int)
    requires
        0 <= i <= s.len(),
    ensures
        sum_over(s.take(i), f) <= sum_over(s, f),
    decreases s.len(),
{
    if i < s.len() {
        assert(s.drop_last().take(i) =~= s.take(i));
        lemma_sum_prefix_le(s.drop_last(), f, i);
    } else {
        assert(s.take(i) =~= s);
    }
}

/// The base colour sampler of a material.
#[derive(Debug, Clone, Copy, PartialEq, Eq, Structural)]
pub struct MaterialSampler {
    pub wrap_s: TextureWrapMode,
    pub wrap_t: TextureWrapMode,
    pub min_filter: TextureFilterMode,
    pub mag_filter: TextureFilterMode,
}

pub open spec fn sampler_of(m: MaterialCpu) -> MaterialSampler {
    MaterialSampler {
        wrap_s: m.base_color_wrap_s,
        wrap_t: m.base_color_wrap_t,
        min_filter: m.base_color_min_filter,
        mag_filter: m.base_color_mag_filter,
    }
}

/// Place of a wrap mode's name in alphabetical order (`ClampToEdge`,
/// `MirroredRepeat`, `Repeat`).
pub open spec fn wrap_rank(w: TextureWrapMode) -> nat {
    match w {
        TextureWrapMode::ClampToEdge => 0,
        TextureWrapMode::MirroredRepeat => 1,
        TextureWrapMode::Repeat => 2,
    }
}

/// Place of a filter mode's name in alphabetical order (`Linear`,
/// `Nearest`).
pub open spec fn filter_rank(f: TextureFilterMode) -> nat {
    match f {
        TextureFilterMode::Linear => 0,
        TextureFilterMode::Nearest => 1,
    }
}

/// A number for each sampler, ordered as the sampler descriptions
/// `wrap=(S,T) filter=(MIN,MAG)` are ordered as text: the mode names of each
/// position start with distinct letters, so the text order is the order of
/// the names' ranks, position by position.
pub open spec fn sampler_code(s: MaterialSampler) -> u32 {
    (((wrap_rank(s.wrap_s) * 3 + wrap_rank(s.wrap_t)) * 2 + filter_rank(s.min_filter)) * 2
        + filter_rank(s.mag_filter)) as u32
}

/// The sampler number of a material.
pub open spec fn sampler_key() -> spec_fn(MaterialCpu) -> Option<u32> {
    |m: MaterialCpu| Some(sampler_code(sampler_of(m)))
}

/// Distinct samplers have distinct numbers.
pub proof fn lemma_sampler_code_injective(a: MaterialSampler, b: MaterialSampler)
    ensures
        sampler_code(a) == sampler_code(b) ==> a == b,
        sampler_code(a) < 36,
{
}

fn wrap_rank_exec(w: TextureWrapMode) -> (r: u32)
    ensures
        r == wrap_rank(w),
{
    match w {
        TextureWrapMode::ClampToEdge => 0,
        TextureWrapMode::MirroredRepeat => 1,
        TextureWrapMode::Repeat => 2,
    }
}

fn filter_rank_exec(f: TextureFilterMode) -> (r: u32)
    ensures
        r == filter_rank(f),
{
    match f {
        TextureFilterMode::Linear => 0,
        TextureFilterMode::Nearest => 1,
    }
}

fn material_sampler_code(m: &MaterialCpu) -> (c: u32)
    ensures
        Some(c) == sampler_key()(*m),
{
    ((wrap_rank_exec(m.base_color_wrap_s) * 3 + wrap_rank_exec(m.base_color_wrap_t)) * 2
        + filter_rank_exec(m.base_color_min_filter)) * 2 + filter_rank_exec(m.base_color_mag_filter)
}

/// The sampler with number `c`.
fn sampler_from_code(c: u32) -> (s: MaterialSampler)
    requires
        c < 36,
    ensures
        sampler_code(s) == c,
{
    let mag = if c % 2 == 0 { TextureFilterMode::Linear } else { TextureFilterMode::Nearest };
    let min = if (c / 2) % 2 == 0 { TextureFilterMode::Linear } else { TextureFilterMode::Nearest };
    let t = (c / 4) % 3;
    let wrap_t = if t == 0 {
        TextureWrapMode::ClampToEdge
    } else if t == 1 {
        TextureWrapMode::MirroredRepeat
    } else {
        TextureWrapMode::Repeat
    };
    let w = c / 12;
    let wrap_s = if w == 0 {
        TextureWrapMode::ClampToEdge
    } else if w == 1 {
        TextureWrapMode::MirroredRepeat
    } else {
        TextureWrapMode::Repeat
    };
    MaterialSampler { wrap_s, wrap_t, min_filter: min, mag_filter: mag }
}

/// `r` is the sampler entry whose number and count `c` gives.
pub open spec fn coded_as(r: (MaterialSampler, usize), c: (u32, usize)) -> bool {
    sampler_code(r.0) == c.0 && r.1 == c.1
}

/// An item counted under `k` gives `k`.
proof fn lemma_counted_key_occurs<T>(items: Seq<T>, key: spec_fn(T) -> Option<u32>, k: u32)
    requires
        count_key(items, key, k) > 0,
    ensures
        exists|i: int| 0 <= i < items.len() && #[trigger] key(items[i]) == Some(k),
    decreases items.len(),
{
    if key(items.last()) != Some(k) {
        lemma_counted_key_occurs(items.drop_last(), key, k);
        let i = choose|i: int| 0 <= i < items.drop_last().len() && #[trigger] key(items.drop_last()[i]) == Some(k);
        assert(items[i] == items.drop_last()[i]);
    } else {
        assert(key(items[items.len() - 1]) == Some(k));
    }
}

/// Number of textures in colour space `cs`.
pub open spec fn color_space_count(textures: Seq<TextureCpu>, cs: TextureColorSpace) -> nat {
    sum_over(textures, |t: TextureCpu| if t.color_space == cs { 1nat } else { 0nat })
}

/// The colour spaces used by `textures`, by name (`Linear` before `sRGB`),
/// each with its number of textures.
pub open spec fn color_space_distribution(textures: Seq<TextureCpu>) -> Seq<(TextureColorSpace, usize)> {
    let l = color_space_count(textures, TextureColorSpace::Linear);
    let s = color_space_count(textures, TextureColorSpace::Srgb);
    (if l > 0 { seq![(TextureColorSpace::Linear, l as usize)] } else { Seq::empty() }) + (if s > 0 {
        seq![(TextureColorSpace::Srgb, s as usize)]
    } else {
        Seq::empty()
    })
}

/// Number of textures decoded from source format `f`.
pub open spec fn format_count(textures: Seq<TextureCpu>, f: Seq<char>) -> nat {
    sum_over(textures, |t: TextureCpu| if t.source_format@ == f { 1nat } else { 0nat })
}

/// `dist` lists, in the order of `str`, exactly the source formats of
/// `textures`, each with its number of textures.
pub open spec fn format_distribution_of(dist: Seq<(String, usize)>, textures: Seq<TextureCpu>) -> bool {
    &&& forall|a: int, b: int| 0 <= a < b < dist.len() ==> text_lt(dist[a].0@, dist[b].0@)
    &&& forall|i: int| 0 <= i < dist.len() ==> #[trigger] dist[i].1 == format_count(textures, dist[i].0@)
    &&& forall|i: int| 0 <= i < dist.len() ==> #[trigger] dist[i].1 > 0
    &&& forall|t: int|
        0 <= t < textures.len() ==> exists|i: int|
            0 <= i < dist.len() && #[trigger] dist[i].0@ == #[trigger] textures[t].source_format@
}

proof fn lemma_format_count_step(textures: Seq<TextureCpu>, i: int, f: Seq<char>)
    requires
        0 <= i < textures.len(),
    ensures
        format_count(textures.take(i + 1), f) == format_count(textures.take(i), f) + if textures[i].source_format@
            == f {
            1nat
        } else {
            0nat
        },
{
    assert(textures.take(i + 1).drop_last() =~= textures.take(i));
}

proof fn lemma_format_count_bounded(textures: Seq<TextureCpu>, f: Seq<char>)
    ensures
        format_count(textures, f) <= textures.len(),
    decreases textures.len(),
{
    if textures.len() > 0 {
        lemma_format_count_bounded(textures.drop_last(), f);
    }
}

proof fn lemma_format_counted_occurs(textures: Seq<TextureCpu>, f: Seq<char>)
    requires
        format_count(textures, f) > 0,
    ensures
        exists|t: int| 0 <= t < textures.len() && #[trigger] textures[t].source_format@ == f,
    decreases textures.len(),
{
    if textures.last().source_format@ != f {
        lemma_format_counted_occurs(textures.drop_last(), f);
        let t = choose|t: int|
            0 <= t < textures.drop_last().len() && #[trigger] textures.drop_last()[t].source_format@ == f;
        assert(textures[t] == textures.drop_last()[t]);
    } else {
        assert(textures[textures.len() - 1].source_format@ == f);
    }
}

/// Adds texture `i` to the format distribution of the textures before it.
fn add_format(dist: &mut Vec<(String, usize)>, textures: &Vec<TextureCpu>, i: usize)
    requires
        i < textures@.len(),
        textures@.len() <= usize::MAX,
        format_distribution_of(old(dist)@, textures@.take(i as int)),
    ensures
        format_distribution_of(final(dist)@, textures@.take(i + 1)),
{
    let ghost ts = textures@;
    let ghost pre = ts.take(i as int);
    let ghost post = ts.take(i + 1);
    let ghost before = dist@;
    let f = textures[i].source_format.as_str();
    let ghost fs = f@;
    proof {
        assert forall|g: Seq<char>| #[trigger] format_count(post, g) == format_count(pre, g) + if g
            == fs {
            1nat
        } else {
            0nat
        } by {
            lemma_format_count_step(ts, i as int, g);
        }
        lemma_format_count_bounded(pre, fs);
        assert(post[i as int] == ts[i as int]);
        assert forall|t: int| 0 <= t < i implies #[trigger] post[t] == pre[t] by {}
    }
    let n = dist.len();
    let mut pos: usize = 0;
    loop
        invariant
            n == dist@.len(),
            dist@ == before,
            fs == f@,
            pos <= n,
            forall|a: int| 0 <= a < pos ==> text_lt(#[trigger] dist@[a].0@, fs),
        ensures
            pos < n ==> !text_lt(dist@[pos as int].0@, fs),
        decreases n - pos,
    {
        if pos >= n {
            break;
        }
        let entry = dist[pos].0.as_str();
        if !text_less(entry, f) {
            break;
        }
        pos = pos + 1;
    }
    if pos < n && eq_text(dist[pos].0.as_str(), f) {
        let key = dist[pos].0.clone();
        let c = dist[pos].1;
        proof {
            lemma_format_count_bounded(pre, fs);
            assert(c == format_count(pre, fs));
        }
        dist.set(pos, (key, c + 1));
        proof {
            let after = dist@;
            assert forall|j: int| 0 <= j < after.len() && j != pos implies before[j].0@ != fs by {
                lemma_text_lt_irreflexive(fs);
                if j < pos {
                    assert(text_lt(before[j].0@, before[pos as int].0@));
                } else {
                    assert(text_lt(before[pos as int].0@, before[j].0@));
                }
            }
            assert forall|j: int| 0 <= j < after.len() implies #[trigger] after[j].1
                == format_count(post, after[j].0@) by {
                if j != pos {
                    assert(after[j] == before[j]);
                }
            }
            assert forall|a: int, b: int| 0 <= a < b < after.len() implies text_lt(
                after[a].0@,
                after[b].0@,
            ) by {
                assert(after[a].0@ == before[a].0@ && after[b].0@ == before[b].0@);
            }
            assert forall|t: int| 0 <= t < post.len() implies exists|j: int|
                0 <= j < after.len() && #[trigger] after[j].0@ == #[trigger] post[t].source_format@ by {
                if t == i {
                    assert(after[pos as int].0@ == post[t].source_format@);
                } else {
                    let j = choose|j: int|
                        0 <= j < before.len() && #[trigger] before[j].0@ == #[trigger] pre[t].source_format@;
                    assert(after[j].0@ == post[t].source_format@);
                }
            }
        }
    } else {
        let key = f.to_owned();
        dist.insert(pos, (key, 1));
        proof {
            before.insert_ensures(pos as int, (key, 1usize));
            let after = dist@;
            lemma_text_lt_irreflexive(fs);
            // Every entry from `pos` on comes after `f`.
            assert forall|t: int| pos <= t < before.len() implies text_lt(fs, before[t].0@) by {
                lemma_text_lt_total(fs, before[pos as int].0@);
                if t > pos {
                    lemma_text_lt_transitive(fs, before[pos as int].0@, before[t].0@);
                }
            }
            assert forall|j: int| 0 <= j < before.len() implies before[j].0@ != fs by {
                if j < pos {
                    assert(text_lt(before[j].0@, fs));
                } else {
                    assert(text_lt(fs, before[j].0@));
                }
            }
            assert(format_count(pre, fs) == 0) by {
                if format_count(pre, fs) > 0 {
                    lemma_format_counted_occurs(pre, fs);
                    let t = choose|t: int| 0 <= t < pre.len() && #[trigger] pre[t].source_format@ == fs;
                    let j = choose|j: int|
                        0 <= j < before.len() && #[trigger] before[j].0@ == #[trigger] pre[t].source_format@;
                    assert(before[j].0@ != fs);
                }
            }
            assert forall|a: int, b: int| 0 <= a < b < after.len() implies text_lt(
                after[a].0@,
                after[b].0@,
            ) by {
                if b < pos {
                    assert(after[a] == before[a] && after[b] == before[b]);
                } else if b == pos {
                    assert(after[a] == before[a]);
                } else if a < pos {
                    assert(after[a] == before[a] && after[b] == before[b - 1]);
                    lemma_text_lt_transitive(before[a].0@, fs, before[b - 1].0@);
                } else if a == pos {
                    assert(after[b] == before[b - 1]);
                } else {
                    assert(after[a] == before[a - 1] && after[b] == before[b - 1]);
                }
            }
            assert forall|j: int| 0 <= j < after.len() implies #[trigger] after[j].1
                == format_count(post, after[j].0@) by {
                if j < pos {
                    assert(after[j] == before[j]);
                } else if j > pos {
                    assert(after[j] == before[j - 1]);
                }
            }
            assert forall|j: int| 0 <= j < after.len() implies #[trigger] after[j].1 > 0 by {
                if j < pos {
                    assert(after[j] == before[j]);
                } else if j > pos {
                    assert(after[j] == before[j - 1]);
                }
            }
            assert forall|t: int| 0 <= t < post.len() implies exists|j: int|
                0 <= j < after.len() && #[trigger] after[j].0@ == #[trigger] post[t].source_format@ by {
                if t == i {
                    assert(after[pos as int].0@ == post[t].source_format@);
                } else {
                    let j = choose|j: int|
                        0 <= j < before.len() && #[trigger] before[j].0@ == #[trigger] pre[t].source_format@;
                    if j < pos {
                        assert(after[j].0@ == post[t].source_format@);
                    } else {
                        assert(after[j + 1].0@ == post[t].source_format@);
                    }
                }
            }
        }
    }
}

/// The node `root` names, with its name (`<unnamed>` when the node has none
/// or does not exist).
pub open spec fn root_label(scene: SceneCpu) -> Option<(usize, Seq<char>)> {
    match scene.root_center_node {
        None => None,
        Some(r) => Some(
            (
                r,
                if r < scene.nodes@.len() && scene.nodes@[r as int].name is Some {
                    scene.nodes@[r as int].name->0@
                } else {
                    "<unnamed>"@
                },
            ),
        ),
    }
}

/// Channel report of one animation clip.
#[derive(Debug, Clone, Copy, PartialEq, Eq, Structural)]
pub struct AnimationReport {
    /// Number of channels of the clip.
    pub channels: usize,
    /// The channels by target.
    pub counts: ChannelCounts,
}

/// What the inspector reports of a loaded scene.
#[derive(Debug, Clone)]
pub struct SceneSummary {
    pub meshes: usize,
    pub mesh_instances: usize,
    pub nodes: usize,
    /// The root-centre node, with its name.
    pub root_center: Option<(usize, String)>,
    pub skins: usize,
    pub materials: usize,
    pub textures: usize,
    /// Texture source formats with their counts.
    pub texture_formats: Vec<(String, usize)>,
    /// Texture colour spaces with their counts.
    pub texture_color_spaces: Vec<(TextureColorSpace, usize)>,
    /// Base colour samplers with their numbers of materials.
    pub base_color_samplers: Vec<(MaterialSampler, usize)>,
    pub fallback_white_textures: usize,
    pub animations: usize,
    pub total_morph_targets: usize,
    pub morph_weighted_instances: usize,
    pub vertex_color_primitives: usize,
    pub uv_primitives: usize,
    pub total_vertices: usize,
    pub total_triangles: usize,
    pub total_joints: usize,
    /// One report per clip, in clip order.
    pub clips: Vec<AnimationReport>,
}

/// The scene's totals fit in a `usize`.
pub open spec fn totals_fit(scene: SceneCpu) -> bool {
    &&& vertex_total(scene.meshes@) <= usize::MAX
    &&& triangle_total(scene.meshes@) <= usize::MAX
    &&& morph_target_total(scene.meshes@) <= usize::MAX
    &&& joint_total(scene.skins@) <= usize::MAX
}

impl SceneCpu {
    /// Sum of the vertex counts of all meshes.
    pub fn total_vertices(&self) -> (res: usize)
        requires
            vertex_total(self.meshes@) <= usize::MAX,
        ensures
            res == vertex_total(self.meshes@),
    {
        let n = self.meshes.len();
        let mut total: usize = 0;
        for i in 0..n
            invariant
                n == self.meshes@.len(),
                vertex_total(self.meshes@) <= usize::MAX,
                total == vertex_total(self.meshes@.take(i as int)),
        {
            assert(self.meshes@.take(i + 1).drop_last() =~= self.meshes@.take(i as int));
            proof {
                lemma_sum_prefix_le(self.meshes@, |m: MeshCpu| m.positions as nat, i + 1);
            }
            total = total + self.meshes[i].vertex_count();
        }
        assert(self.meshes@.take(n as int) =~= self.meshes@);
        total
    }

    /// Sum of the triangle counts of all meshes.
    pub fn total_triangles(&self) -> (res: usize)
        requires
            triangle_total(self.meshes@) <= usize::MAX,
        ensures
            res == triangle_total(self.meshes@),
    {
        let n = self.meshes.len();
        let mut total: usize = 0;
        for i in 0..n
            invariant
                n == self.meshes@.len(),
                triangle_total(self.meshes@) <= usize::MAX,
                total == triangle_total(self.meshes@.take(i as int)),
        {
            assert(self.meshes@.take(i + 1).drop_last() =~= self.meshes@.take(i as int));
            proof {
                lemma_sum_prefix_le(self.meshes@, |m: MeshCpu| m.triangles as nat, i + 1);
            }
            total = total + self.meshes[i].triangle_count();
        }
        assert(self.meshes@.take(n as int) =~= self.meshes@);
        total
    }

    /// Sum of the joint counts of all skins.
    pub fn total_joints(&self) -> (res: usize)
        requires
            joint_total(self.skins@) <= usize::MAX,
        ensures
            res == joint_total(self.skins@),
    {
        let n = self.skins.len();
        let mut total: usize = 0;
        for i in 0..n
            invariant
                n == self.skins@.len(),
                joint_total(self.skins@) <= usize::MAX,
                total == joint_total(self.skins@.take(i as int)),
        {
            assert(self.skins@.take(i + 1).drop_last() =~= self.skins@.take(i as int));
            proof {
                lemma_sum_prefix_le(self.skins@, |k: SkinCpu| k.joints@.len(), i + 1);
            }
            total = total + self.skins[i].joints.len();
        }
        assert(self.skins@.take(n as int) =~= self.skins@);
        total
    }

    /// Sum of the morph target counts of all meshes.
    fn total_morph_targets(&self) -> (res: usize)
        requires
            morph_target_total(self.meshes@) <= usize::MAX,
        ensures
            res == morph_target_total(self.meshes@),
    {
        let n = self.meshes.len();
        let mut total: usize = 0;
        for i in 0..n
            invariant
                n == self.meshes@.len(),
                morph_target_total(self.meshes@) <= usize::MAX,
                total == morph_target_total(self.meshes@.take(i as int)),
        {
            assert(self.meshes@.take(i + 1).drop_last() =~= self.meshes@.take(i as int));
            proof {
                lemma_sum_prefix_le(self.meshes@, |m: MeshCpu| m.morph_targets as nat, i + 1);
            }
            total = total + self.meshes[i].morph_targets;
        }
        assert(self.meshes@.take(n as int) =~= self.meshes@);
        total
    }

    /// Number of meshes with vertex colours and number with texture
    /// coordinates.
    fn attribute_mesh_counts(&self) -> (res: (usize, usize))
        ensures
            res.0 == vertex_color_mesh_count(self.meshes@),
            res.1 == uv_mesh_count(self.meshes@),
    {
        let n = self.meshes.len();
        let mut colors: usize = 0;
        let mut uvs: usize = 0;
        for i in 0..n
            invariant
                n == self.meshes@.len(),
                colors == vertex_color_mesh_count(self.meshes@.take(i as int)),
                uvs == uv_mesh_count(self.meshes@.take(i as int)),
                colors <= i,
                uvs <= i,
        {
            assert(self.meshes@.take(i + 1).drop_last() =~= self.meshes@.take(i as int));
            if self.meshes[i].has_vertex_colors {
                colors = colors + 1;
            }
            if self.meshes[i].has_uv0 {
                uvs = uvs + 1;
            }
        }
        assert(self.meshes@.take(n as int) =~= self.meshes@);
        (colors, uvs)
    }

    /// The source formats of the textures, in the order of `str`, with
    /// their counts.
    fn texture_formats(&self) -> (res: Vec<(String, usize)>)
        ensures
            format_distribution_of(res@, self.textures@),
    {
        let n = self.textures.len();
        let mut dist: Vec<(String, usize)> = Vec::new();
        proof {
            assert(self.textures@.take(0) =~= Seq::<TextureCpu>::empty());
        }
        for i in 0..n
            invariant
                n == self.textures@.len(),
                format_distribution_of(dist@, self.textures@.take(i as int)),
        {
            add_format(&mut dist, &self.textures, i);
        }
        assert(self.textures@.take(n as int) =~= self.textures@);
        dist
    }

    /// The colour spaces of the textures with their counts (see
    /// `color_space_distribution`).
    fn texture_color_spaces(&self) -> (res: Vec<(TextureColorSpace, usize)>)
        ensures
            res@ == color_space_distribution(self.textures@),
    {
        let n = self.textures.len();
        let mut linear: usize = 0;
        let mut srgb: usize = 0;
        for i in 0..n
            invariant
                n == self.textures@.len(),
                linear == color_space_count(self.textures@.take(i as int), TextureColorSpace::Linear),
                srgb == color_space_count(self.textures@.take(i as int), TextureColorSpace::Srgb),
                linear <= i,
                srgb <= i,
        {
            assert(self.textures@.take(i + 1).drop_last() =~= self.textures@.take(i as int));
            match self.textures[i].color_space {
                TextureColorSpace::Linear => linear = linear + 1,
                TextureColorSpace::Srgb => srgb = srgb + 1,
            }
        }
        assert(self.textures@.take(n as int) =~= self.textures@);
        let mut res: Vec<(TextureColorSpace, usize)> = Vec::new();
        if linear > 0 {
            res.push((TextureColorSpace::Linear, linear));
        }
        if srgb > 0 {
            res.push((TextureColorSpace::Srgb, srgb));
        }
        assert(res@ =~= color_space_distribution(self.textures@));
        res
    }

    /// The base colour samplers of the materials, ordered by
    /// `sampler_code`, each with its number of materials.
    fn base_color_samplers(&self) -> (res: Vec<(MaterialSampler, usize)>)
        ensures
            distribution_of(
                res@.map_values(|e: (MaterialSampler, usize)| (sampler_code(e.0), e.1)),
                self.materials@,
                sampler_key(),
            ),
    {
        let ghost ms = self.materials@;
        let n = self.materials.len();
        let mut codes: Vec<(u32, usize)> = Vec::new();
        proof {
            assert(ms.take(0) =~= Seq::<MaterialCpu>::empty());
        }
        for i in 0..n
            invariant
                n == ms.len(),
                ms == self.materials@,
                distribution_of(codes@, ms.take(i as int), sampler_key()),
        {
            let c = material_sampler_code(&self.materials[i]);
            add_to_distribution::<MaterialCpu>(&mut codes, c, Ghost(ms), Ghost(sampler_key()), Ghost(i as int));
        }
        proof {
            assert(ms.take(n as int) =~= ms);
        }
        let mut res: Vec<(MaterialSampler, usize)> = Vec::new();
        let m = codes.len();
        let mut j: usize = 0;
        while j < m
            invariant
                m == codes@.len(),
                j <= m,
                distribution_of(codes@, ms, sampler_key()),
                res@.len() == j,
                forall|a: int| 0 <= a < j ==> #[trigger] coded_as(res@[a], codes@[a]),
            decreases m - j,
        {
            let (c, count) = codes[j];
            proof {
                lemma_counted_key_occurs(ms, sampler_key(), c);
                let i = choose|i: int| 0 <= i < ms.len() && #[trigger] sampler_key()(ms[i]) == Some(c);
                lemma_sampler_code_injective(sampler_of(ms[i]), sampler_of(ms[i]));
            }
            let sampler = sampler_from_code(c);
            res.push((sampler, count));
            j = j + 1;
        }
        proof {
            let mapped = res@.map_values(|e: (MaterialSampler, usize)| (sampler_code(e.0), e.1));
            assert forall|a: int| 0 <= a < mapped.len() implies mapped[a] == codes@[a] by {
                assert(coded_as(res@[a], codes@[a]));
            }
            assert(mapped =~= codes@);
        }
        res
    }

    /// The root-centre node and its name (see `root_label`).
    fn root_center_label(&self) -> (res: Option<(usize, String)>)
        ensures
            res is None <==> root_label(*self) is None,
            res matches Some(p) ==> root_label(*self) == Some((p.0, p.1@)),
    {
        match self.root_center_node {
            None => None,
            Some(r) => {
                let unnamed = "<unnamed>";
                proof {
                    reveal_strlit("<unnamed>");
                }
                if r < self.nodes.len() {
                    match &self.nodes[r].name {
                        Some(name) => Some((r, name.clone())),
                        None => Some((r, unnamed.to_owned())),
                    }
                } else {
                    Some((r, unnamed.to_owned()))
                }
            },
        }
    }

    /// Number of instances that start from default morph weights.
    fn weighted_instances(&self) -> (res: usize)
        ensures
            res == weighted_instance_count(self.mesh_instances@),
    {
        let n = self.mesh_instances.len();
        let mut count: usize = 0;
        for i in 0..n
            invariant
                n == self.mesh_instances@.len(),
                count == weighted_instance_count(self.mesh_instances@.take(i as int)),
                count <= i,
        {
            assert(self.mesh_instances@.take(i + 1).drop_last() =~= self.mesh_instances@.take(
                i as int,
            ));
            if self.mesh_instances[i].default_morph_weights > 0 {
                count = count + 1;
            }
        }
        assert(self.mesh_instances@.take(n as int) =~= self.mesh_instances@);
        count
    }
}

/// The inspector's statistics of a scene: element counts, totals, attribute
/// counts, and for each clip its channel count and per-target tallies.
pub fn scene_summary(scene: &SceneCpu) -> (r: SceneSummary)
    requires
        totals_fit(*scene),
    ensures
        r.meshes == scene.meshes@.len(),
        r.mesh_instances == scene.mesh_instances@.len(),
        r.nodes == scene.nodes@.len(),
        r.root_center is None <==> root_label(*scene) is None,
        r.root_center matches Some(p) ==> root_label(*scene) == Some((p.0, p.1@)),
        r.skins == scene.skins@.len(),
        r.materials == scene.materials@.len(),
        r.textures == scene.textures@.len(),
        format_distribution_of(r.texture_formats@, scene.textures@),
        r.texture_color_spaces@ == color_space_distribution(scene.textures@),
        distribution_of(
            r.base_color_samplers@.map_values(|e: (MaterialSampler, usize)| (sampler_code(e.0), e.1)),
            scene.materials@,
            sampler_key(),
        ),
        r.fallback_white_textures == count_fallback(scene.textures@),
        r.animations == scene.animations@.len(),
        r.total_morph_targets == morph_target_total(scene.meshes@),
        r.morph_weighted_instances == weighted_instance_count(scene.mesh_instances@),
        r.vertex_color_primitives == vertex_color_mesh_count(scene.meshes@),
        r.uv_primitives == uv_mesh_count(scene.meshes@),
        r.total_vertices == vertex_total(scene.meshes@),
        r.total_triangles == triangle_total(scene.meshes@),
        r.total_joints == joint_total(scene.skins@),
        r.clips@.len() == scene.animations@.len(),
        forall|i: int|
            0 <= i < scene.animations@.len() ==> {
                &&& (#[trigger] r.clips@[i]).channels == scene.animations@[i].channels@.len()
                &&& tallies_channels(r.clips@[i].counts, scene.animations@[i].channels@)
                &&& r.clips@[i].counts.translation + r.clips@[i].counts.rotation
                    + r.clips@[i].counts.scale + r.clips@[i].counts.morph == r.clips@[i].channels
            },
{
    let (colors, uvs) = scene.attribute_mesh_counts();
    let mut clips: Vec<AnimationReport> = Vec::new();
    let n = scene.animations.len();
    for i in 0..n
        invariant
            n == scene.animations@.len(),
            clips@.len() == i,
            forall|j: int|
                0 <= j < i ==> {
                    &&& (#[trigger] clips@[j]).channels == scene.animations@[j].channels@.len()
                    &&& tallies_channels(clips@[j].counts, scene.animations@[j].channels@)
                    &&& clips@[j].counts.translation + clips@[j].counts.rotation
                        + clips@[j].counts.scale + clips@[j].counts.morph == clips@[j].channels
                },
    {
        let clip = &scene.animations[i];
        let counts = channel_counts(clip);
        clips.push(AnimationReport { channels: clip.channels.len(), counts });
    }
    SceneSummary {
        meshes: scene.meshes.len(),
        mesh_instances: scene.mesh_instances.len(),
        nodes: scene.nodes.len(),
        root_center: scene.root_center_label(),
        skins: scene.skins.len(),
        materials: scene.materials.len(),
        textures: scene.textures.len(),
        texture_formats: scene.texture_formats(),
        texture_color_spaces: scene.texture_color_spaces(),
        base_color_samplers: scene.base_color_samplers(),
        fallback_white_textures: scene.fallback_texture_count(),
        animations: n,
        total_morph_targets: scene.total_morph_targets(),
        morph_weighted_instances: scene.weighted_instances(),
        vertex_color_primitives: colors,
        uv_primitives: uvs,
        total_vertices: scene.total_vertices(),
        total_triangles: scene.total_triangles(),
        total_joints: scene.total_joints(),
        clips,
    }
}

} // verus!
