//! Animation clips as far as clip selection reads them: names and the
//! targets of their channels (keyframe data is sampled by the renderer).

use vstd::prelude::*;

use crate::scene::{MaterialCpu, MeshCpu, MeshInstance, Node, SkinCpu, TextureCpu};
use vstd::string::StringExecFns;

use crate::text::{eq_text, parse_unsigned_spec, parse_usize};

verus! {

/// What an animation channel drives.
#[derive(Debug, Clone, Copy, PartialEq, Eq, Structural)]
pub enum ChannelTarget {
    Translation,
    Rotation,
    Scale,
    MorphWeights,
    MaterialMorphWeights,
}

/// One channel of a clip: the node it animates and which property.
#[derive(Debug, Clone, Copy, PartialEq, Eq, Structural)]
pub struct AnimationChannel {
    pub node_index: usize,
    pub target: ChannelTarget,
}

/// An animation clip: its name, its channels and whether it loops.
#[derive(Debug, Clone)]
pub struct AnimationClip {
    pub name: Option<String>,
    pub channels: Vec<AnimationChannel>,
    pub looping: bool,
}

/// The parts of a loaded scene that clip selection and scene statistics read.
#[derive(Debug, Clone)]
pub struct SceneCpu {
    pub meshes: Vec<MeshCpu>,
    pub materials: Vec<MaterialCpu>,
    pub textures: Vec<TextureCpu>,
    pub skins: Vec<SkinCpu>,
    pub nodes: Vec<Node>,
    pub mesh_instances: Vec<MeshInstance>,
    pub animations: Vec<AnimationClip>,
    pub root_center_node: Option<usize>,
}

/// A clip drives only morph weights (and has at least one channel).
pub open spec fn morph_only_spec(channels: Seq<AnimationChannel>) -> bool {
    channels.len() > 0 && forall|i: int|
        0 <= i < channels.len() ==> #[trigger] channels[i].target == ChannelTarget::MorphWeights
}

/// Whether a clip animates only morph weights (a facial track layered on top
/// of the body clip).
pub fn is_morph_only_clip(clip: &AnimationClip) -> (res: bool)
    ensures
        res == morph_only_spec(clip.channels@),
{
    let n = clip.channels.len();
    if n == 0 {
        return false;
    }
    for i in 0..n
        invariant
            n == clip.channels@.len(),
            forall|k: int| 0 <= k < i ==> #[trigger] clip.channels@[k].target
                == ChannelTarget::MorphWeights,
    {
        if !matches!(clip.channels[i].target, ChannelTarget::MorphWeights) {
            return false;
        }
    }
    true
}

/// A clip that can drive a body: it has a channel that is not a morph-weight
/// channel.
pub open spec fn is_body_clip(clip: AnimationClip) -> bool {
    clip.channels@.len() > 0 && exists|i: int|
        0 <= i < clip.channels@.len() && #[trigger] clip.channels@[i].target
            != ChannelTarget::MorphWeights
}

fn body_clip(clip: &AnimationClip) -> (res: bool)
    ensures
        res == is_body_clip(*clip),
{
    let n = clip.channels.len();
    for i in 0..n
        invariant
            n == clip.channels@.len(),
            forall|k: int| 0 <= k < i ==> #[trigger] clip.channels@[k].target
                == ChannelTarget::MorphWeights,
    {
        if !matches!(clip.channels[i].target, ChannelTarget::MorphWeights) {
            return true;
        }
    }
    false
}

/// The clip played when none is selected: the first clip that drives a body,
/// else the first clip, else none.
pub open spec fn default_animation_spec(clips: Seq<AnimationClip>) -> Option<usize> {
    if exists|i: int| 0 <= i < clips.len() && is_body_clip(#[trigger] clips[i]) {
        Some(
            (choose|i: int|
                0 <= i < clips.len() && is_body_clip(#[trigger] clips[i]) && forall|j: int|
                    0 <= j < i ==> !is_body_clip(#[trigger] clips[j])) as usize,
        )
    } else if clips.len() > 0 {
        Some(0)
    } else {
        None
    }
}

/// Index of the clip to play when no selector was given.
pub fn default_body_animation_index(scene: &SceneCpu) -> (res: Option<usize>)
    ensures
        res == default_animation_spec(scene.animations@),
        res matches Some(i) ==> i < scene.animations@.len(),
{
    let n = scene.animations.len();
    for i in 0..n
        invariant
            n == scene.animations@.len(),
            forall|k: int| 0 <= k < i ==> !is_body_clip(#[trigger] scene.animations@[k]),
    {
        if body_clip(&scene.animations[i]) {
            proof {
                let clips = scene.animations@;
                assert(is_body_clip(clips[i as int]));
                let c = choose|c: int|
                    0 <= c < clips.len() && is_body_clip(#[trigger] clips[c]) && forall|j: int|
                        0 <= j < c ==> !is_body_clip(#[trigger] clips[j]);
                assert(c == i) by {
                    if c < i {
                        assert(!is_body_clip(clips[c]));
                    } else if c > i {
                        assert(!is_body_clip(clips[i as int]));
                    }
                }
            }
            return Some(i);
        }
    }
    if n > 0 {
        Some(0)
    } else {
        None
    }
}

/// A clip carries the name `name`.
pub open spec fn clip_has_name(clip: AnimationClip, name: Seq<char>) -> bool {
    match clip.name {
        Some(n) => n@ == name,
        None => false,
    }
}

/// The first clip named `name`.
pub open spec fn clip_named_spec(clips: Seq<AnimationClip>, name: Seq<char>) -> Option<usize> {
    if exists|i: int| 0 <= i < clips.len() && clip_has_name(#[trigger] clips[i], name) {
        Some(
            (choose|i: int|
                0 <= i < clips.len() && clip_has_name(#[trigger] clips[i], name) && forall|j: int|
                    0 <= j < i ==> !clip_has_name(#[trigger] clips[j], name)) as usize,
        )
    } else {
        None
    }
}

/// The clip a selector names: a decimal index (in range), else the first clip
/// with that name.
pub open spec fn selector_spec(clips: Seq<AnimationClip>, selector: Option<Seq<char>>) -> Option<
    usize,
> {
    match selector {
        None => None,
        Some(s) => match parse_unsigned_spec(s, usize::MAX as nat) {
            Some(i) => if i < clips.len() {
                Some(i as usize)
            } else {
                None
            },
            None => clip_named_spec(clips, s),
        },
    }
}

fn name_is(clip: &AnimationClip, name: &str) -> (res: bool)
    ensures
        res == clip_has_name(*clip, name@),
{
    match &clip.name {
        Some(n) => eq_text(n.as_str(), name),
        None => false,
    }
}

/// Number of channels of a clip for each target kind.
#[derive(Debug, Clone, Copy, PartialEq, Eq, Structural)]
pub struct ChannelCounts {
    pub translation: usize,
    pub rotation: usize,
    pub scale: usize,
    /// Morph-weight and material-morph-weight channels together.
    pub morph: usize,
}

/// Number of channels of `channels` whose target satisfies `t`.
pub open spec fn count_targets(channels: Seq<AnimationChannel>, t: spec_fn(ChannelTarget) -> bool) -> nat
    decreases channels.len(),
{
    if channels.len() == 0 {
        0
    } else {
        count_targets(channels.drop_last(), t) + if t(channels.last().target) {
            1nat
        } else {
            0nat
        }
    }
}

pub open spec fn is_morph_target(t: ChannelTarget) -> bool {
    t == ChannelTarget::MorphWeights || t == ChannelTarget::MaterialMorphWeights
}

/// `c` holds the per-target channel tallies of `channels`.
pub open spec fn tallies_channels(c: ChannelCounts, channels: Seq<AnimationChannel>) -> bool {
    &&& c.translation == count_targets(channels, |t: ChannelTarget| t == ChannelTarget::Translation)
    &&& c.rotation == count_targets(channels, |t: ChannelTarget| t == ChannelTarget::Rotation)
    &&& c.scale == count_targets(channels, |t: ChannelTarget| t == ChannelTarget::Scale)
    &&& c.morph == count_targets(channels, |t: ChannelTarget| is_morph_target(t))
}

impl SceneCpu {
    /// The clip a selector names (see `selector_spec`); no selector selects
    /// nothing.
    pub fn animation_index_by_selector(&self, selector: Option<&str>) -> (res: Option<usize>)
        ensures
            res == selector_spec(
                self.animations@,
                match selector {
                    Some(s) => Some(s@),
                    None => None,
                },
            ),
            res matches Some(i) ==> i < self.animations@.len(),
    {
        let sel = match selector {
            Some(s) => s,
            None => {
                return None;
            },
        };
        if let Some(index) = parse_usize(sel) {
            return if index < self.animations.len() {
                Some(index)
            } else {
                None
            };
        }
        let n = self.animations.len();
        for i in 0..n
            invariant
                n == self.animations@.len(),
                selector == Some(sel),
                parse_unsigned_spec(sel@, usize::MAX as nat) is None,
                forall|k: int| 0 <= k < i ==> !clip_has_name(#[trigger] self.animations@[k], sel@),
        {
            if name_is(&self.animations[i], sel) {
                proof {
                    let clips = self.animations@;
                    assert(clip_has_name(clips[i as int], sel@));
                    assert(forall|j: int| 0 <= j < i ==> !clip_has_name(#[trigger] clips[j], sel@));
                    let c = choose|c: int|
                        0 <= c < clips.len() && clip_has_name(#[trigger] clips[c], sel@)
                            && forall|j: int| 0 <= j < c ==> !clip_has_name(#[trigger] clips[j], sel@);
                    assert(c == i) by {
                        if c < i {
                            assert(!clip_has_name(clips[c], sel@));
                        } else if c > i {
                            assert(!clip_has_name(clips[i as int], sel@));
                        }
                    }
                }
                return Some(i);
            }
        }
        None
    }

    /// Number of textures whose source format is `FallbackWhite` (textures
    /// substituted for images that could not be decoded).
    pub fn fallback_texture_count(&self) -> (res: usize)
        ensures
            res == count_fallback(self.textures@),
    {
        let n = self.textures.len();
        let mut count: usize = 0;
        for i in 0..n
            invariant
                n == self.textures@.len(),
                count == count_fallback(self.textures@.take(i as int)),
                count <= i,
        {
            assert(self.textures@.take(i + 1).drop_last() =~= self.textures@.take(i as int));
            if eq_text(self.textures[i].source_format.as_str(), "FallbackWhite") {
                count = count + 1;
            }
        }
        assert(self.textures@.take(n as int) =~= self.textures@);
        count
    }
}

/// Number of textures substituted by a white fallback.
pub open spec fn count_fallback(textures: Seq<TextureCpu>) -> nat
    decreases textures.len(),
{
    if textures.len() == 0 {
        0
    } else {
        count_fallback(textures.drop_last()) + if textures.last().source_format@
            == "FallbackWhite"@ {
            1nat
        } else {
            0nat
        }
    }
}

/// Why no clip could be chosen.
#[derive(Debug, Clone, PartialEq, Eq)]
pub enum AnimationSelectError {
    /// No clip matches the selector (which is carried).
    NotFound(String),
}

impl AnimationSelectError {
    /// The error's description, as shown to the user.
    pub fn message(&self) -> (res: String)
        ensures
            res@ == (match self {
                AnimationSelectError::NotFound(sel) => "animation selector not found: "@ + sel@,
            }),
    {
        match self {
            AnimationSelectError::NotFound(sel) => {
                let mut text = String::from_str("animation selector not found: ");
                text.append(sel.as_str());
                text
            },
        }
    }
}

/// The clip to play: the one the selector names (an error when none does),
/// or the default clip when there is no selector.
pub fn resolve_animation_index(scene: &SceneCpu, selector: Option<&str>) -> (res: Result<
    Option<usize>,
    AnimationSelectError,
>)
    ensures
        selector is None ==> res == Ok::<Option<usize>, AnimationSelectError>(
            default_animation_spec(scene.animations@),
        ),
        selector matches Some(s) ==> match selector_spec(scene.animations@, Some(s@)) {
            Some(i) => res == Ok::<Option<usize>, AnimationSelectError>(Some(i)),
            None => res matches Err(AnimationSelectError::NotFound(msg)) && msg@ == s@,
        },
{
    match selector {
        Some(sel) => match scene.animation_index_by_selector(Some(sel)) {
            Some(index) => Ok(Some(index)),
            None => Err(AnimationSelectError::NotFound(sel.to_owned())),
        },
        None => Ok(default_body_animation_index(scene)),
    }
}

/// Tallies the channels of a clip by target (morph and material-morph
/// weights together).
pub fn channel_counts(clip: &AnimationClip) -> (res: ChannelCounts)
    ensures
        res.translation == count_targets(clip.channels@, |t: ChannelTarget| t == ChannelTarget::Translation),
        res.rotation == count_targets(clip.channels@, |t: ChannelTarget| t == ChannelTarget::Rotation),
        res.scale == count_targets(clip.channels@, |t: ChannelTarget| t == ChannelTarget::Scale),
        res.morph == count_targets(clip.channels@, |t: ChannelTarget| is_morph_target(t)),
        tallies_channels(res, clip.channels@),
        res.translation + res.rotation + res.scale + res.morph == clip.channels@.len(),
{
    let n = clip.channels.len();
    let mut c = ChannelCounts { translation: 0, rotation: 0, scale: 0, morph: 0 };
    for i in 0..n
        invariant
            n == clip.channels@.len(),
            c.translation == count_targets(
                clip.channels@.take(i as int),
                |t: ChannelTarget| t == ChannelTarget::Translation,
            ),
            c.rotation == count_targets(
                clip.channels@.take(i as int),
                |t: ChannelTarget| t == ChannelTarget::Rotation,
            ),
            c.scale == count_targets(
                clip.channels@.take(i as int),
                |t: ChannelTarget| t == ChannelTarget::Scale,
            ),
            c.morph == count_targets(
                clip.channels@.take(i as int),
                |t: ChannelTarget| is_morph_target(t),
            ),
            c.translation + c.rotation + c.scale + c.morph == i,
    {
        assert(clip.channels@.take(i + 1).drop_last() =~= clip.channels@.take(i as int));
        match clip.channels[i].target {
            ChannelTarget::Translation => c.translation = c.translation + 1,
            ChannelTarget::Rotation => c.rotation = c.rotation + 1,
            ChannelTarget::Scale => c.scale = c.scale + 1,
            ChannelTarget::MorphWeights => c.morph = c.morph + 1,
            ChannelTarget::MaterialMorphWeights => c.morph = c.morph + 1,
        }
    }
    assert(clip.channels@.take(n as int) =~= clip.channels@);
    c
}

/// A morph-only clip never drives a body, and a clip with channels is one or
/// the other exactly when all or not all of its channels are morph weights.
pub proof fn lemma_morph_only_excludes_body(clip: AnimationClip)
    ensures
        morph_only_spec(clip.channels@) ==> !is_body_clip(clip),
        clip.channels@.len() > 0 ==> (morph_only_spec(clip.channels@) || is_body_clip(clip)),
{
    if clip.channels@.len() > 0 && !morph_only_spec(clip.channels@) {
        let i = choose|i: int|
            0 <= i < clip.channels@.len() && !(#[trigger] clip.channels@[i].target
                == ChannelTarget::MorphWeights);
        assert(clip.channels@[i].target != ChannelTarget::MorphWeights);
    }
}

/// A selector that is the decimal index of an existing clip selects that
/// clip, whatever the clips are named.
pub proof fn lemma_index_selector_wins(clips: Seq<AnimationClip>, s: Seq<char>, i: nat)
    requires
        parse_unsigned_spec(s, usize::MAX as nat) == Some(i),
        i < clips.len(),
    ensures
        selector_spec(clips, Some(s)) == Some(i as usize),
{
}

} // verus!
