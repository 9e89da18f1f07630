//! Render-setting enumerations shared by the whole renderer.

use vstd::prelude::*;

verus! {

/// Glyph family used to draw the frame.
#[derive(Debug, Clone, Copy, PartialEq, Eq, Structural)]
pub enum RenderMode {
    Ascii,
    Braille,
}

/// How a frame reaches the terminal.
#[derive(Debug, Clone, Copy, PartialEq, Eq, Structural)]
pub enum RenderOutputMode {
    Text,
    Hybrid,
    KittyHq,
}

/// Inline-image protocol requested by the user.
#[derive(Debug, Clone, Copy, PartialEq, Eq, Structural)]
pub enum GraphicsProtocol {
    Auto,
    Kitty,
    Iterm2,
    /// No inline-image protocol (`none` on the command line).
    Disabled,
}

#[derive(Debug, Clone, Copy, PartialEq, Eq, Structural)]
pub enum KittyTransport {
    Shm,
    Direct,
}

#[derive(Debug, Clone, Copy, PartialEq, Eq, Structural)]
pub enum KittyCompression {
    /// Frames are sent without compression (`none` on the command line).
    Uncompressed,
    Zlib,
}

/// Internal render resolution presets of the kitty pipeline.
#[derive(Debug, Clone, Copy, PartialEq, Eq, Structural)]
pub enum KittyInternalResPreset {
    R640x360,
    R854x480,
    R1280x720,
}

/// Pixel pipeline used by the kitty output.
#[derive(Debug, Clone, Copy, PartialEq, Eq, Structural)]
pub enum KittyPipelineMode {
    RealPixel,
    GlyphCompat,
}

/// How the graphics output recovers after a failure.
#[derive(Debug, Clone, Copy, PartialEq, Eq, Structural)]
pub enum RecoverStrategy {
    Hard,
    Soft,
    Off,
}

/// Role of the stage scene relative to the subject.
#[derive(Debug, Clone, Copy, PartialEq, Eq, Structural)]
pub enum StageRole {
    Sub,
    Off,
}

/// Audio/animation synchronisation policy.
#[derive(Debug, Clone, Copy, PartialEq, Eq, Structural)]
pub enum SyncPolicy {
    Continuous,
    Fixed,
    Manual,
}

/// Frame-time target profile.
#[derive(Debug, Clone, Copy, PartialEq, Eq, Structural)]
pub enum PerfProfile {
    Balanced,
    Cinematic,
    Smooth,
}

/// Geometric detail profile.
#[derive(Debug, Clone, Copy, PartialEq, Eq, Structural)]
pub enum DetailProfile {
    Perf,
    Balanced,
    Ultra,
}

/// Rasterisation backend.
#[derive(Debug, Clone, Copy, PartialEq, Eq, Structural)]
pub enum RenderBackend {
    Cpu,
    Gpu,
}

/// Anchor used to keep the subject centred.
#[derive(Debug, Clone, Copy, PartialEq, Eq, Structural)]
pub enum CenterLockMode {
    Root,
    Mixed,
}

/// Interactive camera control scheme.
#[derive(Debug, Clone, Copy, PartialEq, Eq, Structural)]
pub enum CameraControlMode {
    Orbit,
    FreeFly,
}

/// Terminal colour output.
#[derive(Debug, Clone, Copy, PartialEq, Eq, Structural)]
pub enum ColorMode {
    Mono,
    Ansi,
}

/// Braille glyph density profile.
#[derive(Debug, Clone, Copy, PartialEq, Eq, Structural)]
pub enum BrailleProfile {
    Safe,
    Normal,
    Dense,
}

/// Visual theme.
#[derive(Debug, Clone, Copy, PartialEq, Eq, Structural)]
pub enum ThemeStyle {
    Theater,
    Neon,
    Holo,
}

/// Strength of audio-reactive effects.
#[derive(Debug, Clone, Copy, PartialEq, Eq, Structural)]
pub enum AudioReactiveMode {
    Off,
    On,
    High,
}

/// Automatic camera direction.
#[derive(Debug, Clone, Copy, PartialEq, Eq, Structural)]
pub enum CinematicCameraMode {
    Off,
    On,
    Aggressive,
}

/// Framing target of the camera.
#[derive(Debug, Clone, Copy, PartialEq, Eq, Structural)]
pub enum CameraFocusMode {
    Auto,
    Full,
    Upper,
    Face,
    Hands,
}

/// How the terminal cell aspect ratio is chosen.
#[derive(Debug, Clone, Copy, PartialEq, Eq, Structural)]
pub enum CellAspectMode {
    Auto,
    Manual,
}

/// Contrast adaptation.
#[derive(Debug, Clone, Copy, PartialEq, Eq, Structural)]
pub enum ContrastProfile {
    Adaptive,
    Fixed,
}

/// Animation speed relative to the audio clock.
#[derive(Debug, Clone, Copy, PartialEq, Eq, Structural)]
pub enum SyncSpeedMode {
    AutoDurationFit,
    Realtime1x,
}

/// Texture sampling used by the rasteriser.
#[derive(Debug, Clone, Copy, PartialEq, Eq, Structural)]
pub enum TextureSamplingMode {
    Nearest,
    Bilinear,
}

/// Texture V-axis convention.
#[derive(Debug, Clone, Copy, PartialEq, Eq, Structural)]
pub enum TextureVOrigin {
    Gltf,
    Legacy,
}

/// Whether model sampler settings are honoured.
#[derive(Debug, Clone, Copy, PartialEq, Eq, Structural)]
pub enum TextureSamplerMode {
    Gltf,
    Override,
}

/// Colour space of texture data.
#[derive(Debug, Clone, Copy, PartialEq, Eq, Structural)]
pub enum TextureColorSpace {
    Srgb,
    Linear,
}

/// Texture coordinate wrapping.
#[derive(Debug, Clone, Copy, PartialEq, Eq, Structural)]
pub enum TextureWrapMode {
    Repeat,
    MirroredRepeat,
    ClampToEdge,
}

/// Texture filtering.
#[derive(Debug, Clone, Copy, PartialEq, Eq, Structural)]
pub enum TextureFilterMode {
    Nearest,
    Linear,
}

/// Use of a recorded camera track.
#[derive(Debug, Clone, Copy, PartialEq, Eq, Structural)]
pub enum CameraMode {
    Off,
    Vmd,
    Blend,
}

/// Axis alignment of recorded camera tracks.
#[derive(Debug, Clone, Copy, PartialEq, Eq, Structural)]
pub enum CameraAlignPreset {
    Std,
    AltA,
    AltB,
}

/// Edge/clarity enhancement profile.
#[derive(Debug, Clone, Copy, PartialEq, Eq, Structural)]
pub enum ClarityProfile {
    Balanced,
    Sharp,
    Extreme,
}

/// ANSI colour quantisation.
#[derive(Debug, Clone, Copy, PartialEq, Eq, Structural)]
pub enum AnsiQuantization {
    Q216,
    Off,
}

/// Material alpha handling.
#[derive(Debug, Clone, Copy, PartialEq, Eq, Structural)]
pub enum MaterialAlphaMode {
    Opaque,
    Mask,
    Blend,
}

/// Layer a mesh instance belongs to.
#[derive(Debug, Clone, Copy, PartialEq, Eq, Structural)]
pub enum MeshLayer {
    Subject,
    Stage,
}

/// A loaded mesh primitive, as far as scene statistics read it. Vertex data
/// itself (positions, normals, colours, texture coordinates) is floating
/// point and stays with the renderer; what is kept is how much of each there
/// is.
#[derive(Debug, Clone, Copy, PartialEq, Eq, Structural)]
pub struct MeshCpu {
    /// Number of vertex positions.
    pub positions: usize,
    /// Number of index triangles.
    pub triangles: usize,
    /// Number of morph targets.
    pub morph_targets: usize,
    /// The mesh carries a non-empty vertex colour stream.
    pub has_vertex_colors: bool,
    /// The mesh carries a non-empty first texture-coordinate stream.
    pub has_uv0: bool,
}

impl MeshCpu {
    /// Number of vertices of the mesh.
    pub fn vertex_count(&self) -> (res: usize)
        ensures
            res == self.positions,
    {
        self.positions
    }

    /// Number of triangles of the mesh.
    pub fn triangle_count(&self) -> (res: usize)
        ensures
            res == self.triangles,
    {
        self.triangles
    }
}

/// A skin: the node indices of its joints (the inverse bind matrices stay
/// with the renderer).
#[derive(Debug, Clone)]
pub struct SkinCpu {
    pub joints: Vec<usize>,
}

/// A placed mesh: which mesh, on which node, with which skin, how many
/// default morph weights it starts from, and its layer.
#[derive(Debug, Clone, Copy, PartialEq, Eq, Structural)]
pub struct MeshInstance {
    pub mesh_index: usize,
    pub node_index: usize,
    pub skin_index: Option<usize>,
    /// Length of the instance's default morph weight list.
    pub default_morph_weights: usize,
    pub layer: MeshLayer,
}

/// A scene node, as far as scene statistics read it (its rest transform is
/// floating point and stays with the renderer).
#[derive(Debug, Clone)]
pub struct Node {
    pub name: Option<String>,
    pub parent: Option<usize>,
    pub children: Vec<usize>,
}

/// A material's base colour texture binding, sampler and alpha handling
/// (its colour factors, alpha cutoff and texture transform are floating
/// point and stay with the renderer).
#[derive(Debug, Clone, Copy, PartialEq, Eq, Structural)]
pub struct MaterialCpu {
    pub base_color_texture: Option<usize>,
    pub base_color_tex_coord: u32,
    pub base_color_wrap_s: TextureWrapMode,
    pub base_color_wrap_t: TextureWrapMode,
    pub base_color_min_filter: TextureFilterMode,
    pub base_color_mag_filter: TextureFilterMode,
    pub alpha_mode: MaterialAlphaMode,
    pub double_sided: bool,
}

/// One mip level of a decoded texture.
#[derive(Debug, Clone)]
pub struct TextureLevelCpu {
    pub width: u32,
    pub height: u32,
    pub rgba8: Vec<u8>,
}

/// A decoded texture with its mip chain.
#[derive(Debug, Clone)]
pub struct TextureCpu {
    pub width: u32,
    pub height: u32,
    pub rgba8: Vec<u8>,
    pub source_format: String,
    pub color_space: TextureColorSpace,
    pub mip_levels: Vec<TextureLevelCpu>,
}

/// Pixel size `(width, height)` of a kitty internal resolution preset.
pub open spec fn kitty_resolution_spec(preset: KittyInternalResPreset) -> (u16, u16) {
    match preset {
        KittyInternalResPreset::R640x360 => (640, 360),
        KittyInternalResPreset::R854x480 => (854, 480),
        KittyInternalResPreset::R1280x720 => (1280, 720),
    }
}

/// Pixel size of the given preset.
pub fn kitty_internal_resolution(preset: KittyInternalResPreset) -> (res: (u16, u16))
    ensures
        res == kitty_resolution_spec(preset),
{
    match preset {
        KittyInternalResPreset::R640x360 => (640, 360),
        KittyInternalResPreset::R854x480 => (854, 480),
        KittyInternalResPreset::R1280x720 => (1280, 720),
    }
}

} // verus!
