//! Domain value objects: asset and scene descriptions, render targets and
//! audio sync profiles.

use vstd::prelude::*;

verus! {

/// File format of an asset (for example `gltf`, `pmx`, `obj`).
#[derive(Debug, Clone, PartialEq)]
pub struct AssetFormat(pub String);

/// Metadata extracted from loaded scene data.
#[derive(Debug, Clone, Copy, PartialEq, Eq, Structural)]
pub struct AssetMetadata {
    pub vertex_count: usize,
    pub triangle_count: usize,
    pub animation_count: usize,
    pub file_size_bytes: Option<u64>,
}

impl Default for AssetMetadata {
    fn default() -> (res: Self)
        ensures
            res == (AssetMetadata {
                vertex_count: 0,
                triangle_count: 0,
                animation_count: 0,
                file_size_bytes: None,
            }),
    {
        AssetMetadata { vertex_count: 0, triangle_count: 0, animation_count: 0, file_size_bytes: None }
    }
}

/// Location of an asset on disk, as the path text.
#[derive(Debug, Clone, PartialEq)]
pub struct AssetPath(pub String);

/// Metadata derived from a loaded scene.
#[derive(Debug, Clone, Copy, PartialEq, Eq, Structural)]
pub struct SceneMetadata {
    pub vertex_count: usize,
    pub triangle_count: usize,
    pub animation_count: usize,
    pub mesh_count: usize,
    pub material_count: usize,
}

impl Default for SceneMetadata {
    fn default() -> (res: Self)
        ensures
            res == (SceneMetadata {
                vertex_count: 0,
                triangle_count: 0,
                animation_count: 0,
                mesh_count: 0,
                material_count: 0,
            }),
    {
        SceneMetadata {
            vertex_count: 0,
            triangle_count: 0,
            animation_count: 0,
            mesh_count: 0,
            material_count: 0,
        }
    }
}

/// Display name of a scene.
#[derive(Debug, Clone, PartialEq)]
pub struct SceneName(pub String);

/// Pixel size of a render target.
#[derive(Debug, Clone, Copy, PartialEq, Eq, Structural)]
pub struct RenderTargetSpec {
    pub width: u32,
    pub height: u32,
}

/// Audio/visual sync offset in milliseconds (positive: visuals later).
#[derive(Debug, Clone, Copy, PartialEq, Eq, Structural)]
pub struct SyncOffsetMs(pub i32);

/// A stored sync offset, keyed by the scene/audio pair it was tuned for.
#[derive(Debug, Clone, PartialEq)]
pub struct SyncProfile {
    pub key: String,
    pub offset_ms: SyncOffsetMs,
}

/// Something that happened to an aggregate, named by its event type.
pub trait DomainEvent {
    fn event_type(&self) -> &'static str;
}

} // verus!
