//! GPU backend errors, adapter description and render-target sizing.  The
//! device, textures and render passes themselves are created by the host
//! program with the graphics API.

use vstd::prelude::*;

use vstd::string::StringExecFns;


verus! {

/// Why the GPU path could not produce a frame.
#[derive(Debug, Clone, PartialEq, Eq)]
pub enum GpuError {
    NoAdapter,
    DeviceCreation(String),
    NotImplemented,
    Render(String),
}

/// The human-readable description of a GPU error.
pub open spec fn gpu_error_message(e: GpuError) -> Seq<char> {
    match e {
        GpuError::NoAdapter => "No suitable GPU adapter found"@,
        GpuError::DeviceCreation(msg) => "Failed to create device: "@ + msg@,
        GpuError::NotImplemented => "GPU rendering not yet implemented"@,
        GpuError::Render(msg) => "Render error: "@ + msg@,
    }
}

impl GpuError {
    /// The error's description, as shown to the user.
    pub fn message(&self) -> (res: String)
        ensures
            res@ == gpu_error_message(*self),
    {
        match self {
            GpuError::NoAdapter => String::from_str("No suitable GPU adapter found"),
            GpuError::DeviceCreation(msg) => {
                let mut text = String::from_str("Failed to create device: ");
                text.append(msg.as_str());
                text
            },
            GpuError::NotImplemented => String::from_str("GPU rendering not yet implemented"),
            GpuError::Render(msg) => {
                let mut text = String::from_str("Render error: ");
                text.append(msg.as_str());
                text
            },
        }
    }
}

/// Why the GPU backend declined or failed a frame.
#[derive(Debug, Clone, PartialEq, Eq)]
pub enum GpuBackendError {
    Gpu(GpuError),
    NotImplemented,
    Unsupported,
}

impl From<GpuError> for GpuBackendError {
    fn from(e: GpuError) -> (res: Self) {
        GpuBackendError::Gpu(e)
    }
}

impl vstd::std_specs::convert::FromSpecImpl<GpuError> for GpuBackendError {
    open spec fn obeys_from_spec() -> bool {
        true
    }

    open spec fn from_spec(v: GpuError) -> Self {
        GpuBackendError::Gpu(v)
    }
}

/// What the graphics API reports of the adapter in use.
#[derive(Debug, Clone)]
pub struct AdapterInfo {
    pub name: String,
    pub backend: String,
    pub device_type: String,
}

/// Size of an off-screen render target, in pixels.
#[derive(Debug, Clone, Copy, PartialEq, Eq, Structural)]
pub struct TextureSize {
    pub width: u32,
    pub height: u32,
}

impl TextureSize {
    pub fn new(width: u32, height: u32) -> (res: Self)
        ensures
            res.width == width,
            res.height == height,
    {
        TextureSize { width, height }
    }
}

/// A render target needs at least one pixel in each direction; the error
/// carries the message the texture setup reports.
pub fn check_texture_size(size: TextureSize) -> (res: Result<(), GpuError>)
    ensures
        res is Ok <==> (size.width > 0 && size.height > 0),
        res matches Err(e) ==> (e matches GpuError::Render(m) && m@ == "Invalid texture size"@),
{
    if size.width == 0 || size.height == 0 {
        return Err(GpuError::Render(String::from_str("Invalid texture size")));
    }
    Ok(())
}

/// Bytes of an RGBA8 read-back buffer for a render target of `size`.
pub fn rgba_buffer_size(size: TextureSize) -> (res: u64)
    requires
        size.width * size.height * 4 <= u32::MAX,
    ensures
        res == size.width * size.height * 4,
{
    assert(size.width * size.height * 4 <= u32::MAX);
    let area = (size.width as u64) * (size.height as u64);
    area * 4
}

} // verus!
