use terminal_miku3d::domain::{
    AssetFormat, AssetMetadata, RenderTargetSpec, SceneMetadata, SceneName, SyncOffsetMs,
    SyncProfile,
};
use terminal_miku3d::gpu::{
    check_texture_size, rgba_buffer_size, AdapterInfo, GpuBackendError, GpuError, TextureSize,
};

#[test]
fn gpu_error_messages() {
    assert_eq!(GpuError::NoAdapter.message(), "No suitable GPU adapter found");
    assert_eq!(
        GpuError::DeviceCreation("lost".to_owned()).message(),
        "Failed to create device: lost"
    );
    assert_eq!(GpuError::NotImplemented.message(), "GPU rendering not yet implemented");
    assert_eq!(GpuError::Render("oops".to_owned()).message(), "Render error: oops");
}

#[test]
fn backend_error_wraps_gpu_error() {
    let e: GpuBackendError = GpuError::NoAdapter.into();
    assert_eq!(e, GpuBackendError::Gpu(GpuError::NoAdapter));
}

#[test]
fn texture_sizes_must_be_positive() {
    let size = TextureSize::new(64, 32);
    assert_eq!((size.width, size.height), (64, 32));
    assert_eq!(check_texture_size(size), Ok(()));
    assert_eq!(
        check_texture_size(TextureSize::new(0, 32)),
        Err(GpuError::Render("Invalid texture size".to_owned()))
    );
    assert!(check_texture_size(TextureSize::new(64, 0)).is_err());
    assert_eq!(rgba_buffer_size(size), 64 * 32 * 4);
}

#[test]
fn adapter_info_and_value_objects_hold_their_values() {
    let info = AdapterInfo {
        name: "gpu".to_owned(),
        backend: "Metal".to_owned(),
        device_type: "IntegratedGpu".to_owned(),
    };
    assert_eq!(info.clone().backend, "Metal");
    assert_eq!(AssetMetadata::default().vertex_count, 0);
    assert_eq!(SceneMetadata::default().material_count, 0);
    assert_eq!(AssetFormat("pmx".to_owned()), AssetFormat("pmx".to_owned()));
    assert_eq!(SceneName("stage".to_owned()).0, "stage");
    let profile = SyncProfile {
        key: "glb:song".to_owned(),
        offset_ms: SyncOffsetMs(-40),
    };
    assert_eq!(profile.offset_ms, SyncOffsetMs(-40));
    assert_eq!(RenderTargetSpec { width: 4, height: 2 }.width, 4);
}
