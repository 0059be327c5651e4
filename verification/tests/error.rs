//! Tests for the messages of errors.

use bevy_ufbx::FbxError;

#[test]
fn test_error_messages() {
    let detail = || "the detail".to_string();
    assert_eq!(FbxError::UfbxError(detail()).to_string(), "Failed to load FBX: the detail");
    assert_eq!(
        FbxError::ConversionError(detail()).to_string(),
        "Failed to convert FBX data: the detail"
    );
    assert_eq!(
        FbxError::MeshConversion(detail()).to_string(),
        "Failed to convert mesh: the detail"
    );
    assert_eq!(
        FbxError::MaterialConversion(detail()).to_string(),
        "Failed to convert material: the detail"
    );
    assert_eq!(FbxError::TextureLoad(detail()).to_string(), "Failed to load texture: the detail");
    assert_eq!(FbxError::InvalidData(detail()).to_string(), "Invalid FBX data: the detail");
    assert_eq!(
        FbxError::UnsupportedFeature(detail()).to_string(),
        "Unsupported FBX feature: the detail"
    );
    assert_eq!(FbxError::InvalidData(String::new()).to_string(), "Invalid FBX data: ");
}

#[test]
fn test_io_error_message() {
    let error = FbxError::Io(std::io::Error::new(std::io::ErrorKind::NotFound, "no such file"));
    let message = error.to_string();
    assert!(message.starts_with("Failed to read FBX file: "));
    assert_eq!(message, "Failed to read FBX file: no such file");
}
