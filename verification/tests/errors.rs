use rosen_bridge::error::MetadataError;

#[test]
fn metadata_error_describes_itself() {
    assert_eq!(MetadataError::UnknownError.message(), "Failed to unpack instruction data");
    assert_eq!(MetadataError::type_of(), "Metadata Error");
}

#[test]
fn metadata_error_code_round_trip() {
    assert_eq!(MetadataError::UnknownError.code(), 0);
    assert_eq!(MetadataError::from_code(0), Some(MetadataError::UnknownError));
    assert_eq!(MetadataError::from_code(1), None);
    assert_eq!(MetadataError::from_code(u32::MAX), None);
}
