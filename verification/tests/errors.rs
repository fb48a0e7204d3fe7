use luna4::Luna4Error;

#[test]
fn errors_test_error_display() {
    let error = Luna4Error::EnergyError("test error".to_string());
    assert_eq!(error.message(), "Invalid energy configuration: test error");

    let error = Luna4Error::PlanetCreation("creation failed".to_string());
    assert_eq!(error.message(), "Failed to create planet: creation failed");
}

#[test]
fn errors_test_error_debug() {
    let error = Luna4Error::ResourceError("cannot generate".to_string());
    // Should not panic when formatting for debug
    let _ = format!("{:?}", error);
}
