use repo_porter::errors::{error_kind, http_status, PortError};

#[test]
fn auth_failures_pass_through() {
    assert_eq!(http_status(&PortError::Fetch(401)), 401);
    assert_eq!(http_status(&PortError::Fetch(403)), 403);
}

#[test]
fn upstream_failures_are_bad_gateway() {
    assert_eq!(http_status(&PortError::Fetch(404)), 502);
    assert_eq!(http_status(&PortError::Fetch(500)), 502);
    assert_eq!(http_status(&PortError::Deserialize), 502);
    assert_eq!(http_status(&PortError::Upload(500)), 502);
}

#[test]
fn missing_token_is_configuration_error() {
    assert_eq!(http_status(&PortError::MissingToken), 500);
}

#[test]
fn kinds_name_the_error() {
    assert_eq!(error_kind(&PortError::MissingToken), "config");
    assert_eq!(error_kind(&PortError::Fetch(500)), "fetch");
    assert_eq!(error_kind(&PortError::Deserialize), "deserialize");
    assert_eq!(error_kind(&PortError::Upload(500)), "upload");
}
