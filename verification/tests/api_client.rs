use ironpass::api_client::{map_error, ApiClientError};

#[test]
fn unsuccessful_statuses_map_onto_error_variants() {
    assert!(matches!(map_error(404, "gone".into()), ApiClientError::NotFound(m) if m == "gone"));
    assert!(matches!(map_error(400, "bad".into()), ApiClientError::BadRequest(m) if m == "bad"));
    assert!(matches!(map_error(409, "dup".into()), ApiClientError::Conflict(m) if m == "dup"));
    assert!(matches!(
        map_error(500, "Unknown API error".into()),
        ApiClientError::Api { status: 500, message } if message == "Unknown API error"
    ));
    assert!(matches!(map_error(401, "no".into()), ApiClientError::Api { status: 401, .. }));
}
