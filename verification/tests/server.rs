use syphon::server::{prepare_server, SyphonServer};
use syphon::SyphonError;

#[test]
fn server_creation_checks_in_order() {
    assert_eq!(
        prepare_server(false, false, "a\0"),
        Err(SyphonError::CreateFailed("Failed to create Metal device".to_string()))
    );
    assert_eq!(
        prepare_server(true, false, "a\0"),
        Err(SyphonError::FrameworkNotFound("SyphonMetalServer class not found".to_string()))
    );
    assert_eq!(
        prepare_server(true, true, "a\0"),
        Err(SyphonError::InvalidParameter(
            "Invalid string: nul byte found in provided data at position: 1".to_string()
        ))
    );
    assert_eq!(prepare_server(true, true, "My Rust App"), Ok(()));
}

#[test]
fn server_keeps_name_and_size() {
    let s = SyphonServer::from_init(Some(42u64), "My Rust App", 1920, 1080).unwrap();
    assert_eq!(s.name(), "My Rust App");
    assert_eq!(s.dimensions(), (1920, 1080));
    assert_eq!(*s.handle(), 42);
    assert_eq!(s.client_count(|_h: &u64| true), 1);
    assert_eq!(s.client_count(|_h: &u64| false), 0);
    assert!(s.has_clients(|h: &u64| *h == 42));
    assert!(!s.has_clients(|_h: &u64| false));
}

#[test]
fn server_init_returning_nil_fails() {
    let r = SyphonServer::<u64>::from_init(None, "x", 1, 1);
    assert!(matches!(r, Err(SyphonError::CreateFailed(m)) if m == "Failed to create SyphonServer"));
}
