use syphon::directory::{DiscoveryPlan, ANNOUNCE_WAIT_MS};
use syphon::wgpu_output::server_names;
use syphon::{ServerInfo, SyphonServerDirectory};

fn server(name: &str, uuid: &str, app: &str) -> ServerInfo {
    ServerInfo {
        name: name.to_string(),
        uuid: uuid.to_string(),
        app_name: app.to_string(),
        bundle_id: format!("com.example.{}", uuid),
    }
}

fn sample() -> Vec<ServerInfo> {
    vec![
        server("Main", "u1", "Resolume Arena"),
        server("", "u2", "Simple Server"),
        server("Main", "u3", "VDMX"),
    ]
}

#[test]
fn display_name_prefers_name() {
    assert_eq!(server("Main", "u1", "Arena").display_name(), "Main");
    assert_eq!(server("", "u2", "Simple Server").display_name(), "Simple Server");
}

#[test]
fn find_by_uuid_finds_exact_server() {
    let found = SyphonServerDirectory::find_by_uuid(sample(), "u3").unwrap();
    assert_eq!(found.app_name, "VDMX");
    assert!(SyphonServerDirectory::find_by_uuid(sample(), "u9").is_none());
    assert!(SyphonServerDirectory::find_by_uuid(Vec::new(), "u1").is_none());
}

#[test]
fn find_server_matches_name_or_app_name_first_wins() {
    let found = SyphonServerDirectory::find_server(sample(), "Main").unwrap();
    assert_eq!(found.uuid, "u1");
    let found = SyphonServerDirectory::find_server(sample(), "Simple Server").unwrap();
    assert_eq!(found.uuid, "u2");
    assert!(SyphonServerDirectory::find_server(sample(), "Nope").is_none());
}

#[test]
fn server_exists_by_name_or_app() {
    assert!(SyphonServerDirectory::server_exists(sample(), "VDMX"));
    assert!(SyphonServerDirectory::server_exists(sample(), "Main"));
    assert!(!SyphonServerDirectory::server_exists(sample(), "main"));
    assert!(!SyphonServerDirectory::server_exists(Vec::new(), "Main"));
}

#[test]
fn discovery_announces_only_when_empty() {
    assert_eq!(
        SyphonServerDirectory::discovery_plan(0),
        DiscoveryPlan::AnnounceAndWait { wait_ms: ANNOUNCE_WAIT_MS }
    );
    assert_eq!(ANNOUNCE_WAIT_MS, 200);
    assert_eq!(SyphonServerDirectory::discovery_plan(3), DiscoveryPlan::UseKnown);
}

#[test]
fn list_servers_gives_names_in_order() {
    assert_eq!(server_names(sample()), vec!["Main".to_string(), "".to_string(), "Main".to_string()]);
    assert!(server_names(Vec::new()).is_empty());
}

#[test]
fn every_server_is_found_under_its_display_name() {
    for s in sample() {
        let shown = s.display_name().to_string();
        let found = SyphonServerDirectory::find_server(sample(), &shown).unwrap();
        assert!(found.name == shown || found.app_name == shown);
    }
}
