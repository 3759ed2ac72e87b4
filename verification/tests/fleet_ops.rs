//! The file-backed operations: what init decides and what run loads.

use fleetr::fleet::{init_decision, load_fleet, run_outcome, FleetError, InitAction};
use fleetr::schema::SchemaError;
use fleetr::template::template_text;

#[test]
fn init_fresh_writes_regardless_of_force() {
    assert!(matches!(init_decision(false, false), InitAction::WriteTemplate));
    assert!(matches!(init_decision(false, true), InitAction::WriteTemplate));
}

#[test]
fn init_existing_unforced_keeps_file() {
    assert!(matches!(init_decision(true, false), InitAction::KeepExisting));
}

#[test]
fn init_existing_forced_overwrites() {
    assert!(matches!(init_decision(true, true), InitAction::WriteTemplate));
}

#[test]
fn run_without_file_is_missing_file() {
    assert!(matches!(run_outcome(None), Err(FleetError::MissingFile)));
}

#[test]
fn template_round_trip_lists_both_servers() {
    let config = load_fleet(template_text()).unwrap();
    assert_eq!(config.servers.len(), 2);

    let (name, server) = &config.servers[0];
    assert_eq!(name, "aubergine");
    assert_eq!(server.ip, "10.0.0.10");
    assert_eq!(server.ssh_key, "~/.ssh/key");
    assert_eq!(server.user, "root");
    assert_eq!(server.role, "cntrl");
    assert_eq!(server.pkgs, vec!["nala", "curl", "wget", "net-tools"]);

    let (name, server) = &config.servers[1];
    assert_eq!(name, "rhubarb");
    assert_eq!(server.ip, "10.0.0.11");
    assert_eq!(server.ssh_key, "~/.ssh/key");
    assert_eq!(server.user, "root");
    assert_eq!(server.role, "agent");
    assert_eq!(server.pkgs, vec!["nala", "curl", "wget"]);
}

#[test]
fn run_on_loaded_template_equals_round_trip() {
    let config = run_outcome(Some(template_text())).unwrap();
    assert_eq!(config.servers.len(), 2);
    assert_eq!(config.servers[0].0, "aubergine");
    assert_eq!(config.servers[1].0, "rhubarb");
}

#[test]
fn unterminated_string_is_syntax_error() {
    let r = load_fleet("[servers.a]\nip = 'unterminated");
    match r {
        Err(FleetError::Syntax(message)) => assert!(!message.is_empty()),
        _ => panic!("expected a syntax error"),
    }
}

#[test]
fn missing_user_field_is_rejected() {
    let text = "[servers.aubergine]\nip = '10.0.0.10'\nssh_key = '~/.ssh/key'\nrole = 'cntrl'\npkgs = ['nala']\n";
    match load_fleet(text) {
        Err(FleetError::Schema(SchemaError::MissingField(name, field))) => {
            assert_eq!(name, "aubergine");
            assert_eq!(field, "user");
        },
        _ => panic!("expected a missing-field error"),
    }
}

#[test]
fn empty_document_has_no_servers() {
    assert!(matches!(load_fleet(""), Err(FleetError::Schema(SchemaError::NoServers))));
}

#[test]
fn other_tables_are_no_servers() {
    let text = "[other]\nx = 'y'\n";
    assert!(matches!(load_fleet(text), Err(FleetError::Schema(SchemaError::NoServers))));
}

#[test]
fn servers_as_text_is_rejected() {
    let text = "servers = 'aubergine'\n";
    assert!(matches!(load_fleet(text), Err(FleetError::Schema(SchemaError::ServersNotTable))));
}

#[test]
fn server_as_number_is_rejected() {
    let text = "[servers]\naubergine = 3\n";
    match load_fleet(text) {
        Err(FleetError::Schema(SchemaError::ServerNotTable(name))) => {
            assert_eq!(name, "aubergine");
        },
        _ => panic!("expected a server-not-table error"),
    }
}

#[test]
fn numeric_ip_is_rejected() {
    let text = "[servers.aubergine]\nip = 3\nssh_key = 'k'\nuser = 'root'\nrole = 'cntrl'\npkgs = []\n";
    match load_fleet(text) {
        Err(FleetError::Schema(SchemaError::FieldNotText(name, field))) => {
            assert_eq!(name, "aubergine");
            assert_eq!(field, "ip");
        },
        _ => panic!("expected a field-not-text error"),
    }
}

#[test]
fn pkgs_as_text_is_rejected() {
    let text = "[servers.aubergine]\nip = 'i'\nssh_key = 'k'\nuser = 'root'\nrole = 'cntrl'\npkgs = 'nala'\n";
    match load_fleet(text) {
        Err(FleetError::Schema(SchemaError::PkgsNotList(name))) => assert_eq!(name, "aubergine"),
        _ => panic!("expected a pkgs-not-list error"),
    }
}

#[test]
fn numeric_pkg_is_rejected() {
    let text = "[servers.aubergine]\nip = 'i'\nssh_key = 'k'\nuser = 'root'\nrole = 'cntrl'\npkgs = ['nala', 3]\n";
    match load_fleet(text) {
        Err(FleetError::Schema(SchemaError::PkgNotText(name))) => assert_eq!(name, "aubergine"),
        _ => panic!("expected a pkg-not-text error"),
    }
}

#[test]
fn empty_pkgs_list_is_accepted() {
    let text = "[servers.aubergine]\nip = 'i'\nssh_key = 'k'\nuser = 'root'\nrole = 'cntrl'\npkgs = []\n";
    let config = load_fleet(text).unwrap();
    assert_eq!(config.servers.len(), 1);
    assert!(config.servers[0].1.pkgs.is_empty());
}

#[test]
fn declaration_order_is_kept() {
    let text = "[servers.zeta]\nip = 'i'\nssh_key = 'k'\nuser = 'u'\nrole = 'r'\npkgs = []\n[servers.alpha]\nip = 'i'\nssh_key = 'k'\nuser = 'u'\nrole = 'r'\npkgs = []\n";
    let config = load_fleet(text).unwrap();
    assert_eq!(config.servers.len(), 2);
    assert_eq!(config.servers[0].0, "zeta");
    assert_eq!(config.servers[1].0, "alpha");
}

#[test]
fn unknown_fields_are_ignored() {
    let text = "[servers.aubergine]\nip = 'i'\nssh_key = 'k'\nuser = 'root'\nrole = 'cntrl'\npkgs = []\nextra = 'x'\n";
    let config = load_fleet(text).unwrap();
    assert_eq!(config.servers.len(), 1);
    assert_eq!(config.servers[0].1.user, "root");
}
