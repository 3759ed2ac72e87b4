//! The dispatcher's plan, the greeting, the template text, and the listing
//! layout.

use fleetr::dispatch::{greeting, plan, Args, Step};
use fleetr::fleet::load_fleet;
use fleetr::render::render_config;
use fleetr::template::template_text;

#[test]
fn plan_without_init_or_run_plans_no_file_step() {
    let args = Args {
        verbose: true,
        name: Some(String::from("Ada")),
        init: false,
        force: true,
        run: false,
    };
    let steps = plan(args);
    assert_eq!(steps.len(), 2);
    assert!(steps.iter().all(|s| !matches!(s, Step::Init { .. } | Step::Run)));
}

#[test]
fn plan_keeps_the_fixed_order() {
    let args = Args {
        verbose: true,
        name: Some(String::from("Ada")),
        init: true,
        force: true,
        run: true,
    };
    let steps = plan(args);
    assert_eq!(steps.len(), 4);
    assert!(matches!(steps[0], Step::Echo));
    assert!(matches!(steps[1], Step::Init { force: true }));
    assert!(matches!(steps[2], Step::Run));
    match &steps[3] {
        Step::Greet { name } => assert_eq!(name, "Ada"),
        _ => panic!("expected the greeting last"),
    }
}

#[test]
fn plan_of_no_flags_is_empty() {
    let args = Args { verbose: false, name: None, init: false, force: false, run: false };
    assert!(plan(args).is_empty());
}

#[test]
fn greeting_substitutes_the_name() {
    assert_eq!(greeting("Ada"), "Hello Ada (from fleetr)!");
}

#[test]
fn template_text_is_the_fixed_document() {
    let expected = "\n[servers]\n[servers.aubergine]\nip      = '10.0.0.10'\nssh_key = '~/.ssh/key'\nuser    = 'root'\nrole    = 'cntrl'\npkgs = ['nala', 'curl', 'wget', 'net-tools']\n[servers.rhubarb]\nip      = '10.0.0.11'\nssh_key = '~/.ssh/key'\nuser    = 'root'\nrole    = 'agent'\npkgs = ['nala', 'curl', 'wget']\n        ";
    assert_eq!(template_text(), expected);
}

#[test]
fn rendered_template_lists_every_field() {
    let config = load_fleet(template_text()).unwrap();
    let expected = "Server: aubergine\n  IP: 10.0.0.10\n  SSH Key: ~/.ssh/key\n  User: root\n  Role: cntrl\n  Packages: ['nala', 'curl', 'wget', 'net-tools']\nServer: rhubarb\n  IP: 10.0.0.11\n  SSH Key: ~/.ssh/key\n  User: root\n  Role: agent\n  Packages: ['nala', 'curl', 'wget']\n";
    assert_eq!(render_config(&config), expected);
}
