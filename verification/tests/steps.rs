use nix_build::{
    build, is_nix_available, Action, ChangeHint, Config, Error, Event, LocateAction, LocateEvent,
};

const GOOD: &[u8] = br#"[{"drvPath": "/nix/store/a.drv", "outputs": {"out": "/nix/store/a"}}]"#;

#[test]
fn build_starts_by_locating_nix() {
    let config = Config::new();
    assert!(matches!(config.build(Event::Start), Action::Locate));
    assert!(matches!(build(Event::Start), Action::Locate));
}

#[test]
fn build_without_nix_is_not_available() {
    let config = Config::new();
    assert!(matches!(
        config.build(Event::Located(None)),
        Action::Done(Err(Error::NixNotAvailable))
    ));
}

#[test]
fn build_with_nix_runs_the_command() {
    let mut config = Config::new();
    config.target_flake("nixpkgs#hello").impure(true);
    match config.build(Event::Located(Some("/usr/bin/nix".to_string()))) {
        Action::Run(invocation) => {
            assert_eq!(invocation.program, "/usr/bin/nix");
            assert_eq!(invocation.args, config.args());
            assert_eq!(
                invocation.args,
                vec![
                    "build",
                    "--no-link",
                    "--json",
                    "nixpkgs#hello",
                    "--impure",
                    "-L",
                    "--experimental-features",
                    "nix-command flakes",
                ]
            );
            assert!(matches!(invocation.hint, ChangeHint::FlakeLock(d) if d == "nixpkgs"));
        }
        _ => panic!("a command expected"),
    }
}

#[test]
fn default_build_runs_default_nix() {
    match build(Event::Located(Some("nix".to_string()))) {
        Action::Run(invocation) => {
            assert_eq!(invocation.args, Config::new().args());
            assert!(matches!(invocation.hint, ChangeHint::File(f) if f == "default.nix"));
        }
        _ => panic!("a command expected"),
    }
}

#[test]
fn launch_failure_is_build_failed() {
    assert!(matches!(
        Config::new().build(Event::LaunchFailed),
        Action::Done(Err(Error::BuildFailed))
    ));
}

#[test]
fn failure_status_is_build_failed_even_with_good_json() {
    let event = Event::Exited { success: false, stdout: GOOD.to_vec() };
    assert!(matches!(Config::new().build(event), Action::Done(Err(Error::BuildFailed))));
    let event = Event::Exited { success: false, stdout: Vec::new() };
    assert!(matches!(Config::new().build(event), Action::Done(Err(Error::BuildFailed))));
}

#[test]
fn success_status_decodes_stdout() {
    let event = Event::Exited { success: true, stdout: GOOD.to_vec() };
    match Config::new().build(event) {
        Action::Done(Ok(derivations)) => {
            assert_eq!(derivations.len(), 1);
            assert_eq!(derivations[0].drv_path, "/nix/store/a.drv");
            assert_eq!(derivations[0].out(), Some(&"/nix/store/a".to_string()));
        }
        _ => panic!("derivations expected"),
    }
}

#[test]
fn success_status_with_bad_stdout_is_unknown_output() {
    let event = Event::Exited { success: true, stdout: Vec::new() };
    assert!(matches!(Config::new().build(event), Action::Done(Err(Error::UnknownOutput))));
    let event = Event::Exited { success: true, stdout: b"{".to_vec() };
    assert!(matches!(Config::new().build(event), Action::Done(Err(Error::UnknownOutput))));
}

#[test]
fn search_begins_with_the_environment_variable() {
    assert!(matches!(
        is_nix_available(LocateEvent::Start),
        LocateAction::ReadOverride(name) if name == "NIX"
    ));
}

#[test]
fn environment_override_comes_first() {
    let env = "/opt/nix/bin/nix".to_string();
    assert!(matches!(
        is_nix_available(LocateEvent::Override(Some(env))),
        LocateAction::Check(path) if path == "/opt/nix/bin/nix"
    ));
}

#[test]
fn without_override_the_search_path_is_used() {
    assert!(matches!(
        is_nix_available(LocateEvent::Override(None)),
        LocateAction::Search(name) if name == "nix"
    ));
    assert!(matches!(
        is_nix_available(LocateEvent::Searched(Some("/usr/bin/nix".to_string()))),
        LocateAction::Check(path) if path == "/usr/bin/nix"
    ));
    assert!(matches!(
        is_nix_available(LocateEvent::Searched(None)),
        LocateAction::Done(None)
    ));
}

#[test]
fn candidate_must_exist() {
    let found = LocateEvent::Checked { candidate: "/usr/bin/nix".to_string(), on_disk: true };
    assert!(matches!(
        is_nix_available(found),
        LocateAction::Done(Some(path)) if path == "/usr/bin/nix"
    ));
    let missing = LocateEvent::Checked { candidate: "/usr/bin/nix".to_string(), on_disk: false };
    assert!(matches!(is_nix_available(missing), LocateAction::Done(None)));
}

#[test]
fn error_kinds_are_distinct() {
    assert_ne!(Error::NixNotAvailable, Error::BuildFailed);
    assert_ne!(Error::BuildFailed, Error::UnknownOutput);
    assert_ne!(Error::NixNotAvailable, Error::UnknownOutput);
}
