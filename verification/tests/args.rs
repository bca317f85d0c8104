use nix_build::config::{before_hash, lock_file_name};
use nix_build::{ChangeHint, Config};

const TRAILING: [&str; 3] = ["-L", "--experimental-features", "nix-command flakes"];

#[test]
fn default_config_builds_default_nix() {
    let tokens = Config::new().args();
    assert_eq!(
        tokens,
        vec![
            "build",
            "--no-link",
            "--json",
            "-f",
            "default.nix",
            "-L",
            "--experimental-features",
            "nix-command flakes",
        ]
    );
    assert_eq!(Config::default().args(), tokens);
}

#[test]
fn file_target_without_arguments() {
    let mut config = Config::new();
    config.target_file("hello.nix");
    let tokens = config.args();
    assert_eq!(&tokens[..3], &["build", "--no-link", "--json"]);
    assert_eq!(&tokens[3..5], &["-f", "hello.nix"]);
    assert_eq!(&tokens[5..], &TRAILING);
}

#[test]
fn expression_target_is_passed_verbatim() {
    let mut config = Config::new();
    config.target_expr("{pkgs}: pkgs.hello");
    let tokens = config.args();
    assert_eq!(&tokens[3..5], &["--expr", "{pkgs}: pkgs.hello"]);
    assert_eq!(tokens.len(), 8);
}

#[test]
fn arguments_keep_their_order_and_channel() {
    let mut config = Config::new();
    config
        .arg_str("name", "not-hello")
        .arg_expr("pkgs", "import <nixpkgs> {}")
        .arg_str("suffix", "a b")
        .arg_expr("n", "1 + 1");
    let tokens = config.args();
    assert_eq!(
        &tokens[5..17],
        &[
            "--arg",
            "pkgs",
            "import <nixpkgs> {}",
            "--arg",
            "n",
            "1 + 1",
            "--argstr",
            "name",
            "not-hello",
            "--argstr",
            "suffix",
            "a b",
        ]
    );
    assert_eq!(&tokens[17..], &TRAILING);
}

#[test]
fn duplicate_argument_names_are_all_emitted() {
    let mut config = Config::new();
    config.arg_expr("x", "1").arg_expr("x", "2").arg_str("x", "3");
    let tokens = config.args();
    assert_eq!(
        &tokens[5..14],
        &["--arg", "x", "1", "--arg", "x", "2", "--argstr", "x", "3"]
    );
}

#[test]
fn new_target_replaces_old_target() {
    let mut config = Config::new();
    config.target_file("hello.nix").target_flake("nixpkgs#hello");
    let tokens = config.args();
    assert_eq!(
        tokens,
        vec![
            "build",
            "--no-link",
            "--json",
            "nixpkgs#hello",
            "-L",
            "--experimental-features",
            "nix-command flakes",
        ]
    );
    assert!(!tokens.iter().any(|t| t == "-f"));
    assert!(!tokens.iter().any(|t| t == "hello.nix"));
}

#[test]
fn target_change_keeps_arguments() {
    let mut config = Config::new();
    config.arg_str("a", "b").target_expr("{a}: a").target_file("x.nix");
    let tokens = config.args();
    assert_eq!(&tokens[3..8], &["-f", "x.nix", "--argstr", "a", "b"]);
}

#[test]
fn flake_without_impure_has_no_impure_flag() {
    let mut config = Config::new();
    config.target_flake("nixpkgs#hello");
    let tokens = config.args();
    assert_eq!(&tokens[tokens.len() - 3..], &TRAILING);
    assert!(!tokens.iter().any(|t| t == "--impure"));
}

#[test]
fn impure_flag_stands_between_arguments_and_trailing_flags() {
    let mut config = Config::new();
    config.target_flake("nixpkgs#hello").arg_str("k", "v").impure(true);
    let tokens = config.args();
    assert_eq!(
        &tokens[3..],
        &[
            "nixpkgs#hello",
            "--argstr",
            "k",
            "v",
            "--impure",
            "-L",
            "--experimental-features",
            "nix-command flakes",
        ]
    );
    assert_eq!(tokens.iter().filter(|t| *t == "--impure").count(), 1);
    config.impure(false);
    let pure = config.args();
    assert_eq!(pure.len() + 1, tokens.len());
    assert!(!pure.iter().any(|t| t == "--impure"));
}

#[test]
fn args_are_the_same_on_every_call() {
    let mut config = Config::new();
    config.target_expr("1").arg_expr("a", "b").impure(true);
    assert_eq!(config.args(), config.args());
}

#[test]
fn before_hash_splits_at_the_first_hash() {
    assert_eq!(before_hash("nixpkgs#hello"), Some("nixpkgs".to_string()));
    assert_eq!(before_hash("./dir#a#b"), Some("./dir".to_string()));
    assert_eq!(before_hash("#x"), Some(String::new()));
    assert_eq!(before_hash("päth#x"), Some("päth".to_string()));
    assert_eq!(before_hash("nixpkgs"), None);
    assert_eq!(before_hash(""), None);
}

#[test]
fn change_hint_follows_the_target() {
    let mut config = Config::new();
    assert!(matches!(config.change_hint(), ChangeHint::File(f) if f == "default.nix"));
    config.target_flake(".#pkg");
    assert!(matches!(config.change_hint(), ChangeHint::FlakeLock(d) if d == "."));
    config.target_flake("nixpkgs");
    assert!(matches!(config.change_hint(), ChangeHint::Nothing));
    config.target_expr("a#b");
    assert!(matches!(config.change_hint(), ChangeHint::Nothing));
    assert_eq!(lock_file_name(), "flake.lock");
}
