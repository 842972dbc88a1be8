use dotfiles::cli::{is_png, verbosity_message, SubCommand};
use dotfiles::packages::{install_git, sync_package_repos, PACKAGE_MANAGER};

#[test]
fn png_names_pass() {
    assert_eq!(is_png("picture.png"), Ok(()));
    assert_eq!(is_png(".png"), Ok(()));
    assert_eq!(is_png("dir/with space/\u{e9}t\u{e9}.png"), Ok(()));
    assert_eq!(is_png("a.png.png"), Ok(()));
}

#[test]
fn other_names_are_refused() {
    let refusal = Err(String::from("the file format must be png."));
    assert_eq!(is_png("picture.jpg"), refusal);
    assert_eq!(is_png(""), refusal);
    assert_eq!(is_png("png"), refusal);
    assert_eq!(is_png("picture.PNG"), refusal);
    assert_eq!(is_png("picture.png "), refusal);
    assert_eq!(is_png("picture.pn\u{67}\u{301}"), refusal);
    assert_eq!(is_png("\u{1f980}"), refusal);
}

#[test]
fn verbosity_levels() {
    assert_eq!(verbosity_message(0), "No verbose info");
    assert_eq!(verbosity_message(1), "Some verbose info");
    assert_eq!(verbosity_message(2), "Tons of verbose info");
    assert_eq!(verbosity_message(3), "Don't be crazy");
    assert_eq!(verbosity_message(100), "Don't be crazy");
    assert_eq!(verbosity_message(-1), "Don't be crazy");
}

#[test]
fn subcommand_notices() {
    assert_eq!(SubCommand::Test { debug: true }.notice(), Some("Printing debug info..."));
    assert_eq!(SubCommand::Test { debug: false }.notice(), Some("Printing normally..."));
    assert_eq!(SubCommand::Install { debug: true }.notice(), Some("Printing debug info..."));
    assert_eq!(SubCommand::Install { debug: false }.notice(), None);
}

#[test]
fn only_install_installs() {
    assert!(SubCommand::Install { debug: false }.installs());
    assert!(SubCommand::Install { debug: true }.installs());
    assert!(!SubCommand::Test { debug: false }.installs());
    assert!(!SubCommand::Test { debug: true }.installs());
}

#[test]
fn package_commands() {
    assert_eq!(PACKAGE_MANAGER, "pacman");
    let sync = sync_package_repos(PACKAGE_MANAGER);
    assert_eq!(sync.cmd(), "pacman");
    assert_eq!(sync.args(), &vec!["-Sy".to_string()]);
    assert_eq!(sync.failure_message(), "failed to execute command pacman");
    let install = install_git("apt");
    assert_eq!(install.cmd(), "apt");
    assert_eq!(
        install.args(),
        &vec!["-S".to_string(), "git".to_string(), "--noconfirm".to_string()]
    );
}
