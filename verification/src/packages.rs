//! The commands that hand work to the system's package manager.

use crate::shell::{slice_texts, Command};
use vstd::prelude::*;

verus! {

/// The package manager that the tool drives.
pub const PACKAGE_MANAGER: &'static str = "pacman";

/// The command that brings the package database of `package_manager` up to
/// date.
pub fn sync_package_repos(package_manager: &str) -> (command: Command)
    ensures
        command.program() == package_manager@,
        command.arguments() == seq!["-Sy"@],
{
    let args: Vec<&str> = vec!["-Sy"];
    assert(slice_texts(args@) =~= seq!["-Sy"@]);
    Command::new(package_manager, &args)
}

/// The command that has `package_manager` install git without asking.
pub fn install_git(package_manager: &str) -> (command: Command)
    ensures
        command.program() == package_manager@,
        command.arguments() == seq!["-S"@, "git"@, "--noconfirm"@],
{
    let args: Vec<&str> = vec!["-S", "git", "--noconfirm"];
    assert(slice_texts(args@) =~= seq!["-S"@, "git"@, "--noconfirm"@]);
    Command::new(package_manager, &args)
}

} // verus!
