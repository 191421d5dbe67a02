//! Hot reload: the command lines of the external file watcher and the
//! test for whether it is installed.

use crate::text::{chars_contain, contains, to_chars};
use vstd::prelude::*;

verus! {

/// The package manager that lists and installs the watcher.
pub const CARGO_PROGRAM: &'static str = "cargo";

/// The watcher itself.
pub const WATCHER_PROGRAM: &'static str = "cargo-watch";

/// The name under which the watcher appears among the installed packages.
pub const WATCHER_PACKAGE: &'static str = "cargo-watch";

/// What is printed before the watcher is installed.
pub const INSTALL_NOTICE: &'static str = "Cargo-watch not found. Attempting to install...";

/// What is printed once the watcher has been installed.
pub const INSTALLED_NOTICE: &'static str = "Cargo-watch installed successfully.";

/// What is reported where the watcher cannot be installed.
pub const INSTALL_FAILURE: &'static str =
    "Failed to install cargo-watch. Please install it manually: `cargo install cargo-watch`";

/// The arguments with which the package manager lists what is installed.
pub open spec fn list_arguments_of() -> Seq<Seq<char>> {
    seq!["install"@, "--list"@]
}

/// The arguments with which the package manager installs the watcher.
pub open spec fn install_arguments_of() -> Seq<Seq<char>> {
    seq!["install"@, "cargo-watch"@]
}

/// Whether a list of installed packages names the watcher.
pub open spec fn lists_watcher(listing: Seq<char>) -> bool {
    contains(listing, WATCHER_PACKAGE@)
}

/// The arguments with which the package manager lists what is installed.
pub fn list_arguments() -> (arguments: Vec<String>)
    ensures
        arguments.deep_view() == list_arguments_of(),
{
    let mut arguments: Vec<String> = Vec::new();
    arguments.push("install".to_owned());
    arguments.push("--list".to_owned());
    assert(arguments.deep_view() =~= list_arguments_of());
    arguments
}

/// The arguments with which the package manager installs the watcher.
pub fn install_arguments() -> (arguments: Vec<String>)
    ensures
        arguments.deep_view() == install_arguments_of(),
{
    let mut arguments: Vec<String> = Vec::new();
    arguments.push("install".to_owned());
    arguments.push("cargo-watch".to_owned());
    assert(arguments.deep_view() =~= install_arguments_of());
    arguments
}

/// Whether `listing`, the output of the package manager's list command,
/// names the watcher.
pub fn is_installed(listing: &str) -> (installed: bool)
    ensures
        installed == lists_watcher(listing@),
{
    let haystack = to_chars(listing);
    let needle = to_chars(WATCHER_PACKAGE);
    chars_contain(&haystack, &needle)
}

} // verus!
