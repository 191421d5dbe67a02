//! Process termination: what is asked of the operating system to end a
//! process, on POSIX by a signal and on Windows through a process handle.

use crate::decimal::{i32_to_decimal, signed_decimal};
use crate::process::Platform;
use vstd::prelude::*;

verus! {

/// The utility that sends a signal on POSIX.
pub const KILL_PROGRAM: &'static str = "kill";

/// The access right that suffices to terminate a process.
pub const PROCESS_TERMINATE: u32 = 0x0001;

/// Every access right to a process; asked for where the narrower request
/// is refused.
pub const PROCESS_ALL_ACCESS: u32 = 0x1F0FFF;

/// The exit code given to a process that is terminated by force.
pub const TERMINATION_EXIT_CODE: u32 = 1;

/// The creation flag that detaches a child from its parent's console.
pub const DETACHED_PROCESS: u32 = 0x0000_0008;

/// The arguments with which the `kill` utility asks `pid` to terminate.
pub open spec fn kill_arguments_of(pid: i32) -> Seq<Seq<char>> {
    seq!["-TERM"@, signed_decimal(pid as int)]
}

/// The identifier under which Windows knows the process `pid`: the same
/// 32 bits, read as unsigned.
pub open spec fn process_id_of(pid: i32) -> u32 {
    if pid >= 0 {
        pid as u32
    } else {
        (pid + 0x1_0000_0000) as u32
    }
}

/// The creation flags with which a daemon child is spawned.
pub open spec fn creation_flags_of(platform: Platform) -> u32 {
    match platform {
        Platform::Posix => 0,
        Platform::Windows => DETACHED_PROCESS,
    }
}

/// The arguments with which the `kill` utility asks `pid` to terminate.
pub fn kill_arguments(pid: i32) -> (arguments: Vec<String>)
    ensures
        arguments.deep_view() == kill_arguments_of(pid),
{
    let mut arguments: Vec<String> = Vec::new();
    arguments.push("-TERM".to_owned());
    arguments.push(i32_to_decimal(pid));
    assert(arguments.deep_view() =~= kill_arguments_of(pid));
    arguments
}

/// The identifier under which Windows knows the process `pid`.
pub fn process_id(pid: i32) -> (id: u32)
    ensures
        id == process_id_of(pid),
{
    if pid >= 0 {
        pid as u32
    } else {
        (pid as i64 + 0x1_0000_0000) as u32
    }
}

/// The creation flags with which a daemon child is spawned: none on
/// POSIX, where null standard streams detach the child; on Windows the
/// flag that detaches it from the console.
pub fn creation_flags(platform: Platform) -> (flags: u32)
    ensures
        flags == creation_flags_of(platform),
{
    match platform {
        Platform::Posix => 0,
        Platform::Windows => DETACHED_PROCESS,
    }
}

} // verus!
