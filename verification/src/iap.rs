//! In-application programming: the commands handed to the boot ROM.

use vstd::prelude::*;

verus! {

/// Where the entry point of the boot ROM's programming routine lies.
pub const IAP_LOCATION: u32 = 0x1fff1ff1;

/// Command code that asks the boot ROM for the part's unique identifier.
pub const READ_UID: u32 = 57;

/// The command that asks for the unique identifier: the command code, and
/// no parameters.
pub fn read_uid_command() -> (command: [u32; 5])
    ensures
        command@ == seq![READ_UID, 0u32, 0u32, 0u32, 0u32],
{
    let command: [u32; 5] = [READ_UID, 0, 0, 0, 0];
    assert(command@ =~= seq![READ_UID, 0u32, 0u32, 0u32, 0u32]);
    command
}

} // verus!
