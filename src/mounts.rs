use vstd::prelude::*;

use crate::command::{push_text, texts, Invocation, InvocationView};
use crate::text::{decimal, has_prefix, join_path};

verus! {

/// The slot of the root file system.
pub const ROOT_SLOT: u64 = 1;

/// The slot of the boot file system on most releases.
pub const BOOT_SLOT: u64 = 13;

/// The slot of the boot file system on releases that moved it.
pub const BOOT_ALT_SLOT: u64 = 16;

/// The slot of the EFI system partition.
pub const EFI_SLOT: u64 = 15;

/// The device node of partition `slot` of the block device `device`.
pub open spec fn partition_node(device: Seq<char>, slot: nat) -> Seq<char> {
    device + seq!['p'] + decimal(slot)
}

/// The device node of partition `slot` of the block device `device`.
pub fn partition_device(device: &str, slot: u64) -> (r: String)
    ensures
        r@ == partition_node(device@, slot as nat),
{
    let p = "p";
    proof {
        reveal_strlit("p");
    }
    let digits = crate::text::decimal_string(slot);
    crate::text::cat(device, p).concat(digits.as_str())
}

/// Where the boot file system is mounted under the guest root `root`.
pub open spec fn boot_dir(root: Seq<char>) -> Seq<char> {
    join_path(root, "boot"@)
}

/// Where the EFI system partition is mounted under the guest root `root`.
pub open spec fn efi_dir(root: Seq<char>) -> Seq<char> {
    join_path(boot_dir(root), "efi"@)
}

/// The command that mounts `device` on `target`.
pub open spec fn mount_view(device: Seq<char>, target: Seq<char>) -> InvocationView {
    InvocationView { program: "mount"@, args: seq![device, target] }
}

/// The command that unmounts everything mounted at or below `root`.
pub open spec fn unmount_all_view(root: Seq<char>) -> InvocationView {
    InvocationView { program: "umount"@, args: seq!["-R"@, root] }
}

/// Mounts `device` on the directory `target`.
pub fn mount_command(device: &str, target: &str) -> (r: Invocation)
    ensures
        r@ == mount_view(device@, target@),
{
    let mut args: Vec<String> = Vec::new();
    push_text(&mut args, device);
    push_text(&mut args, target);
    assert(texts(args@) =~= seq![device@, target@]);
    Invocation::new("mount", args)
}

/// Unmounts, children first, everything mounted at or below `root`.
pub fn unmount_all_command(root: &str) -> (r: Invocation)
    ensures
        r@ == unmount_all_view(root@),
{
    let mut args: Vec<String> = Vec::new();
    push_text(&mut args, "-R");
    push_text(&mut args, root);
    assert(texts(args@) =~= seq!["-R"@, root@]);
    Invocation::new("umount", args)
}

/// A mount of a device (first) on a directory (second).
pub type MountEntry = (Seq<char>, Seq<char>);

/// The directory `target` is `root` or lies below it.
pub open spec fn is_under(target: Seq<char>, root: Seq<char>) -> bool {
    target == root || has_prefix(target, root + seq!['/'])
}

/// The effect of one command on the host's table of mounts: a mount appends its
/// entry, a recursive unmount removes every entry at or below its directory,
/// and other commands change nothing.
pub open spec fn mount_effect(table: Seq<MountEntry>, inv: InvocationView) -> Seq<MountEntry> {
    if inv.program == "mount"@ && inv.args.len() == 2 {
        table.push((inv.args[0], inv.args[1]))
    } else if inv.program == "umount"@ && inv.args.len() == 2 && inv.args[0] == "-R"@ {
        table.filter(|m: MountEntry| !is_under(m.1, inv.args[1]))
    } else {
        table
    }
}

/// The number of mounts at or below `root`.
pub open spec fn mounts_under(table: Seq<MountEntry>, root: Seq<char>) -> nat {
    table.filter(|m: MountEntry| is_under(m.1, root)).len()
}

} // verus!

verus! {

/// A partition mounted by the run: the device node and the directory.
pub struct MountPoint {
    pub device: String,
    pub target: String,
}

impl View for MountPoint {
    type V = MountEntry;

    open spec fn view(&self) -> MountEntry {
        (self.device@, self.target@)
    }
}

} // verus!
