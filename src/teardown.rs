use vstd::prelude::*;

use crate::block::{binding_effect, disconnect_command, disconnect_view};
use crate::command::{Invocation, InvocationView};
use crate::mounts::{
    is_under, mount_effect, mounts_under, unmount_all_command, unmount_all_view, MountEntry,
};

verus! {

/// The release of what a run acquired, in reverse order: everything mounted
/// below the guest root `root` where anything was mounted, then the block device
/// where one was bound. Each is attempted whatever became of the one before.
pub open spec fn teardown_view(root: Seq<char>, mounted: bool, device: Option<Seq<char>>) -> Seq<
    InvocationView,
> {
    let unmount = if mounted { seq![unmount_all_view(root)] } else { Seq::empty() };
    let detach = match device {
        Some(d) => seq![disconnect_view(d)],
        None => Seq::empty(),
    };
    unmount + detach
}

/// The commands of `teardown_view`.
pub fn teardown_commands(root: &str, mounted: bool, device: Option<&str>) -> (r: Vec<Invocation>)
    ensures
        r@.map_values(|i: Invocation| i@) == teardown_view(
            root@,
            mounted,
            match device { Some(d) => Some(d@), None => None },
        ),
{
    let mut r: Vec<Invocation> = Vec::new();
    if mounted {
        r.push(unmount_all_command(root));
    }
    match device {
        Some(d) => r.push(disconnect_command(d)),
        None => {},
    }
    assert(r@.map_values(|i: Invocation| i@) =~= teardown_view(
        root@,
        mounted,
        match device { Some(d) => Some(d@), None => None },
    ));
    r
}

/// The host's table of mounts after `cmds`, in order.
pub open spec fn mounts_after(table: Seq<MountEntry>, cmds: Seq<InvocationView>) -> Seq<MountEntry>
    decreases cmds.len(),
{
    if cmds.len() == 0 {
        table
    } else {
        mount_effect(mounts_after(table, cmds.drop_last()), cmds.last())
    }
}

/// The bound block device after `cmds`, in order.
pub open spec fn binding_after(bound: Option<Seq<char>>, cmds: Seq<InvocationView>) -> Option<
    Seq<char>,
>
    decreases cmds.len(),
{
    if cmds.len() == 0 {
        bound
    } else {
        binding_effect(binding_after(bound, cmds.drop_last()), cmds.last())
    }
}

proof fn lemma_programs_differ()
    ensures
        "umount"@ != "mount"@,
        "qemu-nbd"@ != "mount"@,
        "qemu-nbd"@ != "umount"@,
        "--disconnect"@ != "--format"@,
{
    reveal_strlit("umount");
    reveal_strlit("mount");
    reveal_strlit("qemu-nbd");
    reveal_strlit("--disconnect");
    reveal_strlit("--format");
    assert("umount"@.len() != "mount"@.len());
    assert("qemu-nbd"@.len() != "mount"@.len());
    assert("qemu-nbd"@.len() != "umount"@.len());
    assert("--disconnect"@[2] != "--format"@[2]);
}

/// Once at least one mount below the guest root `root` has succeeded, teardown
/// leaves nothing mounted at or below `root`, whatever the table held, and
/// releases the bound device.
pub proof fn lemma_teardown_complete(table: Seq<MountEntry>, root: Seq<char>, device: Seq<char>)
    ensures
        mounts_under(mounts_after(table, teardown_view(root, true, Some(device))), root) == 0,
        mounts_under(mounts_after(table, teardown_view(root, true, None)), root) == 0,
        binding_after(Some(device), teardown_view(root, true, Some(device))) is None,
        binding_after(Some(device), teardown_view(root, false, Some(device))) is None,
{
    lemma_programs_differ();
    reveal_with_fuel(mounts_after, 3);
    reveal_with_fuel(binding_after, 3);
    let kept = table.filter(|m: MountEntry| !is_under(m.1, root));
    let cmds = teardown_view(root, true, Some(device));
    assert(cmds.drop_last() =~= seq![unmount_all_view(root)]);
    assert(cmds.drop_last().drop_last() =~= Seq::<InvocationView>::empty());
    assert(mounts_after(table, cmds.drop_last()) == kept);
    assert(mounts_after(table, cmds) == kept);
    let alone = teardown_view(root, true, None);
    assert(alone.drop_last() =~= Seq::<InvocationView>::empty());
    assert(mounts_after(table, alone) == kept);
    assert(kept.all(|m: MountEntry| !is_under(m.1, root))) by {
        broadcast use vstd::seq_lib::group_filter_ensures;

    }
    kept.lemma_all_neg_filter_empty(|m: MountEntry| is_under(m.1, root));
    assert(binding_after(Some(device), cmds.drop_last()) == Some(device));
    let only = teardown_view(root, false, Some(device));
    assert(only.drop_last() =~= Seq::<InvocationView>::empty());
}

/// Where nothing was mounted and no device was bound, teardown does nothing.
pub proof fn lemma_teardown_nothing_acquired(root: Seq<char>)
    ensures
        teardown_view(root, false, None).len() == 0,
{
}

} // verus!
