use vstd::prelude::*;

use crate::block::{binding_effect, connect_view, disconnect_view};
use crate::command::InvocationView;
use crate::mounts::{
    boot_dir, efi_dir, mount_effect, mount_view, mounts_under, partition_node, MountEntry, EFI_SLOT,
    ROOT_SLOT,
};
use crate::pipeline::copy_view;
use crate::repository::{guest_view, package_plan, staged_name};
use crate::resolver::{
    backup_file, files_after, lemma_resolver_round_trip, override_steps, resolver_file,
    restore_steps, FileTree,
};
use crate::teardown::{binding_after, lemma_teardown_complete, mounts_after, teardown_view};

verus! {

/// The commands that a successful run issues, in the order in which the run
/// names them: the local copy of the image, the module load, the connect, the
/// three mounts (the boot file system from `boot_slot`), the package commands,
/// the teardown, and the copy to the output name.
pub open spec fn run_commands(
    uri: Seq<char>,
    image: Seq<char>,
    format: Seq<char>,
    device: Seq<char>,
    root: Seq<char>,
    boot_slot: u64,
    package: Seq<char>,
    release: Seq<char>,
    proposed: bool,
    ppa: Option<Seq<char>>,
    output: Seq<char>,
) -> Seq<InvocationView> {
    acquire_commands(uri, image, format, device, root, boot_slot) + package_plan(
        root,
        package,
        release,
        proposed,
        ppa,
    ) + teardown_view(root, true, Some(device)) + seq![copy_view(image, output)]
}

/// The commands of a successful run up to the last mount.
pub open spec fn acquire_commands(
    uri: Seq<char>,
    image: Seq<char>,
    format: Seq<char>,
    device: Seq<char>,
    root: Seq<char>,
    boot_slot: u64,
) -> Seq<InvocationView> {
    seq![
        copy_view(uri, image),
        InvocationView { program: "modprobe"@, args: seq!["nbd"@] },
        connect_view(image, format, device),
        mount_view(partition_node(device, ROOT_SLOT as nat), root),
        mount_view(partition_node(device, boot_slot as nat), boot_dir(root)),
        mount_view(partition_node(device, EFI_SLOT as nat), efi_dir(root)),
    ]
}

/// Running `a` and then `b` changes the mount table as running `a + b` does.
pub proof fn lemma_mounts_after_append(
    table: Seq<MountEntry>,
    a: Seq<InvocationView>,
    b: Seq<InvocationView>,
)
    ensures
        mounts_after(table, a + b) == mounts_after(mounts_after(table, a), b),
    decreases b.len(),
{
    if b.len() == 0 {
        assert(a + b =~= a);
    } else {
        assert((a + b).drop_last() =~= a + b.drop_last());
        lemma_mounts_after_append(table, a, b.drop_last());
    }
}

/// Running `a` and then `b` changes the binding as running `a + b` does.
pub proof fn lemma_binding_after_append(
    bound: Option<Seq<char>>,
    a: Seq<InvocationView>,
    b: Seq<InvocationView>,
)
    ensures
        binding_after(bound, a + b) == binding_after(binding_after(bound, a), b),
    decreases b.len(),
{
    if b.len() == 0 {
        assert(a + b =~= a);
    } else {
        assert((a + b).drop_last() =~= a + b.drop_last());
        lemma_binding_after_append(bound, a, b.drop_last());
    }
}

/// Commands of programs other than the device tool leave the binding alone.
pub proof fn lemma_binding_untouched(bound: Option<Seq<char>>, cmds: Seq<InvocationView>)
    requires
        forall|i: int| 0 <= i < cmds.len() ==> #[trigger] cmds[i].program != "qemu-nbd"@,
    ensures
        binding_after(bound, cmds) == bound,
    decreases cmds.len(),
{
    if cmds.len() > 0 {
        lemma_binding_untouched(bound, cmds.drop_last());
        assert(cmds.last() == cmds[cmds.len() - 1]);
    }
}

proof fn lemma_programs_apart()
    ensures
        "cp"@ != "qemu-nbd"@,
        "modprobe"@ != "qemu-nbd"@,
        "mount"@ != "qemu-nbd"@,
        "systemd-nspawn"@ != "qemu-nbd"@,
        "cp"@ != "mount"@,
        "cp"@ != "umount"@,
{
    reveal_strlit("cp");
    reveal_strlit("qemu-nbd");
    reveal_strlit("modprobe");
    reveal_strlit("mount");
    reveal_strlit("umount");
    reveal_strlit("systemd-nspawn");
    assert("cp"@.len() != "qemu-nbd"@.len());
    assert("modprobe"@[0] != "qemu-nbd"@[0]);
    assert("mount"@.len() != "qemu-nbd"@.len());
    assert("systemd-nspawn"@.len() != "qemu-nbd"@.len());
    assert("cp"@.len() != "mount"@.len());
    assert("cp"@.len() != "umount"@.len());
}

/// A successful run, end to end: its last command copies the working image to
/// the output name, it installs the package (from the staging pocket where
/// asked), it leaves nothing mounted at or below the guest root whatever the
/// host had mounted, and it releases the device it bound. The resolver steps
/// that go with it leave no backup behind, and put back a configuration that
/// the guest had, with its exact content (a stale backup from an earlier run
/// is ruled out).
pub proof fn lemma_successful_run(
    uri: Seq<char>,
    image: Seq<char>,
    format: Seq<char>,
    device: Seq<char>,
    root: Seq<char>,
    boot_slot: u64,
    package: Seq<char>,
    release: Seq<char>,
    proposed: bool,
    ppa: Option<Seq<char>>,
    output: Seq<char>,
    table: Seq<MountEntry>,
    files: FileTree,
)
    requires
        !files.contains_key(backup_file(root)),
    ensures
        ({
            let run = run_commands(
                uri,
                image,
                format,
                device,
                root,
                boot_slot,
                package,
                release,
                proposed,
                ppa,
                output,
            );
            let name = if proposed { staged_name(package, release) } else { package };
            let present = files.contains_key(resolver_file(root));
            let after = files_after(files, override_steps(root, present));
            let restored = files_after(
                after,
                restore_steps(root, after.contains_key(backup_file(root))),
            );
            &&& run.last() == copy_view(image, output)
            &&& run.contains(guest_view(root, seq!["apt-get"@, "install"@, "-y"@, name]))
            &&& mounts_under(mounts_after(table, run), root) == 0
            &&& binding_after(None, run) is None
            &&& !restored.contains_key(backup_file(root))
            &&& present ==> restored == files
        }),
{
    lemma_programs_apart();
    let acq = acquire_commands(uri, image, format, device, root, boot_slot);
    let pkg = package_plan(root, package, release, proposed, ppa);
    let td = teardown_view(root, true, Some(device));
    let last = seq![copy_view(image, output)];
    let run = run_commands(
        uri,
        image,
        format,
        device,
        root,
        boot_slot,
        package,
        release,
        proposed,
        ppa,
        output,
    );
    assert(run == acq + pkg + td + last);
    let name = if proposed { staged_name(package, release) } else { package };
    let ins = guest_view(root, seq!["apt-get"@, "install"@, "-y"@, name]);
    let k: int = (if proposed { 1int } else { 0int }) + (if ppa is Some { 1int } else { 0int }) + 1;
    assert(pkg[k] == ins);
    assert(run[acq.len() + k] == ins);
    // mounts
    lemma_mounts_after_append(table, acq + pkg, td);
    lemma_mounts_after_append(table, acq + pkg + td, last);
    let mid = mounts_after(table, acq + pkg);
    lemma_teardown_complete(mid, root, device);
    reveal_with_fuel(mounts_after, 2);
    reveal_with_fuel(binding_after, 7);
    assert(last.drop_last() =~= Seq::<InvocationView>::empty());
    assert(mounts_after(mounts_after(mid, td), last) == mounts_after(mid, td));
    // binding
    assert(acq.drop_last() =~= seq![acq[0], acq[1], acq[2], acq[3], acq[4]]);
    assert(seq![acq[0], acq[1], acq[2], acq[3], acq[4]].drop_last() =~= seq![acq[0], acq[1], acq[2], acq[3]]);
    assert(seq![acq[0], acq[1], acq[2], acq[3]].drop_last() =~= seq![acq[0], acq[1], acq[2]]);
    assert(seq![acq[0], acq[1], acq[2]].drop_last() =~= seq![acq[0], acq[1]]);
    assert(seq![acq[0], acq[1]].drop_last() =~= seq![acq[0]]);
    assert(seq![acq[0]].drop_last() =~= Seq::<InvocationView>::empty());
    reveal_strlit("--format");
    reveal_strlit("--connect");
    assert(binding_after(None, acq) == Some(device));
    assert forall|i: int| 0 <= i < pkg.len() implies #[trigger] pkg[i].program != "qemu-nbd"@ by {
        assert(pkg[i].program == "systemd-nspawn"@);
    }
    lemma_binding_untouched(Some(device), pkg);
    lemma_binding_after_append(None, acq, pkg);
    lemma_binding_after_append(None, acq + pkg, td);
    lemma_binding_after_append(None, acq + pkg + td, last);
    assert(binding_after(None, acq + pkg + td) is None);
    assert(binding_after(None, run) is None);
    lemma_resolver_round_trip(files, root);
}

} // verus!
