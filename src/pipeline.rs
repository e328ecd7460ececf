use vstd::prelude::*;

use crate::block::{connect_command, connect_view, load_module_command};
use crate::command::{push_text, texts, Failure, FailureView, Invocation, InvocationView};
use crate::mounts::{
    boot_dir, efi_dir, is_under, mount_command, mount_view, partition_device, partition_node,
    MountEntry, MountPoint, BOOT_ALT_SLOT, BOOT_SLOT, EFI_SLOT, ROOT_SLOT,
};
use crate::naming::{is_remote, output_image_name, output_name, remote};
use crate::release::{codename, get_release, lowercase_of};
use crate::repository::{
    lemma_contexts_match_commands, package_commands, package_context_plan, package_contexts,
    package_plan,
};
use crate::resolver::{
    backup_file, override_plan, override_steps, resolver_file, restore_plan, restore_steps, FileStep,
    FileStepView,
};
use crate::mounts::mounts_under;
use crate::teardown::{
    binding_after, lemma_teardown_complete, mounts_after, teardown_commands, teardown_view,
};
use crate::text::join_path;

verus! {

/// How many times the run looks for the device's first partition before it
/// gives up on the device.
pub const PROBE_LIMIT: u64 = 20;

/// Where a run stands.
#[derive(PartialEq, Eq, Structural, Clone, Copy, Debug)]
pub enum Stage {
    /// Bringing the source image into the working directory.
    Fetch,
    /// Loading the kernel facility behind the block device.
    LoadModule,
    /// Exposing the image as the block device.
    Connect,
    /// Waiting for the device's partitions to appear.
    AwaitDevice,
    /// Mounting the root file system.
    MountRoot,
    /// Mounting the boot file system from its usual slot.
    MountBoot,
    /// Mounting the boot file system from the slot that some releases use.
    MountBootAlt,
    /// Mounting the EFI system partition.
    MountEfi,
    /// Looking for the guest's resolver configuration.
    CheckResolver,
    /// Putting a working resolver configuration in place.
    OverrideResolver,
    /// Reading the guest's OS identification file.
    ReadRelease,
    /// Running the package commands in the guest.
    Packages,
    /// Looking for the backup of the guest's resolver configuration.
    CheckBackup,
    /// Putting the guest's resolver configuration back.
    RestoreResolver,
    /// Releasing the mounts and the device.
    Teardown,
    /// Copying the customized image to its output name.
    CopyOut,
    /// Done, with success or with the failure recorded.
    Finished,
}

/// What the caller is asked to do next.
pub enum Action {
    /// Download `url` to the file `dest`.
    Download { url: String, dest: String },
    /// Run `command`; a failure carries `context`.
    Run { command: Invocation, context: String },
    /// Create the directory `dir` with its parents, then run `command`.
    Mount { command: Invocation, dir: String, context: String },
    /// Pause briefly, then answer whether the device node `path` exists.
    AwaitDevice { path: String },
    /// Answer whether a file or a symbolic link is at `path`.
    Exists { path: String },
    /// Make the file change `step`.
    Change { step: FileStep },
    /// Read the text of the file at `path`.
    Read { path: String },
    /// Run `command` as a best effort: its outcome is logged, never reported.
    Cleanup { command: Invocation },
    /// Nothing is left to do.
    Finish,
}

/// The content of an action.
pub enum ActionView {
    Download { url: Seq<char>, dest: Seq<char> },
    Run { command: InvocationView, context: Seq<char> },
    Mount { command: InvocationView, dir: Seq<char>, context: Seq<char> },
    AwaitDevice { path: Seq<char> },
    Exists { path: Seq<char> },
    Change { step: FileStepView },
    Read { path: Seq<char> },
    Cleanup { command: InvocationView },
    Finish,
}

impl View for Action {
    type V = ActionView;

    open spec fn view(&self) -> ActionView {
        match self {
            Action::Download { url, dest } => ActionView::Download { url: url@, dest: dest@ },
            Action::Run { command, context } => ActionView::Run {
                command: command@,
                context: context@,
            },
            Action::Mount { command, dir, context } => ActionView::Mount {
                command: command@,
                dir: dir@,
                context: context@,
            },
            Action::AwaitDevice { path } => ActionView::AwaitDevice { path: path@ },
            Action::Exists { path } => ActionView::Exists { path: path@ },
            Action::Change { step } => ActionView::Change { step: step@ },
            Action::Read { path } => ActionView::Read { path: path@ },
            Action::Cleanup { command } => ActionView::Cleanup { command: command@ },
            Action::Finish => ActionView::Finish,
        }
    }
}

/// What came of an action.
pub enum Event {
    /// It succeeded; the text is the command's output or the file's content.
    Done(String),
    /// The answer to a question.
    Answer(bool),
    /// It failed.
    Failed(Failure),
}

/// The answer that an event gives to a question: a success counts as yes and
/// a failure as no.
pub open spec fn answer(e: Event) -> bool {
    match e {
        Event::Done(_) => true,
        Event::Answer(b) => b,
        Event::Failed(_) => false,
    }
}

/// What the caller asked for.
pub struct Settings {
    pub image_uri: String,
    pub format: String,
    pub package: String,
    pub proposed: bool,
    pub ppa: Option<String>,
}

/// The paths and the device of a run.
pub struct Layout {
    /// The working copy of the image.
    pub image_path: String,
    /// The guest root.
    pub root: String,
    pub boot: String,
    pub efi: String,
    /// The guest's OS identification file.
    pub os_release: String,
    /// Where the customized image is copied in the end.
    pub output: String,
    /// The block device.
    pub device: String,
}

/// A run of the customization, one action at a time.
pub struct Pipeline {
    pub settings: Settings,
    pub layout: Layout,
    pub stage: Stage,
    /// The block device is bound.
    pub bound: bool,
    /// The partitions mounted so far, in the order they were mounted.
    pub mounts: Vec<MountPoint>,
    /// How often the device was looked for.
    pub attempts: u64,
    /// The file changes of the resolver stage under way.
    pub steps: Vec<FileStep>,
    pub step_index: usize,
    /// The commands of the package or teardown stage under way.
    pub commands: Vec<Invocation>,
    /// The failure texts of the package commands, one for each.
    pub contexts: Vec<String>,
    pub next: usize,
    /// The release code name of the guest, once read.
    pub release: Option<String>,
    /// The failure that ended the run.
    pub failure: Option<Failure>,
}

/// The text of the `ppa` setting.
pub open spec fn ppa_view(ppa: Option<String>) -> Option<Seq<char>> {
    match ppa {
        Some(p) => Some(p@),
        None => None,
    }
}

/// The failure that a failed event carries.
pub open spec fn failure_of(e: Event) -> FailureView {
    match e {
        Event::Failed(f) => f@,
        _ => arbitrary(),
    }
}

impl Pipeline {
    /// The paths of the run agree with the settings and the working directory,
    /// and the counters of the stage under way are in range.
    pub open spec fn wf(&self) -> bool {
        &&& (self.stage == Stage::OverrideResolver || self.stage == Stage::RestoreResolver)
            ==> self.step_index < self.steps@.len()
        &&& (self.stage == Stage::Packages || self.stage == Stage::Teardown) ==> self.next
            < self.commands@.len()
        &&& self.stage == Stage::Packages ==> self.contexts@.len() == self.commands@.len()
        &&& self.stage == Stage::AwaitDevice ==> self.attempts < PROBE_LIMIT
        &&& (self.stage == Stage::Fetch || self.stage == Stage::LoadModule || self.stage
            == Stage::Connect) ==> !self.bound && self.mounts@.len() == 0
        &&& forall|i: int|
            0 <= i < self.mounts@.len() ==> is_under(#[trigger] self.mounts@[i]@.1, self.layout.root@)
        &&& self.layout.boot@ == boot_dir(self.layout.root@)
        &&& self.layout.efi@ == efi_dir(self.layout.root@)
        &&& self.layout.os_release@ == join_path(self.layout.root@, "etc/os-release"@)
        &&& self.layout.output@ == output_name(
            self.settings.image_uri@,
            self.settings.package@,
            self.settings.proposed,
        )
    }

    /// At least one partition is mounted.
    pub open spec fn mounted(&self) -> bool {
        self.mounts@.len() > 0
    }

    /// The mounts made by this run, in order.
    pub open spec fn mount_table(&self) -> Seq<MountEntry> {
        self.mounts@.map_values(|m: MountPoint| m@)
    }

    /// The teardown that releases what this run holds.
    pub open spec fn teardown_plan(&self) -> Seq<InvocationView> {
        teardown_view(
            self.layout.root@,
            self.mounted(),
            if self.bound { Some(self.layout.device@) } else { None },
        )
    }

    /// A run that will copy `image_uri` into `work_dir`, expose it in the declared
    /// `format` through the free block device `device`, and install `package` in it.
    pub fn new(
        image_uri: &str,
        format: &str,
        package: &str,
        proposed: bool,
        ppa: Option<String>,
        work_dir: &str,
        device: &str,
    ) -> (r: Pipeline)
        ensures
            r.wf(),
            r.stage == Stage::Fetch,
            !r.bound,
            r.mounts@.len() == 0,
            r.release is None,
            r.failure is None,
            r.settings.image_uri@ == image_uri@,
            r.settings.format@ == format@,
            r.settings.package@ == package@,
            r.settings.proposed == proposed,
            ppa_view(r.settings.ppa) == ppa_view(ppa),
            r.layout.image_path@ == join_path(work_dir@, "vm_image.img"@),
            r.layout.root@ == join_path(work_dir@, "rootfs"@),
            r.layout.device@ == device@,
    {
        let root = crate::text::join(work_dir, "rootfs");
        let boot = crate::text::join(root.as_str(), "boot");
        let efi = crate::text::join(boot.as_str(), "efi");
        let os_release = crate::text::join(root.as_str(), "etc/os-release");
        Pipeline {
            settings: Settings {
                image_uri: String::from_str(image_uri),
                format: String::from_str(format),
                package: String::from_str(package),
                proposed,
                ppa,
            },
            layout: Layout {
                image_path: crate::text::join(work_dir, "vm_image.img"),
                root,
                boot,
                efi,
                os_release,
                output: output_image_name(image_uri, package, proposed),
                device: String::from_str(device),
            },
            stage: Stage::Fetch,
            bound: false,
            mounts: Vec::new(),
            attempts: 0,
            steps: Vec::new(),
            step_index: 0,
            commands: Vec::new(),
            contexts: Vec::new(),
            next: 0,
            release: None,
            failure: None,
        }
    }
}

} // verus!

verus! {

/// The command that copies the file `from` to `to`.
pub open spec fn copy_view(from: Seq<char>, to: Seq<char>) -> InvocationView {
    InvocationView { program: "cp"@, args: seq![from, to] }
}

/// Copies the file `from` to `to`.
pub fn copy_command(from: &str, to: &str) -> (r: Invocation)
    ensures
        r@ == copy_view(from@, to@),
{
    let mut args: Vec<String> = Vec::new();
    push_text(&mut args, from);
    push_text(&mut args, to);
    assert(texts(args@) =~= seq![from@, to@]);
    Invocation::new("cp", args)
}

/// The action that mounts partition `slot` of `device` on `dir`, creating the
/// directory first; its failure names the partition and the directory.
pub open spec fn mount_action(device: Seq<char>, slot: u64, dir: Seq<char>) -> ActionView {
    let node = partition_node(device, slot as nat);
    ActionView::Mount {
        command: mount_view(node, dir),
        dir,
        context: "Failed to mount "@ + node + " to "@ + dir,
    }
}

/// The action of `mount_action`.
pub fn mount_partition(device: &str, slot: u64, dir: &str) -> (r: Action)
    ensures
        r@ == mount_action(device@, slot, dir@),
{
    let node = partition_device(device, slot);
    let context = crate::text::cat3("Failed to mount ", node.as_str(), " to ").concat(dir);
    Action::Mount {
        command: mount_command(node.as_str(), dir),
        dir: String::from_str(dir),
        context,
    }
}

/// The failure of a device whose partitions never appeared.
pub open spec fn probe_failure() -> FailureView {
    FailureView {
        context: "Device partitions did not appear"@,
        code: None,
        stdout: ""@,
        stderr: ""@,
    }
}

/// The failure of a guest whose OS identification names no release.
pub open spec fn release_failure() -> FailureView {
    FailureView {
        context: "Failed to determine release name from /etc/os-release"@,
        code: None,
        stdout: ""@,
        stderr: ""@,
    }
}

/// `n` has started the teardown of what `o` held: the teardown commands are
/// those of `o`, and nothing is held any more.
pub open spec fn entered_teardown(o: Pipeline, n: Pipeline) -> bool {
    &&& n.commands@.map_values(|i: Invocation| i@) == o.teardown_plan()
    &&& n.next == 0
    &&& !n.bound
    &&& n.mounts@.len() == 0
    &&& n.release == o.release
    &&& n.stage == if o.teardown_plan().len() > 0 {
        Stage::Teardown
    } else if n.failure is Some {
        Stage::Finished
    } else {
        Stage::CopyOut
    }
}

/// `n` has recorded the failure `f` and started the teardown of what `o` held.
pub open spec fn failed_now(o: Pipeline, n: Pipeline, f: FailureView) -> bool {
    &&& n.failure matches Some(x) && x@ == f
    &&& entered_teardown(o, n)
}

/// `n` holds what `o` held, with the same release and failure.
pub open spec fn kept(o: Pipeline, n: Pipeline) -> bool {
    &&& n.bound == o.bound
    &&& n.mounts == o.mounts
    &&& n.release == o.release
    &&& n.failure == o.failure
}

impl Pipeline {
    /// What to do next, by the stage of the run.
    pub fn action(&self) -> (r: Action)
        requires
            self.wf(),
        ensures
            self.stage == Stage::Fetch ==> if remote(self.settings.image_uri@) {
                r@ == (ActionView::Download {
                    url: self.settings.image_uri@,
                    dest: self.layout.image_path@,
                })
            } else {
                r@ == (ActionView::Run {
                    command: copy_view(self.settings.image_uri@, self.layout.image_path@),
                    context: "Failed to copy local image file from "@ + self.settings.image_uri@,
                })
            },
            self.stage == Stage::LoadModule ==> r@ == (ActionView::Run {
                command: InvocationView { program: "modprobe"@, args: seq!["nbd"@] },
                context: "Failed to load nbd kernel module"@,
            }),
            self.stage == Stage::Connect ==> r@ == (ActionView::Run {
                command: connect_view(
                    self.layout.image_path@,
                    self.settings.format@,
                    self.layout.device@,
                ),
                context: "Failed to connect image to NBD device"@,
            }),
            self.stage == Stage::AwaitDevice ==> r@ == (ActionView::AwaitDevice {
                path: partition_node(self.layout.device@, ROOT_SLOT as nat),
            }),
            self.stage == Stage::MountRoot ==> r@ == mount_action(
                self.layout.device@,
                ROOT_SLOT,
                self.layout.root@,
            ),
            self.stage == Stage::MountBoot ==> r@ == mount_action(
                self.layout.device@,
                BOOT_SLOT,
                self.layout.boot@,
            ),
            self.stage == Stage::MountBootAlt ==> r@ == mount_action(
                self.layout.device@,
                BOOT_ALT_SLOT,
                self.layout.boot@,
            ),
            self.stage == Stage::MountEfi ==> r@ == mount_action(
                self.layout.device@,
                EFI_SLOT,
                self.layout.efi@,
            ),
            self.stage == Stage::CheckResolver ==> r@ == (ActionView::Exists {
                path: resolver_file(self.layout.root@),
            }),
            (self.stage == Stage::OverrideResolver || self.stage == Stage::RestoreResolver) ==> r@
                == (ActionView::Change { step: self.steps@[self.step_index as int]@ }),
            self.stage == Stage::ReadRelease ==> r@ == (ActionView::Read {
                path: self.layout.os_release@,
            }),
            self.stage == Stage::Packages ==> r@ == (ActionView::Run {
                command: self.commands@[self.next as int]@,
                context: self.contexts@[self.next as int]@,
            }),
            self.stage == Stage::CheckBackup ==> r@ == (ActionView::Exists {
                path: backup_file(self.layout.root@),
            }),
            self.stage == Stage::Teardown ==> r@ == (ActionView::Cleanup {
                command: self.commands@[self.next as int]@,
            }),
            self.stage == Stage::CopyOut ==> r@ == (ActionView::Run {
                command: copy_view(self.layout.image_path@, self.layout.output@),
                context: "Failed to copy final image."@,
            }),
            self.stage == Stage::Finished ==> r@ == ActionView::Finish,
    {
        let root = self.layout.root.as_str();
        let device = self.layout.device.as_str();
        match self.stage {
            Stage::Fetch => {
                let uri = self.settings.image_uri.as_str();
                if is_remote(uri) {
                    Action::Download {
                        url: String::from_str(uri),
                        dest: self.layout.image_path.clone(),
                    }
                } else {
                    Action::Run {
                        command: copy_command(uri, self.layout.image_path.as_str()),
                        context: crate::text::cat("Failed to copy local image file from ", uri),
                    }
                }
            },
            Stage::LoadModule => Action::Run {
                command: load_module_command(),
                context: String::from_str("Failed to load nbd kernel module"),
            },
            Stage::Connect => Action::Run {
                command: connect_command(
                    self.layout.image_path.as_str(),
                    self.settings.format.as_str(),
                    device,
                ),
                context: String::from_str("Failed to connect image to NBD device"),
            },
            Stage::AwaitDevice => Action::AwaitDevice { path: partition_device(device, ROOT_SLOT) },
            Stage::MountRoot => mount_partition(device, ROOT_SLOT, root),
            Stage::MountBoot => mount_partition(device, BOOT_SLOT, self.layout.boot.as_str()),
            Stage::MountBootAlt => mount_partition(device, BOOT_ALT_SLOT, self.layout.boot.as_str()),
            Stage::MountEfi => mount_partition(device, EFI_SLOT, self.layout.efi.as_str()),
            Stage::CheckResolver => Action::Exists { path: crate::resolver::resolver_path(root) },
            Stage::OverrideResolver | Stage::RestoreResolver => Action::Change {
                step: self.steps[self.step_index].duplicate(),
            },
            Stage::ReadRelease => Action::Read { path: self.layout.os_release.clone() },
            Stage::Packages => Action::Run {
                command: self.commands[self.next].duplicate(),
                context: self.contexts[self.next].clone(),
            },
            Stage::CheckBackup => Action::Exists { path: crate::resolver::backup_path(root) },
            Stage::Teardown => Action::Cleanup { command: self.commands[self.next].duplicate() },
            Stage::CopyOut => Action::Run {
                command: copy_command(
                    self.layout.image_path.as_str(),
                    self.layout.output.as_str(),
                ),
                context: String::from_str("Failed to copy final image."),
            },
            Stage::Finished => Action::Finish,
        }
    }
}

} // verus!

verus! {

/// `n` has added the mount of partition `slot` on `target` to what `o` held.
pub open spec fn mounted_now(o: Pipeline, n: Pipeline, slot: u64, target: Seq<char>) -> bool {
    &&& n.mount_table() == o.mount_table().push(
        (partition_node(o.layout.device@, slot as nat), target),
    )
    &&& n.bound == o.bound
    &&& n.release == o.release
    &&& n.failure == o.failure
}

/// The directories of the guest tree lie below its root.
pub proof fn lemma_guest_dirs_under_root(root: Seq<char>)
    ensures
        is_under(root, root),
        is_under(boot_dir(root), root),
        is_under(efi_dir(root), root),
{
    let base = root + seq!['/'];
    assert(boot_dir(root).subrange(0, base.len() as int) =~= base);
    assert(efi_dir(root).subrange(0, base.len() as int) =~= base);
}

impl Pipeline {
    /// Adds the mount of partition `slot` on `target` to the mount set.
    fn record_mount(&mut self, slot: u64, target: String)
        requires
            old(self).wf(),
            is_under(target@, old(self).layout.root@),
            old(self).stage == Stage::MountRoot || old(self).stage == Stage::MountBoot || old(
                self,
            ).stage == Stage::MountBootAlt || old(self).stage == Stage::MountEfi,
        ensures
            final(self).wf(),
            final(self).mount_table() == old(self).mount_table().push(
                (partition_node(old(self).layout.device@, slot as nat), target@),
            ),
            final(self).stage == old(self).stage,
            final(self).bound == old(self).bound,
            final(self).release == old(self).release,
            final(self).failure == old(self).failure,
            final(self).settings == old(self).settings,
            final(self).layout == old(self).layout,
    {
        let device = partition_device(self.layout.device.as_str(), slot);
        let ghost before = self.mount_table();
        self.mounts.push(MountPoint { device, target });
        assert(self.mount_table() =~= before.push(
            (partition_node(self.layout.device@, slot as nat), target@),
        ));
        assert forall|i: int| 0 <= i < self.mounts@.len() implies is_under(
            #[trigger] self.mounts@[i]@.1,
            self.layout.root@,
        ) by {
            if i < self.mounts@.len() - 1 {
                assert(self.mounts@[i] == old(self).mounts@[i]);
            }
        }
    }

    /// Starts the teardown of what the run holds.
    fn begin_teardown(&mut self)
        requires
            old(self).wf(),
        ensures
            final(self).wf(),
            entered_teardown(*old(self), *final(self)),
            final(self).failure == old(self).failure,
            final(self).settings == old(self).settings,
            final(self).layout == old(self).layout,
    {
        let device = if self.bound { Some(self.layout.device.as_str()) } else { None };
        let mounted = self.mounts.len() > 0;
        self.commands = teardown_commands(self.layout.root.as_str(), mounted, device);
        self.next = 0;
        self.bound = false;
        self.mounts = Vec::new();
        if self.commands.len() > 0 {
            self.stage = Stage::Teardown;
        } else if self.failure.is_some() {
            self.stage = Stage::Finished;
        } else {
            self.stage = Stage::CopyOut;
        }
    }

    /// Records `f` as the failure that ends the run and starts the teardown.
    fn fail_with(&mut self, f: Failure)
        requires
            old(self).wf(),
        ensures
            final(self).wf(),
            failed_now(*old(self), *final(self), f@),
            final(self).settings == old(self).settings,
            final(self).layout == old(self).layout,
    {
        self.failure = Some(f);
        self.begin_teardown();
    }

    /// Takes in what came of the action of `action`, and moves on.
    ///
    /// A failure of a step that acquires or changes anything ends the run: the
    /// failure is recorded and what is held is released, mounts first, then the
    /// device. A failure to mount the boot file system from its usual slot only
    /// sends the run to the other slot. The teardown goes on whatever its
    /// commands report.
    pub fn advance(&mut self, event: Event)
        requires
            old(self).wf(),
        ensures
            final(self).wf(),
            final(self).settings == old(self).settings,
            final(self).layout == old(self).layout,
            ({
                let o = *old(self);
                let n = *final(self);
                let failed = event is Failed;
                &&& o.stage == Stage::Fetch ==> if failed {
                    failed_now(o, n, failure_of(event))
                } else {
                    n.stage == Stage::LoadModule && kept(o, n)
                }
                &&& o.stage == Stage::LoadModule ==> if failed {
                    failed_now(o, n, failure_of(event))
                } else {
                    n.stage == Stage::Connect && kept(o, n)
                }
                &&& o.stage == Stage::Connect ==> if failed {
                    failed_now(o, n, failure_of(event))
                } else {
                    &&& n.stage == Stage::AwaitDevice
                    &&& n.attempts == 0
                    &&& n.bound
                    &&& n.mounts == o.mounts
                    &&& n.release == o.release
                    &&& n.failure == o.failure
                }
                &&& o.stage == Stage::AwaitDevice ==> if answer(event) {
                    n.stage == Stage::MountRoot && kept(o, n)
                } else if o.attempts + 1 < PROBE_LIMIT {
                    n.stage == Stage::AwaitDevice && n.attempts == o.attempts + 1 && kept(o, n)
                } else {
                    failed_now(o, n, probe_failure())
                }
                &&& o.stage == Stage::MountRoot ==> if failed {
                    failed_now(o, n, failure_of(event))
                } else {
                    n.stage == Stage::MountBoot && mounted_now(o, n, ROOT_SLOT, o.layout.root@)
                }
                &&& o.stage == Stage::MountBoot ==> if failed {
                    n.stage == Stage::MountBootAlt && kept(o, n)
                } else {
                    n.stage == Stage::MountEfi && mounted_now(o, n, BOOT_SLOT, o.layout.boot@)
                }
                &&& o.stage == Stage::MountBootAlt ==> if failed {
                    failed_now(o, n, failure_of(event))
                } else {
                    n.stage == Stage::MountEfi && mounted_now(o, n, BOOT_ALT_SLOT, o.layout.boot@)
                }
                &&& o.stage == Stage::MountEfi ==> if failed {
                    failed_now(o, n, failure_of(event))
                } else {
                    n.stage == Stage::CheckResolver && mounted_now(o, n, EFI_SLOT, o.layout.efi@)
                }
                &&& o.stage == Stage::CheckResolver ==> {
                    &&& n.stage == Stage::OverrideResolver
                    &&& n.steps@.map_values(|s: FileStep| s@) == override_steps(
                        o.layout.root@,
                        answer(event),
                    )
                    &&& n.step_index == 0
                    &&& kept(o, n)
                }
                &&& o.stage == Stage::OverrideResolver ==> if failed {
                    failed_now(o, n, failure_of(event))
                } else {
                    &&& kept(o, n)
                    &&& n.steps == o.steps
                    &&& if o.step_index + 1 < o.steps@.len() {
                        n.stage == Stage::OverrideResolver && n.step_index == o.step_index + 1
                    } else {
                        n.stage == Stage::ReadRelease
                    }
                }
                &&& o.stage == Stage::ReadRelease ==> match event {
                    Event::Done(text) => match codename(text@) {
                        Some(c) => {
                            &&& n.stage == Stage::Packages
                            &&& n.release matches Some(r) && r@ == lowercase_of(c)
                            &&& n.commands@.map_values(|i: Invocation| i@) == package_plan(
                                o.layout.root@,
                                o.settings.package@,
                                lowercase_of(c),
                                o.settings.proposed,
                                ppa_view(o.settings.ppa),
                            )
                            &&& texts(n.contexts@) == package_context_plan(
                                o.settings.package@,
                                lowercase_of(c),
                                o.settings.proposed,
                                ppa_view(o.settings.ppa),
                            )
                            &&& n.next == 0
                            &&& n.bound == o.bound
                            &&& n.mounts == o.mounts
                            &&& n.failure == o.failure
                        },
                        None => failed_now(o, n, release_failure()),
                    },
                    Event::Answer(_) => failed_now(o, n, release_failure()),
                    Event::Failed(f) => failed_now(o, n, f@),
                }
                &&& o.stage == Stage::Packages ==> if failed {
                    failed_now(o, n, failure_of(event))
                } else {
                    &&& kept(o, n)
                    &&& n.commands == o.commands
                    &&& if o.next + 1 < o.commands@.len() {
                        n.stage == Stage::Packages && n.next == o.next + 1
                    } else {
                        n.stage == Stage::CheckBackup
                    }
                }
                &&& o.stage == Stage::CheckBackup ==> if answer(event) {
                    &&& n.stage == Stage::RestoreResolver
                    &&& n.steps@.map_values(|s: FileStep| s@) == restore_steps(o.layout.root@, true)
                    &&& n.step_index == 0
                    &&& kept(o, n)
                } else {
                    entered_teardown(o, n) && n.failure == o.failure
                }
                &&& o.stage == Stage::RestoreResolver ==> if failed {
                    failed_now(o, n, failure_of(event))
                } else if o.step_index + 1 < o.steps@.len() {
                    &&& n.stage == Stage::RestoreResolver
                    &&& n.step_index == o.step_index + 1
                    &&& n.steps == o.steps
                    &&& kept(o, n)
                } else {
                    entered_teardown(o, n) && n.failure == o.failure
                }
                &&& o.stage == Stage::Teardown ==> {
                    &&& kept(o, n)
                    &&& n.commands == o.commands
                    &&& if o.next + 1 < o.commands@.len() {
                        n.stage == Stage::Teardown && n.next == o.next + 1
                    } else if o.failure is Some {
                        n.stage == Stage::Finished
                    } else {
                        n.stage == Stage::CopyOut
                    }
                }
                &&& o.stage == Stage::CopyOut ==> {
                    &&& n.stage == Stage::Finished
                    &&& n.bound == o.bound
                    &&& n.mounts == o.mounts
                    &&& n.release == o.release
                    &&& match event {
                        Event::Failed(f) => n.failure matches Some(x) && x@ == f@,
                        _ => n.failure == o.failure,
                    }
                }
                &&& o.stage == Stage::Finished ==> n == o
            }),
    {
        match self.stage {
            Stage::Fetch | Stage::LoadModule | Stage::Connect => {
                match event {
                    Event::Failed(f) => self.fail_with(f),
                    _ => {
                        self.stage = match self.stage {
                            Stage::Fetch => Stage::LoadModule,
                            Stage::LoadModule => Stage::Connect,
                            _ => Stage::AwaitDevice,
                        };
                        if self.stage == Stage::AwaitDevice {
                            self.bound = true;
                            self.attempts = 0;
                        }
                    },
                }
            },
            Stage::MountRoot | Stage::MountBoot | Stage::MountBootAlt | Stage::MountEfi => {
                match event {
                    Event::Failed(f) => {
                        if self.stage == Stage::MountBoot {
                            self.stage = Stage::MountBootAlt;
                        } else {
                            self.fail_with(f);
                        }
                    },
                    _ => {
                        let (slot, target, next) = match self.stage {
                            Stage::MountRoot => (ROOT_SLOT, self.layout.root.clone(), Stage::MountBoot),
                            Stage::MountBoot => (BOOT_SLOT, self.layout.boot.clone(), Stage::MountEfi),
                            Stage::MountBootAlt => (
                                BOOT_ALT_SLOT,
                                self.layout.boot.clone(),
                                Stage::MountEfi,
                            ),
                            _ => (EFI_SLOT, self.layout.efi.clone(), Stage::CheckResolver),
                        };
                        proof {
                            lemma_guest_dirs_under_root(self.layout.root@);
                        }
                        self.record_mount(slot, target);
                        self.stage = next;
                    },
                }
            },
            Stage::AwaitDevice => {
                let ready = match event {
                    Event::Done(_) => true,
                    Event::Answer(b) => b,
                    Event::Failed(_) => false,
                };
                if ready {
                    self.stage = Stage::MountRoot;
                } else if self.attempts + 1 < PROBE_LIMIT {
                    self.attempts = self.attempts + 1;
                } else {
                    self.fail_with(Failure::new("Device partitions did not appear", None, "", ""));
                }
            },
            Stage::CheckResolver => {
                let present = match event {
                    Event::Done(_) => true,
                    Event::Answer(b) => b,
                    Event::Failed(_) => false,
                };
                self.steps = override_plan(self.layout.root.as_str(), present);
                self.step_index = 0;
                self.stage = Stage::OverrideResolver;
            },
            Stage::OverrideResolver | Stage::RestoreResolver => {
                match event {
                    Event::Failed(f) => self.fail_with(f),
                    _ => {
                        if self.step_index < self.steps.len() - 1 {
                            self.step_index = self.step_index + 1;
                        } else if self.stage == Stage::OverrideResolver {
                            self.stage = Stage::ReadRelease;
                        } else {
                            self.begin_teardown();
                        }
                    },
                }
            },
            Stage::ReadRelease => {
                match event {
                    Event::Done(text) => match get_release(text.as_str()) {
                        Some(release) => {
                            self.commands = package_commands(
                                self.layout.root.as_str(),
                                self.settings.package.as_str(),
                                release.as_str(),
                                self.settings.proposed,
                                &self.settings.ppa,
                            );
                            self.contexts = package_contexts(
                                self.settings.package.as_str(),
                                release.as_str(),
                                self.settings.proposed,
                                &self.settings.ppa,
                            );
                            proof {
                                lemma_contexts_match_commands(
                                    self.layout.root@,
                                    self.settings.package@,
                                    release@,
                                    self.settings.proposed,
                                    ppa_view(self.settings.ppa),
                                );
                                assert(self.contexts@.len() == texts(self.contexts@).len());
                                assert(self.commands@.len() == self.commands@.map_values(
                                    |i: Invocation| i@,
                                ).len());
                            }
                            self.next = 0;
                            self.release = Some(release);
                            self.stage = Stage::Packages;
                        },
                        None => self.fail_with(
                            Failure::new(
                                "Failed to determine release name from /etc/os-release",
                                None,
                                "",
                                "",
                            ),
                        ),
                    },
                    Event::Answer(_) => self.fail_with(
                        Failure::new(
                            "Failed to determine release name from /etc/os-release",
                            None,
                            "",
                            "",
                        ),
                    ),
                    Event::Failed(f) => self.fail_with(f),
                }
            },
            Stage::Packages => {
                match event {
                    Event::Failed(f) => self.fail_with(f),
                    _ => {
                        if self.next < self.commands.len() - 1 {
                            self.next = self.next + 1;
                        } else {
                            self.stage = Stage::CheckBackup;
                        }
                    },
                }
            },
            Stage::CheckBackup => {
                let present = match event {
                    Event::Done(_) => true,
                    Event::Answer(b) => b,
                    Event::Failed(_) => false,
                };
                if present {
                    self.steps = restore_plan(self.layout.root.as_str(), true);
                    self.step_index = 0;
                    self.stage = Stage::RestoreResolver;
                } else {
                    self.begin_teardown();
                }
            },
            Stage::Teardown => {
                if self.next < self.commands.len() - 1 {
                    self.next = self.next + 1;
                } else if self.failure.is_some() {
                    self.stage = Stage::Finished;
                } else {
                    self.stage = Stage::CopyOut;
                }
            },
            Stage::CopyOut => {
                if let Event::Failed(f) = event {
                    self.failure = Some(f);
                }
                self.stage = Stage::Finished;
            },
            Stage::Finished => {},
        }
    }
}

} // verus!

verus! {

/// Where exposing the image fails, the run ends at once: nothing was mounted,
/// the teardown has nothing to release, and the failure reported is the one
/// the tool gave, with what it printed on its error stream.
pub proof fn lemma_attach_failure(o: Pipeline, n: Pipeline, f: Failure)
    requires
        o.wf(),
        o.stage == Stage::Connect,
        failed_now(o, n, f@),
    ensures
        n.stage == Stage::Finished,
        n.mounts@.len() == 0,
        !n.bound,
        n.commands@.len() == 0,
        n.failure matches Some(x) && x@.stderr == f@.stderr && x@.code == f.code,
{
    assert(o.teardown_plan() =~= Seq::<InvocationView>::empty());
}

} // verus!

verus! {

/// Whatever stage a run has reached, once at least one partition is mounted its
/// teardown leaves nothing mounted at or below the guest root, and releases the
/// device where one is bound.
pub proof fn lemma_pipeline_teardown(p: Pipeline)
    requires
        p.wf(),
        p.mounted(),
    ensures
        mounts_under(mounts_after(p.mount_table(), p.teardown_plan()), p.layout.root@) == 0,
        p.bound ==> binding_after(Some(p.layout.device@), p.teardown_plan()) is None,
{
    lemma_teardown_complete(p.mount_table(), p.layout.root@, p.layout.device@);
}

} // verus!
