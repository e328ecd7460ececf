use vstd::prelude::*;

use crate::text::join_path;

verus! {

/// The guest's resolver configuration, under the guest root `root`.
pub open spec fn resolver_file(root: Seq<char>) -> Seq<char> {
    join_path(root, "etc/resolv.conf"@)
}

/// Where the guest's own resolver configuration is kept while overridden.
pub open spec fn backup_file(root: Seq<char>) -> Seq<char> {
    join_path(root, "etc/resolv.conf.bak"@)
}

/// The configuration written over the guest's: one public name server.
pub open spec fn override_text() -> Seq<char> {
    "nameserver 1.1.1.1\n"@
}

/// A change to a file of the guest.
pub enum FileStep {
    /// Moves the file at `from` to `to`, replacing what is there.
    Rename { from: String, to: String },
    /// Writes `text` to the file at `path`, replacing what is there.
    Write { path: String, text: String },
}

/// The content of a change to a file.
pub enum FileStepView {
    Rename { from: Seq<char>, to: Seq<char> },
    Write { path: Seq<char>, text: Seq<char> },
}

impl View for FileStep {
    type V = FileStepView;

    open spec fn view(&self) -> FileStepView {
        match self {
            FileStep::Rename { from, to } => FileStepView::Rename { from: from@, to: to@ },
            FileStep::Write { path, text } => FileStepView::Write { path: path@, text: text@ },
        }
    }
}

impl FileStep {
    /// A copy of this change.
    pub fn duplicate(&self) -> (r: FileStep)
        ensures
            r@ == self@,
    {
        match self {
            FileStep::Rename { from, to } => FileStep::Rename { from: from.clone(), to: to.clone() },
            FileStep::Write { path, text } => FileStep::Write { path: path.clone(), text: text.clone() },
        }
    }
}

/// A file tree, from path to content.
pub type FileTree = Map<Seq<char>, Seq<char>>;

/// The file tree after one change. Renaming a path that holds no file changes
/// nothing.
pub open spec fn file_effect(files: FileTree, step: FileStepView) -> FileTree {
    match step {
        FileStepView::Rename { from, to } => if files.contains_key(from) {
            files.remove(from).insert(to, files[from])
        } else {
            files
        },
        FileStepView::Write { path, text } => files.insert(path, text),
    }
}

/// The file tree after the changes `steps`, in order.
pub open spec fn files_after(files: FileTree, steps: Seq<FileStepView>) -> FileTree
    decreases steps.len(),
{
    if steps.len() == 0 {
        files
    } else {
        file_effect(files_after(files, steps.drop_last()), steps.last())
    }
}

/// The changes that give the guest at `root` a working name server: its own
/// configuration, where `present`, is moved to the backup name first.
pub open spec fn override_steps(root: Seq<char>, present: bool) -> Seq<FileStepView> {
    let write = FileStepView::Write { path: resolver_file(root), text: override_text() };
    if present {
        seq![FileStepView::Rename { from: resolver_file(root), to: backup_file(root) }, write]
    } else {
        seq![write]
    }
}

/// The changes that put back the guest's own configuration: none where no
/// backup was taken.
pub open spec fn restore_steps(root: Seq<char>, backup_present: bool) -> Seq<FileStepView> {
    if backup_present {
        seq![FileStepView::Rename { from: backup_file(root), to: resolver_file(root) }]
    } else {
        Seq::empty()
    }
}

/// The path of the guest's resolver configuration.
pub fn resolver_path(root: &str) -> (r: String)
    ensures
        r@ == resolver_file(root@),
{
    crate::text::join(root, "etc/resolv.conf")
}

/// The path under which the guest's resolver configuration is backed up.
pub fn backup_path(root: &str) -> (r: String)
    ensures
        r@ == backup_file(root@),
{
    crate::text::join(root, "etc/resolv.conf.bak")
}

/// The changes of `override_steps`.
pub fn override_plan(root: &str, present: bool) -> (r: Vec<FileStep>)
    ensures
        r@.map_values(|s: FileStep| s@) == override_steps(root@, present),
        r@.len() >= 1,
{
    let mut r: Vec<FileStep> = Vec::new();
    if present {
        r.push(FileStep::Rename { from: resolver_path(root), to: backup_path(root) });
    }
    r.push(FileStep::Write {
        path: resolver_path(root),
        text: String::from_str("nameserver 1.1.1.1\n"),
    });
    assert(r@.map_values(|s: FileStep| s@) =~= override_steps(root@, present));
    r
}

/// The changes of `restore_steps`.
pub fn restore_plan(root: &str, backup_present: bool) -> (r: Vec<FileStep>)
    ensures
        r@.map_values(|s: FileStep| s@) == restore_steps(root@, backup_present),
        r@.len() == if backup_present { 1int } else { 0int },
{
    let mut r: Vec<FileStep> = Vec::new();
    if backup_present {
        r.push(FileStep::Rename { from: backup_path(root), to: resolver_path(root) });
    }
    assert(r@.map_values(|s: FileStep| s@) =~= restore_steps(root@, backup_present));
    r
}

proof fn lemma_paths_differ(root: Seq<char>)
    ensures
        resolver_file(root) != backup_file(root),
{
    reveal_strlit("etc/resolv.conf");
    reveal_strlit("etc/resolv.conf.bak");
    assert(resolver_file(root).len() != backup_file(root).len());
}

/// Overriding the resolver and then restoring it: where the guest had its own
/// configuration, every file ends as it was, that configuration with its exact
/// content included; where it had none, the restore changes nothing and leaves
/// no backup behind. A stale backup from an earlier run is ruled out.
pub proof fn lemma_resolver_round_trip(files: FileTree, root: Seq<char>)
    requires
        !files.contains_key(backup_file(root)),
    ensures
        ({
            let present = files.contains_key(resolver_file(root));
            let after = files_after(files, override_steps(root, present));
            let restored = files_after(
                after,
                restore_steps(root, after.contains_key(backup_file(root))),
            );
            &&& present ==> restored == files
            &&& !present ==> restored == after && !restored.contains_key(backup_file(root))
        }),
{
    lemma_paths_differ(root);
    reveal_with_fuel(files_after, 3);
    let c = resolver_file(root);
    let b = backup_file(root);
    let present = files.contains_key(c);
    let steps = override_steps(root, present);
    let after = files_after(files, steps);
    if present {
        assert(steps.drop_last().drop_last() =~= Seq::<FileStepView>::empty());
        let moved = files.remove(c).insert(b, files[c]);
        assert(files_after(files, steps.drop_last()) == moved);
        assert(after == moved.insert(c, override_text()));
        let back = restore_steps(root, true);
        assert(back.drop_last() =~= Seq::<FileStepView>::empty());
        assert(after.contains_key(b));
        assert(files_after(after, back) == after.remove(b).insert(c, after[b]));
        assert(after.remove(b).insert(c, after[b]) =~= files);
    } else {
        assert(steps.drop_last() =~= Seq::<FileStepView>::empty());
        assert(after == files.insert(c, override_text()));
        assert(!after.contains_key(b));
    }
}

} // verus!
