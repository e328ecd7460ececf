use vstd::prelude::*;

use crate::command::{push_text, texts, Invocation, InvocationView};

verus! {

/// The command `words` run inside the guest tree at `root`, isolated from the host.
pub open spec fn guest_view(root: Seq<char>, words: Seq<Seq<char>>) -> InvocationView {
    InvocationView { program: "systemd-nspawn"@, args: seq!["-D"@, root] + words }
}

/// Runs `words` with the guest tree at `root` as the root of its file system and
/// process view.
pub fn in_guest(root: &str, words: &Vec<String>) -> (r: Invocation)
    ensures
        r@ == guest_view(root@, texts(words@)),
{
    let mut args: Vec<String> = Vec::new();
    push_text(&mut args, "-D");
    push_text(&mut args, root);
    crate::command::push_all(&mut args, words);
    assert(texts(args@) =~= seq!["-D"@, root@] + texts(words@));
    Invocation::new("systemd-nspawn", args)
}

/// The archive that holds the staging pocket.
pub open spec fn archive_uri() -> Seq<char> {
    "http://archive.ubuntu.com/ubuntu/"@
}

/// The words that name the staging pocket with its components.
pub open spec fn staging_words() -> Seq<Seq<char>> {
    seq![
        "--uri"@,
        archive_uri(),
        "--pocket"@,
        "proposed"@,
        "--component"@,
        "main"@,
        "--component"@,
        "universe"@,
    ]
}

fn push_staging(v: &mut Vec<String>)
    ensures
        texts(final(v)@) == texts(old(v)@) + staging_words(),
{
    push_text(v, "--uri");
    push_text(v, "http://archive.ubuntu.com/ubuntu/");
    push_text(v, "--pocket");
    push_text(v, "proposed");
    push_text(v, "--component");
    push_text(v, "main");
    push_text(v, "--component");
    push_text(v, "universe");
    assert(texts(final(v)@) =~= texts(old(v)@) + staging_words());
}

/// The command that adds the source `ppa` to the guest at `root`.
pub open spec fn add_source_view(root: Seq<char>, ppa: Seq<char>) -> InvocationView {
    guest_view(root, seq!["apt-add-repository"@, "--no-update"@, "--yes"@, ppa])
}

/// The command that removes the source `ppa` from the guest at `root`.
pub open spec fn remove_source_view(root: Seq<char>, ppa: Seq<char>) -> InvocationView {
    guest_view(root, seq!["apt-add-repository"@, "--yes"@, "--remove"@, ppa])
}

/// The command that adds the staging pocket to the guest at `root`.
pub open spec fn enable_staging_view(root: Seq<char>) -> InvocationView {
    guest_view(root, seq!["apt-add-repository"@, "--yes"@, "--no-update"@] + staging_words())
}

/// The command that removes the staging pocket from the guest at `root`.
pub open spec fn disable_staging_view(root: Seq<char>) -> InvocationView {
    guest_view(root, seq!["apt-add-repository"@, "--yes"@] + staging_words() + seq!["--remove"@])
}

/// Adds the third-party package source `ppa` to the guest at `rootfs_dir`,
/// leaving the package index as it is.
pub fn add_ppa(rootfs_dir: &str, ppa: &str) -> (r: Invocation)
    ensures
        r@ == add_source_view(rootfs_dir@, ppa@),
{
    let mut words: Vec<String> = Vec::new();
    push_text(&mut words, "apt-add-repository");
    push_text(&mut words, "--no-update");
    push_text(&mut words, "--yes");
    push_text(&mut words, ppa);
    assert(texts(words@) =~= seq!["apt-add-repository"@, "--no-update"@, "--yes"@, ppa@]);
    in_guest(rootfs_dir, &words)
}

/// Removes the third-party package source `ppa` from the guest at `rootfs_dir`.
pub fn remove_ppa(rootfs_dir: &str, ppa: &str) -> (r: Invocation)
    ensures
        r@ == remove_source_view(rootfs_dir@, ppa@),
{
    let mut words: Vec<String> = Vec::new();
    push_text(&mut words, "apt-add-repository");
    push_text(&mut words, "--yes");
    push_text(&mut words, "--remove");
    push_text(&mut words, ppa);
    assert(texts(words@) =~= seq!["apt-add-repository"@, "--yes"@, "--remove"@, ppa@]);
    in_guest(rootfs_dir, &words)
}

/// Adds the staging pocket of the archive to the guest at `rootfs_dir`, leaving
/// the package index as it is.
pub fn enable_proposed_repository(rootfs_dir: &str) -> (r: Invocation)
    ensures
        r@ == enable_staging_view(rootfs_dir@),
{
    let mut words: Vec<String> = Vec::new();
    push_text(&mut words, "apt-add-repository");
    push_text(&mut words, "--yes");
    push_text(&mut words, "--no-update");
    push_staging(&mut words);
    assert(texts(words@) =~= seq!["apt-add-repository"@, "--yes"@, "--no-update"@]
        + staging_words());
    in_guest(rootfs_dir, &words)
}

/// Removes the staging pocket of the archive from the guest at `rootfs_dir`: the
/// words that added it, with the removal flag.
pub fn disable_proposed_repository(rootfs_dir: &str) -> (r: Invocation)
    ensures
        r@ == disable_staging_view(rootfs_dir@),
{
    let mut words: Vec<String> = Vec::new();
    push_text(&mut words, "apt-add-repository");
    push_text(&mut words, "--yes");
    push_staging(&mut words);
    push_text(&mut words, "--remove");
    assert(texts(words@) =~= seq!["apt-add-repository"@, "--yes"@] + staging_words()
        + seq!["--remove"@]);
    in_guest(rootfs_dir, &words)
}

/// Refreshes the guest's package index.
pub fn refresh_index(rootfs_dir: &str) -> (r: Invocation)
    ensures
        r@ == guest_view(rootfs_dir@, seq!["apt-get"@, "update"@, "-y"@]),
{
    let mut words: Vec<String> = Vec::new();
    push_text(&mut words, "apt-get");
    push_text(&mut words, "update");
    push_text(&mut words, "-y");
    assert(texts(words@) =~= seq!["apt-get"@, "update"@, "-y"@]);
    in_guest(rootfs_dir, &words)
}

/// Installs `package` in the guest, without asking.
pub fn install(rootfs_dir: &str, package: &str) -> (r: Invocation)
    ensures
        r@ == guest_view(rootfs_dir@, seq!["apt-get"@, "install"@, "-y"@, package@]),
{
    let mut words: Vec<String> = Vec::new();
    push_text(&mut words, "apt-get");
    push_text(&mut words, "install");
    push_text(&mut words, "-y");
    push_text(&mut words, package);
    assert(texts(words@) =~= seq!["apt-get"@, "install"@, "-y"@, package@]);
    in_guest(rootfs_dir, &words)
}

/// The package name that selects `package` from the staging pocket of `release`.
pub open spec fn staged_name(package: Seq<char>, release: Seq<char>) -> Seq<char> {
    package + "/"@ + release + "-proposed"@
}

/// The name under which `package` is installed: taken from the staging pocket
/// when `proposed` is set.
pub fn package_selector(package: &str, release: &str, proposed: bool) -> (r: String)
    ensures
        r@ == if proposed { staged_name(package@, release@) } else { package@ },
{
    if proposed {
        crate::text::cat3(package, "/", release).concat("-proposed")
    } else {
        String::from_str(package)
    }
}

/// The commands that install `package` in the guest at `rootfs_dir`, in order:
/// the staging pocket and the source `ppa` are added where asked for, the index
/// is refreshed, the package is installed, and what was added is removed again.
/// A failure of one of them ends the run there: what was added is then left in
/// place, a known gap of this design.
pub fn package_commands(
    rootfs_dir: &str,
    package: &str,
    release: &str,
    proposed: bool,
    ppa: &Option<String>,
) -> (r: Vec<Invocation>)
    ensures
        r@.map_values(|i: Invocation| i@) == package_plan(rootfs_dir@, package@, release@, proposed,
            match ppa { Some(p) => Some(p@), None => None }),
        r@.len() >= 2,
{
    let ghost gp = match ppa { Some(p) => Some(p@), None => None };
    let ghost spec_plan = package_plan(rootfs_dir@, package@, release@, proposed, gp);
    let mut r: Vec<Invocation> = Vec::new();
    if proposed {
        r.push(enable_proposed_repository(rootfs_dir));
    }
    match ppa {
        Some(p) => r.push(add_ppa(rootfs_dir, p.as_str())),
        None => {},
    }
    let name = package_selector(package, release, proposed);
    r.push(refresh_index(rootfs_dir));
    r.push(install(rootfs_dir, name.as_str()));
    if proposed {
        r.push(disable_proposed_repository(rootfs_dir));
    }
    match ppa {
        Some(p) => r.push(remove_ppa(rootfs_dir, p.as_str())),
        None => {},
    }
    assert(r@.map_values(|i: Invocation| i@) =~= spec_plan);
    r
}

/// The commands of `package_commands`, as a sequence of invocations.
pub open spec fn package_plan(
    root: Seq<char>,
    package: Seq<char>,
    release: Seq<char>,
    proposed: bool,
    ppa: Option<Seq<char>>,
) -> Seq<InvocationView> {
    let name = if proposed { staged_name(package, release) } else { package };
    let pre = if proposed { seq![enable_staging_view(root)] } else { Seq::empty() };
    let add = match ppa {
        Some(p) => seq![add_source_view(root, p)],
        None => Seq::empty(),
    };
    let post = if proposed { seq![disable_staging_view(root)] } else { Seq::empty() };
    let rem = match ppa {
        Some(p) => seq![remove_source_view(root, p)],
        None => Seq::empty(),
    };
    pre + add + seq![
        guest_view(root, seq!["apt-get"@, "update"@, "-y"@]),
        guest_view(root, seq!["apt-get"@, "install"@, "-y"@, name]),
    ] + post + rem
}

} // verus!

verus! {

/// A package source in the guest's configuration.
pub enum SourceEntry {
    /// The staging pocket of the archive.
    Staging,
    /// A third-party source, by name.
    Named(Seq<char>),
}

/// The effect of one command on the set of package sources of a guest:
/// `apt-add-repository` adds the source it names, or removes it under
/// `--remove`; a source given by `--pocket` is the staging pocket, any other is
/// named by the last word. Other commands leave the sources alone.
pub open spec fn source_effect(sources: Set<SourceEntry>, inv: InvocationView) -> Set<SourceEntry> {
    if inv.program == "systemd-nspawn"@ && inv.args.len() >= 3 && inv.args[2]
        == "apt-add-repository"@ {
        let words = inv.args.subrange(3, inv.args.len() as int);
        let entry = if words.contains("--pocket"@) {
            SourceEntry::Staging
        } else {
            SourceEntry::Named(words.last())
        };
        if words.contains("--remove"@) {
            sources.remove(entry)
        } else {
            sources.insert(entry)
        }
    } else {
        sources
    }
}

/// The package sources after running `cmds` in order.
pub open spec fn sources_after(sources: Set<SourceEntry>, cmds: Seq<InvocationView>) -> Set<
    SourceEntry,
>
    decreases cmds.len(),
{
    if cmds.len() == 0 {
        sources
    } else {
        source_effect(sources_after(sources, cmds.drop_last()), cmds.last())
    }
}

proof fn lemma_words_differ()
    ensures
        "--remove"@ != "--pocket"@,
        "--remove"@ != "--yes"@,
        "--remove"@ != "--no-update"@,
        "--remove"@ != "--uri"@,
        "--remove"@ != archive_uri(),
        "--remove"@ != "proposed"@,
        "--remove"@ != "--component"@,
        "--remove"@ != "main"@,
        "--remove"@ != "universe"@,
        "--pocket"@ != "--yes"@,
        "--pocket"@ != "--no-update"@,
        "--pocket"@ != "apt-add-repository"@,
        "apt-add-repository"@ != "apt-get"@,
{
    reveal_strlit("--remove");
    reveal_strlit("--pocket");
    reveal_strlit("--yes");
    reveal_strlit("--no-update");
    reveal_strlit("--uri");
    reveal_strlit("http://archive.ubuntu.com/ubuntu/");
    reveal_strlit("proposed");
    reveal_strlit("--component");
    reveal_strlit("main");
    reveal_strlit("universe");
    reveal_strlit("apt-add-repository");
    reveal_strlit("apt-get");
    assert("--remove"@[2] != "--pocket"@[2]);
    assert("--remove"@[2] != "--yes"@[2]);
    assert("--remove"@[2] != "--no-update"@[2]);
    assert("--remove"@[2] != "--uri"@[2]);
    assert("--remove"@[0] != archive_uri()[0]);
    assert("--remove"@[0] != "proposed"@[0]);
    assert("--remove"@[2] != "--component"@[2]);
    assert("--remove"@[0] != "main"@[0]);
    assert("--remove"@[0] != "universe"@[0]);
    assert("--pocket"@[2] != "--yes"@[2]);
    assert("--pocket"@[2] != "--no-update"@[2]);
    assert("--pocket"@[0] != "apt-add-repository"@[0]);
    assert("apt-add-repository"@[4] != "apt-get"@[4]);
}

/// Adding the third-party source `ppa` and then removing it leaves the guest's
/// package sources as they were, where the source was not there before. (A name
/// that is itself one of the tool's flags is taken by the tool as that flag.)
pub proof fn lemma_source_round_trip(sources: Set<SourceEntry>, root: Seq<char>, ppa: Seq<char>)
    requires
        !sources.contains(SourceEntry::Named(ppa)),
        ppa != "--remove"@,
        ppa != "--pocket"@,
    ensures
        source_effect(
            source_effect(sources, add_source_view(root, ppa)),
            remove_source_view(root, ppa),
        ) == sources,
{
    lemma_words_differ();
    let a = add_source_view(root, ppa).args.subrange(3, 6);
    let r = remove_source_view(root, ppa).args.subrange(3, 6);
    assert(a =~= seq!["--no-update"@, "--yes"@, ppa]);
    assert(r =~= seq!["--yes"@, "--remove"@, ppa]);
    assert(!a.contains("--pocket"@));
    assert(!r.contains("--pocket"@));
    assert(!a.contains("--remove"@));
    assert(r[1] == "--remove"@);
    assert(source_effect(sources, add_source_view(root, ppa)) == sources.insert(
        SourceEntry::Named(ppa),
    ));
    assert(sources.insert(SourceEntry::Named(ppa)).remove(SourceEntry::Named(ppa)) =~= sources);
}

/// Enabling the staging pocket and then disabling it leaves the guest's package
/// sources as they were, where the pocket was not enabled before.
pub proof fn lemma_staging_round_trip(sources: Set<SourceEntry>, root: Seq<char>)
    requires
        !sources.contains(SourceEntry::Staging),
    ensures
        source_effect(
            source_effect(sources, enable_staging_view(root)),
            disable_staging_view(root),
        ) == sources,
{
    lemma_words_differ();
    let e = enable_staging_view(root).args;
    let d = disable_staging_view(root).args;
    let ew = e.subrange(3, e.len() as int);
    let dw = d.subrange(3, d.len() as int);
    assert(ew =~= seq!["--yes"@, "--no-update"@] + staging_words());
    assert(dw =~= seq!["--yes"@] + staging_words() + seq!["--remove"@]);
    assert(ew[4] == "--pocket"@);
    assert(dw[3] == "--pocket"@);
    assert(dw[9] == "--remove"@);
    assert(!ew.contains("--remove"@));
    assert(sources.insert(SourceEntry::Staging).remove(SourceEntry::Staging) =~= sources);
}

} // verus!

verus! {

/// Installing from the staging pocket: the package taken is the one of the
/// staging pocket, the pocket is among the guest's sources while it is
/// installed, and once all the commands have run the sources are as they were
/// (where neither the pocket nor the extra source was there before, and the
/// extra source's name is not one of the tool's flags).
pub proof fn lemma_staging_transient(
    sources: Set<SourceEntry>,
    root: Seq<char>,
    package: Seq<char>,
    release: Seq<char>,
    ppa: Option<Seq<char>>,
)
    requires
        !sources.contains(SourceEntry::Staging),
        ppa matches Some(p) ==> !sources.contains(SourceEntry::Named(p)) && p != "--remove"@ && p
            != "--pocket"@,
    ensures
        ({
            let plan = package_plan(root, package, release, true, ppa);
            let k: int = if ppa is Some { 3 } else { 2 };
            &&& plan[k] == guest_view(
                root,
                seq!["apt-get"@, "install"@, "-y"@, staged_name(package, release)],
            )
            &&& sources_after(sources, plan.subrange(0, k)).contains(SourceEntry::Staging)
            &&& sources_after(sources, plan) == sources
        }),
{
    lemma_words_differ();
    reveal_with_fuel(sources_after, 7);
    let plan = package_plan(root, package, release, true, ppa);
    let en = enable_staging_view(root);
    let dis = disable_staging_view(root);
    let upd = guest_view(root, seq!["apt-get"@, "update"@, "-y"@]);
    let ins = guest_view(root, seq!["apt-get"@, "install"@, "-y"@, staged_name(package, release)]);
    let with_staging = sources.insert(SourceEntry::Staging);
    assert(source_effect(sources, en) == with_staging) by {
        let ew = en.args.subrange(3, en.args.len() as int);
        assert(ew =~= seq!["--yes"@, "--no-update"@] + staging_words());
        assert(ew[4] == "--pocket"@);
        assert(!ew.contains("--remove"@));
    }
    assert(forall|s: Set<SourceEntry>| source_effect(s, upd) == s);
    assert(forall|s: Set<SourceEntry>| source_effect(s, ins) == s);
    assert(forall|s: Set<SourceEntry>| #[trigger] source_effect(s, dis) == s.remove(SourceEntry::Staging)) by {
        let dw = dis.args.subrange(3, dis.args.len() as int);
        assert(dw =~= seq!["--yes"@] + staging_words() + seq!["--remove"@]);
        assert(dw[3] == "--pocket"@);
        assert(dw[9] == "--remove"@);
    }
    match ppa {
        Some(p) => {
            let add = add_source_view(root, p);
            let rem = remove_source_view(root, p);
            assert(plan =~= seq![en, add, upd, ins, dis, rem]);
            let both = with_staging.insert(SourceEntry::Named(p));
            assert(source_effect(with_staging, add) == both) by {
                let a = add.args.subrange(3, 6);
                assert(a =~= seq!["--no-update"@, "--yes"@, p]);
                assert(!a.contains("--pocket"@));
                assert(!a.contains("--remove"@));
            }
            assert(forall|s: Set<SourceEntry>| #[trigger] source_effect(s, rem) == s.remove(SourceEntry::Named(p))) by {
                let r = rem.args.subrange(3, 6);
                assert(r =~= seq!["--yes"@, "--remove"@, p]);
                assert(!r.contains("--pocket"@));
                assert(r[1] == "--remove"@);
            }
            assert(plan.subrange(0, 3) =~= seq![en, add, upd]);
            assert(plan.subrange(0, 3).drop_last() =~= seq![en, add]);
            assert(seq![en, add].drop_last() =~= seq![en]);
            assert(seq![en].drop_last() =~= Seq::<InvocationView>::empty());
            assert(plan.drop_last() =~= seq![en, add, upd, ins, dis]);
            assert(seq![en, add, upd, ins, dis].drop_last() =~= seq![en, add, upd, ins]);
            assert(seq![en, add, upd, ins].drop_last() =~= seq![en, add, upd]);
            assert(both.remove(SourceEntry::Staging).remove(SourceEntry::Named(p)) =~= sources);
        },
        None => {
            assert(plan =~= seq![en, upd, ins, dis]);
            assert(plan.subrange(0, 2) =~= seq![en, upd]);
            assert(seq![en, upd].drop_last() =~= seq![en]);
            assert(seq![en].drop_last() =~= Seq::<InvocationView>::empty());
            assert(plan.drop_last() =~= seq![en, upd, ins]);
            assert(seq![en, upd, ins].drop_last() =~= seq![en, upd]);
            assert(with_staging.remove(SourceEntry::Staging) =~= sources);
        },
    }
}

} // verus!

verus! {

/// The failure texts of the commands of `package_plan`, one for each, in the
/// same order.
pub open spec fn package_context_plan(
    package: Seq<char>,
    release: Seq<char>,
    proposed: bool,
    ppa: Option<Seq<char>>,
) -> Seq<Seq<char>> {
    let name = if proposed { staged_name(package, release) } else { package };
    let installing = "Failed to install package "@ + name;
    let pre = if proposed { seq!["Failed to add proposed repository"@] } else { Seq::empty() };
    let add = match ppa {
        Some(p) => seq!["Failed to add PPA "@ + p],
        None => Seq::empty(),
    };
    let post = if proposed { seq!["Failed to remove proposed repository"@] } else { Seq::empty() };
    let rem = match ppa {
        Some(p) => seq!["Failed to remove PPA "@ + p],
        None => Seq::empty(),
    };
    pre + add + seq![installing, installing] + post + rem
}

/// The failure texts that go with the commands of `package_commands`.
pub fn package_contexts(package: &str, release: &str, proposed: bool, ppa: &Option<String>) -> (r:
    Vec<String>)
    ensures
        texts(r@) == package_context_plan(
            package@,
            release@,
            proposed,
            match ppa { Some(p) => Some(p@), None => None },
        ),
{
    let mut r: Vec<String> = Vec::new();
    if proposed {
        push_text(&mut r, "Failed to add proposed repository");
    }
    match ppa {
        Some(p) => {
            let t = crate::text::cat("Failed to add PPA ", p.as_str());
            push_text(&mut r, t.as_str());
        },
        None => {},
    }
    let name = package_selector(package, release, proposed);
    let installing = crate::text::cat("Failed to install package ", name.as_str());
    push_text(&mut r, installing.as_str());
    push_text(&mut r, installing.as_str());
    if proposed {
        push_text(&mut r, "Failed to remove proposed repository");
    }
    match ppa {
        Some(p) => {
            let t = crate::text::cat("Failed to remove PPA ", p.as_str());
            push_text(&mut r, t.as_str());
        },
        None => {},
    }
    assert(texts(r@) =~= package_context_plan(
        package@,
        release@,
        proposed,
        match ppa { Some(p) => Some(p@), None => None },
    ));
    r
}

/// There is one failure text for each package command.
pub proof fn lemma_contexts_match_commands(
    root: Seq<char>,
    package: Seq<char>,
    release: Seq<char>,
    proposed: bool,
    ppa: Option<Seq<char>>,
)
    ensures
        package_context_plan(package, release, proposed, ppa).len() == package_plan(
            root,
            package,
            release,
            proposed,
            ppa,
        ).len(),
{
}

} // verus!
