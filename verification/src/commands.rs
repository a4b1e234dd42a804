//! The commands: what each one has to do on disk, decided from the layout
//! and from what the caller found there.

use crate::category::Para;
use crate::error::ParaError;
use crate::paths::{join, join_spec, quoted, quoted_spec, ParaPaths};
use crate::transfer::{default_options, TransferKind, TransferPlan};
use vstd::prelude::*;

verus! {

/// A point in a run of `init`.
#[derive(Debug, Clone, Copy, PartialEq, Eq, Structural)]
pub enum InitStep {
    /// Find out whether the category's path is an existing directory.
    Probe(Para),
    /// Create the category's directory.
    Create(Para),
    /// All four categories have been dealt with.
    Done,
    /// The category's directory could not be created.
    Failed(Para),
}

impl InitStep {
    /// The step that takes up the category after `kind`.
    pub open spec fn advance(kind: Para) -> InitStep {
        if kind.ordinal_spec() < 3 {
            InitStep::Probe(Para::at_spec(kind.ordinal_spec() + 1))
        } else {
            InitStep::Done
        }
    }

    /// The step after a probe: an existing directory is skipped, anything
    /// else is to be created.
    pub open spec fn after_probe(kind: Para, is_dir: bool) -> InitStep {
        if is_dir {
            InitStep::advance(kind)
        } else {
            InitStep::Create(kind)
        }
    }

    /// The step after a creation: the first failure ends the run.
    pub open spec fn after_create(kind: Para, created: bool) -> InitStep {
        if created {
            InitStep::advance(kind)
        } else {
            InitStep::Failed(kind)
        }
    }

    /// An upper bound on the steps that can still follow.
    pub open spec fn remaining(self) -> nat {
        match self {
            InitStep::Probe(kind) => (2 * (4 - kind.ordinal_spec())) as nat,
            InitStep::Create(kind) => (2 * (4 - kind.ordinal_spec()) - 1) as nat,
            InitStep::Done => 0,
            InitStep::Failed(_) => 0,
        }
    }
}

/// What the caller does next in a run of `init`.
#[derive(Debug)]
pub enum InitAction {
    /// Find out whether `path` is an existing directory, then report with
    /// `init_probed`.
    Probe { kind: Para, path: String },
    /// Create the one directory `path` (its parent has to exist), then report
    /// with `init_created`.
    CreateDir { kind: Para, path: String },
    /// The run is over.
    Finish(Result<(), ParaError>),
}

impl InitAction {
    /// The action carries out `step` on the directories of `paths`; a failed
    /// run reports the path it failed at and `cause`.
    pub open spec fn carries_out(&self, paths: &ParaPaths, step: InitStep, cause: Seq<char>) -> bool {
        match step {
            InitStep::Probe(k) => self matches InitAction::Probe { kind, path } && kind == k
                && path@ == paths.path_of(k),
            InitStep::Create(k) => self matches InitAction::CreateDir { kind, path } && kind == k
                && path@ == paths.path_of(k),
            InitStep::Done => self matches InitAction::Finish(Ok(_)),
            InitStep::Failed(k) => self matches InitAction::Finish(Err(e)) && e.is_io(
                paths.path_of(k),
                cause,
            ),
        }
    }
}

/// The action that takes up the category after `kind`.
fn advance(para_paths: &ParaPaths, kind: Para) -> (action: InitAction)
    ensures
        action.carries_out(para_paths, InitStep::advance(kind), Seq::empty()),
{
    match kind.next() {
        Some(following) => InitAction::Probe {
            kind: following,
            path: para_paths.get_path(following).clone(),
        },
        None => InitAction::Finish(Ok(())),
    }
}

/// What a run of `init` has done so far, each list in the order of the run.
#[derive(Debug, Clone)]
pub struct InitReport {
    /// The categories whose directory was there already and was left alone.
    pub skipped: Vec<Para>,
    /// The categories whose directory was created.
    pub created: Vec<Para>,
}

/// Opens a run that creates the category directories: nothing is on record
/// yet, and the first action probes the Projects directory.
pub fn init(para_paths: &ParaPaths) -> (r: (InitAction, InitReport))
    ensures
        r.0.carries_out(para_paths, InitStep::Probe(Para::Projects), Seq::empty()),
        r.1.skipped@ == Seq::<Para>::empty(),
        r.1.created@ == Seq::<Para>::empty(),
{
    (
        InitAction::Probe { kind: Para::Projects, path: para_paths.projects.clone() },
        InitReport { skipped: Vec::new(), created: Vec::new() },
    )
}

/// The caller's answer to a probe of `kind`: an existing directory is left as
/// it is, the skip goes on record, and the run goes on to the next category;
/// otherwise the directory is to be created.
pub fn init_probed(para_paths: &ParaPaths, kind: Para, is_dir: bool, report: &mut InitReport) -> (action:
    InitAction)
    ensures
        action.carries_out(para_paths, InitStep::after_probe(kind, is_dir), Seq::empty()),
        final(report).created@ == old(report).created@,
        final(report).skipped@ == if is_dir {
            old(report).skipped@.push(kind)
        } else {
            old(report).skipped@
        },
{
    if is_dir {
        report.skipped.push(kind);
        advance(para_paths, kind)
    } else {
        InitAction::CreateDir { kind, path: para_paths.get_path(kind).clone() }
    }
}

/// The caller's report on creating the directory of `kind`. After a success
/// the creation goes on record and the run goes on to the next category. A
/// failure ends the run with an `Io` error at that directory, which carries
/// the cause; what was created before stays.
pub fn init_created(
    para_paths: &ParaPaths,
    kind: Para,
    outcome: Result<(), String>,
    report: &mut InitReport,
) -> (action: InitAction)
    ensures
        outcome is Ok ==> action.carries_out(
            para_paths,
            InitStep::after_create(kind, true),
            Seq::empty(),
        ),
        outcome matches Err(cause) ==> action.carries_out(
            para_paths,
            InitStep::after_create(kind, false),
            cause@,
        ),
        final(report).skipped@ == old(report).skipped@,
        final(report).created@ == if outcome is Ok {
            old(report).created@.push(kind)
        } else {
            old(report).created@
        },
{
    match outcome {
        Ok(()) => {
            report.created.push(kind);
            advance(para_paths, kind)
        },
        Err(cause) => InitAction::Finish(
            Err(ParaError::Io { path: para_paths.get_path(kind).clone(), cause }),
        ),
    }
}

/// How a run of `init` ends on a disk that holds the category directories in
/// `dirs` and refuses no creation: the last step, the categories whose
/// directories were created, in that order, and the directories afterwards.
pub open spec fn init_run(step: InitStep, dirs: Set<Para>) -> (InitStep, Seq<Para>, Set<Para>)
    decreases step.remaining(),
{
    match step {
        InitStep::Probe(kind) => init_run(InitStep::after_probe(kind, dirs.contains(kind)), dirs),
        InitStep::Create(kind) => {
            let rest = init_run(InitStep::after_create(kind, true), dirs.insert(kind));
            (rest.0, seq![kind] + rest.1, rest.2)
        },
        InitStep::Done => (step, Seq::empty(), dirs),
        InitStep::Failed(_) => (step, Seq::empty(), dirs),
    }
}

/// Where no creation is refused, a run of `init` succeeds and leaves all four
/// directories in place; it creates the missing ones and no others.
pub proof fn lemma_init_completes(dirs: Set<Para>)
    ensures
        init_run(InitStep::Probe(Para::Projects), dirs).0 == InitStep::Done,
        forall|kind: Para| init_run(InitStep::Probe(Para::Projects), dirs).2.contains(kind),
        forall|kind: Para|
            init_run(InitStep::Probe(Para::Projects), dirs).1.contains(kind) <==> !dirs.contains(
                kind,
            ),
{
    reveal_with_fuel(init_run, 10);
    let p = dirs.contains(Para::Projects);
    let a = dirs.contains(Para::Areas);
    let r = dirs.contains(Para::Resources);
    let v = dirs.contains(Para::Archives);
    let created = init_run(InitStep::Probe(Para::Projects), dirs).1;
    let expected = (if p { Seq::<Para>::empty() } else { seq![Para::Projects] })
        + (if a { Seq::<Para>::empty() } else { seq![Para::Areas] })
        + (if r { Seq::<Para>::empty() } else { seq![Para::Resources] })
        + (if v { Seq::<Para>::empty() } else { seq![Para::Archives] });
    assert(created =~= expected);
    assert forall|kind: Para| created.contains(kind) <==> !dirs.contains(kind) by {
        if !dirs.contains(kind) {
            let at = match kind {
                Para::Projects => 0int,
                Para::Areas => if p { 0int } else { 1int },
                Para::Resources => (if p { 0int } else { 1int }) + (if a { 0int } else { 1int }),
                Para::Archives => expected.len() - 1,
            };
            assert(expected[at] == kind);
        }
    }
}

/// `init` is idempotent: on a disk that already holds all four directories a
/// run succeeds, creates nothing and changes nothing. The disk that a
/// successful run leaves is such a disk.
pub proof fn lemma_init_idempotent(dirs: Set<Para>)
    requires
        forall|kind: Para| dirs.contains(kind),
    ensures
        init_run(InitStep::Probe(Para::Projects), dirs) == (
            InitStep::Done,
            Seq::<Para>::empty(),
            dirs,
        ),
{
    reveal_with_fuel(init_run, 6);
}

/// What `new` asks the caller to create.
#[derive(Debug, Clone)]
pub enum NewAction {
    /// One empty file at the path; every ancestor has to exist.
    CreateFile(String),
    /// The directory at the path, together with its missing ancestors.
    CreateDirAll(String),
}

/// Decides what a new item called `name` in the category `variant` needs.
/// `base_exists` says whether the category's directory is on disk: without
/// it nothing is created and the call fails with `NotInitialized`.
pub fn new(para_paths: &ParaPaths, variant: Para, name: &str, file: bool, base_exists: bool) -> (r:
    Result<NewAction, ParaError>)
    ensures
        !base_exists ==> (r matches Err(e) && e.is_not_initialized(para_paths.path_of(variant))),
        base_exists && file ==> (r matches Ok(NewAction::CreateFile(p)) && p@ == join_spec(
            para_paths.path_of(variant),
            name@,
        )),
        base_exists && !file ==> (r matches Ok(NewAction::CreateDirAll(p)) && p@ == join_spec(
            para_paths.path_of(variant),
            name@,
        )),
{
    let base_path = para_paths.get_path(variant);
    if !base_exists {
        return Err(ParaError::NotInitialized { path: base_path.clone() });
    }
    let new_path = join(base_path.as_str(), name);
    if file {
        Ok(NewAction::CreateFile(new_path))
    } else {
        Ok(NewAction::CreateDirAll(new_path))
    }
}

/// The directory that a transfer into `dest` fills: the category's own, or
/// the subfolder inside it.
pub open spec fn destination_spec(paths: &ParaPaths, dest: Para, subdir: Option<Seq<char>>) -> Seq<
    char,
> {
    match subdir {
        Some(sub_path) => join_spec(paths.path_of(dest), sub_path),
        None => paths.path_of(dest),
    }
}

/// The view of an optional subfolder.
pub open spec fn subdir_view(subdir: Option<&str>) -> Option<Seq<char>> {
    match subdir {
        Some(sub_path) => Some(sub_path@),
        None => None,
    }
}

/// Resolves the directory that a transfer into `dest` fills.
pub fn destination(para_paths: &ParaPaths, dest: Para, subdir: Option<&str>) -> (r: String)
    ensures
        r@ == destination_spec(para_paths, dest, subdir_view(subdir)),
{
    let base_path = para_paths.get_path(dest);
    match subdir {
        Some(sub_path) => join(base_path.as_str(), sub_path),
        None => base_path.clone(),
    }
}

/// Plans an archive run of `paths` into `archive_dir`. `archive_exists` says
/// whether that directory is on disk: it is never created here, so without it
/// the call fails with `NotInitialized`, whatever the sources are.
pub fn archive(archive_dir: &str, paths: Vec<String>, archive_exists: bool) -> (r: Result<
    TransferPlan,
    ParaError,
>)
    ensures
        !archive_exists ==> (r matches Err(e) && e.is_not_initialized(archive_dir@)),
        archive_exists ==> (r matches Ok(plan) && plan.kind == TransferKind::Archive
            && plan.options.is_default() && plan.destination@ == archive_dir@
            && !plan.create_destination && plan.sources == paths),
{
    if !archive_exists {
        return Err(ParaError::NotInitialized { path: String::from_str(archive_dir) });
    }
    Ok(
        TransferPlan {
            kind: TransferKind::Archive,
            options: default_options(),
            destination: String::from_str(archive_dir),
            create_destination: false,
            sources: paths,
        },
    )
}

/// The text that the `path` command shows: the quoted directory of the
/// category named, or, where none is named, the whole layout.
pub fn path(arg: Option<Para>, para_paths: &ParaPaths) -> (r: String)
    ensures
        arg matches Some(para) ==> r@ == quoted_spec(para_paths.path_of(para)),
        arg is None ==> r@ == para_paths.describe_spec(),
{
    match arg {
        None => para_paths.describe(),
        Some(para) => quoted(para_paths.get_path(para).as_str()),
    }
}

/// Plans a move of `src` into `dest`, or into `subdir` inside it.
/// `dest_exists` says whether the resolved destination is on disk: a missing
/// one is created, ancestors included, before the first source moves.
pub fn move_(
    para_paths: &ParaPaths,
    dest: Para,
    subdir: Option<&str>,
    src: Vec<String>,
    dest_exists: bool,
) -> (plan: TransferPlan)
    ensures
        plan.kind == TransferKind::Move,
        plan.options.is_default(),
        plan.destination@ == destination_spec(para_paths, dest, subdir_view(subdir)),
        plan.create_destination == !dest_exists,
        plan.sources == src,
{
    TransferPlan {
        kind: TransferKind::Move,
        options: default_options(),
        destination: destination(para_paths, dest, subdir),
        create_destination: !dest_exists,
        sources: src,
    }
}

/// Plans a copy of `src` into `dest`, or into `subdir` inside it. A copy
/// never creates its destination: into a missing one the transfer fails.
pub fn copy(para_paths: &ParaPaths, dest: Para, subdir: Option<&str>, src: Vec<String>) -> (plan:
    TransferPlan)
    ensures
        plan.kind == TransferKind::Copy,
        plan.options.is_default(),
        plan.destination@ == destination_spec(para_paths, dest, subdir_view(subdir)),
        !plan.create_destination,
        plan.sources == src,
{
    TransferPlan {
        kind: TransferKind::Copy,
        options: default_options(),
        destination: destination(para_paths, dest, subdir),
        create_destination: false,
        sources: src,
    }
}

} // verus!
