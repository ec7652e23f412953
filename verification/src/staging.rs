//! The staging planner: computes the package address and the exact ordered
//! sequence of staging steps one build performs, and classifies the failure
//! of each step. The surrounding application executes the steps with real
//! file I/O and external tools, aborting at the first fatal failure.

use vstd::prelude::*;
use crate::container::ContainerSpec;
use crate::errors::{StagingError, StagingErrorModel};

verus! {

/// Mathematical model of a [`StagingStep`]: carried paths as character
/// sequences.
pub ghost enum StepModel {
    CreateStagingDir,
    WriteSpec,
    WriteDescriptor,
    WriteManifest,
    CopyInit(Seq<char>),
    EnsureParent(Seq<char>),
    CopyContext(Seq<char>, Seq<char>),
    Archive,
    Cleanup,
}

/// One step of the staging sequence. Paths are relative to the staging
/// directory, except the custom-init source and the declared context paths,
/// which the application resolves against its own roots.
#[derive(Debug, PartialEq, Eq, Clone)]
pub enum StagingStep {
    /// Create the staging directory and all its ancestors (idempotent).
    CreateStagingDir,
    /// Write the normalized specification serialization as `container.yml`.
    WriteSpec,
    /// Write the descriptor text as `Dockerfile`.
    WriteDescriptor,
    /// Write the manifest serialization as `package.yml`.
    WriteManifest,
    /// Copy the custom init binary at the carried source path to `init`.
    CopyInit(String),
    /// Create the carried directory and any missing ancestors under the
    /// staging directory.
    EnsureParent(String),
    /// Copy the declared context file (first path, relative to the build
    /// context root) to its mirrored place under `wd` (second path).
    CopyContext(String, String),
    /// Archive the whole `wd` subtree into `wd.tar.gz`, rooted at the
    /// staging directory.
    Archive,
    /// Remove the uncompressed `wd` subtree; failure here is not fatal.
    Cleanup,
}

impl View for StagingStep {
    type V = StepModel;

    open spec fn view(&self) -> StepModel {
        match self {
            StagingStep::CreateStagingDir => StepModel::CreateStagingDir,
            StagingStep::WriteSpec => StepModel::WriteSpec,
            StagingStep::WriteDescriptor => StepModel::WriteDescriptor,
            StagingStep::WriteManifest => StepModel::WriteManifest,
            StagingStep::CopyInit(source) => StepModel::CopyInit(source@),
            StagingStep::EnsureParent(directory) => StepModel::EnsureParent(directory@),
            StagingStep::CopyContext(declared, destination) => StepModel::CopyContext(
                declared@,
                destination@,
            ),
            StagingStep::Archive => StepModel::Archive,
            StagingStep::Cleanup => StepModel::Cleanup,
        }
    }
}

impl DeepView for StagingStep {
    type V = StepModel;

    open spec fn deep_view(&self) -> StepModel {
        self@
    }
}

/// The model of an optional string.
pub open spec fn opt_str_model(o: Option<String>) -> Option<Seq<char>> {
    match o {
        Some(s) => Some(s@),
        None => None,
    }
}

/// The place a declared context file is mirrored to under the working
/// subtree.
pub open spec fn wd_path(file: Seq<char>) -> Seq<char> {
    "wd/"@ + file
}

/// The path holds at least one separator.
pub open spec fn has_slash(path: Seq<char>) -> bool {
    exists|i: int| 0 <= i < path.len() && path[i] == '/'
}

/// The directory part of a path: everything before its last separator.
pub open spec fn dir_of(path: Seq<char>) -> Seq<char>
    decreases path.len(),
{
    if path.len() == 0 {
        Seq::empty()
    } else if path.last() == '/' {
        path.drop_last()
    } else {
        dir_of(path.drop_last())
    }
}

/// The steps that stage the three metadata files, preceded by the directory
/// creation and followed by the custom-init copy when one was supplied.
pub open spec fn metadata_steps(init: Option<Seq<char>>) -> Seq<StepModel> {
    let head = seq![
        StepModel::CreateStagingDir,
        StepModel::WriteSpec,
        StepModel::WriteDescriptor,
        StepModel::WriteManifest,
    ];
    match init {
        Some(source) => head.push(StepModel::CopyInit(source)),
        None => head,
    }
}

/// The two steps one declared context file needs: its mirrored parent
/// directory, then the copy itself.
pub open spec fn file_steps(file: Seq<char>) -> Seq<StepModel> {
    seq![
        StepModel::EnsureParent(dir_of(wd_path(file))),
        StepModel::CopyContext(file, wd_path(file)),
    ]
}

/// The steps for all declared context files, in declared order.
pub open spec fn files_steps(files: Seq<Seq<char>>) -> Seq<StepModel>
    decreases files.len(),
{
    if files.len() == 0 {
        Seq::empty()
    } else {
        files_steps(files.drop_last()) + file_steps(files.last())
    }
}

/// The whole staging plan: metadata first, then every context file, then the
/// archive, then the cleanup of the uncompressed subtree.
pub open spec fn staging_plan(files: Seq<Seq<char>>, init: Option<Seq<char>>) -> Seq<StepModel> {
    metadata_steps(init) + files_steps(files) + seq![StepModel::Archive, StepModel::Cleanup]
}

/// The number of steps before the first file step.
pub open spec fn metadata_len(init: Option<Seq<char>>) -> int {
    if init is Some {
        5
    } else {
        4
    }
}

proof fn lemma_dir_of_subrange(path: Seq<char>, i: int)
    requires
        0 <= i < path.len(),
        path[i] == '/',
        forall|k: int| i < k < path.len() ==> path[k] != '/',
    ensures
        dir_of(path) == path.subrange(0, i),
    decreases path.len(),
{
    if i == path.len() - 1 {
        assert(path.drop_last() =~= path.subrange(0, i));
    } else {
        assert(path.last() != '/');
        lemma_dir_of_subrange(path.drop_last(), i);
        assert(path.drop_last().subrange(0, i) =~= path.subrange(0, i));
    }
}

proof fn lemma_files_steps_len(files: Seq<Seq<char>>)
    ensures
        files_steps(files).len() == 2 * files.len(),
    decreases files.len(),
{
    if files.len() > 0 {
        lemma_files_steps_len(files.drop_last());
    }
}

proof fn lemma_files_steps_snoc(files: Seq<Seq<char>>, i: int)
    requires
        0 <= i < files.len(),
    ensures
        files_steps(files.take(i + 1)) == files_steps(files.take(i)) + file_steps(files[i]),
{
    assert(files.take(i + 1).drop_last() =~= files.take(i));
    assert(files.take(i + 1).last() == files[i]);
}

proof fn lemma_files_steps_kinds(files: Seq<Seq<char>>, j: int)
    requires
        0 <= j < files_steps(files).len(),
    ensures
        files_steps(files)[j] is EnsureParent || files_steps(files)[j] is CopyContext,
    decreases files.len(),
{
    if files.len() > 0 {
        lemma_files_steps_len(files.drop_last());
        if j < files_steps(files.drop_last()).len() {
            lemma_files_steps_kinds(files.drop_last(), j);
        }
    }
}

proof fn lemma_files_steps_index(files: Seq<Seq<char>>, i: int)
    requires
        0 <= i < files.len(),
    ensures
        files_steps(files)[2 * i] == StepModel::EnsureParent(dir_of(wd_path(files[i]))),
        files_steps(files)[2 * i + 1] == StepModel::CopyContext(files[i], wd_path(files[i])),
    decreases files.len(),
{
    lemma_files_steps_len(files.drop_last());
    if i < files.len() - 1 {
        lemma_files_steps_index(files.drop_last(), i);
    }
}

/// Law: the plan archives the working subtree only after every declared
/// context file was staged, and removes it only after the archive: the
/// archive and the cleanup are the last two steps, in that order, and occur
/// nowhere else. An application that executes the plan in order and stops at
/// the first fatal failure therefore never reaches the archive step when a
/// declared context file is missing.
pub proof fn lemma_staging_plan_order(files: Seq<Seq<char>>, init: Option<Seq<char>>)
    ensures
        staging_plan(files, init).len() == metadata_len(init) + 2 * files.len() + 2,
        staging_plan(files, init)[staging_plan(files, init).len() - 2] == StepModel::Archive,
        staging_plan(files, init)[staging_plan(files, init).len() - 1] == StepModel::Cleanup,
        forall|j: int|
            0 <= j < staging_plan(files, init).len() - 2 ==> !((#[trigger] staging_plan(
                files,
                init,
            )[j]) is Archive) && !(staging_plan(files, init)[j] is Cleanup),
{
    lemma_files_steps_len(files);
    assert(metadata_steps(init).len() == metadata_len(init));
    assert forall|j: int| 0 <= j < staging_plan(files, init).len() - 2 implies !((staging_plan(
        files,
        init,
    )[j]) is Archive) && !(staging_plan(files, init)[j] is Cleanup) by {
        if j >= metadata_len(init) {
            lemma_files_steps_kinds(files, j - metadata_len(init));
        }
    }
}

/// Law: the plan stages a custom init binary exactly when one was supplied:
/// with a supplied source the copy stands right after the metadata writes,
/// and without one no step of the plan copies an init binary at all.
pub proof fn lemma_staging_plan_init(files: Seq<Seq<char>>, init: Option<Seq<char>>)
    ensures
        init matches Some(source) ==> staging_plan(files, init)[4] == StepModel::CopyInit(source),
        init is None ==> forall|j: int|
            0 <= j < staging_plan(files, init).len() ==> !((#[trigger] staging_plan(
                files,
                init,
            )[j]) is CopyInit),
{
    lemma_files_steps_len(files);
    if init is None {
        assert forall|j: int| 0 <= j < staging_plan(files, init).len() implies !((staging_plan(
            files,
            init,
        )[j]) is CopyInit) by {
            if 4 <= j < staging_plan(files, init).len() - 2 {
                lemma_files_steps_kinds(files, j - 4);
            }
        }
    }
}

/// Law: the i-th declared context file is staged at its mirrored place: the
/// plan holds the step creating the mirrored parent directory and, right
/// after it, the copy of the file to `wd/<file>` — both before the archive
/// step.
pub proof fn lemma_staging_plan_file_placement(
    files: Seq<Seq<char>>,
    init: Option<Seq<char>>,
    i: int,
)
    requires
        0 <= i < files.len(),
    ensures
        staging_plan(files, init)[metadata_len(init) + 2 * i] == StepModel::EnsureParent(
            dir_of(wd_path(files[i])),
        ),
        staging_plan(files, init)[metadata_len(init) + 2 * i + 1] == StepModel::CopyContext(
            files[i],
            wd_path(files[i]),
        ),
        metadata_len(init) + 2 * i + 1 < staging_plan(files, init).len() - 2,
{
    lemma_files_steps_len(files);
    lemma_files_steps_index(files, i);
    assert(metadata_steps(init).len() == metadata_len(init));
}

/// Computes the directory part of a path: everything before its last
/// separator.
fn parent_of(path: &str) -> (r: String)
    requires
        has_slash(path@),
    ensures
        r@ == dir_of(path@),
{
    let n = path.unicode_len();
    let mut j = n;
    while j > 0
        invariant
            j <= n,
            n == path@.len(),
            forall|k: int| j <= k < n ==> path@[k] != '/',
        decreases j,
    {
        if path.get_char(j - 1) == '/' {
            proof {
                lemma_dir_of_subrange(path@, j - 1);
            }
            return String::from_str(path.substring_char(0, j - 1));
        }
        j = j - 1;
    }
    proof {
        let i = choose|i: int| 0 <= i < path@.len() && path@[i] == '/';
        assert(path@[i] != '/');
    }
    String::new()
}

/// Computes the canonical package address: the staging directory for one
/// (name, version) pair under the package store root. The pair uniquely
/// determines the address, so rebuilding the same pair overwrites it.
pub fn package_address(store_root: &str, name: &str, version: &str) -> (r: String)
    ensures
        r@ == store_root@ + "/"@ + name@ + "/"@ + version@,
{
    let mut r = String::from_str(store_root);
    r.append("/");
    r.append(name);
    r.append("/");
    r.append(version);
    r
}

/// The model of a staging-step sequence.
pub open spec fn steps_model(steps: Seq<StagingStep>) -> Seq<StepModel> {
    steps.map_values(|s: StagingStep| s@)
}

/// Computes the ordered staging plan for a specification: exactly
/// [`staging_plan`] of its declared files and of the custom-init choice.
pub fn staging_steps(ecu_document: &ContainerSpec, init_path: &Option<String>) -> (steps: Vec<
    StagingStep,
>)
    ensures
        steps_model(steps@) == staging_plan(ecu_document@.files, opt_str_model(*init_path)),
{
    let ghost m = ecu_document@;
    let ghost init = opt_str_model(*init_path);
    let mut steps: Vec<StagingStep> = Vec::new();
    steps.push(StagingStep::CreateStagingDir);
    steps.push(StagingStep::WriteSpec);
    steps.push(StagingStep::WriteDescriptor);
    steps.push(StagingStep::WriteManifest);
    match init_path {
        Some(source) => {
            steps.push(StagingStep::CopyInit(source.clone()));
        },
        None => {},
    }
    assert(steps_model(steps@) =~= metadata_steps(init));

    let file_count = ecu_document.files.len();
    for i in 0..file_count
        invariant
            file_count == ecu_document.files.len(),
            m == ecu_document@,
            steps_model(steps@) == metadata_steps(init) + files_steps(m.files.take(i as int)),
    {
        let file = &ecu_document.files[i];
        let mut destination = String::from_str("wd/");
        destination.append(file.as_str());
        proof {
            reveal_strlit("wd/");
            assert(destination@ == wd_path(file@));
            assert(destination@[2] == '/');
        }
        let parent = parent_of(destination.as_str());
        let ghost pre = steps@;
        steps.push(StagingStep::EnsureParent(parent));
        steps.push(StagingStep::CopyContext(file.clone(), destination));
        proof {
            lemma_files_steps_snoc(m.files, i as int);
            lemma_files_steps_len(m.files.take(i as int));
            let prefix = metadata_steps(init) + files_steps(m.files.take(i as int));
            let lm = steps_model(steps@);
            let rm = metadata_steps(init) + files_steps(m.files.take(i + 1));
            assert(m.files[i as int] == file@);
            assert(rm =~= prefix + file_steps(m.files[i as int]));
            assert forall|k: int| 0 <= k < pre.len() implies lm[k] == prefix[k] by {
                assert(steps@[k] == pre[k]);
                assert(lm[k] == steps_model(pre)[k]);
            }
            assert(lm[pre.len() as int] == StepModel::EnsureParent(dir_of(wd_path(file@))));
            assert(lm[pre.len() as int + 1] == StepModel::CopyContext(file@, wd_path(file@)));
            assert(lm =~= rm);
        }
    }
    assert(m.files.take(file_count as int) =~= m.files);

    let ghost before_tail = steps@;
    steps.push(StagingStep::Archive);
    steps.push(StagingStep::Cleanup);
    proof {
        let lm = steps_model(steps@);
        let prefix = metadata_steps(init) + files_steps(m.files);
        assert forall|k: int| 0 <= k < before_tail.len() implies lm[k] == prefix[k] by {
            assert(steps@[k] == before_tail[k]);
            assert(lm[k] == steps_model(before_tail)[k]);
        }
        assert(lm[before_tail.len() as int] == StepModel::Archive);
        assert(lm[before_tail.len() as int + 1] == StepModel::Cleanup);
        assert(lm =~= staging_plan(m.files, init));
    }
    steps
}

/// The error a failing step surfaces: write failures for the directory and
/// metadata steps, the descriptive per-path errors for the init copy and the
/// context copies, and the archive and cleanup outcomes for the last two.
pub open spec fn failure_of(s: StepModel) -> StagingErrorModel {
    match s {
        StepModel::CreateStagingDir => StagingErrorModel::WriteFailed,
        StepModel::WriteSpec => StagingErrorModel::WriteFailed,
        StepModel::WriteDescriptor => StagingErrorModel::WriteFailed,
        StepModel::WriteManifest => StagingErrorModel::WriteFailed,
        StepModel::CopyInit(source) => StagingErrorModel::InitCopyFailed(source),
        StepModel::EnsureParent(_) => StagingErrorModel::WriteFailed,
        StepModel::CopyContext(declared, _) => StagingErrorModel::ContextFileMissing(declared),
        StepModel::Archive => StagingErrorModel::ArchiveFailed,
        StepModel::Cleanup => StagingErrorModel::CleanupFailed,
    }
}

/// Classifies one executed step: no error on success, and on failure exactly
/// the error [`failure_of`] assigns the step — in particular, a failing
/// context copy names the declared path the user must supply.
pub fn staging_error(step: &StagingStep, success: bool) -> (r: Option<StagingError>)
    ensures
        success <==> r is None,
        !success ==> (r matches Some(e) && e@ == failure_of(step@)),
{
    if success {
        None
    } else {
        Some(
            match step {
                StagingStep::CreateStagingDir => StagingError::WriteFailed,
                StagingStep::WriteSpec => StagingError::WriteFailed,
                StagingStep::WriteDescriptor => StagingError::WriteFailed,
                StagingStep::WriteManifest => StagingError::WriteFailed,
                StagingStep::CopyInit(source) => StagingError::InitCopyFailed(source.clone()),
                StagingStep::EnsureParent(_) => StagingError::WriteFailed,
                StagingStep::CopyContext(declared, _) => StagingError::ContextFileMissing(
                    declared.clone(),
                ),
                StagingStep::Archive => StagingError::ArchiveFailed,
                StagingStep::Cleanup => StagingError::CleanupFailed,
            },
        )
    }
}

} // verus!
