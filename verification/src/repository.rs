//! The repository locator and the state resolver on a located repository.
//!
//! Everything that touches the repository goes through `git2`; what the
//! library believes of those calls is stated on the wrappers below.

use vstd::prelude::*;
use vstd::string::StringExecFns;
use crate::formatter::{prompt_text, ref_label, ref_label_text, render, zsh_template, Template};
use crate::resolve::{
    cleanliness, cleanliness_of, is_symbolic_name, ref_identity, ref_identity_of,
    resolve_observation, status_of, symbolic_identity_of, HeadRef, HeadRefView, Observation,
    ObservationView,
};
use crate::status::{Activity, PromptStatus, RefIdentity};

verus! {

/// `git2::Repository`: a located repository. Nothing is known of its inside.
#[verifier::external_type_specification]
#[verifier::external_body]
pub struct ExRepository(git2::Repository);

/// `git2::Reference`: a reference read from a repository.
#[verifier::external_type_specification]
#[verifier::external_body]
pub struct ExReference<'repo>(git2::Reference<'repo>);

/// `git2::Error`: why a query failed.
#[verifier::external_type_specification]
#[verifier::external_body]
pub struct ExError(git2::Error);

/// Untracked files count as pending changes.
pub const COUNT_UNTRACKED: bool = true;

/// Ignored files do not count as pending changes.
pub const COUNT_IGNORED: bool = false;

/// The one way that locating fails: no repository encloses the directory
/// below the search ceiling.
#[derive(Clone, Copy, Debug, PartialEq, Eq)]
pub struct NotFound;

/// Calls `git2::Repository::open_ext` without flags: the search starts at
/// `start_dir`, walks up through its ancestors and stops before entering a
/// directory of `ceilings`. The outcome depends on what is on disk, so
/// nothing is claimed of it.
#[verifier::external_body]
fn open_repository(start_dir: &str, ceilings: &[String]) -> (opened: Result<
    git2::Repository,
    git2::Error,
>) {
    git2::Repository::open_ext(start_dir, git2::RepositoryOpenFlags::empty(), ceilings)
}

/// Calls `git2::Repository::state` and names each of its variants in the
/// library's own enum. Which one comes back depends on what is on disk.
#[verifier::external_body]
fn repository_activity(repo: &git2::Repository) -> (activity: Activity) {
    match repo.state() {
        git2::RepositoryState::Clean => Activity::Clean,
        git2::RepositoryState::Merge => Activity::Merge,
        git2::RepositoryState::Revert => Activity::Revert,
        git2::RepositoryState::RevertSequence => Activity::RevertSequence,
        git2::RepositoryState::CherryPick => Activity::CherryPick,
        git2::RepositoryState::CherryPickSequence => Activity::CherryPickSequence,
        git2::RepositoryState::Bisect => Activity::Bisect,
        git2::RepositoryState::Rebase => Activity::Rebase,
        git2::RepositoryState::RebaseInteractive => Activity::RebaseInteractive,
        git2::RepositoryState::RebaseMerge => Activity::RebaseMerge,
        git2::RepositoryState::ApplyMailbox => Activity::ApplyMailbox,
        git2::RepositoryState::ApplyMailboxOrRebase => Activity::ApplyMailboxOrRebase,
    }
}

/// Calls `git2::Repository::is_empty`: whether the repository has no commits
/// yet, as far as it can be read.
#[verifier::external_body]
fn repository_is_empty(repo: &git2::Repository) -> (empty: Result<bool, git2::Error>) {
    repo.is_empty()
}

/// Calls `git2::Repository::head`: the reference that HEAD resolves to, as
/// far as it can be read.
#[verifier::external_body]
fn repository_head<'repo>(repo: &'repo git2::Repository) -> (head: Result<
    git2::Reference<'repo>,
    git2::Error,
>) {
    repo.head()
}

/// Calls `git2::Reference::name`: the fully-qualified name of the reference,
/// or an error when it is not valid UTF-8.
#[verifier::external_body]
fn reference_name<'a>(reference: &'a git2::Reference<'_>) -> (name: Result<&'a str, git2::Error>) {
    reference.name()
}

/// Calls `git2::Reference::peel_to_commit` and hands out the bytes of the
/// commit's id (`git2::Commit::id`, `git2::Oid::as_bytes`). An id has 20
/// bytes under SHA-1 and 32 under SHA-256.
#[verifier::external_body]
fn reference_commit_id(reference: &git2::Reference<'_>) -> (id: Result<Vec<u8>, git2::Error>)
    ensures
        id matches Ok(bytes) ==> bytes@.len() == 20 || bytes@.len() == 32,
{
    reference.peel_to_commit().map(|commit| commit.id().as_bytes().to_vec())
}

/// Calls `git2::Repository::statuses` with options that show the index and
/// the working tree, with untracked and ignored files as the two flags say,
/// and hands out the number of entries (`git2::Statuses::len`).
#[verifier::external_body]
fn status_entry_count(repo: &git2::Repository, untracked: bool, ignored: bool) -> (count: Result<
    usize,
    git2::Error,
>) {
    let mut options = git2::StatusOptions::new();
    options.include_untracked(untracked).include_ignored(ignored);
    repo.statuses(Some(&mut options)).map(|entries| entries.len())
}

/// The outcome of locating, from the outcome of opening: the repository
/// that was opened, or `NotFound` whatever kept one from being opened.
pub fn located(opened: Result<git2::Repository, git2::Error>) -> (found: Result<
    git2::Repository,
    NotFound,
>)
    ensures
        found is Ok <==> opened is Ok,
        opened matches Ok(repo) ==> found == Ok::<git2::Repository, NotFound>(repo),
{
    match opened {
        Ok(repo) => Ok(repo),
        Err(_) => Err(NotFound),
    }
}

/// Finds the repository that encloses `start_dir`, looking no further up
/// than the directories of `ceilings`. Whether there is one depends on what
/// is on disk; [`located`] says what becomes of either outcome.
pub fn locate(start_dir: &str, ceilings: &[String]) -> (found: Result<git2::Repository, NotFound>) {
    located(open_repository(start_dir, ceilings))
}

/// The search ceilings that a home directory gives: the directory itself,
/// or none where there is no home directory.
pub open spec fn ceilings_of(home: Option<Seq<char>>) -> Seq<Seq<char>> {
    match home {
        Some(directory) => seq![directory],
        None => Seq::empty(),
    }
}

/// The search ceilings for a home directory.
pub fn search_ceilings(home: Option<&str>) -> (ceilings: Vec<String>)
    ensures
        ceilings.deep_view() == ceilings_of(
            match home {
                Some(directory) => Some(directory@),
                None => None,
            },
        ),
{
    let mut ceilings: Vec<String> = Vec::new();
    match home {
        Some(directory) => {
            ceilings.push(String::from_str(directory));
            assert(ceilings.deep_view() =~= seq![directory@]);
        },
        None => {
            assert(ceilings.deep_view() =~= Seq::<Seq<char>>::empty());
        },
    }
    ceilings
}

/// Whether `repo` has no commits yet; `None` when that cannot be read.
fn read_emptiness(repo: &git2::Repository) -> (empty: Option<bool>) {
    match repository_is_empty(repo) {
        Ok(empty) => Some(empty),
        Err(_) => None,
    }
}

/// What is read from `reference`: its name, and the commit it leads to
/// where the name alone does not say what HEAD is called.
fn read_reference(reference: &git2::Reference<'_>) -> (head: HeadRef)
    ensures
        head@.name is None ==> head@.commit is None,
        head@.name matches Some(name) ==> (symbolic_identity_of(name) is Some ==> head@.commit
            is None),
        head@.commit matches Some(id) ==> id.len() == 20 || id.len() == 32,
{
    match reference_name(reference) {
        Ok(name) => {
            let commit = if is_symbolic_name(name) {
                None
            } else {
                match reference_commit_id(reference) {
                    Ok(id) => Some(id),
                    Err(_) => None,
                }
            };
            HeadRef { name: Some(String::from_str(name)), commit }
        },
        Err(_) => HeadRef { name: None, commit: None },
    }
}

/// The reference that HEAD of `repo` resolves to; `None` when it cannot be
/// read.
fn read_head(repo: &git2::Repository) -> (head: Option<HeadRef>) {
    match repository_head(repo) {
        Ok(reference) => Some(read_reference(&reference)),
        Err(_) => None,
    }
}

/// The two answers that say what HEAD is called: whether `repo` is empty,
/// and the reference that HEAD resolves to. HEAD is read only in a
/// repository that is known to hold commits.
fn read_ref_answers(repo: &git2::Repository) -> (answers: (Option<bool>, Option<HeadRef>))
    ensures
        answers.0 != Some(false) ==> answers.1 is None,
{
    let empty = read_emptiness(repo);
    let head = match empty {
        Some(false) => read_head(repo),
        _ => None,
    };
    (empty, head)
}

/// The number of differences between HEAD, the index and the working tree
/// of `repo`, untracked files included and ignored files left out; `None`
/// when they cannot be counted.
fn read_pending(repo: &git2::Repository) -> (pending: Option<usize>) {
    match status_entry_count(repo, COUNT_UNTRACKED, COUNT_IGNORED) {
        Ok(count) => Some(count),
        Err(_) => None,
    }
}

/// What HEAD is called in `repo`: what [`ref_identity`] gives for the
/// answers that the repository gave.
pub fn current_ref(repo: &git2::Repository) -> (identity: RefIdentity)
    ensures
        exists|empty: Option<bool>, head: Option<HeadRefView>|
            identity@ == #[trigger] ref_identity_of(empty, head),
{
    let (empty, head) = read_ref_answers(repo);
    let identity = ref_identity(empty, &head);
    proof {
        let seen = match head {
            Some(h) => Some(h@),
            None => None,
        };
        assert(identity@ == ref_identity_of(empty, seen));
    }
    identity
}

/// The label of what HEAD is called in `repo`.
pub fn get_ref_name(repo: &git2::Repository) -> (name: String)
    ensures
        exists|empty: Option<bool>, head: Option<HeadRefView>|
            name@ == ref_label_text(#[trigger] ref_identity_of(empty, head)),
{
    let identity = current_ref(repo);
    ref_label(&identity)
}

/// Whether the tree counts as clean, from the outcome of counting its
/// differences: clean when none was counted, and also when they could not be
/// counted, so that a failure marks nothing.
pub fn counted_cleanliness(counted: Result<usize, git2::Error>) -> (clean: bool)
    ensures
        clean == cleanliness_of(
            match counted {
                Ok(count) => Some(count as nat),
                Err(_) => None,
            },
        ),
        counted matches Ok(count) ==> clean == (count == 0),
        counted is Err ==> clean,
{
    match counted {
        Ok(count) => cleanliness(Some(count)),
        Err(_) => cleanliness(None),
    }
}

/// Whether the working tree of `repo` counts as clean: no difference between
/// HEAD, the index and the working tree was seen, untracked files included
/// and ignored files left out. What was seen depends on what is on disk;
/// [`counted_cleanliness`] says what becomes of either outcome.
pub fn read_cleanliness(repo: &git2::Repository) -> (clean: bool) {
    counted_cleanliness(status_entry_count(repo, COUNT_UNTRACKED, COUNT_IGNORED))
}

/// Asks `repo` what the resolver needs to know. What HEAD is called and
/// what is pending are asked only when no operation is under way: in the
/// middle of one they are left out of the status.
pub fn observe(repo: &git2::Repository) -> (observed: Observation)
    ensures
        observed.activity != Activity::Clean ==> observed.empty is None && observed.head is None
            && observed.pending is None,
        observed.empty != Some(false) ==> observed.head is None,
{
    let activity = repository_activity(repo);
    match activity {
        Activity::Clean => {
            let (empty, head) = read_ref_answers(repo);
            let pending = read_pending(repo);
            Observation { activity, empty, head, pending }
        },
        _ => Observation { activity, empty: None, head: None, pending: None },
    }
}

/// Resolves the status of `repo`. It never fails: the status is what
/// [`resolve_observation`] gives for what [`observe`] was told.
pub fn resolve(repo: &git2::Repository) -> (status: PromptStatus)
    ensures
        status@.wf(),
        exists|observed: ObservationView| status@ == #[trigger] status_of(observed),
{
    let observed = observe(repo);
    let status = resolve_observation(&observed);
    assert(status@ == status_of(observed@));
    status
}

/// The prompt fragment for the outcome of locating: the empty text when no
/// repository was found, else the formatted status of the one that was.
pub fn prompt_for(located: &Result<git2::Repository, NotFound>, template: &Template) -> (text:
    String)
    ensures
        located is Err ==> text@ == Seq::<char>::empty(),
        located is Ok ==> exists|observed: ObservationView|
            text@ == prompt_text(#[trigger] status_of(observed), template@),
{
    match located {
        Ok(repo) => {
            let status = resolve(repo);
            render(Some(&status), template)
        },
        Err(_) => render(None, template),
    }
}

/// The prompt fragment for `start_dir`, with the escape sequences of
/// `template`: locate, resolve, format.
pub fn prompt_with(start_dir: &str, ceilings: &[String], template: &Template) -> (text: String)
    ensures
        text@ == Seq::<char>::empty() || exists|observed: ObservationView|
            text@ == prompt_text(#[trigger] status_of(observed), template@),
{
    let located = locate(start_dir, ceilings);
    prompt_for(&located, template)
}

/// The prompt fragment for `start_dir`, for a zsh prompt.
pub fn prompt(start_dir: &str, ceilings: &[String]) -> (text: String)
    ensures
        text@ == Seq::<char>::empty() || exists|observed: ObservationView|
            text@ == prompt_text(#[trigger] status_of(observed), zsh_template()),
{
    let template = Template::zsh();
    prompt_with(start_dir, ceilings, &template)
}

/// The prompt fragment for a shell, from its working directory and from its
/// home directory, which is the search ceiling. Without a working directory
/// nothing can be located, and the fragment is empty.
pub fn prompt_in(working_dir: Option<&str>, home: Option<&str>) -> (text: String)
    ensures
        working_dir is None ==> text@ == Seq::<char>::empty(),
        text@ == Seq::<char>::empty() || exists|observed: ObservationView|
            text@ == prompt_text(#[trigger] status_of(observed), zsh_template()),
{
    match working_dir {
        Some(start_dir) => {
            let ceilings = search_ceilings(home);
            prompt(start_dir, ceilings.as_slice())
        },
        None => String::new(),
    }
}

} // verus!
