//! The state resolver on plain values: from what a repository reports about
//! itself to the status that the prompt shows.

use vstd::prelude::*;
use crate::formatter::{operation_label_text, prompt_text, ref_label_text, TemplateView};
use crate::hexfmt::{hex_alphabet, hex_lower, lemma_hex_lower_digits, lemma_hex_lower_prefix};
use crate::refname::{
    branch_namespace, in_branch_namespace, in_tag_namespace, is_branch_name, is_tag_name,
    last_segment, lemma_last_segment_of_qualified, short_name, tag_namespace, SEPARATOR,
};
use crate::status::{
    structural_state, structural_state_of, Activity, PromptStatus, PromptStatusView, RefIdentity,
    RefIdentityView, StructuralState, SHORT_HASH_BYTES,
};

verus! {

/// What is read from the reference that HEAD resolves to.
#[derive(Clone, Debug, PartialEq, Eq)]
pub struct HeadRef {
    /// The fully-qualified name; `None` when it is not valid text.
    pub name: Option<String>,
    /// The id of the commit that the reference leads to; `None` when it
    /// leads to no commit.
    pub commit: Option<Vec<u8>>,
}

/// The mathematical value of a [`HeadRef`].
pub struct HeadRefView {
    pub name: Option<Seq<char>>,
    pub commit: Option<Seq<u8>>,
}

impl View for HeadRef {
    type V = HeadRefView;

    open spec fn view(&self) -> HeadRefView {
        HeadRefView {
            name: match self.name {
                Some(name) => Some(name@),
                None => None,
            },
            commit: match self.commit {
                Some(id) => Some(id@),
                None => None,
            },
        }
    }
}

/// What the resolver asks of a repository. An answer is `None` when the
/// query failed, or when it was not made because its answer cannot matter.
#[derive(Clone, Debug, PartialEq, Eq)]
pub struct Observation {
    /// The operation that the repository is in the middle of.
    pub activity: Activity,
    /// Whether the repository has no commits yet.
    pub empty: Option<bool>,
    /// The reference that HEAD resolves to.
    pub head: Option<HeadRef>,
    /// The number of differences between HEAD, the index and the working
    /// tree, untracked files included and ignored files left out.
    pub pending: Option<usize>,
}

/// The mathematical value of an [`Observation`].
pub struct ObservationView {
    pub activity: Activity,
    pub empty: Option<bool>,
    pub head: Option<HeadRefView>,
    pub pending: Option<nat>,
}

impl View for Observation {
    type V = ObservationView;

    open spec fn view(&self) -> ObservationView {
        ObservationView {
            activity: self.activity,
            empty: self.empty,
            head: match self.head {
                Some(head) => Some(head@),
                None => None,
            },
            pending: match self.pending {
                Some(count) => Some(count as nat),
                None => None,
            },
        }
    }
}

/// The identity that a reference's name gives: its short name as a branch if
/// it lives in the branch namespace, else as a tag if it lives in the tag
/// namespace, else none.
pub open spec fn symbolic_identity_of(name: Seq<char>) -> Option<RefIdentityView> {
    if in_branch_namespace(name) {
        Some(RefIdentityView::BranchName(last_segment(name)))
    } else if in_tag_namespace(name) {
        Some(RefIdentityView::TagName(last_segment(name)))
    } else {
        None
    }
}

/// The identity of an anonymous commit: the first six bytes of its id.
/// Without a commit, or with an id shorter than that, HEAD is unresolvable.
pub open spec fn hash_identity_of(commit: Option<Seq<u8>>) -> RefIdentityView {
    match commit {
        Some(id) => if id.len() >= SHORT_HASH_BYTES {
            RefIdentityView::ShortHash(id.subrange(0, SHORT_HASH_BYTES as int))
        } else {
            RefIdentityView::Unresolvable
        },
        None => RefIdentityView::Unresolvable,
    }
}

/// The identity of the reference that HEAD resolves to: by its name where
/// that names a branch or a tag, else by its commit. A name that is not
/// valid text makes HEAD unresolvable.
pub open spec fn head_identity_of(head: HeadRefView) -> RefIdentityView {
    match head.name {
        Some(name) => match symbolic_identity_of(name) {
            Some(identity) => identity,
            None => hash_identity_of(head.commit),
        },
        None => RefIdentityView::Unresolvable,
    }
}

/// What HEAD is called: `Empty` in a repository without commits, else the
/// identity of the reference that HEAD resolves to. Where either cannot be
/// read, HEAD is unresolvable.
pub open spec fn ref_identity_of(empty: Option<bool>, head: Option<HeadRefView>) -> RefIdentityView {
    match empty {
        Some(true) => RefIdentityView::Empty,
        Some(false) => match head {
            Some(head) => head_identity_of(head),
            None => RefIdentityView::Unresolvable,
        },
        None => RefIdentityView::Unresolvable,
    }
}

/// The tree counts as clean unless differences were seen: an enumeration
/// that failed marks nothing.
pub open spec fn cleanliness_of(pending: Option<nat>) -> bool {
    match pending {
        Some(count) => count == 0,
        None => true,
    }
}

/// The status that an observation resolves to. An operation under way takes
/// priority: ref identity and cleanliness are then left out.
pub open spec fn status_of(observed: ObservationView) -> PromptStatusView {
    let state = structural_state_of(observed.activity);
    if state == StructuralState::Normal {
        PromptStatusView::normal(
            ref_identity_of(observed.empty, observed.head),
            cleanliness_of(observed.pending),
        )
    } else {
        PromptStatusView::in_progress(state)
    }
}

/// Whether the fully-qualified `name` says by itself what HEAD is called:
/// it does when it is the name of a branch or of a tag.
pub fn is_symbolic_name(name: &str) -> (named: bool)
    ensures
        named == symbolic_identity_of(name@) is Some,
{
    is_branch_name(name) || is_tag_name(name)
}

/// The identity that the fully-qualified `name` gives: a branch, else a tag,
/// else none.
pub fn symbolic_identity(name: &str) -> (identity: Option<RefIdentity>)
    ensures
        match identity {
            Some(found) => symbolic_identity_of(name@) == Some(found@),
            None => symbolic_identity_of(name@) is None,
        },
{
    if is_branch_name(name) {
        Some(RefIdentity::BranchName(short_name(name)))
    } else if is_tag_name(name) {
        Some(RefIdentity::TagName(short_name(name)))
    } else {
        None
    }
}

/// The identity of an anonymous commit: the first six bytes of its id, or
/// `Unresolvable` where there are none to take.
pub fn hash_identity(commit: &Option<Vec<u8>>) -> (identity: RefIdentity)
    ensures
        identity@ == hash_identity_of(
            match *commit {
                Some(id) => Some(id@),
                None => None,
            },
        ),
{
    match commit {
        Some(id) => {
            if id.len() >= SHORT_HASH_BYTES {
                let bytes: [u8; 6] = [id[0], id[1], id[2], id[3], id[4], id[5]];
                assert(bytes@ =~= id@.subrange(0, SHORT_HASH_BYTES as int));
                RefIdentity::ShortHash(bytes)
            } else {
                RefIdentity::Unresolvable
            }
        },
        None => RefIdentity::Unresolvable,
    }
}

/// The identity of the reference that HEAD resolves to.
pub fn head_identity(head: &HeadRef) -> (identity: RefIdentity)
    ensures
        identity@ == head_identity_of(head@),
{
    match &head.name {
        Some(name) => match symbolic_identity(name.as_str()) {
            Some(identity) => identity,
            None => hash_identity(&head.commit),
        },
        None => RefIdentity::Unresolvable,
    }
}

/// What HEAD is called, from whether the repository is empty and from the
/// reference that HEAD resolves to.
pub fn ref_identity(empty: Option<bool>, head: &Option<HeadRef>) -> (identity: RefIdentity)
    ensures
        identity@ == ref_identity_of(
            empty,
            match *head {
                Some(h) => Some(h@),
                None => None,
            },
        ),
{
    match empty {
        Some(true) => RefIdentity::Empty,
        Some(false) => match head {
            Some(head) => head_identity(head),
            None => RefIdentity::Unresolvable,
        },
        None => RefIdentity::Unresolvable,
    }
}

/// Whether the tree counts as clean, from the number of differences seen.
pub fn cleanliness(pending: Option<usize>) -> (clean: bool)
    ensures
        clean == cleanliness_of(
            match pending {
                Some(count) => Some(count as nat),
                None => None,
            },
        ),
{
    match pending {
        Some(count) => count == 0,
        None => true,
    }
}

/// Resolves an observation to the status that the prompt shows.
pub fn resolve_observation(observed: &Observation) -> (status: PromptStatus)
    ensures
        status@ == status_of(observed@),
{
    match PromptStatus::in_progress(structural_state(observed.activity)) {
        Some(status) => status,
        None => PromptStatus::normal(
            ref_identity(observed.empty, &observed.head),
            cleanliness(observed.pending),
        ),
    }
}

/// Every observation resolves to a well-formed status: ref identity and
/// cleanliness are present exactly in the normal state.
pub proof fn lemma_status_is_well_formed(observed: ObservationView)
    ensures
        status_of(observed).wf(),
{
}

/// No name lives in both namespaces, so testing for a branch before testing
/// for a tag never hides a tag.
pub proof fn lemma_namespaces_are_disjoint(name: Seq<char>)
    ensures
        !(in_branch_namespace(name) && in_tag_namespace(name)),
{
    reveal_strlit("refs/heads/");
    reveal_strlit("refs/tags/");
    if in_branch_namespace(name) && in_tag_namespace(name) {
        assert(name.subrange(0, branch_namespace().len() as int)[5] == 'h');
        assert(name.subrange(0, tag_namespace().len() as int)[5] == 't');
    }
}

/// What HEAD resolves to matters only in a repository that is known to hold
/// commits: elsewhere the identity is the same whatever HEAD is.
pub proof fn lemma_head_matters_only_with_commits(
    empty: Option<bool>,
    first: Option<HeadRefView>,
    second: Option<HeadRefView>,
)
    requires
        empty != Some(false),
    ensures
        ref_identity_of(empty, first) == ref_identity_of(empty, second),
{
}

/// The commit matters only under a name that is neither a branch's nor a
/// tag's: under another name, or without one, the identity is the same
/// whatever the commit is.
pub proof fn lemma_commit_matters_only_without_symbolic_name(
    name: Option<Seq<char>>,
    first: Option<Seq<u8>>,
    second: Option<Seq<u8>>,
)
    requires
        name matches Some(text) ==> symbolic_identity_of(text) is Some,
    ensures
        head_identity_of(HeadRefView { name, commit: first }) == head_identity_of(
            HeadRefView { name, commit: second },
        ),
{
}

/// An operation under way takes priority: observations that agree on an
/// activity other than `Clean` resolve to the same status, which names the
/// operation and nothing else, whatever they say of HEAD and of the working
/// tree.
pub proof fn lemma_operation_takes_priority(first: ObservationView, second: ObservationView)
    requires
        first.activity == second.activity,
        first.activity != Activity::Clean,
    ensures
        status_of(first) == status_of(second),
        status_of(first).ref_identity is None,
        status_of(first).clean is None,
        operation_label_text(status_of(first).state) is Some,
{
}

/// In the middle of an interactive rebase the fragment is the rebase label
/// in brackets, whatever the observation says of HEAD and of the working
/// tree.
pub proof fn lemma_interactive_rebase_prompt(observed: ObservationView, template: TemplateView)
    requires
        observed.activity == Activity::RebaseInteractive,
    ensures
        prompt_text(status_of(observed), template) == "["@ + template.label_open
            + "rebasing (interactive)"@ + template.label_close + "] "@,
{
}

/// With HEAD detached at a commit, on a reference that is neither a branch
/// nor a tag, the identity is the short hash of that commit, and its label
/// is the first twelve characters of the commit id in lowercase hexadecimal.
pub proof fn lemma_detached_head_shows_short_hash(
    observed: ObservationView,
    name: Seq<char>,
    commit: Seq<u8>,
)
    requires
        observed.activity == Activity::Clean,
        observed.empty == Some(false),
        observed.head == Some(HeadRefView { name: Some(name), commit: Some(commit) }),
        !in_branch_namespace(name),
        !in_tag_namespace(name),
        commit.len() >= SHORT_HASH_BYTES,
    ensures
        status_of(observed).ref_identity == Some(
            RefIdentityView::ShortHash(commit.subrange(0, SHORT_HASH_BYTES as int)),
        ),
        ref_label_text(status_of(observed).ref_identity->0) == hex_lower(commit).subrange(0, 12),
        ref_label_text(status_of(observed).ref_identity->0).len() == 12,
        forall|i: int|
            0 <= i < 12 ==> hex_alphabet().contains(
                #[trigger] ref_label_text(status_of(observed).ref_identity->0)[i],
            ),
{
    let short = commit.subrange(0, SHORT_HASH_BYTES as int);
    lemma_hex_lower_prefix(commit, SHORT_HASH_BYTES as int);
    lemma_hex_lower_digits(short);
}

/// Pointing a detached HEAD at a tag of the same commit changes the identity
/// from the short hash to the tag's name and leaves the rest of the status
/// as it was. The tag's name holds no separator: of a name with one, only
/// the last segment is shown.
pub proof fn lemma_tag_replaces_short_hash(
    before: ObservationView,
    name: Seq<char>,
    commit: Seq<u8>,
    tag: Seq<char>,
)
    requires
        before.activity == Activity::Clean,
        before.empty == Some(false),
        before.head == Some(HeadRefView { name: Some(name), commit: Some(commit) }),
        !in_branch_namespace(name),
        !in_tag_namespace(name),
        commit.len() >= SHORT_HASH_BYTES,
        !tag.contains(SEPARATOR),
    ensures
        ({
            let after = ObservationView {
                head: Some(HeadRefView { name: Some(tag_namespace() + tag), commit: Some(commit) }),
                ..before
            };
            &&& status_of(before).ref_identity == Some(
                RefIdentityView::ShortHash(commit.subrange(0, SHORT_HASH_BYTES as int)),
            )
            &&& status_of(after).ref_identity == Some(RefIdentityView::TagName(tag))
            &&& status_of(after).state == status_of(before).state
            &&& status_of(after).clean == status_of(before).clean
        }),
{
    reveal_strlit("refs/tags/");
    let tagged = tag_namespace() + tag;
    assert(tag_namespace() =~= tagged.subrange(0, tag_namespace().len() as int));
    assert(in_tag_namespace(tagged));
    lemma_namespaces_are_disjoint(tagged);
    lemma_last_segment_of_qualified(tag_namespace(), tag);
}

/// Two runs that observe the same answers print the same text.
pub proof fn lemma_same_observation_same_prompt(
    first: ObservationView,
    second: ObservationView,
    template: TemplateView,
)
    requires
        first == second,
    ensures
        status_of(first) == status_of(second),
        prompt_text(status_of(first), template) == prompt_text(status_of(second), template),
{
}

} // verus!
