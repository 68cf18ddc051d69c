//! The data model: what a repository is in the middle of, what HEAD is
//! called, and the status that the formatter prints.

use vstd::prelude::*;

verus! {

/// What the metadata store reports a repository to be in the middle of.
#[derive(Clone, Copy, Debug, PartialEq, Eq, Structural)]
pub enum Activity {
    Clean,
    Merge,
    Revert,
    RevertSequence,
    CherryPick,
    CherryPickSequence,
    Bisect,
    Rebase,
    RebaseInteractive,
    RebaseMerge,
    ApplyMailbox,
    ApplyMailboxOrRebase,
}

/// The operation that a repository is part-way through, as the prompt names it.
#[derive(Clone, Copy, Debug, PartialEq, Eq, Structural)]
pub enum StructuralState {
    Normal,
    Merging,
    Reverting,
    CherryPicking,
    Bisecting,
    Rebasing,
    RebasingInteractive,
    ApplyingMailbox,
    ApplyingMailboxOrRebasing,
}

/// The structural state that stands for an activity. A sequence of reverts or
/// cherry-picks counts as one; a rebase that stopped on a merge conflict is a
/// rebase.
pub open spec fn structural_state_of(activity: Activity) -> StructuralState {
    match activity {
        Activity::Clean => StructuralState::Normal,
        Activity::Merge => StructuralState::Merging,
        Activity::Revert | Activity::RevertSequence => StructuralState::Reverting,
        Activity::CherryPick | Activity::CherryPickSequence => StructuralState::CherryPicking,
        Activity::Bisect => StructuralState::Bisecting,
        Activity::Rebase | Activity::RebaseMerge => StructuralState::Rebasing,
        Activity::RebaseInteractive => StructuralState::RebasingInteractive,
        Activity::ApplyMailbox => StructuralState::ApplyingMailbox,
        Activity::ApplyMailboxOrRebase => StructuralState::ApplyingMailboxOrRebasing,
    }
}

/// Maps the reported activity to the structural state shown in the prompt.
pub fn structural_state(activity: Activity) -> (state: StructuralState)
    ensures
        state == structural_state_of(activity),
{
    match activity {
        Activity::Clean => StructuralState::Normal,
        Activity::Merge => StructuralState::Merging,
        Activity::Revert => StructuralState::Reverting,
        Activity::RevertSequence => StructuralState::Reverting,
        Activity::CherryPick => StructuralState::CherryPicking,
        Activity::CherryPickSequence => StructuralState::CherryPicking,
        Activity::Bisect => StructuralState::Bisecting,
        Activity::Rebase => StructuralState::Rebasing,
        Activity::RebaseMerge => StructuralState::Rebasing,
        Activity::RebaseInteractive => StructuralState::RebasingInteractive,
        Activity::ApplyMailbox => StructuralState::ApplyingMailbox,
        Activity::ApplyMailboxOrRebase => StructuralState::ApplyingMailboxOrRebasing,
    }
}

/// The number of leading bytes of a commit id that a short hash keeps.
pub const SHORT_HASH_BYTES: usize = 6;

/// What HEAD is called when no operation is under way.
#[derive(Clone, Debug, PartialEq, Eq)]
pub enum RefIdentity {
    /// The repository has no commits yet.
    Empty,
    /// HEAD is on the branch with this short name.
    BranchName(String),
    /// HEAD is on the tag with this short name.
    TagName(String),
    /// HEAD is detached at a commit whose id starts with these bytes.
    ShortHash([u8; 6]),
    /// HEAD exists but cannot be dereferenced or named.
    Unresolvable,
}

/// The mathematical value of a [`RefIdentity`].
pub enum RefIdentityView {
    Empty,
    BranchName(Seq<char>),
    TagName(Seq<char>),
    ShortHash(Seq<u8>),
    Unresolvable,
}

impl View for RefIdentity {
    type V = RefIdentityView;

    open spec fn view(&self) -> RefIdentityView {
        match self {
            RefIdentity::Empty => RefIdentityView::Empty,
            RefIdentity::BranchName(name) => RefIdentityView::BranchName(name@),
            RefIdentity::TagName(name) => RefIdentityView::TagName(name@),
            RefIdentity::ShortHash(bytes) => RefIdentityView::ShortHash(bytes@),
            RefIdentity::Unresolvable => RefIdentityView::Unresolvable,
        }
    }
}

/// The mathematical value of a [`PromptStatus`].
pub struct PromptStatusView {
    pub state: StructuralState,
    pub ref_identity: Option<RefIdentityView>,
    pub clean: Option<bool>,
}

impl PromptStatusView {
    /// Ref identity and cleanliness are present exactly in the normal state.
    pub open spec fn wf(self) -> bool {
        &&& self.state == StructuralState::Normal <==> self.ref_identity is Some
        &&& self.state == StructuralState::Normal <==> self.clean is Some
    }

    /// The status of a repository that is in the middle of `state`.
    pub open spec fn in_progress(state: StructuralState) -> PromptStatusView {
        PromptStatusView { state, ref_identity: None, clean: None }
    }

    /// The status of a repository at rest.
    pub open spec fn normal(identity: RefIdentityView, clean: bool) -> PromptStatusView {
        PromptStatusView {
            state: StructuralState::Normal,
            ref_identity: Some(identity),
            clean: Some(clean),
        }
    }
}

/// The resolved status of a repository: the one value handed from the
/// resolver to the formatter.
#[derive(Debug, PartialEq, Eq)]
pub struct PromptStatus {
    state: StructuralState,
    ref_identity: Option<RefIdentity>,
    clean: Option<bool>,
}

impl View for PromptStatus {
    type V = PromptStatusView;

    closed spec fn view(&self) -> PromptStatusView {
        PromptStatusView {
            state: self.state,
            ref_identity: match self.ref_identity {
                Some(identity) => Some(identity@),
                None => None,
            },
            clean: self.clean,
        }
    }
}

impl PromptStatus {
    #[verifier::type_invariant]
    closed spec fn inv(&self) -> bool {
        self@.wf()
    }

    /// The status of a repository at rest, with what HEAD is called and
    /// whether the working tree is clean.
    pub fn normal(identity: RefIdentity, clean: bool) -> (status: PromptStatus)
        ensures
            status@ == PromptStatusView::normal(identity@, clean),
    {
        PromptStatus { state: StructuralState::Normal, ref_identity: Some(identity), clean: Some(clean) }
    }

    /// The status of a repository in the middle of an operation; `None` when
    /// `state` is `Normal`, which is no operation.
    pub fn in_progress(state: StructuralState) -> (status: Option<PromptStatus>)
        ensures
            state == StructuralState::Normal <==> status is None,
            status matches Some(s) ==> s@ == PromptStatusView::in_progress(state),
    {
        match state {
            StructuralState::Normal => None,
            _ => Some(PromptStatus { state, ref_identity: None, clean: None }),
        }
    }

    /// The structural state.
    pub fn state(&self) -> (state: StructuralState)
        ensures
            state == self@.state,
            self@.wf(),
    {
        proof {
            use_type_invariant(self);
        }
        self.state
    }

    /// What HEAD is called; present exactly in the normal state.
    pub fn ref_identity(&self) -> (identity: Option<&RefIdentity>)
        ensures
            self@.wf(),
            identity is Some <==> self@.state == StructuralState::Normal,
            match identity {
                Some(i) => self@.ref_identity == Some(i@),
                None => self@.ref_identity is None,
            },
    {
        proof {
            use_type_invariant(self);
        }
        self.ref_identity.as_ref()
    }

    /// Whether the working tree is clean; present exactly in the normal state.
    pub fn cleanliness(&self) -> (clean: Option<bool>)
        ensures
            self@.wf(),
            clean == self@.clean,
            clean is Some <==> self@.state == StructuralState::Normal,
    {
        proof {
            use_type_invariant(self);
        }
        self.clean
    }
}

} // verus!
