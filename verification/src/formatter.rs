//! The formatter: from a resolved status to the text of the prompt fragment.

use vstd::prelude::*;
use vstd::string::StringExecFns;
use crate::hexfmt::{hex_encode, hex_lower};
use crate::status::{PromptStatus, PromptStatusView, RefIdentity, RefIdentityView, StructuralState};

verus! {

/// The escape sequences that colour the two regions of the fragment: the
/// label, and the marker for pending changes.
#[derive(Clone, Debug, PartialEq, Eq)]
pub struct Template {
    pub label_open: String,
    pub label_close: String,
    pub marker_open: String,
    pub marker_close: String,
}

/// The mathematical value of a [`Template`].
pub struct TemplateView {
    pub label_open: Seq<char>,
    pub label_close: Seq<char>,
    pub marker_open: Seq<char>,
    pub marker_close: Seq<char>,
}

impl View for Template {
    type V = TemplateView;

    open spec fn view(&self) -> TemplateView {
        TemplateView {
            label_open: self.label_open@,
            label_close: self.label_close@,
            marker_open: self.marker_open@,
            marker_close: self.marker_close@,
        }
    }
}

/// The zsh template: the label in yellow, the marker in red.
pub open spec fn zsh_template() -> TemplateView {
    TemplateView {
        label_open: "%F{yellow}"@,
        label_close: "%f"@,
        marker_open: "%F{red}"@,
        marker_close: "%f"@,
    }
}

/// The template without any escape sequence.
pub open spec fn plain_template() -> TemplateView {
    TemplateView {
        label_open: Seq::empty(),
        label_close: Seq::empty(),
        marker_open: Seq::empty(),
        marker_close: Seq::empty(),
    }
}

impl Template {
    /// The template for a zsh prompt: the label in yellow, the marker in red.
    pub fn zsh() -> (template: Template)
        ensures
            template@ == zsh_template(),
    {
        Template {
            label_open: String::from_str("%F{yellow}"),
            label_close: String::from_str("%f"),
            marker_open: String::from_str("%F{red}"),
            marker_close: String::from_str("%f"),
        }
    }

    /// The template that adds no escape sequence.
    pub fn plain() -> (template: Template)
        ensures
            template@ == plain_template(),
    {
        Template {
            label_open: String::new(),
            label_close: String::new(),
            marker_open: String::new(),
            marker_close: String::new(),
        }
    }
}

/// The label of an operation under way; none for the normal state.
pub open spec fn operation_label_text(state: StructuralState) -> Option<Seq<char>> {
    match state {
        StructuralState::Normal => None,
        StructuralState::Merging => Some("merging"@),
        StructuralState::Reverting => Some("reverting"@),
        StructuralState::CherryPicking => Some("cherry-picking"@),
        StructuralState::Bisecting => Some("bisecting"@),
        StructuralState::Rebasing => Some("rebasing"@),
        StructuralState::RebasingInteractive => Some("rebasing (interactive)"@),
        StructuralState::ApplyingMailbox => Some("apply-mailbox"@),
        StructuralState::ApplyingMailboxOrRebasing => Some("apply-mailbox-or-rebase"@),
    }
}

/// The label of what HEAD is called.
pub open spec fn ref_label_text(identity: RefIdentityView) -> Seq<char> {
    match identity {
        RefIdentityView::Empty => "empty"@,
        RefIdentityView::BranchName(name) => name,
        RefIdentityView::TagName(name) => name,
        RefIdentityView::ShortHash(bytes) => hex_lower(bytes),
        RefIdentityView::Unresolvable => "unknown"@,
    }
}

/// The marker for pending changes: `!` when the tree is not clean.
pub open spec fn dirty_marker_text(clean: bool) -> Seq<char> {
    if clean {
        Seq::empty()
    } else {
        "!"@
    }
}

/// The fragment for a well-formed status: in brackets and followed by one
/// space, the operation's label in the label region; or, in the normal
/// state, the ref label in the label region and then the marker region.
pub open spec fn prompt_text(status: PromptStatusView, template: TemplateView) -> Seq<char> {
    match operation_label_text(status.state) {
        Some(label) => "["@ + template.label_open + label + template.label_close + "] "@,
        None => "["@ + template.label_open + ref_label_text(status.ref_identity->0)
            + template.label_close + template.marker_open + dirty_marker_text(status.clean->0)
            + template.marker_close + "] "@,
    }
}

/// The label of the operation that `state` stands for; `None` exactly for
/// the normal state.
pub fn operation_label(state: StructuralState) -> (label: Option<&'static str>)
    ensures
        label is None <==> state == StructuralState::Normal,
        match label {
            Some(text) => operation_label_text(state) == Some(text@),
            None => operation_label_text(state) is None,
        },
{
    match state {
        StructuralState::Normal => None,
        StructuralState::Merging => Some("merging"),
        StructuralState::Reverting => Some("reverting"),
        StructuralState::CherryPicking => Some("cherry-picking"),
        StructuralState::Bisecting => Some("bisecting"),
        StructuralState::Rebasing => Some("rebasing"),
        StructuralState::RebasingInteractive => Some("rebasing (interactive)"),
        StructuralState::ApplyingMailbox => Some("apply-mailbox"),
        StructuralState::ApplyingMailboxOrRebasing => Some("apply-mailbox-or-rebase"),
    }
}

/// The label of `identity`: `empty`, the branch's or tag's short name, the
/// twelve hexadecimal digits of the short hash, or `unknown`.
pub fn ref_label(identity: &RefIdentity) -> (label: String)
    ensures
        label@ == ref_label_text(identity@),
{
    match identity {
        RefIdentity::Empty => String::from_str("empty"),
        RefIdentity::BranchName(name) => name.clone(),
        RefIdentity::TagName(name) => name.clone(),
        RefIdentity::ShortHash(bytes) => hex_encode(bytes.as_slice()),
        RefIdentity::Unresolvable => String::from_str("unknown"),
    }
}

/// The marker that follows the ref label: `!` when the tree is not clean,
/// nothing when it is.
pub fn dirty_marker(clean: bool) -> (marker: &'static str)
    ensures
        marker@ == dirty_marker_text(clean),
{
    if clean {
        proof {
            reveal_strlit("");
        }
        ""
    } else {
        "!"
    }
}

/// Formats `status` with the escape sequences of `template`.
pub fn format_with(status: &PromptStatus, template: &Template) -> (text: String)
    ensures
        text@ == prompt_text(status@, template@),
{
    let mut text = String::from_str("[");
    text.append(template.label_open.as_str());
    match operation_label(status.state()) {
        Some(label) => {
            text.append(label);
            text.append(template.label_close.as_str());
        },
        None => {
            let identity = match status.ref_identity() {
                Some(identity) => ref_label(identity),
                None => String::new(),
            };
            let clean = match status.cleanliness() {
                Some(clean) => clean,
                None => true,
            };
            text.append(identity.as_str());
            text.append(template.label_close.as_str());
            text.append(template.marker_open.as_str());
            text.append(dirty_marker(clean));
            text.append(template.marker_close.as_str());
        },
    }
    text.append("] ");
    text
}

/// The fragment for the outcome of locating and resolving: the empty text
/// when no repository was found, else the formatted status.
pub open spec fn render_text(located: Option<PromptStatusView>, template: TemplateView) -> Seq<
    char,
> {
    match located {
        Some(status) => prompt_text(status, template),
        None => Seq::empty(),
    }
}

/// The prompt fragment for the outcome of locating and resolving. Outside
/// any repository it is the empty text: no brackets, no trailing space.
pub fn render(located: Option<&PromptStatus>, template: &Template) -> (text: String)
    ensures
        text@ == render_text(
            match located {
                Some(status) => Some(status@),
                None => None,
            },
            template@,
        ),
{
    match located {
        Some(status) => format_with(status, template),
        None => String::new(),
    }
}

/// Formats `status` for a zsh prompt.
pub fn format(status: &PromptStatus) -> (text: String)
    ensures
        text@ == prompt_text(status@, zsh_template()),
{
    let template = Template::zsh();
    format_with(status, &template)
}

/// Every fragment opens with a bracket and ends with a bracket and one
/// space, whatever the status and the template.
pub proof fn lemma_prompt_is_bracketed(status: PromptStatusView, template: TemplateView)
    ensures
        prompt_text(status, template).len() >= 3,
        prompt_text(status, template).first() == '[',
        prompt_text(status, template).subrange(
            prompt_text(status, template).len() - 2,
            prompt_text(status, template).len() as int,
        ) == seq![']', ' '],
{
    reveal_strlit("[");
    reveal_strlit("] ");
    let text = prompt_text(status, template);
    assert(text.subrange(text.len() - 2, text.len() as int) =~= seq![']', ' ']);
}

} // verus!
