use repo_prompt::formatter::{
    dirty_marker, format_with, operation_label, ref_label, render, Template,
};
use repo_prompt::status::{PromptStatus, RefIdentity, StructuralState};

fn plain(status: &PromptStatus) -> String {
    format_with(status, &Template::plain())
}

fn on_branch(name: &str, clean: bool) -> PromptStatus {
    PromptStatus::normal(RefIdentity::BranchName(String::from(name)), clean)
}

#[test]
fn zsh_template_colours_label_yellow_and_marker_red() {
    let template = Template::zsh();
    assert_eq!(template.label_open, "%F{yellow}");
    assert_eq!(template.label_close, "%f");
    assert_eq!(template.marker_open, "%F{red}");
    assert_eq!(template.marker_close, "%f");
}

#[test]
fn plain_template_is_empty() {
    let template = Template::plain();
    assert_eq!(template.label_open, "");
    assert_eq!(template.label_close, "");
    assert_eq!(template.marker_open, "");
    assert_eq!(template.marker_close, "");
}

#[test]
fn operation_labels_are_the_fixed_words() {
    assert_eq!(operation_label(StructuralState::Normal), None);
    assert_eq!(operation_label(StructuralState::Merging), Some("merging"));
    assert_eq!(operation_label(StructuralState::Reverting), Some("reverting"));
    assert_eq!(operation_label(StructuralState::CherryPicking), Some("cherry-picking"));
    assert_eq!(operation_label(StructuralState::Bisecting), Some("bisecting"));
    assert_eq!(operation_label(StructuralState::Rebasing), Some("rebasing"));
    assert_eq!(
        operation_label(StructuralState::RebasingInteractive),
        Some("rebasing (interactive)")
    );
    assert_eq!(operation_label(StructuralState::ApplyingMailbox), Some("apply-mailbox"));
    assert_eq!(
        operation_label(StructuralState::ApplyingMailboxOrRebasing),
        Some("apply-mailbox-or-rebase")
    );
}

#[test]
fn ref_labels_of_every_identity() {
    assert_eq!(ref_label(&RefIdentity::Empty), "empty");
    assert_eq!(ref_label(&RefIdentity::BranchName(String::from("main"))), "main");
    assert_eq!(ref_label(&RefIdentity::TagName(String::from("v1.2"))), "v1.2");
    assert_eq!(ref_label(&RefIdentity::Unresolvable), "unknown");
}

#[test]
fn short_hash_label_is_twelve_lowercase_hex_digits() {
    let label = ref_label(&RefIdentity::ShortHash([0x01, 0xab, 0xff, 0x00, 0x10, 0x9c]));
    assert_eq!(label, "01abff00109c");
    assert_eq!(label.len(), 12);
    assert!(label.chars().all(|c| "0123456789abcdef".contains(c)));
}

#[test]
fn short_hash_label_of_extreme_bytes() {
    assert_eq!(ref_label(&RefIdentity::ShortHash([0; 6])), "000000000000");
    assert_eq!(ref_label(&RefIdentity::ShortHash([0xff; 6])), "ffffffffffff");
    assert_eq!(
        ref_label(&RefIdentity::ShortHash([0x0a, 0xa0, 0x0f, 0xf0, 0x09, 0x90])),
        "0aa00ff00990"
    );
}

#[test]
fn dirty_marker_marks_only_an_unclean_tree() {
    assert_eq!(dirty_marker(true), "");
    assert_eq!(dirty_marker(false), "!");
}

#[test]
fn clean_branch_has_no_marker() {
    assert_eq!(plain(&on_branch("main", true)), "[main] ");
}

#[test]
fn dirty_branch_has_the_marker_behind_the_label() {
    assert_eq!(plain(&on_branch("main", false)), "[main!] ");
}

#[test]
fn empty_repository_shows_the_empty_label() {
    let status = PromptStatus::normal(RefIdentity::Empty, true);
    assert_eq!(plain(&status), "[empty] ");
    assert!(repo_prompt::formatter::format(&status).contains("empty"));
    assert_eq!(plain(&PromptStatus::normal(RefIdentity::Empty, false)), "[empty!] ");
}

#[test]
fn unresolvable_head_shows_the_fallback_label() {
    assert_eq!(plain(&PromptStatus::normal(RefIdentity::Unresolvable, true)), "[unknown] ");
}

#[test]
fn tag_and_short_hash_are_formatted_like_a_branch() {
    let tag = PromptStatus::normal(RefIdentity::TagName(String::from("v1")), false);
    assert_eq!(plain(&tag), "[v1!] ");
    let hash = PromptStatus::normal(RefIdentity::ShortHash([0xde, 0xad, 0xbe, 0xef, 0, 1]), true);
    assert_eq!(plain(&hash), "[deadbeef0001] ");
}

#[test]
fn operations_show_only_their_label() {
    let all = [
        (StructuralState::Merging, "[merging] "),
        (StructuralState::Reverting, "[reverting] "),
        (StructuralState::CherryPicking, "[cherry-picking] "),
        (StructuralState::Bisecting, "[bisecting] "),
        (StructuralState::Rebasing, "[rebasing] "),
        (StructuralState::RebasingInteractive, "[rebasing (interactive)] "),
        (StructuralState::ApplyingMailbox, "[apply-mailbox] "),
        (StructuralState::ApplyingMailboxOrRebasing, "[apply-mailbox-or-rebase] "),
    ];
    for (state, expected) in all {
        let status = PromptStatus::in_progress(state).unwrap();
        assert_eq!(plain(&status), expected);
    }
}

#[test]
fn zsh_format_wraps_both_regions() {
    assert_eq!(repo_prompt::formatter::format(&on_branch("main", true)), "[%F{yellow}main%f%F{red}%f] ");
    assert_eq!(repo_prompt::formatter::format(&on_branch("main", false)), "[%F{yellow}main%f%F{red}!%f] ");
}

#[test]
fn zsh_format_of_an_operation_has_one_region() {
    let status = PromptStatus::in_progress(StructuralState::RebasingInteractive).unwrap();
    assert_eq!(repo_prompt::formatter::format(&status), "[%F{yellow}rebasing (interactive)%f] ");
    let status = PromptStatus::in_progress(StructuralState::Merging).unwrap();
    assert_eq!(repo_prompt::formatter::format(&status), "[%F{yellow}merging%f] ");
}

#[test]
fn custom_template_is_used_verbatim() {
    let template = Template {
        label_open: String::from("<a>"),
        label_close: String::from("</a>"),
        marker_open: String::from("<b>"),
        marker_close: String::from("</b>"),
    };
    assert_eq!(format_with(&on_branch("dev", false), &template), "[<a>dev</a><b>!</b>] ");
    let merging = PromptStatus::in_progress(StructuralState::Merging).unwrap();
    assert_eq!(format_with(&merging, &template), "[<a>merging</a>] ");
}

#[test]
fn nothing_is_rendered_outside_a_repository() {
    assert_eq!(render(None, &Template::plain()), "");
    assert_eq!(render(None, &Template::zsh()), "");
}

#[test]
fn a_status_is_rendered_as_it_is_formatted() {
    let status = on_branch("main", false);
    assert_eq!(render(Some(&status), &Template::plain()), "[main!] ");
    assert_eq!(render(Some(&status), &Template::zsh()), repo_prompt::formatter::format(&status));
}

#[test]
fn formatting_twice_gives_the_same_text() {
    let status = on_branch("main", false);
    assert_eq!(repo_prompt::formatter::format(&status), repo_prompt::formatter::format(&status));
    assert_eq!(repo_prompt::formatter::format(&status).as_bytes(), repo_prompt::formatter::format(&status).as_bytes());
}

#[test]
fn in_progress_refuses_the_normal_state() {
    assert_eq!(PromptStatus::in_progress(StructuralState::Normal), None);
}

#[test]
fn status_fields_are_present_exactly_in_the_normal_state() {
    let normal = on_branch("main", false);
    assert_eq!(normal.state(), StructuralState::Normal);
    assert_eq!(normal.ref_identity(), Some(&RefIdentity::BranchName(String::from("main"))));
    assert_eq!(normal.cleanliness(), Some(false));
    let bisecting = PromptStatus::in_progress(StructuralState::Bisecting).unwrap();
    assert_eq!(bisecting.state(), StructuralState::Bisecting);
    assert_eq!(bisecting.ref_identity(), None);
    assert_eq!(bisecting.cleanliness(), None);
}
