use prompt_line::git_state::{
    all_markers, detect, join_tags, marker_path, render_state, state_text, tag_name,
    ControlMarkers, Marker, RepoOpState,
};

fn red_bold(t: &str) -> String {
    format!("\x1b[1;31m{}\x1b[0m", t)
}

fn red_bold_reverse(t: &str) -> String {
    format!("\x1b[1;7;31m{}\x1b[0m", t)
}

#[test]
fn rebase_apply_with_rebasing_is_rebase() {
    let m = ControlMarkers { rebase_apply: true, rebase_apply_rebasing: true, ..Default::default() };
    let tags = detect(&m);
    assert_eq!(tags, vec![RepoOpState::Rebase]);
    assert_eq!(render_state(&tags), red_bold("REBASE"));
}

#[test]
fn bare_rebase_apply_with_merge() {
    let m = ControlMarkers { rebase_apply: true, merge_head: true, ..Default::default() };
    let tags = detect(&m);
    assert_eq!(tags, vec![RepoOpState::RebaseOrAm, RepoOpState::Merge]);
    assert_eq!(join_tags(&tags), "REBASE/AM MERGE");
    assert_eq!(state_text(&m), red_bold_reverse("REBASE/AM MERGE"));
}

#[test]
fn no_markers_no_state() {
    let m = ControlMarkers::default();
    assert!(detect(&m).is_empty());
    assert_eq!(state_text(&m), "");
}

#[test]
fn interactive_rebase_wins_over_merge_rebase() {
    let m = ControlMarkers {
        rebase_merge: true,
        rebase_merge_interactive: true,
        ..Default::default()
    };
    assert_eq!(detect(&m), vec![RepoOpState::RebaseInteractive]);
    let m = ControlMarkers { rebase_merge: true, ..Default::default() };
    assert_eq!(detect(&m), vec![RepoOpState::RebaseMerge]);
}

#[test]
fn interactive_marker_alone_means_nothing() {
    let m = ControlMarkers { rebase_merge_interactive: true, rebase_apply_applying: true, ..Default::default() };
    assert!(detect(&m).is_empty());
}

#[test]
fn am_in_progress() {
    let m = ControlMarkers { rebase_apply: true, rebase_apply_applying: true, ..Default::default() };
    assert_eq!(detect(&m), vec![RepoOpState::Am]);
}

#[test]
fn all_markers_come_out_in_priority_order() {
    let mut m = ControlMarkers::default();
    for k in all_markers() {
        m.set(k, true);
    }
    let tags = detect(&m);
    assert_eq!(
        tags,
        vec![
            RepoOpState::RebaseInteractive,
            RepoOpState::Rebase,
            RepoOpState::Am,
            RepoOpState::Merge,
            RepoOpState::CherryPick,
            RepoOpState::Revert,
            RepoOpState::Bisect,
        ]
    );
    assert_eq!(join_tags(&tags), "REBASE-i REBASE AM MERGE CHERRY-PICK REVERT BISECT");
}

#[test]
fn markers_set_in_reverse_give_the_same_order() {
    let mut m = ControlMarkers::default();
    let mut ks = all_markers();
    ks.reverse();
    for k in ks {
        if k != Marker::RebaseMergeInteractive {
            m.set(k, true);
        }
    }
    assert_eq!(
        join_tags(&detect(&m)),
        "REBASE-m REBASE AM MERGE CHERRY-PICK REVERT BISECT"
    );
}

#[test]
fn tag_and_marker_names() {
    assert_eq!(tag_name(RepoOpState::CherryPick), "CHERRY-PICK");
    assert_eq!(tag_name(RepoOpState::RebaseMerge), "REBASE-m");
    assert_eq!(marker_path(Marker::RebaseMergeInteractive), "rebase-merge/interactive");
    assert_eq!(marker_path(Marker::BisectLog), "BISECT_LOG");
    assert_eq!(all_markers().len(), 9);
}

#[test]
fn set_changes_one_marker_only() {
    let mut m = ControlMarkers::default();
    m.set(Marker::RevertHead, true);
    assert_eq!(m, ControlMarkers { revert_head: true, ..Default::default() });
    m.set(Marker::RevertHead, false);
    assert_eq!(m, ControlMarkers::default());
}
