use repo_status::DivergenceInfo;
use repo_status::StatusCounts;
use repo_status::divergence::DivergenceQuery;
use repo_status::divergence::TipsOutcome;
use repo_status::divergence::classify_tips;
use repo_status::divergence::divergence_info;
use repo_status::format::Style;
use repo_status::format::format_line;
use repo_status::format::format_segments;
use repo_status::head::HeadQuery;
use repo_status::head::ProviderState;
use repo_status::head::RepoPhase;
use repo_status::head::decorate_label;
use repo_status::head::head_label;
use repo_status::head::phase_of;
use repo_status::head::resolve_head_label;
use repo_status::stash::stash_count;
use repo_status::status::CHANGED_MASK;
use repo_status::status::CONFLICTED_MASK;
use repo_status::status::STAGED_MASK;
use repo_status::status::STATUS_CONFLICTED;
use repo_status::status::STATUS_INDEX_MODIFIED;
use repo_status::status::STATUS_INDEX_NEW;
use repo_status::status::STATUS_WT_DELETED;
use repo_status::status::STATUS_WT_MODIFIED;
use repo_status::status::STATUS_WT_NEW;
use repo_status::status::UNTRACKED_MASK;
use repo_status::status::classify_statuses;
use repo_status::status::count_by_status;
use repo_status::status_line;
use repo_status::status_segments;
use repo_status::text::head_file_label;
use repo_status::text::u64_to_string;
use repo_status::throttle::CredentialChoice;
use repo_status::throttle::HeadRef;
use repo_status::throttle::MarkerState;
use repo_status::throttle::choose_credentials;
use repo_status::throttle::plan_fetch;
use repo_status::text::last_segment;

fn no_divergence() -> DivergenceInfo {
    DivergenceInfo { is_local_only: false, ahead: 0, behind: 0 }
}

fn no_counts() -> StatusCounts {
    StatusCounts { untracked: 0, changed: 0, staged: 0, conflicted: 0 }
}

#[test]
fn count_by_status_counts_intersections() {
    let entries = vec![
        STATUS_WT_NEW,
        STATUS_WT_MODIFIED,
        STATUS_INDEX_NEW | STATUS_WT_MODIFIED,
        STATUS_CONFLICTED,
        0,
    ];
    assert_eq!(count_by_status(&entries, UNTRACKED_MASK), 1);
    assert_eq!(count_by_status(&entries, CHANGED_MASK), 2);
    assert_eq!(count_by_status(&entries, STAGED_MASK), 1);
    assert_eq!(count_by_status(&entries, CONFLICTED_MASK), 1);
}

#[test]
fn classify_counts_categories_independently() {
    // One path both staged and re-modified in the working tree counts in
    // both categories.
    let entries = vec![STATUS_INDEX_MODIFIED | STATUS_WT_MODIFIED];
    let counts = classify_statuses(&entries);
    assert_eq!(counts.untracked, 0);
    assert_eq!(counts.changed, 1);
    assert_eq!(counts.staged, 1);
    assert_eq!(counts.conflicted, 0);
}

#[test]
fn classify_empty_report() {
    let entries: Vec<u32> = Vec::new();
    let counts = classify_statuses(&entries);
    assert_eq!(counts, no_counts());
}

#[test]
fn classify_mixed_report() {
    let entries = vec![
        STATUS_WT_NEW,
        STATUS_WT_NEW,
        STATUS_WT_NEW,
        STATUS_WT_DELETED,
        STATUS_INDEX_NEW,
        STATUS_CONFLICTED | STATUS_WT_MODIFIED,
    ];
    let counts = classify_statuses(&entries);
    assert_eq!(counts.untracked, 3);
    assert_eq!(counts.changed, 2);
    assert_eq!(counts.staged, 1);
    assert_eq!(counts.conflicted, 1);
}

#[test]
fn no_upstream_is_local_only_with_zero_distances() {
    let info = divergence_info(&DivergenceQuery::NoUpstream);
    assert_eq!(info, DivergenceInfo { is_local_only: true, ahead: 0, behind: 0 });
}

#[test]
fn identical_tips_report_zero_distances() {
    let tip = Some(String::from("abc1234def5678"));
    assert_eq!(classify_tips(&tip, &tip.clone()), TipsOutcome::Same);
    let info = divergence_info(&DivergenceQuery::SameTip);
    assert_eq!(info, no_divergence());
}

#[test]
fn distinct_tips_are_classified_distinct() {
    let a = Some(String::from("abc"));
    let b = Some(String::from("def"));
    assert_eq!(classify_tips(&a, &b), TipsOutcome::Distinct);
    assert_eq!(classify_tips(&a, &None), TipsOutcome::Unresolved);
    assert_eq!(classify_tips(&None, &b), TipsOutcome::Unresolved);
}

#[test]
fn counted_distances_pass_through() {
    let info = divergence_info(&DivergenceQuery::Counted { ahead: 2, behind: 1 });
    assert_eq!(info, DivergenceInfo { is_local_only: false, ahead: 2, behind: 1 });
}

#[test]
fn swapped_counts_swap_ahead_and_behind() {
    let ab = divergence_info(&DivergenceQuery::Counted { ahead: 5, behind: 3 });
    let ba = divergence_info(&DivergenceQuery::Counted { ahead: 3, behind: 5 });
    assert_eq!(ab.ahead, ba.behind);
    assert_eq!(ab.behind, ba.ahead);
}

#[test]
fn divergence_failures_degrade_to_zero() {
    for q in [
        DivergenceQuery::NoHead,
        DivergenceQuery::DetachedHead,
        DivergenceQuery::TipUnresolved,
        DivergenceQuery::CountFailed,
    ] {
        assert_eq!(divergence_info(&q), no_divergence());
    }
}

#[test]
fn branch_label_is_short_name() {
    let q = HeadQuery::Branch { shorthand: Some(String::from("main")) };
    assert_eq!(resolve_head_label(&q), "main");
}

#[test]
fn detached_label_abbreviates_the_hash() {
    let q = HeadQuery::Detached { oid_hex: Some(String::from("abc1234def")) };
    assert_eq!(resolve_head_label(&q), ":abc1234");
}

#[test]
fn detached_label_keeps_a_short_hash_whole() {
    let q = HeadQuery::Detached { oid_hex: Some(String::from("ab12")) };
    assert_eq!(resolve_head_label(&q), ":ab12");
}

#[test]
fn unborn_branch_falls_back_to_the_head_file() {
    let q = HeadQuery::Unborn { head_file: Some(String::from("ref: refs/heads/main\n")) };
    assert_eq!(resolve_head_label(&q), "main");
}

#[test]
fn unresolved_head_degrades_to_unknown() {
    assert_eq!(resolve_head_label(&HeadQuery::Failed), "<unknown>");
    assert_eq!(resolve_head_label(&HeadQuery::Branch { shorthand: None }), "<unknown>");
    assert_eq!(resolve_head_label(&HeadQuery::Detached { oid_hex: None }), "<unknown>");
    assert_eq!(resolve_head_label(&HeadQuery::Unborn { head_file: None }), "<unknown>");
    assert_eq!(head_label(&HeadQuery::Unborn { head_file: Some(String::new()) }), None);
}

#[test]
fn head_file_label_takes_last_segment_of_first_line() {
    assert_eq!(
        head_file_label("ref: refs/heads/feature/login\nsecond line").as_deref(),
        Some("login")
    );
    assert_eq!(head_file_label("  main  \n").as_deref(), Some("main"));
    assert_eq!(head_file_label("ref: refs/heads/main").as_deref(), Some("main"));
    assert_eq!(head_file_label(""), None);
}

#[test]
fn phases_map_to_merging_and_rebasing() {
    assert_eq!(phase_of(&ProviderState::Merge), RepoPhase::Merging);
    assert_eq!(phase_of(&ProviderState::RebaseMerge), RepoPhase::Merging);
    assert_eq!(phase_of(&ProviderState::Rebase), RepoPhase::Rebasing);
    assert_eq!(phase_of(&ProviderState::RebaseInteractive), RepoPhase::Rebasing);
    assert_eq!(phase_of(&ProviderState::Clean), RepoPhase::Normal);
    assert_eq!(phase_of(&ProviderState::Bisect), RepoPhase::Normal);
    assert_eq!(phase_of(&ProviderState::CherryPick), RepoPhase::Normal);
}

#[test]
fn rebasing_decorates_the_label() {
    let label = decorate_label(String::from("feature"), &RepoPhase::Rebasing);
    assert_eq!(label, "feature|REBASING");
    let label = decorate_label(String::from("main"), &RepoPhase::Merging);
    assert_eq!(label, "main|MERGING");
    let label = decorate_label(String::from("main"), &RepoPhase::Normal);
    assert_eq!(label, "main");
}

fn fetch_ready_head() -> HeadRef {
    HeadRef::Branch { refname: Some(String::from("refs/heads/main")) }
}

#[test]
fn fetch_is_planned_when_all_conditions_hold() {
    let plan = plan_fetch(
        &fetch_ready_head(),
        &MarkerState::Absent,
        &Some(String::from("origin")),
        &Some(String::from("refs/remotes/origin/main")),
    );
    let plan = plan.expect("fetch should be due");
    assert_eq!(plan.remote_name, "origin");
    assert_eq!(plan.refspec, "main");
}

#[test]
fn old_marker_allows_the_fetch() {
    let plan = plan_fetch(
        &fetch_ready_head(),
        &MarkerState::AgeSecs(900),
        &Some(String::from("origin")),
        &Some(String::from("refs/remotes/origin/main")),
    );
    assert!(plan.is_some());
}

#[test]
fn young_marker_throttles_the_fetch() {
    let plan = plan_fetch(
        &fetch_ready_head(),
        &MarkerState::AgeSecs(899),
        &Some(String::from("origin")),
        &Some(String::from("refs/remotes/origin/main")),
    );
    assert!(plan.is_none());
}

#[test]
fn unreadable_marker_time_throttles_the_fetch() {
    let plan = plan_fetch(
        &fetch_ready_head(),
        &MarkerState::TimeUnreadable,
        &Some(String::from("origin")),
        &Some(String::from("refs/remotes/origin/main")),
    );
    assert!(plan.is_none());
}

#[test]
fn non_branch_head_forbids_the_fetch() {
    for head in [
        HeadRef::Unresolved,
        HeadRef::NotBranch,
        HeadRef::Branch { refname: None },
    ] {
        let plan = plan_fetch(
            &head,
            &MarkerState::Absent,
            &Some(String::from("origin")),
            &Some(String::from("refs/remotes/origin/main")),
        );
        assert!(plan.is_none());
    }
}

#[test]
fn missing_upstream_forbids_the_fetch() {
    let plan = plan_fetch(
        &fetch_ready_head(),
        &MarkerState::Absent,
        &None,
        &Some(String::from("refs/remotes/origin/main")),
    );
    assert!(plan.is_none());
    let plan = plan_fetch(
        &fetch_ready_head(),
        &MarkerState::Absent,
        &Some(String::from("origin")),
        &None,
    );
    assert!(plan.is_none());
}

#[test]
fn refspec_is_the_last_segment_of_the_upstream_ref() {
    assert_eq!(last_segment("refs/remotes/origin/main"), "main");
    assert_eq!(last_segment("main"), "main");
    assert_eq!(last_segment("a/b/"), "");
}

#[test]
fn credentials_prefer_the_agent_for_a_named_user() {
    match choose_credentials(&Some(String::from("git"))) {
        CredentialChoice::KeyFromAgent { username } => assert_eq!(username, "git"),
        CredentialChoice::ProviderDefault => panic!("expected the agent to be chosen"),
    }
    match choose_credentials(&None) {
        CredentialChoice::KeyFromAgent { .. } => panic!("expected the default strategy"),
        CredentialChoice::ProviderDefault => {}
    }
}

#[test]
fn missing_stash_enumeration_counts_as_empty() {
    assert_eq!(stash_count(&None), 0);
    assert_eq!(stash_count(&Some(Vec::new())), 0);
    assert_eq!(
        stash_count(&Some(vec![String::from("wip"), String::from("more wip")])),
        2
    );
}

#[test]
fn number_rendering_is_decimal_without_leading_zeros() {
    assert_eq!(u64_to_string(0), "0");
    assert_eq!(u64_to_string(7), "7");
    assert_eq!(u64_to_string(15), "15");
    assert_eq!(u64_to_string(907), "907");
    assert_eq!(u64_to_string(18446744073709551615), "18446744073709551615");
}

#[test]
fn clean_local_only_branch_line() {
    let div = DivergenceInfo { is_local_only: true, ahead: 0, behind: 0 };
    let line = format_line("main", &div, &no_counts(), 0);
    assert_eq!(line, " on main ⬨");
}

#[test]
fn diverged_branch_line_with_counts() {
    let div = DivergenceInfo { is_local_only: false, ahead: 2, behind: 1 };
    let counts = StatusCounts { untracked: 3, changed: 0, staged: 1, conflicted: 0 };
    let line = format_line("main", &div, &counts, 0);
    assert_eq!(line, " on main ↑2↓1 (+3●1)");
}

#[test]
fn ahead_only_line_omits_the_down_arrow() {
    let div = DivergenceInfo { is_local_only: false, ahead: 4, behind: 0 };
    let line = format_line("main", &div, &no_counts(), 0);
    assert_eq!(line, " on main ↑4");
}

#[test]
fn stash_line_shows_the_flag() {
    let line = format_line("main", &no_divergence(), &no_counts(), 2);
    assert_eq!(line, " on main ⚑2");
}

#[test]
fn all_counts_appear_in_fixed_order() {
    let counts = StatusCounts { untracked: 1, changed: 2, staged: 3, conflicted: 4 };
    let line = format_line("dev", &no_divergence(), &counts, 0);
    assert_eq!(line, " on dev (+1Δ2●3✖4)");
}

#[test]
fn formatting_twice_is_byte_identical() {
    let div = DivergenceInfo { is_local_only: false, ahead: 2, behind: 1 };
    let counts = StatusCounts { untracked: 3, changed: 0, staged: 1, conflicted: 0 };
    let once = format_line("main", &div, &counts, 2);
    let twice = format_line("main", &div, &counts, 2);
    assert_eq!(once.as_bytes(), twice.as_bytes());
}

#[test]
fn segments_spell_out_the_plain_line() {
    let div = DivergenceInfo { is_local_only: false, ahead: 2, behind: 1 };
    let counts = StatusCounts { untracked: 3, changed: 0, staged: 1, conflicted: 0 };
    let segs = format_segments("main", &div, &counts, 2);
    let mut text = String::new();
    for seg in &segs {
        text.push_str(&seg.text);
    }
    assert_eq!(text, format_line("main", &div, &counts, 2));
}

#[test]
fn segments_carry_the_styles() {
    let counts = StatusCounts { untracked: 1, changed: 2, staged: 3, conflicted: 4 };
    let segs = format_segments("dev", &no_divergence(), &counts, 0);
    let styles: Vec<Style> = segs.iter().map(|s| s.style).collect();
    assert_eq!(
        styles,
        vec![
            Style::Plain,
            Style::BoldMagenta,
            Style::Plain,
            Style::Cyan,
            Style::BrightMagenta,
            Style::Red,
            Style::Yellow,
            Style::Plain,
        ]
    );
    assert_eq!(segs[1].text, "dev");
}

#[test]
fn aggregated_line_for_a_diverged_branch() {
    let head = HeadQuery::Branch { shorthand: Some(String::from("main")) };
    let entries = vec![
        STATUS_WT_NEW,
        STATUS_WT_NEW,
        STATUS_WT_NEW,
        STATUS_INDEX_NEW,
    ];
    let line = status_line(
        &head,
        &ProviderState::Clean,
        &DivergenceQuery::Counted { ahead: 2, behind: 1 },
        &entries,
        &None,
    );
    assert_eq!(line, " on main ↑2↓1 (+3●1)");
}

#[test]
fn aggregated_line_for_a_rebase_in_progress() {
    let head = HeadQuery::Branch { shorthand: Some(String::from("feature")) };
    let entries: Vec<u32> = Vec::new();
    let line = status_line(
        &head,
        &ProviderState::Rebase,
        &DivergenceQuery::Counted { ahead: 0, behind: 0 },
        &entries,
        &None,
    );
    assert_eq!(line, " on feature|REBASING");
}

#[test]
fn aggregated_line_for_stashes_on_an_up_to_date_branch() {
    let head = HeadQuery::Branch { shorthand: Some(String::from("main")) };
    let entries: Vec<u32> = Vec::new();
    let line = status_line(
        &head,
        &ProviderState::Clean,
        &DivergenceQuery::SameTip,
        &entries,
        &Some(vec![String::from("wip 1"), String::from("wip 2")]),
    );
    assert_eq!(line, " on main ⚑2");
}

#[test]
fn aggregated_segments_match_the_line() {
    let head = HeadQuery::Detached { oid_hex: Some(String::from("abc1234def")) };
    let entries = vec![STATUS_WT_MODIFIED];
    let dq = DivergenceQuery::DetachedHead;
    let segs = status_segments(&head, &ProviderState::Clean, &dq, &entries, &None);
    let mut text = String::new();
    for seg in &segs {
        text.push_str(&seg.text);
    }
    assert_eq!(text, status_line(&head, &ProviderState::Clean, &dq, &entries, &None));
    assert_eq!(text, " on :abc1234 (Δ1)");
}
