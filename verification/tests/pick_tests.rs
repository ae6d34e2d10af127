use nvim_winpick::draw::Drawer;
use nvim_winpick::filter::{BufferMeta, FilterError, PaneLayout, PaneMeta};
use nvim_winpick::geometry::Positions;
use nvim_winpick::pick::{
    pick_close_window, pick_focus_window, pick_swap_window, plan_pick, split_plan, MultiPick,
    MultiStep, PaneAction, PickPlan, SplitPlacement, SplitPlan,
};
use nvim_winpick::{BufferId, FilterRules, PaneId, SurfaceId};

fn plain_pane(id: i32) -> PaneMeta {
    PaneMeta {
        id: PaneId(id),
        is_current: false,
        layout: Some(PaneLayout {
            focusable: true,
            floating: false,
        }),
        buffer: Some(BufferMeta {
            filetype: None,
            buftype: None,
            file_path: None,
            file_name: None,
        }),
    }
}

fn no_content_rules() -> FilterRules {
    FilterRules {
        bo: nvim_winpick::Bo {
            filetype: vec![],
            buftype: vec![],
        },
        ..FilterRules::default()
    }
}

#[test]
fn empty_enumeration_picks_nothing() {
    let rules = FilterRules::default();
    assert!(matches!(
        plan_pick(&rules, &vec![]).unwrap(),
        PickPlan::NoPanes
    ));
}

#[test]
fn fully_filtered_enumeration_picks_nothing() {
    let mut rules = no_content_rules();
    rules.include_current_win = false;
    let mut pane = plain_pane(1);
    pane.is_current = true;
    assert!(matches!(
        plan_pick(&rules, &vec![pane]).unwrap(),
        PickPlan::NoneLeft
    ));
}

#[test]
fn autoselect_one_skips_drawing() {
    // One candidate and the flag set: the plan carries no panes to draw
    // over, so no overlay surface is ever created.
    let rules = no_content_rules();
    let plan = plan_pick(&rules, &vec![plain_pane(5)]).unwrap();
    assert!(matches!(plan, PickPlan::Auto(PaneId(5))));
}

#[test]
fn single_candidate_without_autoselect_still_draws() {
    let mut rules = no_content_rules();
    rules.autoselect_one = false;
    let plan = plan_pick(&rules, &vec![plain_pane(5)]).unwrap();
    match plan {
        PickPlan::Draw(v) => assert_eq!(v, vec![PaneId(5)]),
        other => panic!("expected a draw plan, got {other:?}"),
    }
}

#[test]
fn filtering_preserves_enumeration_order() {
    let mut rules = no_content_rules();
    rules.bo.filetype = vec!["special".to_string()];
    let mut excluded = plain_pane(2);
    excluded.buffer = Some(BufferMeta {
        filetype: Some("special".to_string()),
        buftype: None,
        file_path: None,
        file_name: None,
    });
    let panes = vec![plain_pane(1), excluded, plain_pane(3), plain_pane(4)];
    match plan_pick(&rules, &panes).unwrap() {
        PickPlan::Draw(v) => assert_eq!(v, vec![PaneId(1), PaneId(3), PaneId(4)]),
        other => panic!("expected a draw plan, got {other:?}"),
    }
}

#[test]
fn filter_rules_exclude_by_each_criterion() {
    let rules = no_content_rules();
    // A pane whose layout cannot be read is excluded, fail-safe.
    let mut unreadable = plain_pane(1);
    unreadable.layout = None;
    assert!(!rules.filter(&unreadable).unwrap());
    // Unfocusable panes are excluded unless asked for.
    let mut unfocusable = plain_pane(2);
    unfocusable.layout = Some(PaneLayout {
        focusable: false,
        floating: false,
    });
    assert!(!rules.filter(&unfocusable).unwrap());
    let mut keep_unfocusable = rules.clone();
    keep_unfocusable.include_unfocusable_windows = true;
    assert!(keep_unfocusable.filter(&unfocusable).unwrap());
    // Floating panes are excluded when include_floating is off.
    let mut no_floating = rules.clone();
    no_floating.include_floating = false;
    let mut floating = plain_pane(3);
    floating.layout = Some(PaneLayout {
        focusable: true,
        floating: true,
    });
    assert!(!no_floating.filter(&floating).unwrap());
    assert!(rules.filter(&floating).unwrap());
    // The current pane is excluded only when include_current_win is off.
    let mut current = plain_pane(4);
    current.is_current = true;
    assert!(rules.filter(&current).unwrap());
    let mut no_current = rules.clone();
    no_current.include_current_win = false;
    assert!(!no_current.filter(&current).unwrap());
}

#[test]
fn content_rules_match_buffer_identity() {
    let mut rules = no_content_rules();
    rules.bo.buftype = vec!["terminal".to_string()];
    rules.file_path_contains = vec!["node_modules".to_string()];
    rules.file_name_contains = vec![".lock".to_string()];
    let mut term = plain_pane(1);
    term.buffer = Some(BufferMeta {
        filetype: None,
        buftype: Some("terminal".to_string()),
        file_path: None,
        file_name: None,
    });
    assert!(!rules.filter(&term).unwrap());
    let mut dep = plain_pane(2);
    dep.buffer = Some(BufferMeta {
        filetype: None,
        buftype: None,
        file_path: Some("/repo/node_modules/x.js".to_string()),
        file_name: Some("x.js".to_string()),
    });
    assert!(!rules.filter(&dep).unwrap());
    let mut lock = plain_pane(3);
    lock.buffer = Some(BufferMeta {
        filetype: None,
        buftype: None,
        file_path: Some("/repo/Cargo.lock".to_string()),
        file_name: Some("Cargo.lock".to_string()),
    });
    assert!(!rules.filter(&lock).unwrap());
    // A pane lacking those values only fails the checks that need them.
    assert!(rules.filter(&plain_pane(4)).unwrap());
}

#[test]
fn missing_buffer_identity_is_an_error_only_when_needed() {
    let mut pane = plain_pane(1);
    pane.buffer = None;
    // No content rule configured: the pane passes without a buffer query.
    assert!(no_content_rules().filter(&pane).unwrap());
    // A content rule needs the buffer: the host failure is propagated.
    let mut rules = no_content_rules();
    rules.bo.filetype = vec!["special".to_string()];
    assert_eq!(
        rules.filter(&pane),
        Err(FilterError::BufferInfoUnavailable)
    );
    assert_eq!(
        plan_pick(&rules, &vec![pane]).unwrap_err(),
        FilterError::BufferInfoUnavailable
    );
}

fn multi_session() -> MultiPick {
    let mut d = Drawer::new(
        "ab".chars().collect(),
        vec![PaneId(1), PaneId(2)],
    );
    d.record_drawn(SurfaceId(11));
    d.record_drawn(SurfaceId(12));
    MultiPick::new(d, 'm', 'c')
}

#[test]
fn multi_pick_toggle_session_gathers_panes() {
    // Trigger, toggle a on, toggle b on, toggle a back off, commit:
    // only b's pane remains selected.
    let mut s = multi_session();
    assert!(matches!(s.step('m'), MultiStep::Continue));
    assert!(matches!(
        s.step('a'),
        MultiStep::Marked {
            target: PaneId(1),
            drawn: SurfaceId(11)
        }
    ));
    assert!(matches!(
        s.step('b'),
        MultiStep::Marked {
            target: PaneId(2),
            drawn: SurfaceId(12)
        }
    ));
    assert!(matches!(
        s.step('a'),
        MultiStep::Unmarked {
            target: PaneId(1),
            drawn: SurfaceId(11)
        }
    ));
    match s.step('c') {
        MultiStep::Done(v) => assert_eq!(v, vec![PaneId(2)]),
        other => panic!("expected the session to end, got {other:?}"),
    }
}

#[test]
fn multi_pick_toggle_twice_restores_the_selection() {
    let mut s = multi_session();
    s.step('m');
    s.step('a');
    s.step('a');
    match s.step('c') {
        MultiStep::Done(v) => assert_eq!(v, vec![]),
        other => panic!("expected the session to end, got {other:?}"),
    }
}

#[test]
fn multi_pick_unresolvable_toggle_aborts_with_nothing() {
    // An unmatched character during toggling discards the partial selection.
    let mut s = multi_session();
    s.step('m');
    s.step('a');
    match s.step('x') {
        MultiStep::Done(v) => assert_eq!(v, vec![]),
        other => panic!("expected an abort, got {other:?}"),
    }
}

#[test]
fn multi_pick_without_trigger_behaves_as_single_pick() {
    let mut s = multi_session();
    match s.step('B') {
        MultiStep::Done(v) => assert_eq!(v, vec![PaneId(2)]),
        other => panic!("expected a single pick, got {other:?}"),
    }
    let mut unmatched = multi_session();
    match unmatched.step('x') {
        MultiStep::Done(v) => assert_eq!(v, vec![]),
        other => panic!("expected a cancellation, got {other:?}"),
    }
}

#[test]
fn multi_pick_commit_with_nothing_selected_is_empty() {
    let mut s = multi_session();
    s.step('m');
    match s.step('c') {
        MultiStep::Done(v) => assert_eq!(v, vec![]),
        other => panic!("expected the session to end, got {other:?}"),
    }
}

#[test]
fn split_plans_cover_all_nine_positions() {
    let cmd = |placement, vertical| SplitPlan::Command { placement, vertical };
    assert_eq!(
        split_plan(Positions::TopFullHor, None),
        cmd(SplitPlacement::TopLeft, false)
    );
    assert_eq!(
        split_plan(Positions::LeftFullVer, None),
        cmd(SplitPlacement::TopLeft, true)
    );
    assert_eq!(
        split_plan(Positions::BotFullHor, None),
        cmd(SplitPlacement::BotRight, false)
    );
    assert_eq!(
        split_plan(Positions::RightFullVer, None),
        cmd(SplitPlacement::BotRight, true)
    );
    assert_eq!(
        split_plan(Positions::SplitTop, None),
        cmd(SplitPlacement::LeftAbove, false)
    );
    assert_eq!(
        split_plan(Positions::SplitRight, None),
        cmd(SplitPlacement::BelowRight, true)
    );
    assert_eq!(
        split_plan(Positions::SplitBot, None),
        cmd(SplitPlacement::BelowRight, false)
    );
    assert_eq!(
        split_plan(Positions::SplitLeft, None),
        cmd(SplitPlacement::LeftAbove, true)
    );
    assert_eq!(
        split_plan(Positions::Center, Some(PaneId(9))),
        SplitPlan::AssignCenter {
            refocus: Some(PaneId(9))
        }
    );
    assert_eq!(
        split_plan(Positions::Center, None),
        SplitPlan::AssignCenter { refocus: None }
    );
}

#[test]
fn close_plan_closes_each_picked_pane() {
    let picked = vec![PaneId(1), PaneId(2)];
    assert_eq!(
        pick_close_window(&picked),
        vec![PaneAction::Close(PaneId(1)), PaneAction::Close(PaneId(2))]
    );
    assert_eq!(pick_close_window(&vec![]), vec![]);
}

#[test]
fn focus_plan_follows_the_pick() {
    assert_eq!(
        pick_focus_window(Some(PaneId(3))),
        Some(PaneAction::Focus(PaneId(3)))
    );
    assert_eq!(pick_focus_window(None), None);
}

#[test]
fn swap_plan_exchanges_buffers_and_optionally_focuses() {
    let with_focus = pick_swap_window(true, PaneId(1), BufferId(10), PaneId(2), BufferId(20));
    assert_eq!(
        with_focus,
        vec![
            PaneAction::SetBuffer {
                pane: PaneId(1),
                buffer: BufferId(20)
            },
            PaneAction::SetBuffer {
                pane: PaneId(2),
                buffer: BufferId(10)
            },
            PaneAction::Focus(PaneId(2)),
        ]
    );
    let without = pick_swap_window(false, PaneId(1), BufferId(10), PaneId(2), BufferId(20));
    assert_eq!(without.len(), 2);
}
