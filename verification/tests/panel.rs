use reveleitor::panel::{
    after_measure, command_buttons, init, move_delay, reveal_continues, run_is_frozen, update,
    Effect, Msg, Panel,
};
use seed::browser::{Url, UrlSearch};

fn panel(disabled: bool, center: Option<&str>) -> Panel {
    Panel {
        button_disabled: disabled,
        center: center.map(|c| c.to_string()),
        source: Some("src".to_string()),
        secret: "s3cr3t".to_string(),
    }
}

#[test]
fn move_delay_near_and_far() {
    assert_eq!(move_delay(3, 7), 1000);
    assert_eq!(move_delay(7, 3), 1000);
    assert_eq!(move_delay(10, 6), 1000);
    assert_eq!(move_delay(10, 5), 5000);
    assert_eq!(move_delay(1, 6), 5000);
    assert_eq!(move_delay(4, 4), 1000);
    assert_eq!(move_delay(0, 100), 5000);
}

#[test]
fn after_measure_schedules_scroll1() {
    match after_measure(2, 3) {
        Effect::Schedule { millis, msg } => {
            assert_eq!(millis, 1000);
            assert_eq!(msg, Msg::Scroll1);
        }
        _ => panic!("expected a scheduled scroll"),
    }
    match after_measure(2, 30) {
        Effect::Schedule { millis, msg } => {
            assert_eq!(millis, 5000);
            assert_eq!(msg, Msg::Scroll1);
        }
        _ => panic!("expected a scheduled scroll"),
    }
}

#[test]
fn prox1_same_center_scrolls_at_once() {
    let mut p = panel(false, Some("teamA"));
    let e = update(&mut p, Msg::Prox1, Some("teamA".to_string()));
    assert!(matches!(e, Effect::Send(Msg::Scroll1)));
    assert!(p.button_disabled);
    assert_eq!(p.center.as_deref(), Some("teamA"));
}

#[test]
fn prox1_new_center_measures_move() {
    let mut p = panel(false, Some("teamA"));
    let e = update(&mut p, Msg::Prox1, Some("teamB".to_string()));
    match e {
        Effect::Measure { from, to } => {
            assert_eq!(from, "teamA");
            assert_eq!(to, "teamB");
        }
        _ => panic!("expected a measure"),
    }
    assert!(p.button_disabled);
    assert_eq!(p.center.as_deref(), Some("teamB"));
}

#[test]
fn prox1_without_previous_center_waits_default() {
    let mut p = panel(false, None);
    let e = update(&mut p, Msg::Prox1, Some("teamB".to_string()));
    assert!(matches!(e, Effect::Schedule { millis: 5000, msg: Msg::Scroll1 }));
    assert_eq!(p.center.as_deref(), Some("teamB"));

    let mut q = panel(false, Some("teamA"));
    let e = update(&mut q, Msg::Prox1, None);
    assert!(matches!(e, Effect::Schedule { millis: 5000, msg: Msg::Scroll1 }));
    assert_eq!(q.center, None);
}

#[test]
fn scroll1_reveals_one_and_enables() {
    let mut p = panel(true, Some("teamA"));
    let e = update(&mut p, Msg::Scroll1, None);
    assert!(matches!(e, Effect::RevealOne));
    assert!(!p.button_disabled);
    assert_eq!(p.center.as_deref(), Some("teamA"));
}

#[test]
fn top_n_round_trip() {
    let mut p = panel(false, None);
    let e = update(&mut p, Msg::Prox(10), Some("teamC".to_string()));
    assert!(matches!(e, Effect::Schedule { millis: 5000, msg: Msg::Scroll(10) }));
    assert!(p.button_disabled);
    assert_eq!(p.center.as_deref(), Some("teamC"));
    let e = update(&mut p, Msg::Scroll(10), Some("teamD".to_string()));
    assert!(matches!(e, Effect::RevealUntil(10)));
    assert!(!p.button_disabled);
    assert_eq!(p.center, None);
}

#[test]
fn fetched_ok_loads() {
    let mut p = panel(true, Some("x"));
    let e = update(&mut p, Msg::Fetched { runs_ok: true, contest_ok: true }, None);
    assert!(matches!(e, Effect::Load));
    assert!(!p.button_disabled);
    assert_eq!(p.center, None);
}

#[test]
fn fetched_errors_report_and_keep_panel() {
    let mut p = panel(true, Some("x"));
    let e = update(&mut p, Msg::Fetched { runs_ok: false, contest_ok: false }, None);
    assert!(matches!(e, Effect::ReportRunsError));
    assert!(p.button_disabled);
    assert_eq!(p.center.as_deref(), Some("x"));
    let e = update(&mut p, Msg::Fetched { runs_ok: true, contest_ok: false }, None);
    assert!(matches!(e, Effect::ReportContestError));
    let e = update(&mut p, Msg::Fetched { runs_ok: false, contest_ok: true }, None);
    assert!(matches!(e, Effect::ReportRunsError));
    assert!(p.button_disabled);
}

#[test]
fn reset_fetches_with_source_and_secret() {
    let mut p = panel(false, Some("x"));
    let e = update(&mut p, Msg::Reset, None);
    match e {
        Effect::Fetch { source, secret } => {
            assert_eq!(source.as_deref(), Some("src"));
            assert_eq!(secret, "s3cr3t");
        }
        _ => panic!("expected a fetch"),
    }
    assert!(p.button_disabled);
}

#[test]
fn init_reads_source_and_secret() {
    let url = Url::new().set_search(UrlSearch::new(vec![
        ("source", vec!["contestA"]),
        ("secret", vec!["abc123", "other"]),
    ]));
    let (p, msg) = init(&url);
    assert_eq!(msg, Msg::Reset);
    assert!(!p.button_disabled);
    assert_eq!(p.center, None);
    assert_eq!(p.source.as_deref(), Some("contestA"));
    assert_eq!(p.secret, "abc123");
}

#[test]
fn reveal_loop_rule() {
    assert!(reveal_continues(11, 10));
    assert!(!reveal_continues(10, 10));
    assert!(!reveal_continues(0, 10));
}

#[test]
fn freeze_rule() {
    assert!(!run_is_frozen(100, 200));
    assert!(run_is_frozen(200, 200));
    assert!(run_is_frozen(300, 200));
}

#[test]
fn buttons_in_order() {
    let b = command_buttons();
    let labels: Vec<&str> = b.iter().map(|x| x.0.as_str()).collect();
    assert_eq!(labels, vec!["+1", "Top 10", "Top 30", "Top 50", "Top 100", "Reset"]);
    let msgs: Vec<Msg> = b.iter().map(|x| x.1).collect();
    assert_eq!(
        msgs,
        vec![Msg::Prox1, Msg::Prox(10), Msg::Prox(30), Msg::Prox(50), Msg::Prox(100), Msg::Reset]
    );
}
