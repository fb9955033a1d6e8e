use marne_monitor::decimal::{i64_dec, u64_dec};
use marne_monitor::driver::{
    fallback_status_text, step, CycleAction, CycleEvent, CycleState,
};
use marne_monitor::liveness::{probe, probe_response, LivenessTracker};
use marne_monitor::matcher::{select, status_text};
use marne_monitor::model::{MarneServerInfo, MonitorError, MonitorTarget, Static};
use marne_monitor::poll::{strip_bom, PollOutcome};
use marne_monitor::render::{
    glyph_scale_x, intermediate_image_path, output_image_path, overlay_origin, render_plan,
    DARKEN_LEVELS,
};
use marne_monitor::strutil::{extract_map_key, str_eq};
use marne_monitor::tables::{
    abbr_or_empty, display_name, display_or_raw, image_or_raw, image_url, mode_abbr,
};
use marne_monitor::model::MarneServerList;

fn server(id: i64, name: &str, map_name: &str, game_mode: &str, max: i64, cur: i64) -> MarneServerInfo {
    MarneServerInfo {
        id,
        name: name.to_string(),
        map_name: map_name.to_string(),
        game_mode: game_mode.to_string(),
        max_players: max,
        tick_rate: 60,
        password: 0,
        need_same_mods: 0,
        allow_more_mods: 0,
        current_players: cur,
        region: "EU".to_string(),
        country: "DE".to_string(),
    }
}

#[test]
fn map_key_extraction_takes_final_segment() {
    assert_eq!(
        extract_map_key("Xpack2/Levels/MP/MP_Bridge/MP_Bridge"),
        "MP_Bridge"
    );
}

#[test]
fn map_key_extraction_keeps_bare_key() {
    assert_eq!(extract_map_key("MP_Bridge"), "MP_Bridge");
}

#[test]
fn map_key_extraction_trailing_separator_yields_empty() {
    assert_eq!(extract_map_key("MP_Bridge/"), "");
}

#[test]
fn str_eq_agrees_with_equality() {
    assert!(str_eq("MP_Amiens", "MP_Amiens"));
    assert!(!str_eq("MP_Amiens", "MP_Amiens2"));
    assert!(!str_eq("a", "b"));
    assert!(str_eq("", ""));
}

#[test]
fn bom_strip_removes_leading_mark() {
    let body = vec![239u8, 187, 191, b'{', b'}'];
    assert_eq!(strip_bom(body), vec![b'{', b'}']);
}

#[test]
fn bom_strip_leaves_clean_body_alone() {
    let body = vec![b'{', b'}'];
    assert_eq!(strip_bom(body.clone()), body);
    let empty: Vec<u8> = Vec::new();
    assert_eq!(strip_bom(empty), Vec::<u8>::new());
}

#[test]
fn bom_strip_is_idempotent_on_single_mark() {
    let body = vec![239u8, 187, 191, b'[', b']'];
    let once = strip_bom(body);
    let twice = strip_bom(once.clone());
    assert_eq!(once, twice);
}

#[test]
fn bom_strip_ignores_short_body() {
    let body = vec![239u8, 187];
    assert_eq!(strip_bom(body.clone()), body);
}

#[test]
fn probe_boundary_five_is_healthy() {
    let (status, body) = probe_response(5);
    assert_eq!(status, 200);
    assert_eq!(body, "5");
}

#[test]
fn probe_boundary_six_is_unhealthy() {
    let (status, body) = probe_response(6);
    assert_eq!(status, 503);
    assert_eq!(body, "6");
}

#[test]
fn tracker_counts_minutes_since_last_attempt() {
    let mut t = LivenessTracker::new();
    t.record_attempt(100);
    assert_eq!(t.minutes_since(103), 3);
    let (status, body) = probe(&t, 103);
    assert_eq!(status, 200);
    assert_eq!(body, "3");
}

#[test]
fn tracker_never_moves_backwards() {
    let mut t = LivenessTracker::new();
    t.record_attempt(100);
    t.record_attempt(90);
    assert_eq!(t.minutes_since(100), 0);
}

#[test]
fn decimal_notation_exact_values() {
    assert_eq!(u64_dec(0), "0");
    assert_eq!(u64_dec(1234567890), "1234567890");
    assert_eq!(i64_dec(-42), "-42");
    assert_eq!(i64_dec(64), "64");
    assert_eq!(i64_dec(i64::MIN), "-9223372036854775808");
}

#[test]
fn known_map_key_resolves_to_display_name() {
    assert_eq!(display_name("MP_Amiens").as_deref(), Some("Amiens"));
    assert_eq!(display_name("MP_Bridge").as_deref(), Some("Brusilov Keep"));
    assert_eq!(display_or_raw("MP_Amiens"), "Amiens");
}

#[test]
fn unknown_map_key_falls_back_to_raw_key() {
    assert_eq!(display_name("MP_Nowhere"), None);
    assert_eq!(display_or_raw("MP_Nowhere"), "MP_Nowhere");
    assert_eq!(image_or_raw("MP_Nowhere"), "MP_Nowhere");
}

#[test]
fn known_map_key_resolves_to_image_url() {
    assert_eq!(
        image_url("MP_Amiens").as_deref(),
        Some("https://cdn.gametools.network/maps/bf1/MP_Amiens_LandscapeLarge-e195589d.jpg")
    );
}

#[test]
fn known_mode_key_resolves_to_abbreviation() {
    assert_eq!(mode_abbr("Conquest0").as_deref(), Some("CQ"));
    assert_eq!(abbr_or_empty("Conquest0"), "CQ");
}

#[test]
fn unknown_mode_key_falls_back_to_empty() {
    assert_eq!(mode_abbr("Skirmish0"), None);
    assert_eq!(abbr_or_empty("Skirmish0"), "");
}

#[test]
fn select_prefers_first_of_equal_names() {
    let list = vec![
        server(1, "Alpha", "MP_Amiens", "Conquest0", 64, 10),
        server(2, "Alpha", "MP_Suez", "Rush0", 64, 20),
    ];
    let target = MonitorTarget::ByName("Alpha".to_string());
    assert_eq!(select(&list, &target), Ok(0));
}

#[test]
fn select_matches_by_id() {
    let list = vec![
        server(1, "Alpha", "MP_Amiens", "Conquest0", 64, 10),
        server(2, "Beta", "MP_Suez", "Rush0", 64, 20),
    ];
    assert_eq!(select(&list, &MonitorTarget::ById(2)), Ok(1));
}

#[test]
fn select_fails_when_nothing_matches() {
    let list = vec![server(1, "Alpha", "MP_Amiens", "Conquest0", 64, 10)];
    assert_eq!(
        select(&list, &MonitorTarget::ByName("Gamma".to_string())),
        Err(MonitorError::NotFound)
    );
    assert_eq!(select(&list, &MonitorTarget::ById(7)), Err(MonitorError::NotFound));
}

#[test]
fn status_text_formats_players_and_display_name() {
    let s = server(1, "Alpha", "MP_Amiens", "Conquest0", 64, 40);
    assert_eq!(status_text(&s), "40/64 - Amiens");
}

#[test]
fn configured_name_wins_over_id() {
    let cfg = Static {
        token: String::new(),
        server_name: Some("Alpha".to_string()),
        server_id: Some(7),
        game: Some("bf1".to_string()),
    };
    match cfg.monitor_target() {
        Some(MonitorTarget::ByName(n)) => assert_eq!(n, "Alpha"),
        _ => panic!("expected a name target"),
    }
}

#[test]
fn no_configured_target_yields_none() {
    let cfg = Static {
        token: String::new(),
        server_name: None,
        server_id: None,
        game: None,
    };
    assert!(cfg.monitor_target().is_none());
}

#[test]
fn default_config_polls_base_game() {
    let cfg = Static::default();
    assert_eq!(cfg.token, "");
    assert!(cfg.server_name.is_none());
    assert!(cfg.server_id.is_none());
    assert_eq!(cfg.game.as_deref(), Some("bf1"));
}

#[test]
fn full_cycle_publishes_matched_server() {
    let target = Some(MonitorTarget::ByName("Alpha".to_string()));

    let (state, action) = step(CycleState::Idle, &target, CycleEvent::Start);
    assert!(matches!(state, CycleState::Polling));
    assert!(matches!(action, CycleAction::StartPoll));

    let list = MarneServerList {
        servers: vec![server(1, "Alpha", "MP_Amiens", "Conquest0", 64, 40)],
    };
    let (state, action) = step(
        state,
        &target,
        CycleEvent::PollCompleted(PollOutcome::Parsed(list)),
    );
    match &state {
        CycleState::Rendering { status_text } => assert_eq!(status_text, "40/64 - Amiens"),
        _ => panic!("expected the rendering state"),
    }
    match &action {
        CycleAction::StartRender { abbreviation, image_url } => {
            assert_eq!(abbreviation, "CQ");
            assert_eq!(
                image_url,
                "https://cdn.gametools.network/maps/bf1/MP_Amiens_LandscapeLarge-e195589d.jpg"
            );
        }
        _ => panic!("expected a render action"),
    }

    let (state, action) = step(
        state,
        &target,
        CycleEvent::RenderSucceeded("./map_mode.jpg".to_string()),
    );
    assert!(matches!(state, CycleState::Publishing));
    match action {
        CycleAction::Publish { status_text, avatar_path } => {
            assert_eq!(status_text, "40/64 - Amiens");
            assert_eq!(avatar_path.as_deref(), Some("./map_mode.jpg"));
        }
        _ => panic!("expected a publish action"),
    }

    let (state, action) = step(state, &target, CycleEvent::Published);
    assert!(matches!(state, CycleState::Idle));
    assert!(matches!(action, CycleAction::FinishCycle));
}

#[test]
fn transport_failure_publishes_fallback_once_and_cycle_finishes() {
    let target = Some(MonitorTarget::ByName("Alpha".to_string()));
    let mut publishes: u32 = 0;

    let (state, action) = step(CycleState::Idle, &target, CycleEvent::Start);
    assert!(matches!(action, CycleAction::StartPoll));

    let (state, action) = step(
        state,
        &target,
        CycleEvent::PollCompleted(PollOutcome::TransportFailed),
    );
    assert!(matches!(state, CycleState::Publishing));
    match action {
        CycleAction::Publish { status_text, avatar_path } => {
            publishes += 1;
            assert_eq!(status_text, fallback_status_text());
            assert!(avatar_path.is_none());
        }
        _ => panic!("expected the fallback publish"),
    }

    let (state, action) = step(state, &target, CycleEvent::Published);
    assert!(matches!(state, CycleState::Idle));
    assert!(matches!(action, CycleAction::FinishCycle));
    assert_eq!(publishes, 1);

    // The liveness tracker is still updated, and the probe is unaffected.
    let mut tracker = LivenessTracker::new();
    tracker.record_attempt(500);
    let (status, body) = probe(&tracker, 501);
    assert_eq!(status, 200);
    assert_eq!(body, "1");
}

#[test]
fn malformed_body_publishes_fallback() {
    let target = Some(MonitorTarget::ById(1));
    let (state, action) = step(
        CycleState::Polling,
        &target,
        CycleEvent::PollCompleted(PollOutcome::Malformed("not json".to_string())),
    );
    assert!(matches!(state, CycleState::Publishing));
    match action {
        CycleAction::Publish { status_text, avatar_path } => {
            assert_eq!(status_text, "\u{af}\\_(\u{30c4})_/\u{af} server not found");
            assert!(avatar_path.is_none());
        }
        _ => panic!("expected the fallback publish"),
    }
}

#[test]
fn unmatched_list_finishes_cycle_without_publishing() {
    let target = Some(MonitorTarget::ByName("Gamma".to_string()));
    let list = MarneServerList {
        servers: vec![server(1, "Alpha", "MP_Amiens", "Conquest0", 64, 40)],
    };
    let (state, action) = step(
        CycleState::Polling,
        &target,
        CycleEvent::PollCompleted(PollOutcome::Parsed(list)),
    );
    assert!(matches!(state, CycleState::Idle));
    assert!(matches!(action, CycleAction::FinishCycle));
}

#[test]
fn no_target_never_matches() {
    let list = MarneServerList {
        servers: vec![server(1, "Alpha", "MP_Amiens", "Conquest0", 64, 40)],
    };
    let (state, action) = step(
        CycleState::Polling,
        &None,
        CycleEvent::PollCompleted(PollOutcome::Parsed(list)),
    );
    assert!(matches!(state, CycleState::Idle));
    assert!(matches!(action, CycleAction::FinishCycle));
}

#[test]
fn render_failure_publishes_fallback() {
    let target = Some(MonitorTarget::ById(1));
    let state = CycleState::Rendering {
        status_text: "40/64 - Amiens".to_string(),
    };
    let (state, action) = step(state, &target, CycleEvent::RenderFailed);
    assert!(matches!(state, CycleState::Publishing));
    match action {
        CycleAction::Publish { status_text, avatar_path } => {
            assert_eq!(status_text, fallback_status_text());
            assert!(avatar_path.is_none());
        }
        _ => panic!("expected the fallback publish"),
    }
}

#[test]
fn overlay_origin_matches_truncated_divisions() {
    // 700 / 3.5 = 200 and 480 / 4.8 = 100, truncated to whole pixels.
    assert_eq!(overlay_origin(700, 480), (200, 100));
    // 1000 / 3.5 = 285.7...; 1000 / 4.8 = 208.3...
    assert_eq!(overlay_origin(1000, 1000), (285, 208));
}

#[test]
fn overlay_origin_is_deterministic() {
    let a = overlay_origin(1920, 1080);
    let b = overlay_origin(1920, 1080);
    assert_eq!(a, b);
}

#[test]
fn glyph_scale_is_a_third_of_the_width() {
    assert_eq!(glyph_scale_x(700), 233);
    assert_eq!(glyph_scale_x(1920), 640);
}

#[test]
fn render_plan_holds_fixed_numeric_semantics() {
    let plan = render_plan("CQ".to_string(), "https://example.invalid/a.jpg".to_string());
    assert_eq!(plan.abbreviation, "CQ");
    assert_eq!(plan.image_url, "https://example.invalid/a.jpg");
    assert_eq!(plan.darken_levels, DARKEN_LEVELS);
    assert_eq!(plan.darken_levels, 25);
    assert_eq!(plan.intermediate_path, intermediate_image_path());
    assert_eq!(plan.intermediate_path, "./info_image.jpg");
    assert_eq!(plan.output_path, output_image_path());
    assert_eq!(plan.output_path, "./map_mode.jpg");
}

#[test]
fn threshold_and_interval_are_independent_constants() {
    assert_eq!(marne_monitor::liveness::STALE_THRESHOLD_MINUTES, 5);
    assert_eq!(marne_monitor::liveness::POLL_INTERVAL_SECONDS, 60);
    assert_eq!(marne_monitor::liveness::PROBE_HEALTHY_STATUS, 200);
    assert_eq!(marne_monitor::liveness::PROBE_UNHEALTHY_STATUS, 503);
}

#[test]
fn fallback_text_is_the_fixed_shrug() {
    assert_eq!(fallback_status_text(), "¯\\_(ツ)_/¯ server not found");
}
