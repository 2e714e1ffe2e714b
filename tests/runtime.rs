use streamrs::cache::{image_cache_key, warm_keys, CacheLookup, ImageCache, ImageCacheKey};
use streamrs::config::{StreamrsConfig, StreamrsKeyBinding};
use streamrs::control::{probe_due, reload_due, ControlState, KeyDispatch, ReloadOutcome};
use streamrs::config::ConfigError;
use streamrs::keystate::{
    dynamic_state_for, AnimatedKeyState, ClockKeyState, DynamicKeyState, LoadedKeyImage, PageState,
};
use streamrs::plan::{
    plan_page_layout, ButtonAction, PagePlanWarning, NEXT_PAGE_ICON, PREVIOUS_PAGE_ICON,
};
use streamrs::status::{StatusCache, StatusKeyState};

fn test_key(icon: &str) -> StreamrsKeyBinding {
    StreamrsKeyBinding {
        action: None,
        icon: icon.to_string(),
        clock_background: None,
        icon_on: None,
        icon_off: None,
        status: None,
        status_interval_ms: None,
    }
}

fn test_config_with_keys(keys: Vec<StreamrsKeyBinding>) -> StreamrsConfig {
    let mut config = StreamrsConfig::default();
    config.keys = keys;
    config
}

fn icon_name(icon: &Option<(String, Option<String>)>) -> Option<&str> {
    icon.as_ref().map(|(icon, _)| icon.as_str())
}

#[test]
fn page_layout_plan_places_navigation_keys_across_pages() {
    let keys = (0..30).map(|i| test_key(&format!("icon-{i}.png"))).collect::<Vec<_>>();
    let config = test_config_with_keys(keys);
    let status_cache = StatusCache::new();
    let prev_key = 13;
    let next_key = 14;

    let first = plan_page_layout(&config, &status_cache, 0);
    assert_eq!(first.total_pages, 3);
    assert_eq!(first.page, 0);
    assert_eq!(first.button_actions[next_key], Some(ButtonAction::NextPage));
    assert_eq!(first.button_actions[prev_key], None);
    assert_eq!(icon_name(&first.icons[0]), Some("icon-0.png"));
    assert_eq!(icon_name(&first.icons[13]), Some("icon-13.png"));
    assert_eq!(icon_name(&first.icons[next_key]), Some(NEXT_PAGE_ICON));

    let middle = plan_page_layout(&config, &status_cache, 1);
    assert_eq!(middle.page, 1);
    assert_eq!(middle.button_actions[prev_key], Some(ButtonAction::PreviousPage));
    assert_eq!(middle.button_actions[next_key], Some(ButtonAction::NextPage));
    assert_eq!(icon_name(&middle.icons[0]), Some("icon-14.png"));
    assert_eq!(icon_name(&middle.icons[12]), Some("icon-26.png"));
    assert_eq!(icon_name(&middle.icons[prev_key]), Some(PREVIOUS_PAGE_ICON));
    assert_eq!(icon_name(&middle.icons[next_key]), Some(NEXT_PAGE_ICON));

    let last = plan_page_layout(&config, &status_cache, 2);
    assert_eq!(last.page, 2);
    assert_eq!(last.button_actions[prev_key], None);
    assert_eq!(last.button_actions[next_key], Some(ButtonAction::PreviousPage));
    assert_eq!(icon_name(&last.icons[0]), Some("icon-27.png"));
    assert_eq!(icon_name(&last.icons[2]), Some("icon-29.png"));
    assert_eq!(icon_name(&last.icons[next_key]), Some(PREVIOUS_PAGE_ICON));
    assert_eq!(last.icons[3], None);

    let beyond = plan_page_layout(&config, &status_cache, 9);
    assert_eq!(beyond.page, 2);
}

#[test]
fn page_layout_plan_uses_cached_status_for_initial_icon_and_poll_timing() {
    let mut key = test_key("default.png");
    key.status = Some("test-status".to_string());
    key.icon_on = Some("on.png".to_string());
    key.icon_off = Some("off.png".to_string());
    key.status_interval_ms = Some(2500);
    let config = test_config_with_keys(vec![key]);

    let no_cache_plan = plan_page_layout(&config, &StatusCache::new(), 0);
    let no_cache_status =
        no_cache_plan.status_slots[0].as_ref().expect("status slot should be planned");
    assert_eq!(no_cache_status.current_on, None);
    assert!(no_cache_status.poll_now);
    assert_eq!(no_cache_status.check_interval_ms, 2500);
    assert_eq!(icon_name(&no_cache_plan.icons[0]), Some("off.png"));

    let mut status_cache = StatusCache::new();
    status_cache.insert("test-status".to_string(), true);
    let cached_plan = plan_page_layout(&config, &status_cache, 0);
    let cached_status = cached_plan.status_slots[0].as_ref().expect("status slot should be planned");
    assert_eq!(cached_status.current_on, Some(true));
    assert!(!cached_status.poll_now);
    assert_eq!(icon_name(&cached_plan.icons[0]), Some("on.png"));

    status_cache.insert("test-status".to_string(), false);
    let off_plan = plan_page_layout(&config, &status_cache, 0);
    assert_eq!(icon_name(&off_plan.icons[0]), Some("off.png"));
    assert!(!off_plan.status_slots[0].as_ref().unwrap().poll_now);
}

#[test]
fn page_layout_plan_treats_launcher_like_status_as_action_when_missing_action() {
    let mut key = test_key("default.png");
    key.status = Some("xdg-open https://example.com".to_string());
    let config = test_config_with_keys(vec![key]);

    let plan = plan_page_layout(&config, &StatusCache::new(), 0);
    assert!(plan.status_slots[0].is_none(), "launcher-like status should not poll");
    assert_eq!(
        plan.button_actions[0],
        Some(ButtonAction::Launch("xdg-open https://example.com".to_string()))
    );
    assert_eq!(icon_name(&plan.icons[0]), Some("default.png"));
    assert!(matches!(
        plan.warnings.as_slice(),
        [PagePlanWarning::LauncherLikeStatusWithoutAction { .. }]
    ));
}

#[test]
fn launcher_like_status_beside_an_action_is_ignored() {
    let mut key = test_key("default.png");
    key.status = Some("open https://example.com".to_string());
    key.action = Some(" firefox ".to_string());
    let config = test_config_with_keys(vec![test_key("a.png"), key]);
    let plan = plan_page_layout(&config, &StatusCache::new(), 0);
    assert_eq!(plan.button_actions[1], Some(ButtonAction::Launch("firefox".to_string())));
    assert_eq!(plan.warnings, vec![PagePlanWarning::LauncherLikeStatusIgnored { key_number: 2 }]);
    assert!(plan.status_slots[1].is_none());
    assert_eq!(plan.total_pages, 1);
    assert_eq!(plan.icons[2], None);
}

#[test]
fn status_cache_records_last_result() {
    let mut cache = StatusCache::new();
    assert_eq!(cache.get("a"), None);
    cache.insert("a".to_string(), true);
    cache.insert("b".to_string(), false);
    cache.insert("a".to_string(), false);
    assert_eq!(cache.get("a"), Some(false));
    assert_eq!(cache.get("b"), Some(false));
    assert_eq!(cache.get("c"), None);
}

fn status_state() -> StatusKeyState {
    StatusKeyState {
        command: "check".to_string(),
        icon_on: "on.png".to_string(),
        icon_off: "off.png".to_string(),
        clock_background: None,
        check_interval_ms: 1000,
        next_check_at: 0,
        current_on: None,
    }
}

#[test]
fn status_checks_update_icon_only_on_change() {
    let mut cache = StatusCache::new();
    let mut state = status_state();
    assert!(state.is_due(0));
    assert_eq!(state.apply_check(5, Some(true), &mut cache), Some(true));
    assert_eq!(state.next_check_at, 1005);
    assert!(!state.is_due(1004));
    assert_eq!(cache.get("check"), Some(true));
    assert_eq!(state.icon_for(true), "on.png");
    assert_eq!(state.apply_check(1005, Some(true), &mut cache), None);
    assert_eq!(state.apply_check(2005, None, &mut cache), None);
    assert_eq!(state.current_on, Some(true));
    assert_eq!(state.next_check_at, 3005);
    assert_eq!(state.apply_check(3005, Some(false), &mut cache), Some(false));
    assert_eq!(cache.get("check"), Some(false));
    assert_eq!(state.apply_check(u64::MAX - 1, None, &mut cache), None);
    assert_eq!(state.next_check_at, u64::MAX);
}

#[test]
fn animation_advances_when_due() {
    let mut anim = AnimatedKeyState {
        frames: vec![vec![1], vec![2], vec![3]],
        delays: vec![100, 200, 300],
        current_frame: 0,
        next_frame_at: 100,
    };
    assert_eq!(anim.advance(99), None);
    assert_eq!(anim.current_frame, 0);
    assert_eq!(anim.advance(100), Some(1));
    assert_eq!(anim.next_frame_at, 300);
    assert_eq!(anim.advance(300), Some(2));
    assert_eq!(anim.next_frame_at, 600);
    assert_eq!(anim.advance(650), Some(0));
    assert_eq!(anim.next_frame_at, 750);
}

#[test]
fn clock_redraws_only_on_new_text() {
    let mut clock = ClockKeyState {
        current_text: "12:34".to_string(),
        background_name: None,
        next_update_at: 1000,
    };
    assert!(!clock.needs_redraw(999, "12:35"));
    assert!(!clock.needs_redraw(1000, "12:34"));
    assert!(clock.needs_redraw(1000, "12:35"));
    clock.finish_check(1000, "12:35".to_string(), false);
    assert_eq!(clock.current_text, "12:34");
    assert_eq!(clock.next_update_at, 2000);
    clock.finish_check(2000, "12:35".to_string(), true);
    assert_eq!(clock.current_text, "12:35");
    assert_eq!(clock.next_update_at, 3000);
}

#[test]
fn loaded_images_start_their_timers() {
    assert!(dynamic_state_for(LoadedKeyImage::Static(vec![1]), 5).is_none());
    match dynamic_state_for(
        LoadedKeyImage::Animated { frames: vec![vec![1], vec![2]], delays: vec![70, 80] },
        5,
    ) {
        Some(DynamicKeyState::Animated(a)) => {
            assert_eq!(a.current_frame, 0);
            assert_eq!(a.next_frame_at, 75);
        }
        _ => panic!("expected an animation"),
    }
    match dynamic_state_for(
        LoadedKeyImage::Clock {
            image: vec![1],
            current_text: "10:00".to_string(),
            background_name: Some("bg.png".to_string()),
        },
        5,
    ) {
        Some(DynamicKeyState::Clock(c)) => {
            assert_eq!(c.next_update_at, 1005);
            assert_eq!(c.current_text, "10:00");
        }
        _ => panic!("expected a clock"),
    }
}

fn thirty_key_config() -> StreamrsConfig {
    test_config_with_keys((0..30).map(|i| test_key(&format!("icon-{i}.png"))).collect())
}

fn connected_state(config: StreamrsConfig) -> ControlState {
    let mut state = ControlState::new(config, "raw".to_string());
    let page = state.on_connected();
    let plan = plan_page_layout(&state.config, &StatusCache::new(), page);
    state.install_page(PageState::from_plan(&plan, 0));
    state
}

#[test]
fn key_presses_act_on_edges_and_move_pages() {
    let mut config = thirty_key_config();
    config.keys[0].action = Some("echo hi".to_string());
    let mut state = connected_state(config);
    assert_eq!(state.on_key_state(Some(0)), KeyDispatch::Launch("echo hi".to_string()));
    assert_eq!(state.on_key_state(Some(0)), KeyDispatch::Nothing);
    assert_eq!(state.on_key_state(None), KeyDispatch::Nothing);
    assert_eq!(state.on_key_state(Some(14)), KeyDispatch::ShowPage(1));
    assert_eq!(state.current_page, 1);
    let plan = plan_page_layout(&state.config, &StatusCache::new(), 1);
    state.install_page(PageState::from_plan(&plan, 0));
    assert_eq!(state.on_key_state(Some(13)), KeyDispatch::ShowPage(0));
    assert_eq!(state.current_page, 0);
    assert_eq!(state.on_key_state(Some(20)), KeyDispatch::Nothing);
    state.on_disconnected();
    assert!(state.page_state.is_none());
    assert_eq!(state.last_pressed, None);
}

#[test]
fn invalid_reload_keeps_running_configuration() {
    let mut state = connected_state(thirty_key_config());
    assert_eq!(state.on_key_state(Some(14)), KeyDispatch::ShowPage(1));
    let actions_before = state.page_state.as_ref().unwrap().button_actions.clone();
    let mut empty = thirty_key_config();
    empty.keys.clear();
    let outcome = state.reload("keys = []".to_string(), Ok(empty));
    assert_eq!(outcome, ReloadOutcome::Rejected(ConfigError::NoKeys));
    assert_eq!(state.config_raw, "raw");
    assert_eq!(state.config.keys.len(), 30);
    assert_eq!(state.current_page, 1);
    assert_eq!(state.last_pressed, Some(14));
    assert_eq!(state.page_state.as_ref().unwrap().button_actions, actions_before);

    let outcome = state.reload("broken".to_string(), Err("bad toml".to_string()));
    assert_eq!(outcome, ReloadOutcome::ParseFailed("bad toml".to_string()));
    assert_eq!(state.config_raw, "raw");
    assert_eq!(state.reload("raw".to_string(), Err("ignored".to_string())), ReloadOutcome::Unchanged);
}

#[test]
fn valid_reload_applies_and_clamps_page() {
    let mut state = connected_state(thirty_key_config());
    state.on_key_state(Some(14));
    assert_eq!(state.current_page, 1);
    let mut smaller = test_config_with_keys(vec![test_key("a.png")]);
    smaller.vendor_id = 1;
    let outcome = state.reload("small".to_string(), Ok(smaller));
    assert_eq!(outcome, ReloadOutcome::Applied { identity_changed: true });
    assert_eq!(state.total_pages, 1);
    assert_eq!(state.current_page, 0);
    assert_eq!(state.config_raw, "small");
    assert_eq!(state.last_pressed, None);
}

#[test]
fn image_cache_warming_includes_status_and_navigation_icons() {
    let mut keys = Vec::new();
    for _ in 0..15 {
        keys.push(test_key("base.png"));
    }
    keys.push(StreamrsKeyBinding {
        action: None,
        icon: "status-default.png".to_string(),
        clock_background: None,
        icon_on: Some("status-on.png".to_string()),
        icon_off: Some("status-off.png".to_string()),
        status: Some("test-status".to_string()),
        status_interval_ms: None,
    });
    let config = test_config_with_keys(keys);
    let wanted = warm_keys(&config);
    let mut cache = ImageCache::new();
    for key in wanted {
        if !cache.contains_key(&key) {
            cache.insert(key, LoadedKeyImage::Static(vec![0xFF, 0xD8]));
        }
    }
    assert_eq!(cache.len(), 6, "duplicate icons should be cached once");
    for name in ["base.png", "status-on.png", "status-off.png", NEXT_PAGE_ICON, PREVIOUS_PAGE_ICON] {
        assert!(cache.contains_key(&ImageCacheKey { icon: name.to_string(), clock_background: None }));
    }
}

#[test]
fn clock_cache_key_includes_background_name() {
    let mut cache = ImageCache::new();
    let a = image_cache_key("clock.svg", Some("bg-a.png"));
    let b = image_cache_key("clock.svg", Some("bg-b.png"));
    let clock = |bg: &str| LoadedKeyImage::Clock {
        image: vec![0xFF, 0xD8, 1],
        current_text: "10:00".to_string(),
        background_name: Some(bg.to_string()),
    };
    cache.insert(a.clone(), clock("bg-a.png"));
    assert!(!cache.contains_key(&b));
    cache.insert(b.clone(), clock("bg-b.png"));
    assert!(cache.contains_key(&image_cache_key("clock.svg", Some("bg-a.png"))));
    assert_eq!(cache.len(), 2, "clock background variants must not collide");

    cache.refresh_clock(&a, "10:00", Some(vec![9]));
    match cache.get(&a) {
        Some(LoadedKeyImage::Clock { image, .. }) => assert_eq!(image, &vec![0xFF, 0xD8, 1]),
        _ => panic!("expected a clock entry"),
    }
    cache.refresh_clock(&a, "10:01", Some(vec![9]));
    match cache.get(&a) {
        Some(LoadedKeyImage::Clock { image, current_text, background_name }) => {
            assert_eq!(image, &vec![9]);
            assert_eq!(current_text, "10:01");
            assert_eq!(background_name.as_deref(), Some("bg-a.png"));
        }
        _ => panic!("expected a clock entry"),
    }
    match cache.get(&b) {
        Some(LoadedKeyImage::Clock { current_text, .. }) => assert_eq!(current_text, "10:00"),
        _ => panic!("expected a clock entry"),
    }
    assert_eq!(cache.len(), 2);
}

fn empty_page() -> PageState {
    let config = test_config_with_keys(vec![test_key("a.png")]);
    let plan = plan_page_layout(&config, &StatusCache::new(), 0);
    PageState::from_plan(&plan, 0)
}

#[test]
fn page_ticks_report_due_work_in_slot_order() {
    let mut page = empty_page();
    let mut early = status_state();
    early.next_check_at = 50;
    let mut late = status_state();
    late.next_check_at = 500;
    page.status_states[3] = Some(early);
    page.status_states[9] = Some(late);
    page.status_states[12] = Some(status_state());
    assert_eq!(page.due_status_slots(100), vec![3, 12]);
    assert_eq!(page.due_status_slots(500), vec![3, 9, 12]);

    page.set_dynamic(
        2,
        LoadedKeyImage::Animated { frames: vec![vec![1], vec![2]], delays: vec![100, 200] },
        0,
    );
    page.set_dynamic(
        5,
        LoadedKeyImage::Animated { frames: vec![vec![1], vec![2], vec![3]], delays: vec![300, 70, 80] },
        0,
    );
    assert_eq!(page.advance_animations(99), vec![]);
    assert_eq!(page.advance_animations(100), vec![(2, 1)]);
    assert_eq!(page.advance_animations(300), vec![(2, 0), (5, 1)]);
    match &page.dynamic_states[5] {
        Some(DynamicKeyState::Animated(a)) => assert_eq!(a.next_frame_at, 370),
        _ => panic!("expected an animation"),
    }

    page.set_dynamic(
        7,
        LoadedKeyImage::Clock { image: vec![1], current_text: "08:00".to_string(), background_name: None },
        0,
    );
    page.set_dynamic(
        8,
        LoadedKeyImage::Clock { image: vec![1], current_text: "08:01".to_string(), background_name: None },
        0,
    );
    assert_eq!(page.clocks_to_redraw(999, "08:01"), vec![]);
    assert_eq!(page.clocks_to_redraw(1000, "08:01"), vec![7]);
    page.finish_clock_checks(1000, "08:01", &vec![7]);
    match (&page.dynamic_states[7], &page.dynamic_states[8]) {
        (Some(DynamicKeyState::Clock(a)), Some(DynamicKeyState::Clock(b))) => {
            assert_eq!(a.current_text, "08:01");
            assert_eq!(a.next_update_at, 2000);
            assert_eq!(b.current_text, "08:01");
            assert_eq!(b.next_update_at, 2000);
        }
        _ => panic!("expected clocks"),
    }
    page.finish_clock_checks(1500, "08:02", &vec![7]);
    match &page.dynamic_states[7] {
        Some(DynamicKeyState::Clock(a)) => assert_eq!(a.current_text, "08:01"),
        _ => panic!("expected a clock"),
    }
    page.set_dynamic(7, LoadedKeyImage::Static(vec![1]), 0);
    assert!(page.dynamic_states[7].is_none());
}

#[test]
fn cache_lookup_decides_between_hit_redraw_and_load() {
    let mut cache = ImageCache::new();
    let clock_key = image_cache_key("clock.svg", Some("bg.png"));
    let plain_key = image_cache_key("a.png", None);
    assert_eq!(cache.lookup_action(&clock_key, "10:00"), CacheLookup::Missing);
    cache.insert(
        clock_key.clone(),
        LoadedKeyImage::Clock {
            image: vec![1],
            current_text: "10:00".to_string(),
            background_name: Some("bg.png".to_string()),
        },
    );
    cache.insert(plain_key.clone(), LoadedKeyImage::Static(vec![2]));
    assert_eq!(cache.lookup_action(&clock_key, "10:00"), CacheLookup::Fresh);
    assert_eq!(
        cache.lookup_action(&clock_key, "10:01"),
        CacheLookup::StaleClock { background_name: Some("bg.png".to_string()) }
    );
    assert_eq!(cache.lookup_action(&plain_key, "10:01"), CacheLookup::Fresh);
}

#[test]
fn loop_cadences() {
    assert!(probe_due(false, 0, None));
    assert!(!probe_due(true, 0, None));
    assert!(!probe_due(false, 499, Some(0)));
    assert!(probe_due(false, 500, Some(0)));
    assert!(!probe_due(false, 10, Some(20)));
    assert!(!reload_due(9_999, 0));
    assert!(reload_due(10_000, 0));
}

#[test]
fn rejected_reload_names_the_page_size() {
    let mut state = connected_state(thirty_key_config());
    let mut bad = thirty_key_config();
    bad.keys_per_page = 2;
    assert_eq!(
        state.reload("bad".to_string(), Ok(bad)),
        ReloadOutcome::Rejected(ConfigError::InvalidKeysPerPage(2))
    );
    assert_eq!(state.config.keys_per_page, 15);
}
