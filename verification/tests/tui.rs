use ember::tui::{format_uptime, handle_input, log_window, recent_logs_start, TuiKey, TuiState};

#[test]
fn tabs_wrap_both_ways() {
    let mut s = TuiState::new();
    handle_input(TuiKey::BackTab, false, &mut s);
    assert_eq!(s.selected_tab, 5);
    handle_input(TuiKey::Tab, false, &mut s);
    assert_eq!(s.selected_tab, 0);
    s.scroll_offset = 4;
    handle_input(TuiKey::Tab, false, &mut s);
    assert_eq!(s.selected_tab, 1);
    assert_eq!(s.scroll_offset, 0);
}

#[test]
fn scrolling_and_quitting() {
    let mut s = TuiState::new();
    handle_input(TuiKey::Down, false, &mut s);
    assert_eq!(s.scroll_offset, 0);
    handle_input(TuiKey::Up, false, &mut s);
    handle_input(TuiKey::Up, false, &mut s);
    assert_eq!(s.scroll_offset, 2);
    handle_input(TuiKey::End, false, &mut s);
    assert_eq!(s.scroll_offset, usize::MAX);
    handle_input(TuiKey::Up, false, &mut s);
    assert_eq!(s.scroll_offset, usize::MAX);
    handle_input(TuiKey::Home, false, &mut s);
    assert_eq!(s.scroll_offset, 0);
    handle_input(TuiKey::Char('c'), false, &mut s);
    assert!(!s.should_quit);
    handle_input(TuiKey::Char('c'), true, &mut s);
    assert!(s.should_quit);
    let mut t = TuiState::new();
    handle_input(TuiKey::Char('q'), false, &mut t);
    assert!(t.should_quit);
}

#[test]
fn refresh_logs_and_log_limit() {
    let mut s = TuiState::new();
    handle_input(TuiKey::Char('r'), false, &mut s);
    assert_eq!(s.logs, vec!["Metrics refreshed".to_string()]);
    for i in 0..600 {
        s.push_log(format!("line {}", i));
    }
    assert_eq!(s.logs.len(), 500);
    assert_eq!(s.logs[0], "line 100");
    assert_eq!(s.logs[499], "line 599");
}

#[test]
fn log_windows() {
    assert_eq!(log_window(100, 0, 10), (90, 100));
    assert_eq!(log_window(100, 30, 10), (70, 80));
    assert_eq!(log_window(100, 100, 10), (0, 10));
    assert_eq!(log_window(5, 0, 10), (0, 5));
    assert_eq!(recent_logs_start(100, 10), 90);
    assert_eq!(recent_logs_start(3, 10), 0);
}

#[test]
fn uptime_format() {
    assert_eq!(format_uptime(0), "00:00:00");
    assert_eq!(format_uptime(3661), "01:01:01");
    assert_eq!(format_uptime(86399), "23:59:59");
    assert_eq!(format_uptime(360000), "100:00:00");
}

#[test]
fn tab_round_trips_stay_in_range() {
    for start in 0..6 {
        let mut s = TuiState::new();
        for _ in 0..start {
            handle_input(TuiKey::Tab, false, &mut s);
        }
        assert_eq!(s.selected_tab, start);
        handle_input(TuiKey::Tab, false, &mut s);
        assert!(s.selected_tab < 6);
        handle_input(TuiKey::BackTab, false, &mut s);
        assert_eq!(s.selected_tab, start);
        handle_input(TuiKey::BackTab, false, &mut s);
        assert!(s.selected_tab < 6);
        handle_input(TuiKey::Tab, false, &mut s);
        assert_eq!(s.selected_tab, start);
    }
}
