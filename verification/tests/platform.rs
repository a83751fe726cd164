use watchmedo::platform::{
    collect_window_titles, focused_pid_of, get_focused_pid, get_window_titles, WindowEntry,
};

fn window(pid: u32, visible: bool, title: &str) -> WindowEntry {
    WindowEntry { pid, visible, title: title.to_string() }
}

#[test]
fn platform_without_windows_reports_nothing() {
    assert_eq!(get_focused_pid(), None);
    assert!(get_window_titles().is_empty());
}

#[test]
fn focused_pid_needs_a_window_and_a_process() {
    assert_eq!(focused_pid_of(true, 42), Some(42));
    assert_eq!(focused_pid_of(false, 42), None);
    assert_eq!(focused_pid_of(true, 0), None);
}

#[test]
fn first_title_of_each_process_wins() {
    let windows = vec![
        window(7, true, "Inbox"),
        window(8, true, "Terminal"),
        window(7, true, "Compose"),
    ];
    let titles = collect_window_titles(&windows);
    assert_eq!(titles.len(), 2);
    assert_eq!(titles[&7], "Inbox");
    assert_eq!(titles[&8], "Terminal");
}

#[test]
fn hidden_untitled_and_ownerless_windows_are_skipped() {
    let windows = vec![
        window(7, false, "Hidden"),
        window(7, true, ""),
        window(0, true, "No owner"),
        window(7, true, "Shown"),
        window(9, false, "Only hidden"),
    ];
    let titles = collect_window_titles(&windows);
    assert_eq!(titles.len(), 1);
    assert_eq!(titles[&7], "Shown");
    assert!(!titles.contains_key(&9));
    assert!(!titles.contains_key(&0));
}

#[test]
fn no_windows_no_titles() {
    assert!(collect_window_titles(&Vec::new()).is_empty());
}
