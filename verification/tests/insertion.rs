use impulse_voice::insertion::{
    clipboard_text, detect_insertion_mode, find_hyprland_signature, find_wayland_display,
    insertion_attempts, insertion_step, is_terminal_class, is_wayland_display_name,
    no_insertion_tool_message, plan_session, ActiveWindow, InsertionMode, InsertionStep,
    InsertionTool, InstanceEntry, SessionPlan, SocketEntry,
};

#[test]
fn detects_common_terminal_classes_case_insensitively() {
    assert!(is_terminal_class("kitty"));
    assert!(is_terminal_class("org.kde.konsole"));
    assert!(is_terminal_class("Alacritty"));
    assert!(is_terminal_class("com.mitchellh.ghostty"));
}

#[test]
fn does_not_treat_regular_apps_as_terminals() {
    assert!(!is_terminal_class("firefox"));
    assert!(!is_terminal_class("code"));
    assert!(!is_terminal_class("org.libreoffice.LibreOffice"));
}

fn socket(name: &str) -> SocketEntry {
    SocketEntry { name: Some(name.to_string()), is_socket: true }
}

fn instance(name: &str, has_socket: bool, modified: Option<i128>) -> InstanceEntry {
    InstanceEntry { name: Some(name.to_string()), has_socket, modified }
}

#[test]
fn discovers_session_paths_without_imported_environment() {
    let signature = "test_hyprland_signature";
    assert!(is_wayland_display_name("wayland-7"));
    assert!(!is_wayland_display_name("wayland-7.lock"));
    let entries = vec![instance(signature, true, Some(1_700_000_000_000_000_000))];
    assert_eq!(find_hyprland_signature(&entries).as_deref(), Some(signature));
}

#[test]
fn wayland_display_names_need_digits_after_the_prefix() {
    assert!(is_wayland_display_name("wayland-0"));
    assert!(is_wayland_display_name("wayland-12"));
    assert!(!is_wayland_display_name("wayland-"));
    assert!(!is_wayland_display_name("wayland"));
    assert!(!is_wayland_display_name("Wayland-1"));
    assert!(!is_wayland_display_name("wayland-1a"));
    assert!(!is_wayland_display_name("pipewire-0"));
}

#[test]
fn wayland_display_is_the_greatest_socket_name() {
    let entries = vec![
        socket("wayland-1"),
        socket("wayland-10"),
        socket("wayland-1.lock"),
        SocketEntry { name: Some("wayland-9".to_string()), is_socket: false },
        socket("pipewire-0"),
        SocketEntry { name: None, is_socket: true },
        socket("wayland-2"),
    ];
    assert_eq!(find_wayland_display(&entries).as_deref(), Some("wayland-2"));
    let none = vec![socket("pipewire-0"), socket("wayland-1.lock")];
    assert_eq!(find_wayland_display(&none), None);
    assert_eq!(find_wayland_display(&vec![]), None);
}

#[test]
fn hyprland_signature_is_the_latest_instance_with_a_socket() {
    let entries = vec![
        instance("old", true, Some(10)),
        instance("newest-without-socket", false, Some(99)),
        instance("new", true, Some(20)),
        instance("unknown-time", true, None),
    ];
    assert_eq!(find_hyprland_signature(&entries).as_deref(), Some("new"));
    let ties = vec![instance("first", true, Some(5)), instance("second", true, Some(5))];
    assert_eq!(find_hyprland_signature(&ties).as_deref(), Some("second"));
    let no_socket = vec![instance("a", false, Some(1))];
    assert_eq!(find_hyprland_signature(&no_socket), None);
    let unnamed = vec![
        instance("a", true, Some(1)),
        InstanceEntry { name: None, has_socket: true, modified: Some(2) },
    ];
    assert_eq!(find_hyprland_signature(&unnamed), None);
}

#[test]
fn terminal_windows_get_direct_typing() {
    let terminal = Some(ActiveWindow { class: Some("foot".to_string()), initial_class: None });
    assert_eq!(detect_insertion_mode(&terminal), InsertionMode::Terminal);
    let by_initial = Some(ActiveWindow {
        class: Some("Custom".to_string()),
        initial_class: Some("XTerm".to_string()),
    });
    assert_eq!(detect_insertion_mode(&by_initial), InsertionMode::Terminal);
    let browser = Some(ActiveWindow {
        class: Some("firefox".to_string()),
        initial_class: Some("firefox".to_string()),
    });
    assert_eq!(detect_insertion_mode(&browser), InsertionMode::Standard);
    assert_eq!(detect_insertion_mode(&None), InsertionMode::Standard);
}

#[test]
fn insertion_tries_wtype_then_ydotool() {
    let both = insertion_attempts("salut", InsertionMode::Terminal, true, true);
    assert_eq!(both.len(), 2);
    assert_eq!(both[0].tool, InsertionTool::Wtype);
    assert_eq!(both[0].args, vec!["--".to_string(), "salut".to_string()]);
    assert!(both[0].tool.uses_session());
    assert_eq!(both[1].tool, InsertionTool::Ydotool);
    assert_eq!(both[1].tool.program(), "ydotool");
    assert!(!both[1].tool.uses_session());
    assert_eq!(both[1].args, vec!["key", "42:1", "110:1", "110:0", "42:0"]);

    let standard = insertion_attempts("salut", InsertionMode::Standard, true, false);
    assert_eq!(standard.len(), 1);
    assert_eq!(standard[0].args, vec!["-M", "ctrl", "-k", "v", "-m", "ctrl"]);

    let fallback = insertion_attempts("salut", InsertionMode::Standard, false, true);
    assert_eq!(fallback.len(), 1);
    assert_eq!(fallback[0].tool, InsertionTool::Ydotool);
    assert_eq!(fallback[0].args, vec!["key", "29:1", "47:1", "47:0", "29:0"]);

    assert!(insertion_attempts("salut", InsertionMode::Standard, false, false).is_empty());
    assert_eq!(
        no_insertion_tool_message(),
        "no working text-insertion tool is available (wtype or ydotool)"
    );
}

#[test]
fn clipboard_text_needs_a_successful_read() {
    assert_eq!(clipboard_text(true, b"bonjour"), Some("bonjour".to_string()));
    assert_eq!(clipboard_text(true, &[0x61, 0xff, 0x62]), Some("a\u{fffd}b".to_string()));
    assert_eq!(clipboard_text(false, b"bonjour"), None);
}

#[test]
fn only_missing_session_variables_are_looked_up() {
    assert_eq!(
        plan_session(false, false, true),
        SessionPlan { find_display: true, find_instance: true }
    );
    assert_eq!(
        plan_session(true, false, true),
        SessionPlan { find_display: false, find_instance: true }
    );
    assert_eq!(
        plan_session(false, true, true),
        SessionPlan { find_display: true, find_instance: false }
    );
    assert_eq!(
        plan_session(false, false, false),
        SessionPlan { find_display: false, find_instance: false }
    );
}

#[test]
fn typing_stops_at_the_first_tool_that_succeeds() {
    assert_eq!(insertion_step(0, false, 2), InsertionStep::Try(0));
    assert_eq!(insertion_step(1, true, 2), InsertionStep::Done);
    assert_eq!(insertion_step(1, false, 2), InsertionStep::Try(1));
    assert_eq!(insertion_step(2, true, 2), InsertionStep::Done);
    assert_eq!(insertion_step(2, false, 2), InsertionStep::Fail);
    assert_eq!(insertion_step(0, false, 0), InsertionStep::Fail);
}
