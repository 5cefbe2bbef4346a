use gpui_starter::services::updater::UpdateStatus;
use gpui_starter::shell::status_bar::{truncate_error, updater_label};
use gpui_starter::shell::title_bar::search_a11y_label;

#[test]
fn errors_are_truncated_by_characters() {
    assert_eq!(truncate_error("abcdef", 3), "abc");
    assert_eq!(truncate_error("ab", 3), "ab");
    assert_eq!(truncate_error("日本語テキスト", 3), "日本語");
}

#[test]
fn updater_labels() {
    assert_eq!(updater_label(&UpdateStatus::Idle), None);
    assert_eq!(updater_label(&UpdateStatus::UpToDate), None);
    assert_eq!(
        updater_label(&UpdateStatus::Checking).as_deref(),
        Some("Update: checking...")
    );
    assert_eq!(
        updater_label(&UpdateStatus::Available { version: "1.4.0".into(), notes: String::new() })
            .as_deref(),
        Some("Update: 1.4.0 available")
    );
    assert_eq!(
        updater_label(&UpdateStatus::Downloading { progress: 40 }).as_deref(),
        Some("Update: downloading 40%")
    );
    assert_eq!(
        updater_label(&UpdateStatus::Downloaded { version: "1.4.0".into(), path: "/p".into() })
            .as_deref(),
        Some("Update: 1.4.0 ready")
    );
    assert_eq!(
        updater_label(&UpdateStatus::ReadyToInstall).as_deref(),
        Some("Update: restart to install")
    );
    assert_eq!(
        updater_label(&UpdateStatus::Error("x".repeat(40))).as_deref(),
        Some(format!("Update: error ({})", "x".repeat(30)).as_str())
    );
}

#[test]
fn search_button_names_the_platform_shortcut() {
    assert_eq!(search_a11y_label(true), "Search (Cmd+K)");
    assert_eq!(search_a11y_label(false), "Search (Super+K)");
}
