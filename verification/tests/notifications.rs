use gpui_starter::services::notifications::{
    web_permission_to_state, web_send_plan, web_show_outcome, web_tag_for_request,
    NotificationBackend, WebNotificationOptions, NOTIFICATION_ICON_URL, NotificationBackendKind,
    NotificationPermissionState, NotificationRequest, PortalBackend, WasmStubBackend,
    WebNotificationBackend,
};

#[test]
fn web_permission_strings_map_to_states() {
    assert_eq!(
        web_permission_to_state("granted"),
        NotificationPermissionState::Authorized
    );
    assert_eq!(
        web_permission_to_state("denied"),
        NotificationPermissionState::Denied
    );
    assert_eq!(
        web_permission_to_state("default"),
        NotificationPermissionState::NotDetermined
    );
}

#[test]
fn web_permission_unknown_strings_map_to_unknown() {
    for value in ["", "Granted", "GRANTED", "prompt", "unsupported"] {
        assert_eq!(
            web_permission_to_state(value),
            NotificationPermissionState::Unknown,
            "\"{value}\" must map to Unknown"
        );
    }
}

#[test]
fn web_tag_follows_thread_id() {
    let reply = NotificationRequest::reply("title", "body");
    assert_eq!(
        web_tag_for_request(&reply).as_deref(),
        Some("settings-reply")
    );
    let foreground = NotificationRequest::foreground("title", "body");
    assert_eq!(web_tag_for_request(&foreground), None);
}

#[test]
fn backends_report_kind_and_capabilities() {
    let stub = WasmStubBackend::new();
    assert_eq!(stub.kind(), NotificationBackendKind::UiOnly);
    assert!(!stub.capabilities().can_send_immediate_native);
    assert_eq!(stub.permission_state(), NotificationPermissionState::Unsupported);

    let portal = PortalBackend::new();
    assert_eq!(portal.kind(), NotificationBackendKind::Portal);
    assert!(portal.capabilities().requires_packaged_runtime);

    let web = WebNotificationBackend::new(true).unwrap();
    assert_eq!(web.kind(), NotificationBackendKind::Web);
    assert!(web.capabilities().can_request_permission);
    assert_eq!(web.permission_state(Some("granted")), NotificationPermissionState::Authorized);
    assert_eq!(
        web.permission_state(None),
        NotificationPermissionState::Unavailable("Web Notification API unavailable".into())
    );
    assert_eq!(
        WebNotificationBackend::new(false).err().as_deref(),
        Some("Web Notification API unavailable (window.Notification is undefined)")
    );
    assert_eq!(NotificationPermissionState::NotDetermined.label(), "not determined");
}

#[test]
fn the_stub_backend_refuses_every_send() {
    let stub = WasmStubBackend::new();
    assert_eq!(
        stub.send(&NotificationRequest::foreground("Saved", "ok")),
        Err("native notifications unavailable on wasm (title: Saved)".to_string())
    );
}

#[test]
fn web_send_is_refused_without_the_api_or_permission() {
    let request = NotificationRequest::reply("Reply", "Sent");
    assert_eq!(
        web_send_plan(false, Some("granted"), &request).unwrap_err(),
        "Web Notification API unavailable (window.Notification undefined)"
    );
    assert_eq!(
        web_send_plan(true, None, &request).unwrap_err(),
        "web notification permission could not be read"
    );
    assert_eq!(
        web_send_plan(true, Some("denied"), &request).unwrap_err(),
        "web notification permission is denied \u{2014} request it from Settings \u{2192} Notifications"
    );
    assert_eq!(
        web_send_plan(true, Some("default"), &request).unwrap_err(),
        "web notification permission is not determined \u{2014} request it from Settings \u{2192} Notifications"
    );
    assert_eq!(
        web_send_plan(true, Some("prompt"), &request).unwrap_err(),
        "web notification permission is unknown \u{2014} request it from Settings \u{2192} Notifications"
    );
}

#[test]
fn web_send_with_permission_builds_the_options() {
    let request = NotificationRequest::reply("Reply", "Sent");
    assert_eq!(
        web_send_plan(true, Some("granted"), &request).unwrap(),
        WebNotificationOptions {
            title: "Reply".into(),
            body: "Sent".into(),
            icon: NOTIFICATION_ICON_URL.into(),
            tag: Some("settings-reply".into()),
            silent: false,
        }
    );
    let quiet = NotificationRequest {
        title: "T".into(),
        body: "B".into(),
        thread_id: None,
        play_sound: false,
    };
    let options = web_send_plan(true, Some("granted"), &quiet).unwrap();
    assert_eq!(options.tag, None);
    assert!(options.silent);
    assert_eq!(options.icon, "/icons/icon-192.png");
}

#[test]
fn web_show_rejection_is_explained() {
    assert_eq!(web_show_outcome(Ok(())), Ok(()));
    assert_eq!(
        web_show_outcome(Err("NotAllowedError".into())).unwrap_err(),
        "web notification rejected: NotAllowedError"
    );
}
