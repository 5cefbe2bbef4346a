//! Notification backends: what each backend can do, and how the browser's
//! Web Notifications permission strings map onto permission states.

use vstd::prelude::*;

use crate::capabilities::opt_chars;
use crate::ids::clone_opt_string;
use crate::text::{owned, str_eq};

verus! {

broadcast use vstd::string::group_string_axioms;

/// Which delivery mechanism a backend uses.
#[derive(Clone, Copy, Debug, PartialEq, Eq, Structural)]
pub enum NotificationBackendKind {
    /// In-app toast and inbox only.
    UiOnly,
    /// The XDG desktop portal (Flatpak/Snap).
    Portal,
    /// The browser Web Notifications API.
    Web,
}

/// What a backend can do.
#[derive(Clone, Copy, Debug, PartialEq, Eq, Structural)]
pub struct NotificationCapabilities {
    pub can_request_permission: bool,
    pub can_read_permission_state: bool,
    pub can_send_immediate_native: bool,
    pub can_send_interactive: bool,
    pub requires_packaged_runtime: bool,
}

/// Whether the app may show native notifications.
#[derive(Clone, Debug, PartialEq, Eq)]
pub enum NotificationPermissionState {
    Authorized,
    Denied,
    NotDetermined,
    Unknown,
    Unsupported,
    Unavailable(String),
}

/// Lowercase name of a permission state, as messages show it.
pub open spec fn permission_label(s: NotificationPermissionState) -> Seq<char> {
    match s {
        NotificationPermissionState::Authorized => "authorized"@,
        NotificationPermissionState::Denied => "denied"@,
        NotificationPermissionState::NotDetermined => "not determined"@,
        NotificationPermissionState::Unknown => "unknown"@,
        NotificationPermissionState::Unsupported => "unsupported"@,
        NotificationPermissionState::Unavailable(_) => "unavailable"@,
    }
}

impl NotificationPermissionState {
    /// Lowercase name of the state for messages.
    pub fn label(&self) -> (r: &'static str)
        ensures
            r@ == permission_label(*self),
    {
        match self {
            NotificationPermissionState::Authorized => "authorized",
            NotificationPermissionState::Denied => "denied",
            NotificationPermissionState::NotDetermined => "not determined",
            NotificationPermissionState::Unknown => "unknown",
            NotificationPermissionState::Unsupported => "unsupported",
            NotificationPermissionState::Unavailable(_) => "unavailable",
        }
    }
}

/// A notification to deliver.
#[derive(Clone, Debug, PartialEq, Eq)]
pub struct NotificationRequest {
    pub title: String,
    pub body: String,
    /// Notifications of one thread replace each other where the platform
    /// supports it.
    pub thread_id: Option<String>,
    pub play_sound: bool,
}

impl NotificationRequest {
    /// A reply notification in the settings-reply thread.
    pub fn reply(title: &str, body: &str) -> (r: Self)
        ensures
            r.title@ == title@,
            r.body@ == body@,
            opt_chars(r.thread_id) == Some("settings-reply"@),
            r.play_sound,
    {
        NotificationRequest {
            title: owned(title),
            body: owned(body),
            thread_id: Some(owned("settings-reply")),
            play_sound: true,
        }
    }

    /// A plain foreground notification that belongs to no thread.
    pub fn foreground(title: &str, body: &str) -> (r: Self)
        ensures
            r.title@ == title@,
            r.body@ == body@,
            r.thread_id is None,
            r.play_sound,
    {
        NotificationRequest {
            title: owned(title),
            body: owned(body),
            thread_id: None,
            play_sound: true,
        }
    }
}

/// The state a Web Notifications permission string stands for: the spec's
/// three lowercase values, everything else unknown.
pub open spec fn web_permission_state(permission: Seq<char>) -> NotificationPermissionState {
    if permission == "granted"@ {
        NotificationPermissionState::Authorized
    } else if permission == "denied"@ {
        NotificationPermissionState::Denied
    } else if permission == "default"@ {
        NotificationPermissionState::NotDetermined
    } else {
        NotificationPermissionState::Unknown
    }
}

/// Map a Web Notifications permission string onto a permission state.
pub fn web_permission_to_state(permission: &str) -> (r: NotificationPermissionState)
    ensures
        r == web_permission_state(permission@),
{
    if str_eq(permission, "granted") {
        NotificationPermissionState::Authorized
    } else if str_eq(permission, "denied") {
        NotificationPermissionState::Denied
    } else if str_eq(permission, "default") {
        NotificationPermissionState::NotDetermined
    } else {
        NotificationPermissionState::Unknown
    }
}

/// The web notification tag of a request: its thread id, so same-thread
/// notifications replace each other; none leaves every notification stacked.
pub fn web_tag_for_request(request: &NotificationRequest) -> (r: Option<String>)
    ensures
        opt_chars(r) == opt_chars(request.thread_id),
{
    clone_opt_string(&request.thread_id)
}

/// The icon the web harness serves for notifications.
pub const NOTIFICATION_ICON_URL: &'static str = "/icons/icon-192.png";

/// What a web notification is shown with.
#[derive(Clone, Debug, PartialEq, Eq)]
pub struct WebNotificationOptions {
    pub title: String,
    pub body: String,
    pub icon: String,
    /// Same-tag notifications replace each other.
    pub tag: Option<String>,
    /// Set when the request asks for no sound (browsers play their default
    /// sound otherwise).
    pub silent: bool,
}

/// The refusal or the options of a web notification send.
pub open spec fn web_send_outcome(
    api_present: bool,
    permission: Option<Seq<char>>,
    request: NotificationRequest,
) -> Result<(Seq<char>, Seq<char>, Seq<char>, Option<Seq<char>>, bool), Seq<char>> {
    if !api_present {
        Err("Web Notification API unavailable (window.Notification undefined)"@)
    } else {
        match permission {
            None => Err("web notification permission could not be read"@),
            Some(p) => if p != "granted"@ {
                Err(
                    "web notification permission is "@ + permission_label(web_permission_state(p))
                        + " \u{2014} request it from Settings \u{2192} Notifications"@,
                )
            } else {
                Ok(
                    (
                        request.title@,
                        request.body@,
                        NOTIFICATION_ICON_URL@,
                        opt_chars(request.thread_id),
                        !request.play_sound,
                    ),
                )
            },
        }
    }
}

pub open spec fn web_options_view(o: WebNotificationOptions) -> (
    Seq<char>,
    Seq<char>,
    Seq<char>,
    Option<Seq<char>>,
    bool,
) {
    (o.title@, o.body@, o.icon@, opt_chars(o.tag), o.silent)
}

/// Decide a web notification send from whether the browser exposes the
/// Notification API and the permission it reports: refused without the API,
/// without a readable permission, or unless permission is granted (showing
/// a notification then would fail with an unexplained error); otherwise the
/// options to show it with.
pub fn web_send_plan(api_present: bool, permission: Option<&str>, request: &NotificationRequest) -> (r:
    Result<WebNotificationOptions, String>)
    ensures
        match r {
            Ok(o) => web_send_outcome(
                api_present,
                match permission {
                    Some(p) => Some(p@),
                    None => None,
                },
                *request,
            ) == Ok::<(Seq<char>, Seq<char>, Seq<char>, Option<Seq<char>>, bool), Seq<char>>(
                web_options_view(o),
            ),
            Err(m) => web_send_outcome(
                api_present,
                match permission {
                    Some(p) => Some(p@),
                    None => None,
                },
                *request,
            ) == Err::<(Seq<char>, Seq<char>, Seq<char>, Option<Seq<char>>, bool), Seq<char>>(m@),
        },
{
    if !api_present {
        return Err(owned("Web Notification API unavailable (window.Notification undefined)"));
    }
    let p = match permission {
        Some(p) => p,
        None => return Err(owned("web notification permission could not be read")),
    };
    if !str_eq(p, "granted") {
        let state = web_permission_to_state(p);
        let mut m = owned("web notification permission is ");
        crate::text::append_str(&mut m, state.label());
        crate::text::append_str(&mut m, " \u{2014} request it from Settings \u{2192} Notifications");
        return Err(m);
    }
    Ok(
        WebNotificationOptions {
            title: owned(request.title.as_str()),
            body: owned(request.body.as_str()),
            icon: owned(NOTIFICATION_ICON_URL),
            tag: web_tag_for_request(request),
            silent: !request.play_sound,
        },
    )
}

/// The send's result once the browser tried to show the notification.
pub fn web_show_outcome(shown: Result<(), String>) -> (r: Result<(), String>)
    ensures
        match shown {
            Ok(()) => r is Ok,
            Err(e) => r matches Err(m) && m@ == "web notification rejected: "@ + e@,
        },
{
    match shown {
        Ok(()) => Ok(()),
        Err(e) => {
            let mut m = owned("web notification rejected: ");
            crate::text::append_str(&mut m, e.as_str());
            Err(m)
        },
    }
}

/// The delivery-side surface every notification backend offers.
pub trait NotificationBackend {
    fn kind(&self) -> NotificationBackendKind;

    fn capabilities(&self) -> NotificationCapabilities;
}

/// Wasm stand-in with no OS notification daemon: sends always fail through
/// to the in-app toast and inbox.
pub struct WasmStubBackend;

impl WasmStubBackend {
    pub fn new() -> Self {
        WasmStubBackend
    }

    /// Permission cannot be read or requested without a daemon.
    pub fn permission_state(&self) -> (r: NotificationPermissionState)
        ensures
            r == NotificationPermissionState::Unsupported,
    {
        NotificationPermissionState::Unsupported
    }

    /// Every send fails, so the service falls back to the in-app toast.
    pub fn send(&self, request: &NotificationRequest) -> (r: Result<(), String>)
        ensures
            r matches Err(m) && m@ == "native notifications unavailable on wasm (title: "@
                + request.title@ + ")"@,
    {
        let mut m = owned("native notifications unavailable on wasm (title: ");
        crate::text::append_str(&mut m, request.title.as_str());
        crate::text::append_str(&mut m, ")");
        Err(m)
    }
}

impl NotificationBackend for WasmStubBackend {
    fn kind(&self) -> (r: NotificationBackendKind)
        ensures
            r == NotificationBackendKind::UiOnly,
    {
        NotificationBackendKind::UiOnly
    }

    fn capabilities(&self) -> (r: NotificationCapabilities)
        ensures
            r == (NotificationCapabilities {
                can_request_permission: false,
                can_read_permission_state: false,
                can_send_immediate_native: false,
                can_send_interactive: false,
                requires_packaged_runtime: false,
            }),
    {
        NotificationCapabilities {
            can_request_permission: false,
            can_read_permission_state: false,
            can_send_immediate_native: false,
            can_send_interactive: false,
            requires_packaged_runtime: false,
        }
    }
}

/// XDG desktop portal backend, selected when running sandboxed.
pub struct PortalBackend;

impl PortalBackend {
    pub fn new() -> Self {
        PortalBackend
    }

    /// The portal exposes no permission state.
    pub fn permission_state(&self) -> (r: NotificationPermissionState)
        ensures
            r == NotificationPermissionState::Unsupported,
    {
        NotificationPermissionState::Unsupported
    }
}

impl NotificationBackend for PortalBackend {
    fn kind(&self) -> (r: NotificationBackendKind)
        ensures
            r == NotificationBackendKind::Portal,
    {
        NotificationBackendKind::Portal
    }

    fn capabilities(&self) -> (r: NotificationCapabilities)
        ensures
            r == (NotificationCapabilities {
                can_request_permission: false,
                can_read_permission_state: false,
                can_send_immediate_native: true,
                can_send_interactive: false,
                requires_packaged_runtime: true,
            }),
    {
        NotificationCapabilities {
            can_request_permission: false,
            can_read_permission_state: false,
            can_send_immediate_native: true,
            can_send_interactive: false,
            requires_packaged_runtime: true,
        }
    }
}

/// Browser Web Notifications backend.
pub struct WebNotificationBackend;

impl WebNotificationBackend {
    /// Construct after the caller probed whether the browser exposes
    /// `window.Notification`; without it the reason becomes the service's
    /// degrade reason.
    pub fn new(notification_api_present: bool) -> (r: Result<Self, String>)
        ensures
            r is Ok <==> notification_api_present,
            r matches Err(reason) ==> reason@
                == "Web Notification API unavailable (window.Notification is undefined)"@,
    {
        if notification_api_present {
            Ok(WebNotificationBackend)
        } else {
            Err(owned("Web Notification API unavailable (window.Notification is undefined)"))
        }
    }

    /// The permission state for a `Notification.permission` read, or
    /// unavailable when it could not be read.
    pub fn permission_state(&self, permission: Option<&str>) -> (r: NotificationPermissionState)
        ensures
            match permission {
                Some(p) => r == web_permission_state(p@),
                None => r matches NotificationPermissionState::Unavailable(m) && m@
                    == "Web Notification API unavailable"@,
            },
    {
        match permission {
            Some(p) => web_permission_to_state(p),
            None => NotificationPermissionState::Unavailable(
                owned("Web Notification API unavailable"),
            ),
        }
    }
}

impl NotificationBackend for WebNotificationBackend {
    fn kind(&self) -> (r: NotificationBackendKind)
        ensures
            r == NotificationBackendKind::Web,
    {
        NotificationBackendKind::Web
    }

    fn capabilities(&self) -> (r: NotificationCapabilities)
        ensures
            r == (NotificationCapabilities {
                can_request_permission: true,
                can_read_permission_state: true,
                can_send_immediate_native: true,
                can_send_interactive: false,
                requires_packaged_runtime: false,
            }),
    {
        NotificationCapabilities {
            can_request_permission: true,
            can_read_permission_state: true,
            can_send_immediate_native: true,
            can_send_interactive: false,
            requires_packaged_runtime: false,
        }
    }
}

/// Law: once the API is present and permission is granted, a send always
/// goes ahead, with the request's title and body, the notification icon,
/// the thread id as tag, and sound muted exactly when the request asks for
/// no sound (whether or not it has a thread id).
pub proof fn lemma_granted_send_follows_request(request: NotificationRequest)
    ensures
        web_send_outcome(true, Some("granted"@), request) matches Ok(o) && o.0 == request.title@
            && o.1 == request.body@ && o.2 == NOTIFICATION_ICON_URL@ && o.3 == opt_chars(
            request.thread_id,
        ) && (o.4 <==> !request.play_sound),
{
}

/// Law: a send is refused exactly when the API is missing, the permission
/// cannot be read, or it is anything but `granted`.
pub proof fn lemma_send_refused_unless_granted(
    api_present: bool,
    permission: Option<Seq<char>>,
    request: NotificationRequest,
)
    ensures
        web_send_outcome(api_present, permission, request) is Ok <==> (api_present && permission
            == Some("granted"@)),
{
}

} // verus!
