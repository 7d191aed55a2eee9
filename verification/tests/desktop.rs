use easytier_gui::desktop::{
    file_logger, get_exe_path, get_log_dir, get_log_dir_path, set_dock_visibility,
    toggle_window_visibility, ActivationPolicy, LogDirectory,
};
use easytier_gui::events::{relay_core_event, CoreEvent, Listening};
use easytier_gui::models::{PingResponse, Status, VpnStatus, VpnTileActionResponse};
use easytier_gui::platform::Platform;
use easytier_gui::vpn_portal::{patch_vpn_portal_clients, ConfigPatchAction};

#[test]
fn only_macos_has_a_dock() {
    assert_eq!(
        set_dock_visibility(Platform::MacOs, true),
        Some(ActivationPolicy::Regular)
    );
    assert_eq!(
        set_dock_visibility(Platform::MacOs, false),
        Some(ActivationPolicy::Accessory)
    );
    assert_eq!(set_dock_visibility(Platform::Other, true), None);
    assert_eq!(set_dock_visibility(Platform::Android, false), None);
}

#[test]
fn a_window_in_use_is_hidden_and_any_other_is_brought_to_the_front() {
    let change = toggle_window_visibility(Some(true), Some(false), Some(true));
    assert!(change.hide && !change.show && !change.unminimize && !change.focus);
    assert!(!change.dock_visible);
    let change = toggle_window_visibility(Some(true), Some(false), Some(false));
    assert!(!change.hide && !change.show && !change.unminimize && change.focus);
    assert!(change.dock_visible);
    let change = toggle_window_visibility(Some(true), Some(true), Some(true));
    assert!(!change.hide && !change.show && change.unminimize && !change.focus);
    let change = toggle_window_visibility(None, None, None);
    assert!(!change.hide && change.show && !change.unminimize && change.focus);
}

#[test]
fn the_image_comes_before_the_program() {
    let image = Some("/tmp/easytier.AppImage".to_string());
    let program = Some("/usr/bin/easytier".to_string());
    assert_eq!(get_exe_path(image, program.clone()), "/tmp/easytier.AppImage");
    assert_eq!(
        get_exe_path(Some(String::new()), program.clone()),
        "/usr/bin/easytier"
    );
    assert_eq!(get_exe_path(None, program), "/usr/bin/easytier");
    assert_eq!(get_exe_path(None, None), "");
}

#[test]
fn log_files_are_small_and_few_on_android() {
    assert_eq!(get_log_dir(Platform::Android), LogDirectory::CacheLogs);
    assert_eq!(get_log_dir(Platform::MacOs), LogDirectory::AppLog);
    let logger = file_logger(Platform::Android, "/cache/logs".to_string());
    assert_eq!(logger.dir, Some("/cache/logs".to_string()));
    assert_eq!(logger.level, Some("info".to_string()));
    assert_eq!(logger.file, None);
    assert_eq!(logger.size_mb, Some(5));
    assert_eq!(logger.count, Some(3));
    let logger = file_logger(Platform::Other, "/log".to_string());
    assert_eq!(logger.dir, Some("/log".to_string()));
    assert_eq!(logger.level, None);
    assert_eq!(logger.size_mb, None);
    assert_eq!(logger.count, None);
}

#[test]
fn a_missing_log_directory_is_reported() {
    assert_eq!(get_log_dir_path(Ok("/log".to_string())).unwrap(), "/log");
    let error = get_log_dir_path(Err("unknown path".to_string())).unwrap_err();
    assert_eq!(error.text(), "Failed to get log directory: unknown path");
}

#[test]
fn events_are_relayed_by_name() {
    assert_eq!(
        relay_core_event(CoreEvent::DhcpIpv4Changed),
        (Some("dhcp_ip_changed"), Listening::GoOn)
    );
    assert_eq!(
        relay_core_event(CoreEvent::ProxyCidrsUpdated),
        (Some("proxy_cidrs_updated"), Listening::GoOn)
    );
    assert_eq!(relay_core_event(CoreEvent::Other), (None, Listening::GoOn));
    assert_eq!(
        relay_core_event(CoreEvent::Lagged),
        (Some("event_lagged"), Listening::Resubscribe)
    );
    assert_eq!(relay_core_event(CoreEvent::Closed), (None, Listening::Stop));
}

#[test]
fn a_default_reply_holds_nothing() {
    assert!(PingResponse::default().value.is_none());
    let status = Status::default();
    assert!(status.error_msg.is_none() && status.granted.is_none());
    let vpn = VpnStatus::default();
    assert!(!vpn.running && vpn.fd.is_none() && vpn.request_id.is_none());
    assert!(vpn.error_msg.is_none() && vpn.network_available.is_none());
    assert!(vpn.network_id.is_none() && vpn.ipv4_addr.is_none());
    assert!(vpn.routes.is_none() && vpn.dns.is_none());
    let tile = VpnTileActionResponse::default();
    assert!(tile.action.is_none() && tile.launch_requested.is_none());
}

const ID: &str = "01234567-89ab-cdef-0123-456789abcdef";

#[test]
fn portal_clients_are_added_and_removed_by_name() {
    let patch = patch_vpn_portal_clients(
        ID,
        "add",
        Some("phone".to_string()),
        None,
        Some(vec!["guests".to_string()]),
    )
    .unwrap();
    assert_eq!(patch.id, 0x01234567_89ab_cdef_0123_456789abcdef);
    assert_eq!(patch.action, ConfigPatchAction::Add);
    let client = patch.client.unwrap();
    assert_eq!(client.name, "phone");
    assert_eq!(client.virtual_ip, "");
    assert_eq!(client.groups, vec!["guests".to_string()]);
    let patch =
        patch_vpn_portal_clients(ID, "remove", None, Some("10.0.0.2".to_string()), None).unwrap();
    assert_eq!(patch.action, ConfigPatchAction::Remove);
    let client = patch.client.unwrap();
    assert_eq!(client.name, "");
    assert_eq!(client.virtual_ip, "10.0.0.2");
    assert!(client.groups.is_empty());
}

#[test]
fn clearing_is_about_no_single_client() {
    let patch =
        patch_vpn_portal_clients(ID, "clear", Some("phone".to_string()), None, None).unwrap();
    assert_eq!(patch.action, ConfigPatchAction::Clear);
    assert!(patch.client.is_none());
}

#[test]
fn an_unknown_action_is_refused_after_a_bad_id() {
    let error = patch_vpn_portal_clients(ID, "Add", None, None, None).unwrap_err();
    assert_eq!(error.text(), "invalid vpn portal client patch action: Add");
    let error = patch_vpn_portal_clients("x", "Add", None, None, None).unwrap_err();
    let words = uuid::Uuid::parse_str("x").unwrap_err().to_string();
    assert_eq!(error.text(), words);
}
