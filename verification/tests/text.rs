use easytier_gui::effect::{Effect, GuiEvent};
use easytier_gui::error::{parse_instance_id, GuiError};
use easytier_gui::text::{join, same_text, trim, write_decimal};

#[test]
fn numbers_are_written_in_decimal_digits() {
    assert_eq!(write_decimal(0), "0");
    assert_eq!(write_decimal(9), "9");
    assert_eq!(write_decimal(10), "10");
    assert_eq!(write_decimal(4_294_967_295), "4294967295");
}

#[test]
fn texts_are_compared_and_joined() {
    assert!(same_text("tun", "tun"));
    assert!(!same_text("tun", "tun "));
    assert_eq!(join("tunfd_", "7"), "tunfd_7");
    assert_eq!(join("", "é"), "é");
}

#[test]
fn an_id_is_read_or_refused() {
    let id = parse_instance_id("01234567-89AB-cdef-0123-456789abcdef").unwrap();
    assert_eq!(id, 0x01234567_89ab_cdef_0123_456789abcdef);
    let error = parse_instance_id("").unwrap_err();
    assert!(matches!(error, GuiError::InvalidInstanceId(_)));
    assert_eq!(error.text(), uuid::Uuid::parse_str("").unwrap_err().to_string());
}

#[test]
fn failures_are_told_in_these_words() {
    let text = |error: GuiError| error.text();
    assert_eq!(text(GuiError::MobileConnectionStopped), "mobile_connection_stopped");
    assert_eq!(
        text(GuiError::CannotStop(0xff)),
        "TUN instance 00000000-0000-0000-0000-0000000000ff cannot be stopped"
    );
    assert_eq!(text(GuiError::PortalTooLong), "RPC portal is too long");
    assert_eq!(text(GuiError::Outside("as it is".to_string())), "as it is");
    assert_eq!(
        text(GuiError::NoLocalRuntime),
        "Failed to connect remote rpc: local RPC requires a core process runtime"
    );
}

#[test]
fn events_have_names_and_carry_ids() {
    let id = 0x01234567_89ab_cdef_0123_456789abcdef;
    let text = "01234567-89ab-cdef-0123-456789abcdef".to_string();
    assert_eq!(GuiEvent::SaveConfigs.name(), "save_configs");
    assert_eq!(GuiEvent::SaveConfigs.text(), None);
    assert_eq!(GuiEvent::SaveEnabledNetworks.name(), "save_enabled_networks");
    assert_eq!(GuiEvent::SaveEnabledNetworks.text(), None);
    let pre = GuiEvent::PreRunNetworkInstance(id);
    assert_eq!(pre.name(), "pre_run_network_instance");
    assert_eq!(pre.text(), Some(text.clone()));
    let post = GuiEvent::PostRunNetworkInstance(id);
    assert_eq!(post.name(), "post_run_network_instance");
    assert_eq!(post.text(), Some(text));
    assert_eq!(GuiEvent::VpnServiceStop.name(), "vpn_service_stop");
    assert_eq!(GuiEvent::VpnServiceStop.text(), Some(String::new()));
}

#[test]
fn white_space_is_trimmed_at_both_ends_only() {
    for text in vec![
        "",
        " ",
        "\t\n\u{b}\u{c}\r\u{85}\u{a0}\u{1680}\u{2000}\u{200a}\u{2028}\u{2029}\u{202f}\u{205f}\u{3000}",
        "a",
        " a",
        "a ",
        "  a b \u{2003}",
        "\u{200b}a\u{feff}",
        "é \u{1f600} ",
    ] {
        assert_eq!(trim(text), text.trim());
    }
    assert_eq!(trim("\n tcp://0.0.0.0:1 \t"), "tcp://0.0.0.0:1");
}

#[test]
fn some_effects_have_a_time_limit() {
    assert_eq!(Effect::AwaitTunEvent.time_limit_ms(), Some(5000));
    assert_eq!(Effect::ClaimManager.time_limit_ms(), Some(5000));
    assert_eq!(Effect::ConnectRing.time_limit_ms(), Some(1000));
    assert_eq!(Effect::DialRemote("tcp://host:1".to_string()).time_limit_ms(), Some(1000));
    assert_eq!(Effect::LockControl.time_limit_ms(), None);
    assert_eq!(Effect::AttachTun { id: 1, fd: 2 }.time_limit_ms(), None);
}
