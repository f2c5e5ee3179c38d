use kiwi_sensors::bounded_str::BoundedString;
use kiwi_sensors::device_blob::{DeviceConfig, WifiConf};
use kiwi_sensors::wifi::{
    net_config, send_failure_action, startup_config, wifi_start, NetConfig, SendAction,
    SendFailure, WifiStart,
};

fn conf(mode: u32, pw: Option<&str>) -> DeviceConfig {
    DeviceConfig {
        wifi: WifiConf::try_from((mode, "field-net", pw)).unwrap(),
        ident: BoundedString::<12>::from_str("kiwi#0042").unwrap(),
    }
}

#[test]
fn startup_falls_back_to_default_access_point() {
    let c = startup_config(Err("WiFi credentials CRC mismatch"));
    assert_eq!(wifi_start(&c), WifiStart::ApOpen);
    assert_eq!(c.ident.as_str(), "kiwi#0001");
    let c = startup_config(Ok(conf(1, Some("secret123"))));
    assert_eq!(wifi_start(&c), WifiStart::JoinWpa2);
    assert_eq!(c.ident.as_str(), "kiwi#0042");
}

#[test]
fn network_setup_follows_mode() {
    assert_eq!(
        net_config(&conf(0, None)),
        NetConfig::Static { address: 0xA9FE_0101, prefix_len: 16 }
    );
    assert_eq!(net_config(&conf(1, None)), NetConfig::Dhcp);
}

#[test]
fn radio_start_follows_password() {
    assert_eq!(wifi_start(&conf(0, None)), WifiStart::ApOpen);
    assert_eq!(wifi_start(&conf(0, Some("secret123"))), WifiStart::ApWpa2);
    assert_eq!(wifi_start(&conf(1, None)), WifiStart::JoinOpen);
}

#[test]
fn failed_sends() {
    assert_eq!(send_failure_action(SendFailure::PacketTooLarge), SendAction::Skip);
    assert_eq!(send_failure_action(SendFailure::NoRoute), SendAction::Reset("NoRouteToHost"));
    assert_eq!(
        send_failure_action(SendFailure::SocketNotBound),
        SendAction::Reset("SocketNotBound")
    );
}
