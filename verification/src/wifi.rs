//! Decisions of the Wi-Fi link: the configuration it starts from, the
//! network setup and start-up mode that follow from it, and what a failed
//! packet send leads to.
use vstd::prelude::*;

use crate::console::{default_config, spec_default_config};
use crate::device_blob::{ConfigView, DeviceConfig, WifiConf};

verus! {

/// The configuration the link starts from: the stored one, or the default
/// open access point when none could be read.
pub fn startup_config(loaded: Result<DeviceConfig, &'static str>) -> (r: DeviceConfig)
    ensures
        loaded matches Ok(c) ==> r.view() == c.view(),
        loaded is Err ==> r.view() == spec_default_config(),
{
    match loaded {
        Ok(c) => c,
        Err(_) => default_config(),
    }
}

/// IPv4 setup of the network interface.
#[derive(Debug, Clone, Copy, PartialEq, Eq, Structural)]
pub enum NetConfig {
    /// Static IPv4 address (most significant byte first) with a prefix
    /// length, the address also serving as gateway
    Static { address: u32, prefix_len: u8 },
    /// Address from DHCP
    Dhcp,
}

/// Address of the access point: 169.254.1.1 in 169.254.0.0/16.
pub open spec fn ap_address() -> u32 {
    (169 * 0x100_0000 + 254 * 0x1_0000 + 1 * 0x100 + 1) as u32
}

/// IPv4 setup: an access point serves a static link-local address, a client
/// asks DHCP.
pub fn net_config(conf: &DeviceConfig) -> (r: NetConfig)
    ensures
        conf.view().mode == 0 ==> r == (NetConfig::Static { address: ap_address(), prefix_len: 16 }),
        conf.view().mode == 1 ==> r == NetConfig::Dhcp,
{
    match &conf.wifi {
        WifiConf::Ap(_, _) => NetConfig::Static { address: 0xA9FE_0101, prefix_len: 16 },
        WifiConf::Client(_, _) => NetConfig::Dhcp,
    }
}

/// How the radio is started.
#[derive(Debug, Clone, Copy, PartialEq, Eq, Structural)]
pub enum WifiStart {
    /// Open access point
    ApOpen,
    /// WPA2 access point with the configured password
    ApWpa2,
    /// Join an open network, retrying until it succeeds
    JoinOpen,
    /// Join a WPA2 network with the configured password, retrying until it
    /// succeeds
    JoinWpa2,
}

/// Start-up of the radio for a configuration: access point or client, with
/// WPA2 exactly when a password is set.
pub fn wifi_start(conf: &DeviceConfig) -> (r: WifiStart)
    ensures
        r == (if conf.view().mode == 0 {
            if conf.view().password is Some {
                WifiStart::ApWpa2
            } else {
                WifiStart::ApOpen
            }
        } else {
            if conf.view().password is Some {
                WifiStart::JoinWpa2
            } else {
                WifiStart::JoinOpen
            }
        }),
{
    match &conf.wifi {
        WifiConf::Ap(_, pw) => if pw.is_some() {
            WifiStart::ApWpa2
        } else {
            WifiStart::ApOpen
        },
        WifiConf::Client(_, pw) => if pw.is_some() {
            WifiStart::JoinWpa2
        } else {
            WifiStart::JoinOpen
        },
    }
}

/// Why a UDP packet could not be sent.
#[derive(Debug, Clone, Copy, PartialEq, Eq, Structural)]
pub enum SendFailure {
    /// No route to the destination
    NoRoute,
    /// The socket is not bound to a local port
    SocketNotBound,
    /// The packet does not fit the buffer
    PacketTooLarge,
}

/// What follows a failed send.
#[derive(Debug, Clone, Copy, PartialEq, Eq)]
pub enum SendAction {
    /// Drop the packet and go on
    Skip,
    /// Reset the device, giving this reason
    Reset(&'static str),
}

/// A packet too large is dropped; a missing route or an unbound socket
/// resets the device with the reason named.
pub fn send_failure_action(e: SendFailure) -> (r: SendAction)
    ensures
        e == SendFailure::PacketTooLarge ==> r == SendAction::Skip,
        e == SendFailure::NoRoute ==> r == SendAction::Reset("NoRouteToHost"),
        e == SendFailure::SocketNotBound ==> r == SendAction::Reset("SocketNotBound"),
{
    match e {
        SendFailure::NoRoute => SendAction::Reset("NoRouteToHost"),
        SendFailure::SocketNotBound => SendAction::Reset("SocketNotBound"),
        SendFailure::PacketTooLarge => SendAction::Skip,
    }
}

} // verus!
