use kiwi_sensors::bounded_str::BoundedString;
use kiwi_sensors::console::{
    apply_command, default_config, process_ssid_pw, Command, Echo, Ident, LineEditor, Reply,
    WifiCmd, DEFAULT_DEVICE_NAME, DEFAULT_WIFI_HOST_AP, LINE_CAPACITY,
};
use kiwi_sensors::device_blob::{DeviceConfig, WifiConf};

fn line(e: &LineEditor) -> String {
    e.chars().iter().collect()
}

fn b32(s: &str) -> BoundedString<32> {
    BoundedString::<32>::from_str(s).unwrap()
}

fn b64(s: &str) -> BoundedString<64> {
    BoundedString::<64>::from_str(s).unwrap()
}

#[test]
fn echo_and_complete_line() {
    let mut e = LineEditor::new();
    let (echo, done) = e.process_input("ab");
    assert_eq!(echo, vec![Echo::Char('a'), Echo::Char('b')]);
    assert!(!done);
    let (echo, done) = e.process_input("c\rxyz");
    assert_eq!(echo, vec![Echo::Char('c'), Echo::NewLine]);
    assert!(done);
    assert_eq!(line(&e), "abc");
    e.clear();
    assert_eq!(line(&e), "");
}

#[test]
fn backspace_and_delete() {
    let mut e = LineEditor::new();
    let (echo, done) = e.process_input("ab\x08c\x7f\x7f\x7f");
    assert_eq!(
        echo,
        vec![Echo::Char('a'), Echo::Char('b'), Echo::Erase, Echo::Char('c'), Echo::Erase, Echo::Erase]
    );
    assert!(!done);
    assert_eq!(line(&e), "");
}

#[test]
fn empty_line_gives_prompt() {
    let mut e = LineEditor::new();
    let (echo, done) = e.process_input("\r\nx");
    assert_eq!(echo, vec![Echo::Prompt, Echo::Prompt, Echo::Char('x')]);
    assert!(!done);
    assert_eq!(line(&e), "x");
}

#[test]
fn escape_sequences_are_ignored() {
    let mut e = LineEditor::new();
    let (echo, _) = e.process_input("a\x1b[Ab\t");
    assert_eq!(echo, vec![Echo::Char('a'), Echo::Char('b')]);
    assert_eq!(line(&e), "ab");
}

#[test]
fn overflow_discards_line() {
    let mut e = LineEditor::new();
    let long = "x".repeat(LINE_CAPACITY);
    let (echo, _) = e.process_input(&long);
    assert_eq!(echo.len(), LINE_CAPACITY);
    assert_eq!(line(&e).len(), LINE_CAPACITY);
    let (echo, done) = e.process_input("yz");
    assert_eq!(echo, vec![Echo::Overflow, Echo::Char('z')]);
    assert!(!done);
    assert_eq!(line(&e), "z");
}

#[test]
fn multibyte_characters_count_bytes() {
    let mut e = LineEditor::new();
    let text = "é".repeat(LINE_CAPACITY / 2);
    let (echo, _) = e.process_input(&text);
    assert_eq!(echo.len(), LINE_CAPACITY / 2);
    let (echo, _) = e.process_input("a");
    assert_eq!(echo, vec![Echo::Overflow]);
    assert_eq!(line(&e), "");
}

#[test]
fn credentials_checks() {
    assert_eq!(
        process_ssid_pw("net", Some("short")).err(),
        Some("Error: Password too short (minimum 8 characters)")
    );
    let (s, p) = process_ssid_pw("net", Some("longenough")).unwrap();
    assert_eq!(s.as_str(), "net");
    assert_eq!(p.unwrap().as_str(), "longenough");
    let (s, p) = process_ssid_pw("open", None).unwrap();
    assert_eq!(s.as_str(), "open");
    assert!(p.is_none());
    let long_ssid = "s".repeat(33);
    let long_pw = "p".repeat(65);
    let (s, p) = process_ssid_pw(&long_ssid, Some(&long_pw)).unwrap();
    assert_eq!(s.as_str(), "");
    assert_eq!(p.unwrap().as_str(), "");
}

#[test]
fn default_configuration() {
    let c = default_config();
    assert_eq!(c.wifi.as_u32(), 0);
    match &c.wifi {
        WifiConf::Ap(s, p) => {
            assert_eq!(s.as_str(), DEFAULT_WIFI_HOST_AP);
            assert!(p.is_none());
        }
        WifiConf::Client(_, _) => panic!("expected access point"),
    }
    assert_eq!(c.ident.as_str(), DEFAULT_DEVICE_NAME);
}

#[test]
fn plain_commands_keep_pending_config() {
    let mut conf: Option<DeviceConfig> = None;
    assert!(matches!(apply_command(&mut conf, Command::Help), Reply::Help));
    assert!(matches!(apply_command(&mut conf, Command::Show), Reply::Show));
    assert!(matches!(apply_command(&mut conf, Command::Reset), Reply::Reset));
    assert!(matches!(apply_command(&mut conf, Command::Clear), Reply::Clear));
    assert!(matches!(apply_command(&mut conf, Command::Wifi(WifiCmd::Status)), Reply::WifiStatus));
    assert!(matches!(apply_command(&mut conf, Command::Ident(Ident::Get)), Reply::IdentGet));
    assert!(conf.is_none());
}

#[test]
fn store_without_pending_config() {
    let mut conf: Option<DeviceConfig> = None;
    assert!(matches!(apply_command(&mut conf, Command::Store), Reply::NothingToStore));
}

#[test]
fn ident_then_store() {
    let mut conf: Option<DeviceConfig> = None;
    let id = BoundedString::<12>::from_str("probe-7").unwrap();
    assert!(matches!(apply_command(&mut conf, Command::Ident(Ident::SetTo(id))), Reply::IdentSet));
    let pending = conf.as_ref().unwrap();
    assert_eq!(pending.ident.as_str(), "probe-7");
    match &pending.wifi {
        WifiConf::Ap(s, p) => {
            assert_eq!(s.as_str(), DEFAULT_WIFI_HOST_AP);
            assert!(p.is_none());
        }
        WifiConf::Client(_, _) => panic!("expected access point"),
    }
    match apply_command(&mut conf, Command::Store) {
        Reply::Store(c) => assert_eq!(c.ident.as_str(), "probe-7"),
        _ => panic!("expected a configuration to store"),
    }
    assert!(conf.is_none());
}

#[test]
fn wifi_client_then_ap() {
    let mut conf: Option<DeviceConfig> = None;
    let cmd = Command::Wifi(WifiCmd::Cl { ssid: b32("home"), password: Some(b64("secret-pass")) });
    assert!(matches!(apply_command(&mut conf, cmd), Reply::ClientSet));
    let pending = conf.as_ref().unwrap();
    assert_eq!(pending.wifi.as_u32(), 1);
    assert_eq!(pending.ident.as_str(), DEFAULT_DEVICE_NAME);
    let cmd = Command::Wifi(WifiCmd::Ap { ssid: b32("field"), password: None });
    assert!(matches!(apply_command(&mut conf, cmd), Reply::ApSet));
    let pending = conf.as_ref().unwrap();
    match &pending.wifi {
        WifiConf::Ap(s, p) => {
            assert_eq!(s.as_str(), "field");
            assert!(p.is_none());
        }
        WifiConf::Client(_, _) => panic!("expected access point"),
    }
}

#[test]
fn short_password_is_refused() {
    let mut conf = Some(default_config());
    let cmd = Command::Wifi(WifiCmd::Ap { ssid: b32("x"), password: Some(b64("1234567")) });
    match apply_command(&mut conf, cmd) {
        Reply::CredentialError(e) => {
            assert_eq!(e, "Error: Password too short (minimum 8 characters)")
        }
        _ => panic!("expected a credential error"),
    }
    assert!(conf.unwrap().same(&default_config()));
}

#[test]
fn typed_line_is_echoed_and_completed() {
    let mut e = LineEditor::new();
    let (echo, done) = e.process_input("wifi status\nignored");
    let mut expected: Vec<Echo> = "wifi status".chars().map(Echo::Char).collect();
    expected.push(Echo::NewLine);
    assert_eq!(echo, expected);
    assert!(done);
    assert_eq!(line(&e), "wifi status");
}
