use kiwi_sensors::bounded_str::BoundedString;
use kiwi_sensors::console::{verify_written, UpdateConfigError};
use kiwi_sensors::device_blob::{check_blob_crc, crc16, DeviceConfig, WifiConf, BLOCK_SIZE};

fn config(mode: u32, ssid: &str, pw: Option<&str>, ident: &str) -> DeviceConfig {
    DeviceConfig {
        wifi: WifiConf::try_from((mode, ssid, pw)).unwrap(),
        ident: BoundedString::<12>::from_str(ident).unwrap(),
    }
}

#[test]
fn crc16_xmodem_check_value() {
    assert_eq!(crc16(b"123456789"), 0x31C3);
    assert_eq!(crc16(b""), 0);
}

#[test]
fn blob_crc_match_and_mismatch() {
    assert_eq!(check_blob_crc(b"123456789", 0x31C3), Ok(()));
    assert_eq!(check_blob_crc(b"123456789", 0x1234), Err(0x31C3));
}

#[test]
fn page_layout() {
    let c = config(0, "kiwi-ap", Some("password1"), "kiwi#0001");
    let page = c.to_bytes();
    assert_eq!(page.len(), BLOCK_SIZE);
    assert_eq!(&page[0..4], &[7, 0, 0, 0]);
    assert_eq!(&page[4..11], b"kiwi-ap");
    assert_eq!(page[11], 0xff);
    assert_eq!(&page[0x100..0x104], &[9, 0, 0, 0]);
    assert_eq!(&page[0x104..0x10d], b"password1");
    assert_eq!(&page[0x200..0x204], &[0xff, 0xff, 0xff, 0xff]);
    assert_eq!(&page[0x300..0x304], &[9, 0, 0, 0]);
    assert_eq!(&page[0x304..0x30d], b"kiwi#0001");
    let crc = crc16(&page[0..0xFF0]);
    assert_eq!(page[0xFF0], (crc & 0xff) as u8);
    assert_eq!(page[0xFF1], (crc >> 8) as u8);
    assert_eq!(&page[0xFF2..0xFF8], &[0, 0, 0, 0, 0, 0]);
    assert_eq!(&page[0xFF8..0x1000], b"CHICKADE");
}

#[test]
fn client_mode_word_and_no_password() {
    let c = config(1, "net", None, "");
    let page = c.to_bytes();
    assert_eq!(&page[0x200..0x204], &[0xfe, 0xff, 0xff, 0xff]);
    assert_eq!(&page[0x100..0x104], &[0, 0, 0, 0]);
}

#[test]
fn roundtrip_access_point() {
    let c = config(0, "kiwi-ap", Some("password1"), "kiwi#0001");
    let back = DeviceConfig::from_bytes(&c.to_bytes()).unwrap();
    assert!(back.same(&c));
    assert_eq!(back.wifi.as_u32(), 0);
    assert_eq!(back.ident.as_str(), "kiwi#0001");
}

#[test]
fn roundtrip_client_utf8() {
    let c = config(1, "Café ☕", None, "nœud");
    let back = DeviceConfig::from_bytes(&c.to_bytes()).unwrap();
    assert!(back.same(&c));
    match &back.wifi {
        WifiConf::Client(s, p) => {
            assert_eq!(s.as_str(), "Café ☕");
            assert!(p.is_none());
        }
        WifiConf::Ap(_, _) => panic!("wrong mode"),
    }
}

#[test]
fn empty_ssid_is_refused_on_read() {
    let c = config(0, "", None, "id");
    assert_eq!(
        DeviceConfig::from_bytes(&c.to_bytes()).err(),
        Some("Invalid SSID or password length")
    );
}

#[test]
fn empty_password_reads_back_as_none() {
    let c = config(0, "ssid", Some(""), "id");
    let back = DeviceConfig::from_bytes(&c.to_bytes()).unwrap();
    assert!(matches!(back.wifi, WifiConf::Ap(_, None)));
}

#[test]
fn wrong_length() {
    assert_eq!(
        DeviceConfig::from_bytes(&[0u8; 100]).err(),
        Some("Invalid WiFi credentials length")
    );
}

#[test]
fn wrong_magic() {
    let mut page = config(0, "a", None, "b").to_bytes();
    page[0xFFF] = b'F';
    assert_eq!(
        DeviceConfig::from_bytes(&page).err(),
        Some("Invalid WiFi credentials magic bytes")
    );
}

#[test]
fn erased_flash_is_refused() {
    let page = [0xffu8; BLOCK_SIZE];
    assert_eq!(
        DeviceConfig::from_bytes(&page).err(),
        Some("Invalid WiFi credentials magic bytes")
    );
}

#[test]
fn crc_mismatch() {
    let mut page = config(0, "abc", None, "b").to_bytes();
    page[5] = b'X';
    assert_eq!(
        DeviceConfig::from_bytes(&page).err(),
        Some("WiFi credentials CRC mismatch")
    );
}

fn reseal(page: &mut [u8; BLOCK_SIZE]) {
    let crc = crc16(&page[0..0xFF0]);
    page[0xFF0] = (crc & 0xff) as u8;
    page[0xFF1] = (crc >> 8) as u8;
}

#[test]
fn erased_password_length_means_none() {
    let mut page = config(0, "abc", None, "b").to_bytes();
    page[0x100..0x104].copy_from_slice(&[0xff; 4]);
    reseal(&mut page);
    let back = DeviceConfig::from_bytes(&page).unwrap();
    assert!(matches!(back.wifi, WifiConf::Ap(_, None)));
}

#[test]
fn invalid_utf8_fields() {
    let mut page = config(0, "abc", Some("password"), "b").to_bytes();
    page[4] = 0xff;
    reseal(&mut page);
    assert_eq!(
        DeviceConfig::from_bytes(&page).err(),
        Some("Invalid SSID: not valid UTF-8")
    );
    let mut page = config(0, "abc", Some("password"), "b").to_bytes();
    page[0x104] = 0xc3;
    page[0x105] = 0x28;
    reseal(&mut page);
    assert_eq!(
        DeviceConfig::from_bytes(&page).err(),
        Some("Invalid password: not valid UTF-8")
    );
    let mut page = config(0, "abc", None, "bb").to_bytes();
    page[0x305] = 0x80;
    reseal(&mut page);
    assert_eq!(
        DeviceConfig::from_bytes(&page).err(),
        Some("Invalid ident: not valid UTF-8")
    );
}

#[test]
fn invalid_mode_and_lengths() {
    let mut page = config(0, "abc", None, "b").to_bytes();
    page[0x200..0x204].copy_from_slice(&[0xfd, 0xff, 0xff, 0xff]);
    reseal(&mut page);
    assert_eq!(DeviceConfig::from_bytes(&page).err(), Some("Invalid WiFi mode"));

    let mut page = config(0, "abc", None, "b").to_bytes();
    page[0..4].copy_from_slice(&[33, 0, 0, 0]);
    reseal(&mut page);
    assert_eq!(
        DeviceConfig::from_bytes(&page).err(),
        Some("Invalid SSID or password length")
    );

    let mut page = config(0, "abc", None, "b").to_bytes();
    page[0x300..0x304].copy_from_slice(&[33, 0, 0, 0]);
    reseal(&mut page);
    assert_eq!(DeviceConfig::from_bytes(&page).err(), Some("Invalid ident length"));

    let mut page = config(0, "abc", None, "b").to_bytes();
    page[0x300..0x304].copy_from_slice(&[13, 0, 0, 0]);
    page[0x304..0x311].copy_from_slice(b"abcdefghijklm");
    reseal(&mut page);
    assert_eq!(DeviceConfig::from_bytes(&page).err(), Some("Ident string too long"));
}

#[test]
fn wifi_conf_try_from() {
    assert!(WifiConf::try_from((2, "a", None)).is_err());
    assert!(WifiConf::try_from((0, "012345678901234567890123456789012", None)).is_err());
    let w = WifiConf::try_from((1, "a", Some("pw"))).unwrap();
    assert_eq!(w.as_u32(), 1);
}

#[test]
fn bounded_string_limits() {
    assert!(BoundedString::<3>::from_str("abc").is_ok());
    assert!(BoundedString::<3>::from_str("abcd").is_err());
    assert!(BoundedString::<3>::from_utf8(&[0xff]).is_none());
    assert_eq!(BoundedString::<3>::from_utf8(b"ab").unwrap().as_str(), "ab");
    assert_eq!(BoundedString::<4>::from_str("é").unwrap().len(), 2);
}

#[test]
fn written_page_verifies() {
    let c = config(1, "lab-net", Some("hunter22"), "kiwi#0042");
    assert!(verify_written(&c, &c.to_bytes()).is_ok());
}

#[test]
fn unreadable_page_fails_verification() {
    let c = config(0, "", None, "id");
    assert!(matches!(verify_written(&c, &c.to_bytes()), Err(UpdateConfigError::DeserializeError)));
    let other = config(0, "a", None, "b");
    assert!(matches!(verify_written(&c, &[0u8; 12]), Err(UpdateConfigError::DeserializeError)));
    assert!(verify_written(&other, &other.to_bytes()).is_ok());
}

#[test]
fn other_settings_fail_verification() {
    let c = config(0, "ssid", Some(""), "id");
    match verify_written(&c, &c.to_bytes()) {
        Err(UpdateConfigError::VerificationError(back)) => {
            assert!(matches!(back.wifi, WifiConf::Ap(_, None)));
        }
        _ => panic!("expected a verification error"),
    }
    let written = config(0, "ssid", None, "id");
    let intended = config(1, "ssid", None, "id");
    assert!(matches!(
        verify_written(&intended, &written.to_bytes()),
        Err(UpdateConfigError::VerificationError(_))
    ));
}

#[test]
fn any_single_byte_change_is_refused() {
    let page = config(1, "kiwi-net", Some("hunter22"), "node7").to_bytes();
    for &i in &[0usize, 3, 4, 0x104, 0x200, 0x304, 0x800, 0xFEF] {
        for &x in &[1u8, 0x80, 0xff] {
            let mut bad = page;
            bad[i] ^= x;
            assert_eq!(
                DeviceConfig::from_bytes(&bad).err(),
                Some("WiFi credentials CRC mismatch")
            );
        }
    }
}

#[test]
fn crc16_of_small_inputs() {
    assert_eq!(crc16(&[]), 0);
    assert_eq!(crc16(&[0]), 0);
    assert_eq!(crc16(&[1]), 0x1021);
    assert_eq!(crc16(b"A"), 0x58e5);
}
