//! Flash layout of the device configuration (Wi-Fi credentials and device
//! identifier) and the CRC16 checks of configuration and firmware blobs.
//!
//! The configuration occupies one 4 KiB page:
//! - `0x000`: `[u32 SSID length][SSID bytes]`
//! - `0x100`: `[u32 password length][password bytes]`, length 0 for none
//! - `0x200`: `[u32 Wi-Fi mode XOR 0xFFFF_FFFF]` (0 = AP, 1 = WPA2 client)
//! - `0x300`: `[u32 ident length][ident bytes]`
//! - `0xFF0`: CRC16/XMODEM of bytes `0x000..0xFF0`, as a little-endian `u64`
//! - `0xFF8`: magic `"CHICKADE"`
//!
//! Unused bytes hold `0xFF`, the erased state of flash.
use vstd::prelude::*;
use vstd::string::*;
use vstd::utf8::*;

use crate::arith::le32;
use crate::bounded_str::{BoundedString, str_from_utf8};

verus! {

/// Size of the flash block used to store the device configuration.
pub const BLOCK_SIZE: usize = 0x1000;

/// Number of leading bytes covered by the CRC.
pub const CRC_COVERED: usize = 0xFF0;

/// One bit step of the CRC16/XMODEM register: shift left, and XOR the
/// polynomial 0x1021 in when the bit shifted out was set.
pub open spec fn crc16_bit(c: u16) -> u16 {
    if c & 0x8000u16 != 0 {
        (c << 1u16) ^ 0x1021u16
    } else {
        c << 1u16
    }
}

/// The register after one byte: the byte XORed into the high half, then
/// eight bit steps.
pub open spec fn crc16_byte(c: u16, b: u8) -> u16 {
    let x = c ^ ((b as u16) << 8u16);
    crc16_bit(crc16_bit(crc16_bit(crc16_bit(crc16_bit(crc16_bit(crc16_bit(crc16_bit(x))))))))
}

/// The register after feeding `data`, starting from `c`.
pub open spec fn crc16_from(c: u16, data: Seq<u8>) -> u16
    decreases data.len(),
{
    if data.len() == 0 {
        c
    } else {
        crc16_byte(crc16_from(c, data.drop_last()), data.last())
    }
}

/// CRC16/XMODEM of a byte sequence: polynomial 0x1021, initial value 0, no
/// reflection, no final XOR.
pub open spec fn crc16_xmodem(data: Seq<u8>) -> u16 {
    crc16_from(0, data)
}

/// `crc16::State::<crc16::XMODEM>::calculate`: the CRC-16/XMODEM of `data`
/// (poly 0x1021, init 0, refin and refout false, xorout 0), as the crate
/// documents it. The crate computes it with a byte table and two appended
/// zero bytes, which gives the same value.
#[verifier::external_body]
fn crc16_calculate(data: &[u8]) -> (r: u16)
    ensures
        r == crc16_xmodem(data@),
{
    crc16::State::<crc16::XMODEM>::calculate(data)
}

/// The CRC16/XMODEM of a byte slice.
pub fn crc16(data: &[u8]) -> (r: u16)
    ensures
        r == crc16_xmodem(data@),
{
    crc16_calculate(data)
}

/// Check a firmware blob against its expected CRC16; on a mismatch the
/// computed CRC is returned.
pub fn check_blob_crc(blob: &[u8], crc: u16) -> (r: Result<(), u16>)
    ensures
        r is Ok <==> crc16_xmodem(blob@) == crc,
        r is Err ==> r == Err::<(), u16>(crc16_xmodem(blob@)),
{
    let calc: u16 = crc16(blob);
    if calc == crc {
        Ok(())
    } else {
        Err(calc)
    }
}

/// Wi-Fi configuration: Access Point or Client, with SSID and optional password.
pub enum WifiConf {
    /// Access Point mode with SSID and optional password
    Ap(BoundedString<32>, Option<BoundedString<64>>),
    /// Client mode with SSID and optional password
    Client(BoundedString<32>, Option<BoundedString<64>>),
}

/// Device configuration.
pub struct DeviceConfig {
    /// Wi-Fi configuration (AP or Client)
    pub wifi: WifiConf,
    /// Device identifier string
    pub ident: BoundedString<12>,
}

/// Abstract content of a device configuration.
pub struct ConfigView {
    /// 0 for Access Point, 1 for Client
    pub mode: u32,
    /// SSID bytes
    pub ssid: Seq<u8>,
    /// Password bytes, if any
    pub password: Option<Seq<u8>>,
    /// Device identifier bytes
    pub ident: Seq<u8>,
}

/// View of an optional bounded string.
pub open spec fn opt_view<const N: usize>(o: Option<BoundedString<N>>) -> Option<Seq<u8>> {
    match o {
        Some(s) => Some(s@),
        None => None,
    }
}

impl WifiConf {
    /// 0 for Access Point, 1 for Client.
    pub open spec fn spec_mode(&self) -> u32 {
        match self {
            WifiConf::Ap(_, _) => 0,
            WifiConf::Client(_, _) => 1,
        }
    }

    /// SSID bytes.
    pub open spec fn spec_ssid(&self) -> Seq<u8> {
        match self {
            WifiConf::Ap(s, _) => s@,
            WifiConf::Client(s, _) => s@,
        }
    }

    /// Password bytes, if any.
    pub open spec fn spec_password(&self) -> Option<Seq<u8>> {
        match self {
            WifiConf::Ap(_, p) => opt_view(*p),
            WifiConf::Client(_, p) => opt_view(*p),
        }
    }

    /// 0 for Access Point, 1 for Client.
    pub fn as_u32(&self) -> (r: u32)
        ensures
            r == self.spec_mode(),
    {
        match self {
            WifiConf::Ap(_, _) => 0,
            WifiConf::Client(_, _) => 1,
        }
    }

    /// Build a configuration from a mode number (0 = AP, 1 = Client), an SSID
    /// and an optional password. Fails on another mode or a string too long.
    pub fn try_from(inp: (u32, &str, Option<&str>)) -> (r: Result<WifiConf, ()>)
        ensures
            r is Ok <==> (inp.0 <= 1 && inp.1.spec_bytes().len() <= 32 && (inp.2 is Some
                ==> inp.2->0.spec_bytes().len() <= 64)),
            r is Ok ==> r->Ok_0.spec_mode() == inp.0,
            r is Ok ==> r->Ok_0.spec_ssid() == inp.1.spec_bytes(),
            r is Ok ==> r->Ok_0.spec_password() == match inp.2 {
                Some(p) => Some(p.spec_bytes()),
                None => None::<Seq<u8>>,
            },
    {
        let (value, ssid, password) = inp;
        let ssid = match BoundedString::<32>::from_str(ssid) {
            Ok(s) => s,
            Err(_) => return Err(()),
        };
        let password = match password {
            Some(pw) => match BoundedString::<64>::from_str(pw) {
                Ok(p) => Some(p),
                Err(_) => return Err(()),
            },
            None => None,
        };
        if value == 0 {
            Ok(WifiConf::Ap(ssid, password))
        } else if value == 1 {
            Ok(WifiConf::Client(ssid, password))
        } else {
            Err(())
        }
    }

    /// A copy of the configuration.
    pub fn duplicate(&self) -> (r: WifiConf)
        ensures
            r.spec_mode() == self.spec_mode(),
            r.spec_ssid() == self.spec_ssid(),
            r.spec_password() == self.spec_password(),
    {
        match self {
            WifiConf::Ap(s, p) => WifiConf::Ap(s.duplicate(), dup_opt(p)),
            WifiConf::Client(s, p) => WifiConf::Client(s.duplicate(), dup_opt(p)),
        }
    }
}

fn dup_opt(p: &Option<BoundedString<64>>) -> (r: Option<BoundedString<64>>)
    ensures
        opt_view(r) == opt_view(*p),
{
    match p {
        Some(s) => Some(s.duplicate()),
        None => None,
    }
}

impl DeviceConfig {
    /// Abstract content of the configuration.
    pub open spec fn view(&self) -> ConfigView {
        ConfigView {
            mode: self.wifi.spec_mode(),
            ssid: self.wifi.spec_ssid(),
            password: self.wifi.spec_password(),
            ident: self.ident@,
        }
    }

    /// A copy of the configuration.
    pub fn duplicate(&self) -> (r: DeviceConfig)
        ensures
            r.view() == self.view(),
    {
        DeviceConfig { wifi: self.wifi.duplicate(), ident: self.ident.duplicate() }
    }

    /// Whether both configurations hold the same settings.
    pub fn same(&self, other: &DeviceConfig) -> (r: bool)
        ensures
            r == (self.view() == other.view()),
    {
        let (s1, p1) = match &self.wifi {
            WifiConf::Ap(s, p) => (s, p),
            WifiConf::Client(s, p) => (s, p),
        };
        let (s2, p2) = match &other.wifi {
            WifiConf::Ap(s, p) => (s, p),
            WifiConf::Client(s, p) => (s, p),
        };
        let same_pw = match (p1, p2) {
            (Some(a), Some(b)) => a.same(b),
            (None, None) => true,
            _ => false,
        };
        self.wifi.as_u32() == other.wifi.as_u32() && s1.same(s2) && same_pw && self.ident.same(
            &other.ident,
        )
    }
}

/// Little-endian bytes of a 32-bit value.
pub open spec fn le32_bytes(v: u32) -> Seq<u8> {
    seq![(v % 256) as u8, ((v / 256) % 256) as u8, ((v / 65536) % 256) as u8, (v / 16777216) as u8]
}

/// `data` written over `s` starting at `base`.
pub open spec fn put(s: Seq<u8>, base: int, data: Seq<u8>) -> Seq<u8> {
    Seq::new(s.len(), |k: int| if base <= k < base + data.len() { data[k - base] } else { s[k] })
}

/// The encoded Wi-Fi mode: the mode number XOR 0xFFFF_FFFF, little-endian.
pub open spec fn mode_word(mode: u32) -> Seq<u8> {
    if mode == 0 {
        seq![0xffu8, 0xffu8, 0xffu8, 0xffu8]
    } else {
        seq![0xfeu8, 0xffu8, 0xffu8, 0xffu8]
    }
}

/// The magic bytes `"CHICKADE"` that end a configuration page.
pub open spec fn magic() -> Seq<u8> {
    seq![0x43u8, 0x48u8, 0x49u8, 0x43u8, 0x4Bu8, 0x41u8, 0x44u8, 0x45u8]
}

/// The page before the CRC and the magic bytes are added.
pub open spec fn config_body(c: ConfigView) -> Seq<u8> {
    let s0 = Seq::new(BLOCK_SIZE as nat, |k: int| 0xffu8);
    let s1 = put(put(s0, 0, le32_bytes(c.ssid.len() as u32)), 4, c.ssid);
    let s2 = match c.password {
        Some(p) => put(put(s1, 0x100, le32_bytes(p.len() as u32)), 0x104, p),
        None => put(s1, 0x100, le32_bytes(0)),
    };
    let s3 = put(s2, 0x200, mode_word(c.mode));
    put(put(s3, 0x300, le32_bytes(c.ident.len() as u32)), 0x304, c.ident)
}

/// Little-endian bytes of a CRC stored as a 64-bit value.
pub open spec fn crc_word(crc: u16) -> Seq<u8> {
    seq![(crc % 256) as u8, (crc / 256) as u8, 0u8, 0u8, 0u8, 0u8, 0u8, 0u8]
}

/// The full flash page of a configuration.
pub open spec fn spec_to_bytes(c: ConfigView) -> Seq<u8> {
    let body = config_body(c);
    put(put(body, 0xFF0, crc_word(crc16_xmodem(body.take(0xFF0)))), 0xFF8, magic())
}

/// Write `data` into `page` at `base`.
fn write_at(page: &mut [u8; 4096], base: usize, data: &[u8])
    requires
        base + data@.len() <= 4096,
    ensures
        final(page)@ == put(old(page)@, base as int, data@),
{
    let ghost start = page@;
    let mut i: usize = 0;
    while i < data.len()
        invariant
            base + data@.len() <= 4096,
            i <= data@.len(),
            start.len() == 4096,
            page@.len() == 4096,
            forall|k: int|
                0 <= k < 4096 ==> page@[k] == (if base <= k < base + i {
                    data@[k - base]
                } else {
                    start[k]
                }),
        decreases data@.len() - i,
    {
        page[base + i] = data[i];
        i = i + 1;
    }
    assert(page@ =~= put(start, base as int, data@));
}

/// Little-endian bytes of a 32-bit value.
fn le32_exec(v: u32) -> (r: [u8; 4])
    ensures
        r@ == le32_bytes(v),
{
    let r = [(v % 256) as u8, ((v / 256) % 256) as u8, ((v / 65536) % 256) as u8, (v / 16777216) as u8];
    assert(r@ =~= le32_bytes(v));
    r
}

/// Write `[u32 length][bytes]` at `base`.
fn write_block(page: &mut [u8; 4096], base: usize, data: &[u8])
    requires
        base + 4 + data@.len() <= 4096,
        data@.len() <= 64,
    ensures
        final(page)@ == put(
            put(old(page)@, base as int, le32_bytes(data@.len() as u32)),
            base + 4,
            data@,
        ),
{
    let len_word = le32_exec(data.len() as u32);
    write_at(page, base, len_word.as_slice());
    write_at(page, base + 4, data);
}

impl DeviceConfig {
    /// Serialize the device configuration into a page suitable for writing to flash.
    pub fn to_bytes(&self) -> (r: [u8; 4096])
        ensures
            r@ == spec_to_bytes(self.view()),
    {
        let mut page = [0xffu8; 4096];
        assert(page@ =~= Seq::new(BLOCK_SIZE as nat, |k: int| 0xffu8));
        let (ssid, password) = match &self.wifi {
            WifiConf::Ap(s, p) => (s, p),
            WifiConf::Client(s, p) => (s, p),
        };
        write_block(&mut page, 0, ssid.as_bytes());
        match password {
            Some(pw) => {
                write_block(&mut page, 0x100, pw.as_bytes());
            },
            None => {
                let zero = le32_exec(0);
                write_at(&mut page, 0x100, zero.as_slice());
            },
        }
        let mode = if self.wifi.as_u32() == 0 {
            [0xffu8, 0xffu8, 0xffu8, 0xffu8]
        } else {
            [0xfeu8, 0xffu8, 0xffu8, 0xffu8]
        };
        assert(mode@ =~= mode_word(self.wifi.spec_mode()));
        write_at(&mut page, 0x200, mode.as_slice());
        write_block(&mut page, 0x300, self.ident.as_bytes());
        let ghost body = page@;
        assert(body == config_body(self.view()));
        let crc: u16 = crc16(&page.as_slice()[0..CRC_COVERED]);
        assert(page@.subrange(0, 0xFF0) =~= body.take(0xFF0));
        let crc_bytes = [(crc % 256) as u8, (crc / 256) as u8, 0u8, 0u8, 0u8, 0u8, 0u8, 0u8];
        assert(crc_bytes@ =~= crc_word(crc));
        write_at(&mut page, 0xFF0, crc_bytes.as_slice());
        let magic_bytes = [0x43u8, 0x48u8, 0x49u8, 0x43u8, 0x4Bu8, 0x41u8, 0x44u8, 0x45u8];
        assert(magic_bytes@ =~= magic());
        write_at(&mut page, 0xFF8, magic_bytes.as_slice());
        page
    }
}


/// Little-endian 32-bit word at `off`.
pub open spec fn word_at(b: Seq<u8>, off: int) -> int {
    le32(b[off], b[off + 1], b[off + 2], b[off + 3])
}

/// The password length field; 0xFFFF_FFFF (erased flash) means no password.
pub open spec fn password_len(b: Seq<u8>) -> int {
    if word_at(b, 0x100) == 0xffff_ffff {
        0
    } else {
        word_at(b, 0x100)
    }
}

/// The mode number stored at 0x200 (the stored word XOR 0xFFFF_FFFF).
pub open spec fn stored_mode(b: Seq<u8>) -> u32 {
    (word_at(b, 0x200) as u32) ^ 0xffff_ffffu32
}

/// Result of reading a configuration page, error messages included.
pub open spec fn spec_from_bytes(b: Seq<u8>) -> Result<ConfigView, &'static str> {
    if b.len() != BLOCK_SIZE {
        Err("Invalid WiFi credentials length")
    } else if b.subrange(0xFF8, 0x1000) != magic() {
        Err("Invalid WiFi credentials magic bytes")
    } else if crc16_xmodem(b.take(0xFF0)) != b[0xFF0] + 256 * b[0xFF1] {
        Err("WiFi credentials CRC mismatch")
    } else {
        let ssid_len = word_at(b, 0);
        let pw_len = password_len(b);
        let ssid = b.subrange(4, 4 + ssid_len);
        let pw = b.subrange(0x104, 0x104 + pw_len);
        let ident_len = word_at(b, 0x300);
        let ident = b.subrange(0x304, 0x304 + ident_len);
        if ssid_len == 0 || ssid_len > 32 || pw_len > 64 {
            Err("Invalid SSID or password length")
        } else if !valid_utf8(ssid) {
            Err("Invalid SSID: not valid UTF-8")
        } else if pw_len > 0 && !valid_utf8(pw) {
            Err("Invalid password: not valid UTF-8")
        } else if stored_mode(b) > 1 {
            Err("Invalid WiFi mode")
        } else if ident_len > 32 {
            Err("Invalid ident length")
        } else if !valid_utf8(ident) {
            Err("Invalid ident: not valid UTF-8")
        } else if ident_len > 12 {
            Err("Ident string too long")
        } else {
            Ok(
                ConfigView {
                    mode: stored_mode(b),
                    ssid,
                    password: if pw_len > 0 {
                        Some(pw)
                    } else {
                        None
                    },
                    ident,
                },
            )
        }
    }
}

/// Little-endian 32-bit word at `off`.
fn read_le32(b: &[u8], off: usize) -> (r: u32)
    requires
        off + 4 <= b@.len(),
    ensures
        r == word_at(b@, off as int),
{
    (b[off] as u32) + (b[off + 1] as u32) * 256 + (b[off + 2] as u32) * 65536 + (b[off + 3] as u32)
        * 16777216
}

impl DeviceConfig {
    /// Deserialize a flash page into a configuration, checking its length,
    /// magic bytes, CRC16, field lengths, UTF-8 text and Wi-Fi mode.
    pub fn from_bytes(bytes: &[u8]) -> (r: Result<DeviceConfig, &'static str>)
        ensures
            match r {
                Ok(c) => spec_from_bytes(bytes@) == Ok::<ConfigView, &'static str>(c.view()),
                Err(e) => spec_from_bytes(bytes@) == Err::<ConfigView, &'static str>(e),
            },
    {
        if bytes.len() != BLOCK_SIZE {
            return Err("Invalid WiFi credentials length");
        }
        let magic_bytes = [0x43u8, 0x48u8, 0x49u8, 0x43u8, 0x4Bu8, 0x41u8, 0x44u8, 0x45u8];
        assert(magic_bytes@ =~= magic());
        if !crate::bounded_str::bytes_equal(&bytes[0xFF8..BLOCK_SIZE], magic_bytes.as_slice()) {
            return Err("Invalid WiFi credentials magic bytes");
        }
        let expected_crc: u16 = (bytes[0xFF0] as u16) + (bytes[0xFF1] as u16) * 256;
        let calc_crc: u16 = crc16(&bytes[0..CRC_COVERED]);
        assert(bytes@.subrange(0, 0xFF0) =~= bytes@.take(0xFF0));
        if calc_crc != expected_crc {
            return Err("WiFi credentials CRC mismatch");
        }
        let ssid_len: usize = read_le32(bytes, 0) as usize;
        let mut pw_len: usize = read_le32(bytes, 0x100) as usize;
        if pw_len == 0xffff_ffff {
            pw_len = 0;
        }
        if ssid_len == 0 || ssid_len > 32 || pw_len > 64 {
            return Err("Invalid SSID or password length");
        }
        let ssid = match str_from_utf8(&bytes[4..4 + ssid_len]) {
            Some(s) => s,
            None => return Err("Invalid SSID: not valid UTF-8"),
        };
        let password = if pw_len > 0 {
            match str_from_utf8(&bytes[0x104..0x104 + pw_len]) {
                Some(p) => Some(p),
                None => return Err("Invalid password: not valid UTF-8"),
            }
        } else {
            None
        };
        let mode: u32 = read_le32(bytes, 0x200) ^ 0xffff_ffff;
        let wifi = match WifiConf::try_from((mode, ssid, password)) {
            Ok(w) => w,
            Err(_) => return Err("Invalid WiFi mode"),
        };
        let ident_len: usize = read_le32(bytes, 0x300) as usize;
        if ident_len > 32 {
            return Err("Invalid ident length");
        }
        let ident = match str_from_utf8(&bytes[0x304..0x304 + ident_len]) {
            Some(s) => s,
            None => return Err("Invalid ident: not valid UTF-8"),
        };
        let ident = match BoundedString::<12>::from_str(ident) {
            Ok(i) => i,
            Err(_) => return Err("Ident string too long"),
        };
        Ok(DeviceConfig { wifi, ident })
    }
}

/// A configuration view that the page layout can hold: mode 0 or 1, a
/// non-empty SSID of at most 32 bytes, a password of 1 to 64 bytes if any, an
/// identifier of at most 12 bytes, all valid UTF-8.
pub open spec fn storable(c: ConfigView) -> bool {
    &&& c.mode <= 1
    &&& 1 <= c.ssid.len() <= 32
    &&& valid_utf8(c.ssid)
    &&& (c.password matches Some(p) ==> 1 <= p.len() <= 64 && valid_utf8(p))
    &&& c.ident.len() <= 12
    &&& valid_utf8(c.ident)
}

proof fn lemma_small_word(v: u32)
    requires
        v < 256,
    ensures
        le32_bytes(v) == seq![v as u8, 0u8, 0u8, 0u8],
{
    assert(le32_bytes(v) =~= seq![v as u8, 0u8, 0u8, 0u8]);
}

/// Reading back a written configuration page gives the configuration that
/// was written, for every configuration the layout can hold.
pub proof fn lemma_config_roundtrip(c: ConfigView)
    requires
        storable(c),
    ensures
        spec_from_bytes(spec_to_bytes(c)) == Ok::<ConfigView, &'static str>(c),
{
    let body = config_body(c);
    let b = spec_to_bytes(c);
    let crc = crc16_xmodem(body.take(0xFF0));
    lemma_small_word(c.ssid.len() as u32);
    lemma_small_word(c.ident.len() as u32);
    lemma_small_word(0);
    if c.password is Some {
        lemma_small_word(c.password->0.len() as u32);
    }
    assert(b.len() == BLOCK_SIZE);
    assert(b.subrange(0xFF8, 0x1000) =~= magic());
    assert(b.take(0xFF0) =~= body.take(0xFF0));
    assert(b[0xFF0] + 256 * b[0xFF1] == crc);
    assert(word_at(b, 0) == c.ssid.len());
    assert(b.subrange(4, 4 + c.ssid.len() as int) =~= c.ssid);
    match c.password {
        Some(p) => {
            assert(word_at(b, 0x100) == p.len());
            assert(b.subrange(0x104, 0x104 + p.len() as int) =~= p);
        },
        None => {
            assert(word_at(b, 0x100) == 0);
        },
    }
    assert(word_at(b, 0x300) == c.ident.len());
    assert(b.subrange(0x304, 0x304 + c.ident.len() as int) =~= c.ident);
    if c.mode == 0 {
        assert(word_at(b, 0x200) == 0xffff_ffff);
        assert(0xffff_ffffu32 ^ 0xffff_ffffu32 == 0u32) by (bit_vector);
    } else {
        assert(word_at(b, 0x200) == 0xffff_fffe);
        assert(0xffff_fffeu32 ^ 0xffff_ffffu32 == 1u32) by (bit_vector);
    }
    assert(spec_from_bytes(b) == Ok::<ConfigView, &'static str>(c));
}

/// Every configuration read from a page is one the layout can hold.
pub proof fn lemma_read_is_storable(b: Seq<u8>)
    ensures
        spec_from_bytes(b) matches Ok(v) ==> storable(v),
{
}

/// A page written from a configuration reads back as that configuration
/// exactly when the layout can hold it.
pub proof fn lemma_write_read_iff_storable(c: ConfigView)
    ensures
        spec_from_bytes(spec_to_bytes(c)) == Ok::<ConfigView, &'static str>(c) <==> storable(c),
{
    lemma_read_is_storable(spec_to_bytes(c));
    if storable(c) {
        lemma_config_roundtrip(c);
    }
}

/// Bytes of `a` XORed with those of `b` at the same positions.
pub open spec fn xor_seq(a: Seq<u8>, b: Seq<u8>) -> Seq<u8> {
    Seq::new(a.len(), |k: int| a[k] ^ b[k])
}

proof fn lemma_crc16_bit_facts(x: u16, y: u16)
    ensures
        crc16_bit(x ^ y) == crc16_bit(x) ^ crc16_bit(y),
        x != 0 ==> crc16_bit(x) != 0,
        crc16_bit(0) == 0,
{
    assert(crc16_bit(x ^ y) == crc16_bit(x) ^ crc16_bit(y)) by (bit_vector);
    assert(x != 0 ==> crc16_bit(x) != 0) by (bit_vector);
    assert(crc16_bit(0) == 0) by (bit_vector);
}

/// Bit steps keep XOR and keep a non-zero register non-zero.
proof fn lemma_crc16_shift_n(x: u16, y: u16, n: nat)
    ensures
        crc16_shift_n(x ^ y, n) == crc16_shift_n(x, n) ^ crc16_shift_n(y, n),
        x != 0 ==> crc16_shift_n(x, n) != 0,
    decreases n,
{
    if n > 0 {
        lemma_crc16_shift_n(x, y, (n - 1) as nat);
        lemma_crc16_bit_facts(crc16_shift_n(x, (n - 1) as nat), crc16_shift_n(y, (n - 1) as nat));
    }
}

/// Eight bit steps keep XOR and keep a non-zero register non-zero.
proof fn lemma_crc16_shift8(x: u16, y: u16)
    ensures
        crc16_byte(x ^ y, 0) == crc16_byte(x, 0) ^ crc16_byte(y, 0),
        x != 0 ==> crc16_byte(x, 0) != 0,
{
    assert(x ^ ((0u8 as u16) << 8u16) == x && y ^ ((0u8 as u16) << 8u16) == y && (x ^ y) ^ ((
    0u8 as u16) << 8u16) == x ^ y) by (bit_vector);
    lemma_crc16_shift_n(x, y, 8);
    reveal_with_fuel(crc16_shift_n, 9);
}

/// `n` bit steps.
pub open spec fn crc16_shift_n(c: u16, n: nat) -> u16
    decreases n,
{
    if n == 0 {
        c
    } else {
        crc16_bit(crc16_shift_n(c, (n - 1) as nat))
    }
}

/// One byte step keeps XOR: feeding `c1 ^ c2` with `b1 ^ b2` gives the XOR of
/// the two separate steps.
proof fn lemma_crc16_byte_linear(c1: u16, c2: u16, b1: u8, b2: u8)
    ensures
        crc16_byte(c1 ^ c2, b1 ^ b2) == crc16_byte(c1, b1) ^ crc16_byte(c2, b2),
{
    let x1 = c1 ^ ((b1 as u16) << 8u16);
    let x2 = c2 ^ ((b2 as u16) << 8u16);
    assert((c1 ^ c2) ^ (((b1 ^ b2) as u16) << 8u16) == x1 ^ x2) by (bit_vector)
        requires
            x1 == c1 ^ ((b1 as u16) << 8u16),
            x2 == c2 ^ ((b2 as u16) << 8u16),
    ;
    assert(x1 ^ ((0u8 as u16) << 8u16) == x1 && x2 ^ ((0u8 as u16) << 8u16) == x2 && (x1 ^ x2) ^ ((
    0u8 as u16) << 8u16) == x1 ^ x2) by (bit_vector);
    lemma_crc16_shift8(x1, x2);
}

/// The CRC register is linear over XOR of equally long inputs.
proof fn lemma_crc16_linear(c1: u16, c2: u16, a: Seq<u8>, b: Seq<u8>)
    requires
        a.len() == b.len(),
    ensures
        crc16_from(c1 ^ c2, xor_seq(a, b)) == crc16_from(c1, a) ^ crc16_from(c2, b),
    decreases a.len(),
{
    if a.len() > 0 {
        lemma_crc16_linear(c1, c2, a.drop_last(), b.drop_last());
        assert(xor_seq(a, b).drop_last() =~= xor_seq(a.drop_last(), b.drop_last()));
        lemma_crc16_byte_linear(
            crc16_from(c1, a.drop_last()),
            crc16_from(c2, b.drop_last()),
            a.last(),
            b.last(),
        );
    }
}

/// A sequence that is zero but for one non-zero byte at `i` leaves the
/// register at zero up to `i` and non-zero from then on.
proof fn lemma_crc16_single_error(e: Seq<u8>, i: int, k: int)
    requires
        0 <= i < e.len(),
        e[i] != 0,
        forall|j: int| 0 <= j < e.len() && j != i ==> e[j] == 0,
        0 <= k <= e.len(),
    ensures
        k <= i ==> crc16_from(0, e.take(k)) == 0,
        k > i ==> crc16_from(0, e.take(k)) != 0,
    decreases k,
{
    if k > 0 {
        lemma_crc16_single_error(e, i, k - 1);
        let t = e.take(k);
        assert(t.drop_last() =~= e.take(k - 1));
        assert(t.last() == e[k - 1]);
        let prev = crc16_from(0, e.take(k - 1));
        if k - 1 == i {
            let v = e[i];
            let x = 0u16 ^ ((v as u16) << 8u16);
            assert(x != 0) by (bit_vector)
                requires
                    v != 0,
                    x == 0u16 ^ ((v as u16) << 8u16),
            ;
            lemma_crc16_shift8(x, 0);
            assert(x ^ ((0u8 as u16) << 8u16) == x) by (bit_vector);
        } else {
            lemma_crc16_shift8(prev, 0);
            assert(prev ^ ((0u8 as u16) << 8u16) == prev) by (bit_vector);
            lemma_crc16_bit_facts(0, 0);
        }
    }
}

/// Changing one byte of the data (XOR with a non-zero `x`) changes its
/// CRC16/XMODEM.
pub proof fn lemma_crc16_detects_byte_change(data: Seq<u8>, i: int, x: u8)
    requires
        0 <= i < data.len(),
        x != 0,
    ensures
        crc16_xmodem(data.update(i, data[i] ^ x)) != crc16_xmodem(data),
{
    let d2 = data.update(i, data[i] ^ x);
    let e = xor_seq(data, d2);
    assert forall|j: int| 0 <= j < e.len() && j != i implies e[j] == 0 by {
        let a = data[j];
        assert(a ^ a == 0) by (bit_vector);
    }
    let a = data[i];
    assert(a ^ (a ^ x) == x) by (bit_vector);
    lemma_crc16_linear(0, 0, data, d2);
    assert(0u16 ^ 0u16 == 0u16) by (bit_vector);
    lemma_crc16_single_error(e, i, e.len() as int);
    assert(e.take(e.len() as int) =~= e);
    let p = crc16_xmodem(data);
    let q = crc16_xmodem(d2);
    assert(p ^ q != 0 ==> p != q) by (bit_vector);
}

/// A page whose CRC-covered part had one byte changed (XOR with a non-zero
/// `x`) after it was written is refused with a CRC mismatch.
pub proof fn lemma_corrupted_page_rejected(c: ConfigView, i: int, x: u8)
    requires
        0 <= i < 0xFF0,
        x != 0,
    ensures
        spec_from_bytes(spec_to_bytes(c).update(i, spec_to_bytes(c)[i] ^ x)) == Err::<
            ConfigView,
            &'static str,
        >("WiFi credentials CRC mismatch"),
{
    let body = config_body(c);
    let b = spec_to_bytes(c);
    let b2 = b.update(i, b[i] ^ x);
    assert(b.take(0xFF0) =~= body.take(0xFF0));
    assert(b2.take(0xFF0) =~= b.take(0xFF0).update(i, b.take(0xFF0)[i] ^ x));
    assert(b2.subrange(0xFF8, 0x1000) =~= magic());
    lemma_crc16_detects_byte_change(b.take(0xFF0), i, x);
    assert(b2[0xFF0] + 256 * b2[0xFF1] == crc16_xmodem(body.take(0xFF0)));
}

} // verus!
