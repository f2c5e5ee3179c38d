//! USB console of the firmware: line editing with echo, credential checks
//! and the effect of each command on the pending device configuration.
use vstd::prelude::*;
use vstd::string::*;
use vstd::utf8::*;

use crate::bounded_str::BoundedString;
use crate::device_blob::{spec_from_bytes, ConfigView, DeviceConfig, WifiConf};

verus! {

/// Default SSID of the Wi-Fi access point (open network).
pub const DEFAULT_WIFI_HOST_AP: &'static str = "kiwi-ap";

/// Default device name.
pub const DEFAULT_DEVICE_NAME: &'static str = "kiwi#0001";

/// Capacity of the command line in bytes.
pub const LINE_CAPACITY: usize = 256;

/// Minimum password length in bytes.
pub const MIN_PASSWORD_LEN: usize = 8;

/// Bytes of the default SSID.
pub open spec fn default_ssid_bytes() -> Seq<u8> {
    seq![0x6bu8, 0x69u8, 0x77u8, 0x69u8, 0x2du8, 0x61u8, 0x70u8]
}

/// Bytes of the default device name.
pub open spec fn default_ident_bytes() -> Seq<u8> {
    seq![0x6bu8, 0x69u8, 0x77u8, 0x69u8, 0x23u8, 0x30u8, 0x30u8, 0x30u8, 0x31u8]
}

proof fn lemma_default_bytes()
    ensures
        DEFAULT_WIFI_HOST_AP.spec_bytes() == default_ssid_bytes(),
        DEFAULT_DEVICE_NAME.spec_bytes() == default_ident_bytes(),
{
    reveal_strlit("kiwi-ap");
    reveal_strlit("kiwi#0001");
    broadcast use is_ascii_spec_bytes;

    assert(is_ascii(DEFAULT_WIFI_HOST_AP));
    assert(is_ascii(DEFAULT_DEVICE_NAME));
    assert(DEFAULT_WIFI_HOST_AP.spec_bytes() =~= default_ssid_bytes());
    assert(DEFAULT_DEVICE_NAME.spec_bytes() =~= default_ident_bytes());
}

fn default_ident() -> (r: BoundedString<12>)
    ensures
        r@ == default_ident_bytes(),
{
    proof {
        lemma_default_bytes();
    }
    match BoundedString::<12>::from_str(DEFAULT_DEVICE_NAME) {
        Ok(s) => s,
        Err(_) => BoundedString::new(),
    }
}

fn default_ssid() -> (r: BoundedString<32>)
    ensures
        r@ == default_ssid_bytes(),
{
    proof {
        lemma_default_bytes();
    }
    match BoundedString::<32>::from_str(DEFAULT_WIFI_HOST_AP) {
        Ok(s) => s,
        Err(_) => BoundedString::new(),
    }
}

/// The configuration used when none is stored: open access point
/// "kiwi-ap", device name "kiwi#0001".
pub open spec fn spec_default_config() -> ConfigView {
    ConfigView { mode: 0, ssid: default_ssid_bytes(), password: None, ident: default_ident_bytes() }
}

/// The configuration used when none is stored: open access point
/// "kiwi-ap", device name "kiwi#0001".
pub fn default_config() -> (r: DeviceConfig)
    ensures
        r.view() == spec_default_config(),
{
    DeviceConfig { wifi: WifiConf::Ap(default_ssid(), None), ident: default_ident() }
}

/// Credentials accepted by [`process_ssid_pw`]: a password needs at least 8
/// bytes; an SSID longer than 32 bytes or a password longer than 64 bytes
/// does not fit and is left empty.
pub open spec fn spec_process_ssid_pw(ssid: Seq<u8>, pw: Option<Seq<u8>>) -> Result<
    (Seq<u8>, Option<Seq<u8>>),
    &'static str,
> {
    if pw matches Some(p) && p.len() < 8 {
        Err("Error: Password too short (minimum 8 characters)")
    } else {
        Ok(
            (
                if ssid.len() <= 32 {
                    ssid
                } else {
                    Seq::empty()
                },
                match pw {
                    Some(p) => Some(
                        if p.len() <= 64 {
                            p
                        } else {
                            Seq::empty()
                        },
                    ),
                    None => None,
                },
            ),
        )
    }
}

fn fit_or_empty<const N: usize>(s: &str) -> (r: BoundedString<N>)
    ensures
        r@ == (if s.spec_bytes().len() <= N {
            s.spec_bytes()
        } else {
            Seq::empty()
        }),
{
    match BoundedString::<N>::from_str(s) {
        Ok(b) => b,
        Err(_) => BoundedString::new(),
    }
}

/// Check new Wi-Fi credentials and copy them into bounded strings.
pub fn process_ssid_pw(ssid: &str, pw: Option<&str>) -> (r: Result<
    (BoundedString<32>, Option<BoundedString<64>>),
    &'static str,
>)
    ensures
        match r {
            Ok((s, p)) => spec_process_ssid_pw(
                ssid.spec_bytes(),
                match pw {
                    Some(x) => Some(x.spec_bytes()),
                    None => None,
                },
            ) == Ok::<(Seq<u8>, Option<Seq<u8>>), &'static str>(
                (
                    s@,
                    match p {
                        Some(x) => Some(x@),
                        None => None,
                    },
                ),
            ),
            Err(e) => spec_process_ssid_pw(
                ssid.spec_bytes(),
                match pw {
                    Some(x) => Some(x.spec_bytes()),
                    None => None,
                },
            ) == Err::<(Seq<u8>, Option<Seq<u8>>), &'static str>(e),
        },
{
    if let Some(p) = pw {
        if p.as_bytes().len() < MIN_PASSWORD_LEN {
            return Err("Error: Password too short (minimum 8 characters)");
        }
    }
    let ssid_h = fit_or_empty::<32>(ssid);
    let pw_h = match pw {
        Some(p) => Some(fit_or_empty::<64>(p)),
        None => None,
    };
    Ok((ssid_h, pw_h))
}

/// Whether a character belongs to the Unicode control category (Cc).
pub open spec fn is_control(c: char) -> bool {
    (c as u32) < 0x20 || (0x7f <= (c as u32) && (c as u32) <= 0x9f)
}

/// Number of bytes of the UTF-8 encoding of a character.
pub open spec fn utf8_len(c: char) -> nat {
    if (c as u32) < 0x80 {
        1
    } else if (c as u32) < 0x800 {
        2
    } else if (c as u32) < 0x10000 {
        3
    } else {
        4
    }
}

/// Number of bytes of the UTF-8 encoding of a character sequence.
pub open spec fn bytes_len(s: Seq<char>) -> nat
    decreases s.len(),
{
    if s.len() == 0 {
        0
    } else {
        bytes_len(s.drop_last()) + utf8_len(s.last())
    }
}

/// What the console echoes back while a line is typed.
#[derive(Debug, Clone, Copy, PartialEq, Eq, Structural)]
pub enum Echo {
    /// The typed character
    Char(char),
    /// Erase the last character on the terminal (backspace, space, backspace)
    Erase,
    /// End of the line
    NewLine,
    /// Empty line: new line and a fresh prompt
    Prompt,
    /// The line overflowed and was discarded; a fresh prompt follows
    Overflow,
}

/// Effect of a chunk of input on the line being typed: the new line, the
/// echo, and whether a non-empty line was completed (the rest of the chunk
/// is then dropped). `skip` counts characters of an escape sequence still
/// to be ignored.
pub open spec fn feed(msg: Seq<char>, input: Seq<char>, skip: nat) -> (Seq<char>, Seq<Echo>, bool)
    decreases input.len(),
{
    if input.len() == 0 {
        (msg, Seq::empty(), false)
    } else {
        let c = input[0];
        let rest = input.drop_first();
        if skip > 0 {
            feed(msg, rest, (skip - 1) as nat)
        } else if is_control(c) {
            if c == '\x08' || c == '\x7f' {
                if msg.len() > 0 {
                    let (m, e, d) = feed(msg.drop_last(), rest, 0);
                    (m, seq![Echo::Erase] + e, d)
                } else {
                    feed(msg, rest, 0)
                }
            } else if c == '\n' || c == '\r' {
                if msg.len() > 0 {
                    (msg, seq![Echo::NewLine], true)
                } else {
                    let (m, e, d) = feed(msg, rest, 0);
                    (m, seq![Echo::Prompt] + e, d)
                }
            } else if c == '\x1b' {
                feed(msg, rest, 2)
            } else {
                feed(msg, rest, 0)
            }
        } else if bytes_len(msg) + utf8_len(c) > LINE_CAPACITY {
            let (m, e, d) = feed(Seq::empty(), rest, 0);
            (m, seq![Echo::Overflow] + e, d)
        } else {
            let (m, e, d) = feed(msg.push(c), rest, 0);
            (m, seq![Echo::Char(c)] + e, d)
        }
    }
}

/// The command line being typed on the console.
pub struct LineEditor {
    chars: Vec<char>,
    bytes: usize,
}

fn utf8_len_exec(c: char) -> (r: usize)
    ensures
        r == utf8_len(c),
{
    let v: u32 = c as u32;
    if v < 0x80 {
        1
    } else if v < 0x800 {
        2
    } else if v < 0x10000 {
        3
    } else {
        4
    }
}

fn is_control_exec(c: char) -> (r: bool)
    ensures
        r == is_control(c),
{
    let v: u32 = c as u32;
    v < 0x20 || (0x7f <= v && v <= 0x9f)
}

impl View for LineEditor {
    type V = Seq<char>;

    closed spec fn view(&self) -> Seq<char> {
        self.chars@
    }
}

proof fn lemma_bytes_len_push(s: Seq<char>, c: char)
    ensures
        bytes_len(s.push(c)) == bytes_len(s) + utf8_len(c),
{
    assert(s.push(c).drop_last() =~= s);
}

impl LineEditor {
    /// The byte count matches the characters and stays within the capacity.
    pub closed spec fn wf(&self) -> bool {
        self.bytes == bytes_len(self.chars@) && self.bytes <= LINE_CAPACITY
    }

    /// An empty line.
    pub fn new() -> (r: Self)
        ensures
            r@ == Seq::<char>::empty(),
            r.wf(),
    {
        let chars: Vec<char> = Vec::new();
        LineEditor { chars, bytes: 0 }
    }

    /// The characters typed so far.
    pub fn chars(&self) -> (r: &Vec<char>)
        ensures
            r@ == self@,
    {
        &self.chars
    }

    /// Discard the line.
    pub fn clear(&mut self)
        ensures
            final(self)@ == Seq::<char>::empty(),
            final(self).wf(),
    {
        self.chars = Vec::new();
        self.bytes = 0;
    }

    /// Feed a chunk of received input; returns the echo and whether a
    /// non-empty line was completed.
    pub fn process_input(&mut self, input: &str) -> (r: (Vec<Echo>, bool))
        requires
            old(self).wf(),
        ensures
            feed(old(self)@, input@, 0) == (final(self)@, r.0@, r.1),
            final(self).wf(),
    {
        let n: usize = input.unicode_len();
        let mut echo: Vec<Echo> = Vec::new();
        let mut skip: usize = 0;
        let mut i: usize = 0;
        let ghost start = self@;
        proof {
            assert(input@.skip(0) =~= input@);
        }
        while i < n
            invariant
                n == input@.len(),
                i <= n,
                skip <= 2,
                start == old(self)@,
                self.bytes == bytes_len(self.chars@),
                self.bytes <= LINE_CAPACITY,
                ({
                    let (m, e, d) = feed(self.chars@, input@.skip(i as int), skip as nat);
                    feed(start, input@, 0) == (m, echo@ + e, d)
                }),
            decreases n - i,
        {
            let c = input.get_char(i);
            let ghost rest = input@.skip(i + 1);
            proof {
                assert(input@.skip(i as int).drop_first() =~= rest);
                assert(input@.skip(i as int)[0] == c);
            }
            if skip > 0 {
                skip = skip - 1;
            } else if is_control_exec(c) {
                if c == '\x08' || c == '\x7f' {
                    if self.chars.len() > 0 {
                        let ghost before = self.chars@;
                        let last = self.chars.pop();
                        proof {
                            assert(before.drop_last() =~= self.chars@);
                        }
                        self.bytes = self.bytes - utf8_len_exec(last.unwrap());
                        let ghost (m, e, d) = feed(self.chars@, rest, 0);
                        echo.push(Echo::Erase);
                        proof {
                            assert(echo@.drop_last() + seq![Echo::Erase] + e =~= echo@ + e);
                        }
                    }
                } else if c == '\n' || c == '\r' {
                    if self.chars.len() > 0 {
                        let ghost prev = echo@;
                        proof {
                            assert(feed(self.chars@, input@.skip(i as int), 0) == (
                                self.chars@,
                                seq![Echo::NewLine],
                                true,
                            ));
                        }
                        echo.push(Echo::NewLine);
                        proof {
                            assert(echo@ =~= prev + seq![Echo::NewLine]);
                            assert(prev + seq![Echo::NewLine] == echo@);
                            assert(feed(start, input@, 0) == (self.chars@, echo@, true));
                        }
                        return (echo, true);
                    } else {
                        echo.push(Echo::Prompt);
                        proof {
                            let ghost (m, e, d) = feed(self.chars@, rest, 0);
                            assert(echo@.drop_last() + seq![Echo::Prompt] + e =~= echo@ + e);
                        }
                    }
                } else if c == '\x1b' {
                    skip = 2;
                }
            } else {
                let w: usize = utf8_len_exec(c);
                if self.bytes + w > LINE_CAPACITY {
                    self.chars = Vec::new();
                    self.bytes = 0;
                    echo.push(Echo::Overflow);
                    proof {
                        let ghost (m, e, d) = feed(self.chars@, rest, 0);
                        assert(self.chars@ =~= Seq::<char>::empty());
                        assert(echo@.drop_last() + seq![Echo::Overflow] + e =~= echo@ + e);
                    }
                } else {
                    let ghost before = self.chars@;
                    self.chars.push(c);
                    proof {
                        lemma_bytes_len_push(before, c);
                    }
                    self.bytes = self.bytes + w;
                    echo.push(Echo::Char(c));
                    proof {
                        let ghost (m, e, d) = feed(self.chars@, rest, 0);
                        assert(echo@.drop_last() + seq![Echo::Char(c)] + e =~= echo@ + e);
                    }
                }
            }
            i = i + 1;
        }
        proof {
            assert(input@.skip(i as int) =~= Seq::<char>::empty());
            assert(echo@ + Seq::<Echo>::empty() =~= echo@);
        }
        (echo, false)
    }
}

/// Wi-Fi subcommands.
pub enum WifiCmd {
    /// Show the Wi-Fi status
    Status,
    /// Set access point credentials
    Ap {
        /// Network name
        ssid: BoundedString<32>,
        /// Password, if any
        password: Option<BoundedString<64>>,
    },
    /// Set client credentials
    Cl {
        /// Network name
        ssid: BoundedString<32>,
        /// Password, if any
        password: Option<BoundedString<64>>,
    },
}

/// Identifier subcommands.
pub enum Ident {
    /// Set the device identifier
    SetTo(BoundedString<12>),
    /// Show the device identifier
    Get,
}

/// Commands that can be sent over the USB console.
pub enum Command {
    /// List the commands
    Help,
    /// Wi-Fi settings
    Wifi(WifiCmd),
    /// Reset the device
    Reset,
    /// Clear the terminal
    Clear,
    /// Device identifier
    Ident(Ident),
    /// Show the pending configuration
    Show,
    /// Store the pending configuration to flash
    Store,
}

/// What the console answers to a command.
pub enum Reply {
    /// Print the command list
    Help,
    /// Report the stored credentials and the data rate
    WifiStatus,
    /// Write this configuration to flash (the pending one is consumed)
    Store(DeviceConfig),
    /// No pending configuration to store
    NothingToStore,
    /// Print the pending configuration, or that there is none
    Show,
    /// Access point credentials were set
    ApSet,
    /// Client credentials were set
    ClientSet,
    /// The credentials were refused, with this message
    CredentialError(&'static str),
    /// The device identifier was set
    IdentSet,
    /// Print the device identifier, or that there is none
    IdentGet,
    /// Reset the device
    Reset,
    /// Clear the terminal
    Clear,
}

/// View of an optional configuration.
pub open spec fn opt_config(c: Option<DeviceConfig>) -> Option<ConfigView> {
    match c {
        Some(d) => Some(d.view()),
        None => None,
    }
}

/// Pending configuration after new Wi-Fi credentials: the credentials
/// replace those of the pending configuration, or join the default device
/// name when nothing is pending.
pub open spec fn with_wifi(
    c: Option<ConfigView>,
    mode: u32,
    ssid: Seq<u8>,
    password: Option<Seq<u8>>,
) -> ConfigView {
    ConfigView {
        mode,
        ssid,
        password,
        ident: match c {
            Some(v) => v.ident,
            None => default_ident_bytes(),
        },
    }
}

/// Pending configuration after a new identifier: it replaces that of the
/// pending configuration, or joins the default open access point.
pub open spec fn with_ident(c: Option<ConfigView>, ident: Seq<u8>) -> ConfigView {
    match c {
        Some(v) => ConfigView { ident, ..v },
        None => ConfigView { ident, ..spec_default_config() },
    }
}

/// Setting the identifier changes nothing but the identifier of a pending
/// configuration: its mode, SSID and password stay; only with nothing
/// pending does it start from the default open access point.
pub proof fn lemma_ident_keeps_credentials(c: Option<ConfigView>, ident: Seq<u8>)
    ensures
        with_ident(c, ident).ident == ident,
        c matches Some(v) ==> with_ident(c, ident).mode == v.mode && with_ident(c, ident).ssid
            == v.ssid && with_ident(c, ident).password == v.password,
        c is None ==> with_ident(c, ident).mode == 0 && with_ident(c, ident).password is None
            && with_ident(c, ident).ssid == default_ssid_bytes(),
{
}

/// A password is refused exactly when it is shorter than 8 bytes; no
/// password is never refused; credentials that fit (an SSID of at most 32
/// bytes, a password of 8 to 64 bytes) are taken unchanged.
pub proof fn lemma_password_minimum(ssid: Seq<u8>, pw: Seq<u8>)
    ensures
        spec_process_ssid_pw(ssid, Some(pw)) is Ok <==> pw.len() >= 8,
        pw.len() < 8 ==> spec_process_ssid_pw(ssid, Some(pw)) == Err::<
            (Seq<u8>, Option<Seq<u8>>),
            &'static str,
        >("Error: Password too short (minimum 8 characters)"),
        spec_process_ssid_pw(ssid, None) is Ok,
        ssid.len() <= 32 && 8 <= pw.len() <= 64 ==> spec_process_ssid_pw(ssid, Some(pw)) == Ok::<
            (Seq<u8>, Option<Seq<u8>>),
            &'static str,
        >((ssid, Some(pw))),
{
}

fn set_wifi(conf: &mut Option<DeviceConfig>, wifi: WifiConf)
    ensures
        opt_config(*final(conf)) == Some(
            with_wifi(
                opt_config(*old(conf)),
                wifi.spec_mode(),
                wifi.spec_ssid(),
                wifi.spec_password(),
            ),
        ),
{
    match conf {
        Some(c) => {
            c.wifi = wifi;
        },
        None => {
            *conf = Some(DeviceConfig { ident: default_ident(), wifi });
        },
    }
}

/// Apply a console command to the pending configuration and decide the answer.
pub fn apply_command(conf: &mut Option<DeviceConfig>, cmd: Command) -> (r: Reply)
    ensures
        match cmd {
            Command::Help => r is Help && opt_config(*final(conf)) == opt_config(*old(conf)),
            Command::Reset => r is Reset && opt_config(*final(conf)) == opt_config(*old(conf)),
            Command::Clear => r is Clear && opt_config(*final(conf)) == opt_config(*old(conf)),
            Command::Show => r is Show && opt_config(*final(conf)) == opt_config(*old(conf)),
            Command::Wifi(WifiCmd::Status) => r is WifiStatus && opt_config(*final(conf))
                == opt_config(*old(conf)),
            Command::Ident(Ident::Get) => r is IdentGet && opt_config(*final(conf)) == opt_config(
                *old(conf),
            ),
            Command::Store => *final(conf) is None && match *old(conf) {
                Some(c) => (r matches Reply::Store(s) && s.view() == c.view()),
                None => r is NothingToStore,
            },
            Command::Ident(Ident::SetTo(id)) => r is IdentSet && opt_config(*final(conf)) == Some(
                with_ident(opt_config(*old(conf)), id@),
            ),
            Command::Wifi(WifiCmd::Ap { ssid, password }) => match spec_process_ssid_pw(
                ssid@,
                crate::device_blob::opt_view(password),
            ) {
                Ok((s, p)) => r is ApSet && opt_config(*final(conf)) == Some(
                    with_wifi(opt_config(*old(conf)), 0, s, p),
                ),
                Err(e) => r == Reply::CredentialError(e) && opt_config(*final(conf)) == opt_config(
                    *old(conf),
                ),
            },
            Command::Wifi(WifiCmd::Cl { ssid, password }) => match spec_process_ssid_pw(
                ssid@,
                crate::device_blob::opt_view(password),
            ) {
                Ok((s, p)) => r is ClientSet && opt_config(*final(conf)) == Some(
                    with_wifi(opt_config(*old(conf)), 1, s, p),
                ),
                Err(e) => r == Reply::CredentialError(e) && opt_config(*final(conf)) == opt_config(
                    *old(conf),
                ),
            },
        },
{
    match cmd {
        Command::Help => Reply::Help,
        Command::Reset => Reply::Reset,
        Command::Clear => Reply::Clear,
        Command::Show => Reply::Show,
        Command::Wifi(WifiCmd::Status) => Reply::WifiStatus,
        Command::Ident(Ident::Get) => Reply::IdentGet,
        Command::Store => {
            let taken = conf.take();
            match taken {
                Some(c) => Reply::Store(c),
                None => Reply::NothingToStore,
            }
        },
        Command::Ident(Ident::SetTo(id)) => {
            match conf {
                Some(c) => {
                    c.ident = id;
                },
                None => {
                    *conf = Some(DeviceConfig { ident: id, wifi: WifiConf::Ap(default_ssid(), None) });
                },
            }
            Reply::IdentSet
        },
        Command::Wifi(WifiCmd::Ap { ssid, password }) => {
            let pw = match &password {
                Some(p) => Some(p.as_str()),
                None => None,
            };
            match process_ssid_pw(ssid.as_str(), pw) {
                Ok((s, p)) => {
                    set_wifi(conf, WifiConf::Ap(s, p));
                    Reply::ApSet
                },
                Err(e) => Reply::CredentialError(e),
            }
        },
        Command::Wifi(WifiCmd::Cl { ssid, password }) => {
            let pw = match &password {
                Some(p) => Some(p.as_str()),
                None => None,
            };
            match process_ssid_pw(ssid.as_str(), pw) {
                Ok((s, p)) => {
                    set_wifi(conf, WifiConf::Client(s, p));
                    Reply::ClientSet
                },
                Err(e) => Reply::CredentialError(e),
            }
        },
    }
}

/// Why storing the configuration to flash failed.
pub enum UpdateConfigError {
    /// The flash could not be opened
    FlashNotAvailable,
    /// Erasing the page failed
    EraseError,
    /// Writing the page failed
    WriteError,
    /// Reading the page back failed
    ReadError,
    /// The page read back is not a valid configuration
    DeserializeError,
    /// The page read back holds other settings: these
    VerificationError(DeviceConfig),
}

/// Check the page read back after writing `conf`: it must hold a valid
/// configuration with the same settings.
pub fn verify_written(conf: &DeviceConfig, readback: &[u8]) -> (r: Result<(), UpdateConfigError>)
    ensures
        match spec_from_bytes(readback@) {
            Err(_) => r matches Err(UpdateConfigError::DeserializeError),
            Ok(v) => if v == conf.view() {
                r is Ok
            } else {
                r matches Err(UpdateConfigError::VerificationError(n)) && n.view() == v
            },
        },
{
    match DeviceConfig::from_bytes(readback) {
        Err(_) => Err(UpdateConfigError::DeserializeError),
        Ok(new_conf) => {
            if conf.same(&new_conf) {
                Ok(())
            } else {
                Err(UpdateConfigError::VerificationError(new_conf))
            }
        },
    }
}

proof fn lemma_bytes_len_drop_last(s: Seq<char>)
    requires
        s.len() > 0,
    ensures
        bytes_len(s.drop_last()) <= bytes_len(s),
{
}

/// Typing never makes the line longer than its capacity.
pub proof fn lemma_feed_within_capacity(msg: Seq<char>, input: Seq<char>, skip: nat)
    requires
        bytes_len(msg) <= LINE_CAPACITY,
    ensures
        bytes_len(feed(msg, input, skip).0) <= LINE_CAPACITY,
    decreases input.len(),
{
    if input.len() > 0 {
        let c = input[0];
        let rest = input.drop_first();
        if skip > 0 {
            lemma_feed_within_capacity(msg, rest, (skip - 1) as nat);
        } else if is_control(c) {
            if c == '\x08' || c == '\x7f' {
                if msg.len() > 0 {
                    lemma_bytes_len_drop_last(msg);
                    lemma_feed_within_capacity(msg.drop_last(), rest, 0);
                } else {
                    lemma_feed_within_capacity(msg, rest, 0);
                }
            } else if c == '\n' || c == '\r' {
                if msg.len() == 0 {
                    lemma_feed_within_capacity(msg, rest, 0);
                }
            } else if c == '\x1b' {
                lemma_feed_within_capacity(msg, rest, 2);
            } else {
                lemma_feed_within_capacity(msg, rest, 0);
            }
        } else if bytes_len(msg) + utf8_len(c) > LINE_CAPACITY {
            lemma_feed_within_capacity(Seq::empty(), rest, 0);
        } else {
            lemma_bytes_len_push(msg, c);
            lemma_feed_within_capacity(msg.push(c), rest, 0);
        }
    }
}

/// The byte length of a concatenation is the sum of the byte lengths.
proof fn lemma_bytes_len_concat(a: Seq<char>, b: Seq<char>)
    ensures
        bytes_len(a + b) == bytes_len(a) + bytes_len(b),
    decreases b.len(),
{
    if b.len() > 0 {
        assert((a + b).drop_last() =~= a + b.drop_last());
        assert((a + b).last() == b.last());
        lemma_bytes_len_concat(a, b.drop_last());
    } else {
        assert(a + b =~= a);
    }
}

/// The echo of one typed character.
pub open spec fn echo_char(c: char) -> Echo {
    Echo::Char(c)
}

/// The echo of characters typed as they are.
pub open spec fn char_echo(s: Seq<char>) -> Seq<Echo>
    decreases s.len(),
{
    if s.len() == 0 {
        Seq::empty()
    } else {
        seq![echo_char(s[0])] + char_echo(s.drop_first())
    }
}

/// Non-control characters that fit the line are appended and echoed one by one.
proof fn lemma_feed_printable(msg: Seq<char>, s: Seq<char>, rest: Seq<char>)
    requires
        forall|i: int| 0 <= i < s.len() ==> !is_control(#[trigger] s[i]),
        bytes_len(msg + s) <= LINE_CAPACITY,
    ensures
        feed(msg, s + rest, 0) == ({
            let (m, e, d) = feed(msg + s, rest, 0);
            (m, char_echo(s) + e, d)
        }),
    decreases s.len(),
{
    if s.len() == 0 {
        assert(s + rest =~= rest);
        assert(msg + s =~= msg);
        assert(char_echo(s) =~= Seq::<Echo>::empty());
        let (m, e, d) = feed(msg, rest, 0);
        assert(char_echo(s) + e =~= e);
    } else {
        let c = s[0];
        let t = s.drop_first();
        assert((s + rest)[0] == c);
        assert((s + rest).drop_first() =~= t + rest);
        assert(msg.push(c) + t =~= msg + s);
        lemma_bytes_len_concat(msg.push(c), t);
        lemma_bytes_len_push(msg, c);
        assert(!is_control(s[0]));
        lemma_feed_printable(msg.push(c), t, rest);
        let (m, e, d) = feed(msg + s, rest, 0);
        assert(seq![echo_char(c)] + (char_echo(t) + e) =~= char_echo(s) + e);
    }
}

/// A non-empty line of non-control characters that fits the capacity,
/// typed and ended with a carriage return or a newline, is echoed
/// character by character, then a new line, and is completed exactly as
/// typed; whatever follows in the same chunk is dropped.
pub proof fn lemma_typed_line(line: Seq<char>, end: char, rest: Seq<char>)
    requires
        line.len() > 0,
        forall|i: int| 0 <= i < line.len() ==> !is_control(#[trigger] line[i]),
        bytes_len(line) <= LINE_CAPACITY,
        end == '\r' || end == '\n',
    ensures
        feed(Seq::empty(), line + seq![end] + rest, 0) == (
            line,
            char_echo(line) + seq![Echo::NewLine],
            true,
        ),
{
    let empty = Seq::<char>::empty();
    assert(empty + line =~= line);
    assert(line + seq![end] + rest =~= line + (seq![end] + rest));
    lemma_feed_printable(empty, line, seq![end] + rest);
    assert((seq![end] + rest)[0] == end);
    assert((seq![end] + rest).len() > 0);
    assert(is_control(end));
}

} // verus!
