//! Configuration management for MacWinShare

use vstd::prelude::*;

verus! {

/// Main application configuration
#[derive(Debug, Clone)]
pub struct Config {
    /// Unique identifier for this machine
    pub machine_id: String,
    /// Human-readable name for this machine
    pub machine_name: String,
    /// Port to listen on (default: 24800 for Deskflow compatibility)
    pub port: u16,
    /// Screen configuration
    pub screen: ScreenConfig,
    /// Security settings
    pub security: SecurityConfig,
    /// Network settings
    pub network: NetworkConfig,
    /// Clipboard settings
    pub clipboard: ClipboardConfig,
    /// Path to store certificates and config
    pub data_dir: String,
}

#[derive(Debug, Clone)]
pub struct ScreenConfig {
    /// This screen's position in the virtual desktop
    pub position: ScreenPosition,
    /// Screen width in pixels
    pub width: i32,
    /// Screen height in pixels
    pub height: i32,
    /// Dead zone at edges (pixels) before switching
    pub edge_threshold: i32,
    /// Connected screens (name -> direction)
    pub neighbors: Vec<ScreenNeighbor>,
}

#[derive(Debug, Clone, Copy, PartialEq, Eq, Structural)]
pub struct ScreenPosition {
    pub x: i32,
    pub y: i32,
}

#[derive(Debug, Clone)]
pub struct ScreenNeighbor {
    pub name: String,
    pub direction: Direction,
}

#[derive(Debug, Clone, Copy, PartialEq, Eq, Structural)]
pub enum Direction {
    Left,
    Right,
    Top,
    Bottom,
}

#[derive(Debug, Clone)]
pub struct SecurityConfig {
    /// Enable TLS encryption (default: true)
    pub tls_enabled: bool,
    /// Require client certificate verification
    pub verify_clients: bool,
    /// Trusted certificate fingerprints
    pub trusted_fingerprints: Vec<String>,
    /// Optional password for additional security
    pub password: Option<String>,
}

#[derive(Debug, Clone)]
pub struct NetworkConfig {
    /// Enable mDNS discovery
    pub mdns_enabled: bool,
    /// Enable UDP broadcast discovery fallback
    pub udp_discovery_enabled: bool,
    /// Bind to specific interface (empty = all)
    pub bind_interface: String,
    /// Connection timeout in seconds
    pub timeout_seconds: u64,
}

#[derive(Debug, Clone)]
pub struct ClipboardConfig {
    /// Enable clipboard sharing
    pub enabled: bool,
    /// Share text
    pub share_text: bool,
    /// Share images
    pub share_images: bool,
    /// Share files
    pub share_files: bool,
    /// Maximum clipboard size in bytes (default: 10MB)
    pub max_size_bytes: usize,
}

/// The port that Deskflow uses.
pub const DEFAULT_PORT: u16 = 24800;

/// A lower-case hexadecimal digit.
pub open spec fn is_lower_hex_digit(c: char) -> bool {
    ('0' <= c <= '9') || ('a' <= c <= 'f')
}

/// The hyphenated lower-case text of a random (version 4, RFC 4122 variant)
/// UUID: five groups of 8, 4, 4, 4 and 12 hex digits joined by '-', the
/// version digit '4' first in the third group and the variant digit (8, 9, a
/// or b) first in the fourth.
pub open spec fn is_uuid_v4_text(s: Seq<char>) -> bool {
    &&& s.len() == 36
    &&& forall|i: int|
        0 <= i < 36 ==> if i == 8 || i == 13 || i == 18 || i == 23 {
            #[trigger] s[i] == '-'
        } else {
            is_lower_hex_digit(s[i])
        }
    &&& s[14] == '4'
    &&& (s[19] == '8' || s[19] == '9' || s[19] == 'a' || s[19] == 'b')
}

/// The name used when the host name cannot be read.
pub open spec fn fallback_machine_name() -> Seq<char> {
    "MacWinShare"@
}

pub open spec fn is_default_screen(c: ScreenConfig) -> bool {
    &&& c.position == ScreenPosition { x: 0, y: 0 }
    &&& c.width == 1920
    &&& c.height == 1080
    &&& c.edge_threshold == 1
    &&& c.neighbors@.len() == 0
}

pub open spec fn is_default_security(c: SecurityConfig) -> bool {
    &&& c.tls_enabled
    &&& c.verify_clients
    &&& c.trusted_fingerprints@.len() == 0
    &&& c.password is None
}

pub open spec fn is_default_network(c: NetworkConfig) -> bool {
    &&& c.mdns_enabled
    &&& c.udp_discovery_enabled
    &&& c.bind_interface@.len() == 0
    &&& c.timeout_seconds == 30
}

pub open spec fn is_default_clipboard(c: ClipboardConfig) -> bool {
    &&& c.enabled
    &&& c.share_text
    &&& c.share_images
    &&& c.share_files
    &&& c.max_size_bytes == 10 * 1024 * 1024
}

impl Default for ScreenConfig {
    fn default() -> (c: Self)
        ensures
            is_default_screen(c),
    {
        ScreenConfig {
            position: ScreenPosition { x: 0, y: 0 },
            width: 1920,
            height: 1080,
            edge_threshold: 1,
            neighbors: Vec::new(),
        }
    }
}

impl Default for SecurityConfig {
    fn default() -> (c: Self)
        ensures
            is_default_security(c),
    {
        SecurityConfig {
            tls_enabled: true,
            verify_clients: true,
            trusted_fingerprints: Vec::new(),
            password: None,
        }
    }
}

impl Default for NetworkConfig {
    fn default() -> (c: Self)
        ensures
            is_default_network(c),
    {
        NetworkConfig {
            mdns_enabled: true,
            udp_discovery_enabled: true,
            bind_interface: String::new(),
            timeout_seconds: 30,
        }
    }
}

impl Default for ClipboardConfig {
    fn default() -> (c: Self)
        ensures
            is_default_clipboard(c),
    {
        ClipboardConfig {
            enabled: true,
            share_text: true,
            share_images: true,
            share_files: true,
            max_size_bytes: 10 * 1024 * 1024,
        }
    }
}

/// `uuid::Uuid::new_v4().to_string()`: a random UUID with the version and
/// variant bits set (version 4, RFC 4122 variant), written by `Display` in its
/// hyphenated lower-case form. Which UUID comes out is left open: its other
/// digits are drawn at random.
#[verifier::external_body]
fn random_machine_id() -> (id: String)
    ensures
        is_uuid_v4_text(id@),
{
    uuid::Uuid::new_v4().to_string()
}

/// `hostname::get()`: this machine's host name, or `None` when the system
/// call fails. What it holds depends on the machine and is not stated.
#[verifier::external_body]
fn host_name() -> (name: Option<String>) {
    match hostname::get() {
        Ok(h) => Some(h.to_string_lossy().to_string()),
        Err(_) => None,
    }
}

/// `dirs::data_local_dir()`: the user's local data directory, read from the
/// environment (`$XDG_DATA_HOME` or `$HOME/.local/share` on Linux,
/// `$HOME/Library/Application Support` on macOS, the local application data
/// folder on Windows). What it holds depends on the machine and is not stated.
#[verifier::external_body]
fn local_data_dir() -> (dir: Option<String>) {
    match dirs::data_local_dir() {
        Some(p) => Some(p.to_string_lossy().to_string()),
        None => None,
    }
}

/// A relative path written as text: not empty, not starting at a root, and
/// without a drive or other prefix (no ':' anywhere).
pub open spec fn is_relative_path_text(p: Seq<char>) -> bool {
    &&& p.len() > 0
    &&& p[0] != '/'
    &&& p[0] != '\\'
    &&& forall|i: int| 0 <= i < p.len() ==> #[trigger] p[i] != ':'
}

/// Whether `p` starts with the Windows verbatim prefix `\\?\`.
pub open spec fn has_verbatim_prefix(p: Seq<char>) -> bool {
    &&& p.len() >= 4
    &&& p[0] == '\\'
    &&& p[1] == '\\'
    &&& p[2] == '?'
    &&& p[3] == '\\'
}

/// `path` is `base` extended by the relative path `child`: directly, or with
/// one separator ('/' or, on Windows, '\') between them.
pub open spec fn is_joined(path: Seq<char>, base: Seq<char>, child: Seq<char>) -> bool {
    ||| path == base + child
    ||| path == base + seq!['/'] + child
    ||| path == base + seq!['\\'] + child
}

/// What joining the relative path `child` to `base` gives, for a `base`
/// without a verbatim prefix: `base` followed directly by `child` when `base`
/// is empty or ends in '/'; `base`, one separator ('/' or '\') and `child`
/// when `base` ends in neither '/' nor '\' and holds no ':' (no drive);
/// otherwise one of those forms, as Windows and other platforms read a
/// trailing '\' or a ':' differently. Nothing is stated for a verbatim base.
pub open spec fn joined_path(path: Seq<char>, base: Seq<char>, child: Seq<char>) -> bool {
    !has_verbatim_prefix(base) ==> if base.len() == 0 || base.last() == '/' {
        path == base + child
    } else if base.last() != '\\' && !base.contains(':') {
        path == base + seq!['/'] + child || path == base + seq!['\\'] + child
    } else {
        is_joined(path, base, child)
    }
}

/// `std::path::Path::join` with a relative path that has neither a root nor a
/// prefix: `child` appended to `base`, with the platform's separator ('/', or
/// '\' on Windows) between them when `base` is not empty and does not end in a
/// separator; a bare drive such as `C:` takes none on Windows. When `base` has a Windows verbatim prefix
/// (`\\?\`), the documentation says that the joined path is normalized ('.'
/// and '..' removed); that result is not stated. `to_string_lossy` loses
/// nothing here, as both parts are UTF-8.
#[verifier::external_body]
fn join_path(base: &str, child: &str) -> (joined: String)
    requires
        is_relative_path_text(child@),
    ensures
        joined_path(joined@, base@, child@),
{
    std::path::Path::new(base).join(child).to_string_lossy().to_string()
}

/// The platform whose conventions locate the local data directory.
#[derive(Debug, Clone, Copy, PartialEq, Eq, Structural)]
pub enum HostPlatform {
    MacOs,
    Windows,
    Other,
}

/// The user's local data directory, from the environment variables that the
/// application read: `$HOME/Library/Application Support` on macOS,
/// `%LOCALAPPDATA%` on Windows, `$HOME/.local/share` elsewhere; `None` when
/// the variable is not set.
pub fn data_dir_from_env(platform: HostPlatform, home: Option<String>, local_app_data: Option<String>) -> (r: Option<String>)
    ensures
        match platform {
            HostPlatform::Windows => match local_app_data {
                Some(d) => r matches Some(x) && x@ == d@,
                None => r is None,
            },
            HostPlatform::MacOs => match home {
                Some(h) => r matches Some(x) && joined_path(
                    x@,
                    h@,
                    "Library/Application Support"@,
                ),
                None => r is None,
            },
            HostPlatform::Other => match home {
                Some(h) => r matches Some(x) && joined_path(x@, h@, ".local/share"@),
                None => r is None,
            },
        },
{
    match platform {
        HostPlatform::Windows => local_app_data,
        HostPlatform::MacOs => match home {
            Some(h) => {
                let child = "Library/Application Support";
                proof {
                    reveal_strlit("Library/Application Support");
                }
                Some(join_path(h.as_str(), child))
            },
            None => None,
        },
        HostPlatform::Other => match home {
            Some(h) => {
                let child = ".local/share";
                proof {
                    reveal_strlit(".local/share");
                }
                Some(join_path(h.as_str(), child))
            },
            None => None,
        },
    }
}

/// The decimal digit of `d` (below 10).
pub open spec fn digit_char(d: nat) -> char {
    if d == 0 {
        '0'
    } else if d == 1 {
        '1'
    } else if d == 2 {
        '2'
    } else if d == 3 {
        '3'
    } else if d == 4 {
        '4'
    } else if d == 5 {
        '5'
    } else if d == 6 {
        '6'
    } else if d == 7 {
        '7'
    } else if d == 8 {
        '8'
    } else {
        '9'
    }
}

/// The decimal text of `n`, without leading zeros.
pub open spec fn decimal_text(n: nat) -> Seq<char>
    decreases n,
{
    if n < 10 {
        seq![digit_char(n)]
    } else {
        decimal_text(n / 10) + seq![digit_char(n % 10)]
    }
}

/// The value of a decimal digit character ('0' is 0, ... '9' is 9).
pub open spec fn digit_value(c: char) -> int {
    c as int - '0' as int
}

/// Whether `c` is one of '0' to '9'.
pub open spec fn is_decimal_digit(c: char) -> bool {
    '0' <= c <= '9'
}

/// The number that a string of decimal digits denotes, read left to right.
pub open spec fn decimal_value(s: Seq<char>) -> int
    decreases s.len(),
{
    if s.len() == 0 {
        0
    } else {
        decimal_value(s.drop_last()) * 10 + digit_value(s.last())
    }
}

/// The digit character of `d` is a digit whose value is `d`.
pub proof fn lemma_digit_char(d: nat)
    requires
        d < 10,
    ensures
        is_decimal_digit(digit_char(d)),
        digit_value(digit_char(d)) == d,
{
    assert('0' as int == 48 && '1' as int == 49 && '2' as int == 50 && '3' as int == 51 && '4' as int
        == 52 && '5' as int == 53 && '6' as int == 54 && '7' as int == 55 && '8' as int == 56
        && '9' as int == 57);
}

/// The decimal text of a number is its numeral: it is made of digits, reads
/// back as the number, and starts with '0' only when the number is 0.
pub proof fn lemma_decimal_text_is_numeral(n: nat)
    ensures
        decimal_text(n).len() >= 1,
        forall|i: int| 0 <= i < decimal_text(n).len() ==> is_decimal_digit(#[trigger] decimal_text(n)[i]),
        decimal_value(decimal_text(n)) == n,
        n > 0 ==> decimal_text(n)[0] != '0',
    decreases n,
{
    if n < 10 {
        lemma_digit_char(n);
        assert(decimal_text(n) == seq![digit_char(n)]);
        let s = decimal_text(n);
        assert(s.drop_last() =~= Seq::<char>::empty());
        assert(decimal_value(s.drop_last()) == 0);
        assert(decimal_value(s) == decimal_value(s.drop_last()) * 10 + digit_value(s.last()));
    } else {
        let q = n / 10;
        let r = n % 10;
        lemma_digit_char(r);
        lemma_decimal_text_is_numeral(q);
        let t = decimal_text(q);
        let s = decimal_text(n);
        assert(s == t + seq![digit_char(r)]);
        assert(s.drop_last() =~= t);
        assert(s.last() == digit_char(r));
        assert(decimal_value(s) == decimal_value(t) * 10 + digit_value(digit_char(r)));
        assert(q * 10 + r == n) by (nonlinear_arith)
            requires
                q == n / 10,
                r == n % 10,
        ;
        assert forall|i: int| 0 <= i < s.len() implies is_decimal_digit(#[trigger] s[i]) by {
            if i < t.len() {
                assert(s[i] == t[i]);
            }
        }
        assert(q > 0) by (nonlinear_arith)
            requires
                q == n / 10,
                n >= 10,
        ;
        assert(s[0] == t[0]);
    }
}

fn digit_str(d: u16) -> (s: &'static str)
    requires
        d < 10,
    ensures
        s@ == seq![digit_char(d as nat)],
{
    proof {
        reveal_strlit("0");
        reveal_strlit("1");
        reveal_strlit("2");
        reveal_strlit("3");
        reveal_strlit("4");
        reveal_strlit("5");
        reveal_strlit("6");
        reveal_strlit("7");
        reveal_strlit("8");
        reveal_strlit("9");
    }
    if d == 0 {
        "0"
    } else if d == 1 {
        "1"
    } else if d == 2 {
        "2"
    } else if d == 3 {
        "3"
    } else if d == 4 {
        "4"
    } else if d == 5 {
        "5"
    } else if d == 6 {
        "6"
    } else if d == 7 {
        "7"
    } else if d == 8 {
        "8"
    } else {
        "9"
    }
}

fn append_decimal(text: &mut String, n: u16)
    ensures
        final(text)@ == old(text)@ + decimal_text(n as nat),
    decreases n,
{
    if n >= 10 {
        append_decimal(text, n / 10);
    }
    text.append(digit_str(n % 10));
}

/// The host that the server listens on: every interface when no interface is
/// configured, else the configured one.
pub open spec fn listen_host(net: NetworkConfig) -> Seq<char> {
    if net.bind_interface@.len() == 0 {
        "0.0.0.0"@
    } else {
        net.bind_interface@
    }
}

/// The address that the server binds: the listening host, ':' and the port.
pub fn bind_address(net: &NetworkConfig, port: u16) -> (addr: String)
    ensures
        addr@ == listen_host(*net) + ":"@ + decimal_text(port as nat),
{
    let mut addr = if net.bind_interface.as_str().is_empty() {
        "0.0.0.0".to_owned()
    } else {
        net.bind_interface.clone()
    };
    addr.append(":");
    append_decimal(&mut addr, port);
    addr
}

/// The machine name: the host name when it could be read, else
/// "MacWinShare".
pub fn machine_name_or_fallback(host: Option<String>) -> (name: String)
    ensures
        match host {
            Some(h) => name@ == h@,
            None => name@ == fallback_machine_name(),
        },
{
    match host {
        Some(h) => h,
        None => "MacWinShare".to_owned(),
    }
}

/// The directory under which the data directory is made: the local data
/// directory when there is one, else the current directory.
pub fn data_base_dir(dir: Option<String>) -> (base: String)
    ensures
        match dir {
            Some(d) => base@ == d@,
            None => base@ == "."@,
        },
{
    match dir {
        Some(d) => d,
        None => ".".to_owned(),
    }
}

/// The data directory: "MacWinShare" under the local data directory, or
/// under the current directory when there is none.
pub fn data_dir_under(local_dir: Option<String>) -> (dir: String)
    ensures
        match local_dir {
            Some(d) => joined_path(dir@, d@, "MacWinShare"@),
            None => joined_path(dir@, "."@, "MacWinShare"@),
        },
{
    let base = data_base_dir(local_dir);
    let name = "MacWinShare";
    proof {
        reveal_strlit("MacWinShare");
        reveal_strlit(".");
    }
    join_path(base.as_str(), name)
}

impl Config {
    /// A configuration with default settings for the given identity.
    pub fn with_identity(machine_id: String, machine_name: String, data_dir: String) -> (c: Config)
        ensures
            c.machine_id@ == machine_id@,
            c.machine_name@ == machine_name@,
            c.data_dir@ == data_dir@,
            c.port == DEFAULT_PORT,
            is_default_screen(c.screen),
            is_default_security(c.security),
            is_default_network(c.network),
            is_default_clipboard(c.clipboard),
    {
        Config {
            machine_id,
            machine_name,
            port: DEFAULT_PORT,
            screen: ScreenConfig::default(),
            security: SecurityConfig::default(),
            network: NetworkConfig::default(),
            clipboard: ClipboardConfig::default(),
            data_dir,
        }
    }
}

impl Config {
    /// Default settings with a fresh random machine id, the host name (or
    /// "MacWinShare") and the given data directory.
    pub fn default_in(data_dir: String) -> (c: Config)
        ensures
            is_uuid_v4_text(c.machine_id@),
            c.data_dir@ == data_dir@,
            c.port == DEFAULT_PORT,
            is_default_screen(c.screen),
            is_default_security(c.security),
            is_default_network(c.network),
            is_default_clipboard(c.clipboard),
    {
        let machine_name = machine_name_or_fallback(host_name());
        Config::with_identity(random_machine_id(), machine_name, data_dir)
    }
}

impl Default for Config {
    /// Default settings, a fresh random machine id, the host name (or
    /// "MacWinShare") and the directory "MacWinShare" under the local data
    /// directory that `dirs` finds.
    fn default() -> (c: Self)
        ensures
            is_uuid_v4_text(c.machine_id@),
            c.port == DEFAULT_PORT,
            is_default_screen(c.screen),
            is_default_security(c.security),
            is_default_network(c.network),
            is_default_clipboard(c.clipboard),
    {
        Config::default_in(data_dir_under(local_data_dir()))
    }
}

} // verus!
