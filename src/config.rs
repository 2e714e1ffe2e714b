//! Configuration model: device identity, brightness, paging and the ordered
//! key bindings, with the rules that accept a configuration and derive each
//! key's effective action, status command and icons.
use crate::paging::{MIN_KEYS_PER_PAGE, STREAMDECK_KEY_COUNT};
use crate::text::{first_two_words, first_word, second_word, trim_text, trimmed};
use vstd::prelude::*;

verus! {

pub const DEFAULT_VENDOR_ID: u16 = 0x0fd9;

pub const DEFAULT_PRODUCT_ID: u16 = 0x0080;

pub const DEFAULT_USAGE: u16 = 0x0001;

pub const DEFAULT_USAGE_PAGE: u16 = 0x000c;

pub const DEFAULT_BRIGHTNESS: usize = 60;

pub const DEFAULT_KEYS_PER_PAGE: usize = 15;

/// Poll interval of a status key without one of its own.
pub const DEFAULT_STATUS_CHECK_INTERVAL_MS: u64 = 1000;

/// Shortest poll interval a status key may have.
pub const MIN_STATUS_CHECK_INTERVAL_MS: u64 = 100;

pub fn default_vendor_id() -> (r: u16)
    ensures
        r == DEFAULT_VENDOR_ID,
{
    DEFAULT_VENDOR_ID
}

pub fn default_product_id() -> (r: u16)
    ensures
        r == DEFAULT_PRODUCT_ID,
{
    DEFAULT_PRODUCT_ID
}

pub fn default_usage() -> (r: u16)
    ensures
        r == DEFAULT_USAGE,
{
    DEFAULT_USAGE
}

pub fn default_usage_page() -> (r: u16)
    ensures
        r == DEFAULT_USAGE_PAGE,
{
    DEFAULT_USAGE_PAGE
}

pub fn default_brightness() -> (r: usize)
    ensures
        r == DEFAULT_BRIGHTNESS,
{
    DEFAULT_BRIGHTNESS
}

pub fn default_keys_per_page() -> (r: usize)
    ensures
        r == DEFAULT_KEYS_PER_PAGE,
{
    DEFAULT_KEYS_PER_PAGE
}

/// Icon used by a key that names none.
pub fn default_icon_name() -> (r: String)
    ensures
        r@ == "blank.png"@,
{
    String::from_str("blank.png")
}

/// One configured key.
#[derive(Clone, Debug, PartialEq, Eq)]
pub struct StreamrsKeyBinding {
    pub action: Option<String>,
    pub icon: String,
    pub clock_background: Option<String>,
    pub icon_on: Option<String>,
    pub icon_off: Option<String>,
    pub status: Option<String>,
    pub status_interval_ms: Option<u64>,
}

/// The whole configuration file.
#[derive(Clone, Debug)]
pub struct StreamrsConfig {
    pub vendor_id: u16,
    pub product_id: u16,
    pub usage: u16,
    pub usage_page: u16,
    pub brightness: usize,
    pub keys_per_page: usize,
    pub keys: Vec<StreamrsKeyBinding>,
}

impl Default for StreamrsKeyBinding {
    fn default() -> (r: Self)
        ensures
            r.action is None,
            r.icon@ == "blank.png"@,
            r.clock_background is None,
            r.icon_on is None,
            r.icon_off is None,
            r.status is None,
            r.status_interval_ms is None,
    {
        StreamrsKeyBinding {
            action: None,
            icon: default_icon_name(),
            clock_background: None,
            icon_on: None,
            icon_off: None,
            status: None,
            status_interval_ms: None,
        }
    }
}

impl Default for StreamrsConfig {
    fn default() -> (r: Self)
        ensures
            r.vendor_id == DEFAULT_VENDOR_ID,
            r.product_id == DEFAULT_PRODUCT_ID,
            r.usage == DEFAULT_USAGE,
            r.usage_page == DEFAULT_USAGE_PAGE,
            r.brightness == DEFAULT_BRIGHTNESS,
            r.keys_per_page == DEFAULT_KEYS_PER_PAGE,
            r.keys@.len() == STREAMDECK_KEY_COUNT,
            forall|i: int|
                0 <= i < r.keys@.len() ==> #[trigger] r.keys@[i].action is None
                    && r.keys@[i].icon@ == "blank.png"@ && r.keys@[i].status is None,
    {
        let mut keys: Vec<StreamrsKeyBinding> = Vec::new();
        let mut i: usize = 0;
        while i < STREAMDECK_KEY_COUNT
            invariant
                i <= STREAMDECK_KEY_COUNT,
                keys@.len() == i,
                forall|j: int|
                    0 <= j < keys@.len() ==> #[trigger] keys@[j].action is None
                        && keys@[j].icon@ == "blank.png"@ && keys@[j].status is None,
            decreases STREAMDECK_KEY_COUNT - i,
        {
            keys.push(StreamrsKeyBinding::default());
            i = i + 1;
        }
        StreamrsConfig {
            vendor_id: default_vendor_id(),
            product_id: default_product_id(),
            usage: default_usage(),
            usage_page: default_usage_page(),
            brightness: default_brightness(),
            keys_per_page: default_keys_per_page(),
            keys,
        }
    }
}

/// Why a configuration was refused.
#[derive(Clone, Copy, Debug, PartialEq, Eq, Structural)]
pub enum ConfigError {
    /// The key list is empty.
    NoKeys,
    /// `keys_per_page` lies outside `3..=15`; it holds the value given.
    InvalidKeysPerPage(usize),
}

/// A configuration the daemon can run: at least one key, and a page size
/// between the minimum and the number of physical keys.
pub open spec fn config_valid(c: StreamrsConfig) -> bool {
    &&& c.keys@.len() > 0
    &&& MIN_KEYS_PER_PAGE <= c.keys_per_page <= STREAMDECK_KEY_COUNT
}

/// The reason a configuration that is not valid is refused: an empty key
/// list first, else its page size.
pub open spec fn config_error(c: StreamrsConfig) -> ConfigError {
    if c.keys@.len() == 0 {
        ConfigError::NoKeys
    } else {
        ConfigError::InvalidKeysPerPage(c.keys_per_page)
    }
}

/// Accepts a freshly parsed configuration or says why it is refused. An
/// empty key list is reported before a bad page size.
pub fn validate_config(config: StreamrsConfig) -> (r: Result<StreamrsConfig, ConfigError>)
    ensures
        r matches Ok(c) ==> c == config && config_valid(config),
        r is Ok <==> config_valid(config),
        !config_valid(config) ==> r == Err::<StreamrsConfig, ConfigError>(config_error(config)),
        r == Err::<StreamrsConfig, ConfigError>(ConfigError::NoKeys) <==> config.keys@.len()
            == 0,
        r == Err::<StreamrsConfig, ConfigError>(ConfigError::InvalidKeysPerPage(
            config.keys_per_page,
        )) <==> config.keys@.len() > 0 && !(MIN_KEYS_PER_PAGE <= config.keys_per_page
            <= STREAMDECK_KEY_COUNT),
{
    if config.keys.len() == 0 {
        return Err(ConfigError::NoKeys);
    }
    if config.keys_per_page < MIN_KEYS_PER_PAGE || config.keys_per_page > STREAMDECK_KEY_COUNT {
        return Err(ConfigError::InvalidKeysPerPage(config.keys_per_page));
    }
    Ok(config)
}

/// Text of an optional string field.
pub open spec fn opt_view(o: Option<String>) -> Option<Seq<char>> {
    match o {
        Some(s) => Some(s@),
        None => None,
    }
}

/// The trimmed value of an optional field, absent when nothing but
/// whitespace is left.
pub open spec fn trimmed_non_empty_spec(v: Option<Seq<char>>) -> Option<Seq<char>> {
    match v {
        Some(s) => if trimmed(s).len() > 0 {
            Some(trimmed(s))
        } else {
            None
        },
        None => None,
    }
}

pub fn trimmed_non_empty(value: Option<&str>) -> (r: Option<String>)
    ensures
        opt_view(r) == trimmed_non_empty_spec(
            match value {
                Some(v) => Some(v@),
                None => None,
            },
        ),
{
    match value {
        Some(v) => {
            let t = trim_text(v);
            if t.unicode_len() > 0 {
                Some(t)
            } else {
                None
            }
        },
        None => None,
    }
}

fn opt_trimmed(value: &Option<String>) -> (r: Option<String>)
    ensures
        opt_view(r) == trimmed_non_empty_spec(opt_view(*value)),
{
    match value {
        Some(v) => trimmed_non_empty(Some(v.as_str())),
        None => None,
    }
}

/// The key's launch action: its trimmed `action`, if any is left.
pub fn key_launch_action(key: &StreamrsKeyBinding) -> (r: Option<String>)
    ensures
        opt_view(r) == trimmed_non_empty_spec(opt_view(key.action)),
{
    opt_trimmed(&key.action)
}

/// The key's status command: its trimmed `status`, if any is left.
pub fn key_status_command(key: &StreamrsKeyBinding) -> (r: Option<String>)
    ensures
        opt_view(r) == trimmed_non_empty_spec(opt_view(key.status)),
{
    opt_trimmed(&key.status)
}

/// The key's clock background: its trimmed `clock_background`, if any is left.
pub fn key_clock_background(key: &StreamrsKeyBinding) -> (r: Option<String>)
    ensures
        opt_view(r) == trimmed_non_empty_spec(opt_view(key.clock_background)),
{
    opt_trimmed(&key.clock_background)
}

/// Icon of a status key while its check succeeds or fails: the trimmed
/// `icon_on` / `icon_off`, else the key's plain icon.
pub open spec fn status_icon_spec(choice: Option<String>, icon: String) -> Seq<char> {
    match trimmed_non_empty_spec(opt_view(choice)) {
        Some(t) => t,
        None => icon@,
    }
}

pub fn key_status_icon_on(key: &StreamrsKeyBinding) -> (r: String)
    ensures
        r@ == status_icon_spec(key.icon_on, key.icon),
{
    match opt_trimmed(&key.icon_on) {
        Some(t) => t,
        None => key.icon.clone(),
    }
}

pub fn key_status_icon_off(key: &StreamrsKeyBinding) -> (r: String)
    ensures
        r@ == status_icon_spec(key.icon_off, key.icon),
{
    match opt_trimmed(&key.icon_off) {
        Some(t) => t,
        None => key.icon.clone(),
    }
}

/// Poll interval of a status key in milliseconds: its own or the default,
/// raised to the minimum.
pub open spec fn status_interval_spec(v: Option<u64>) -> u64 {
    let ms = match v {
        Some(ms) => ms,
        None => DEFAULT_STATUS_CHECK_INTERVAL_MS,
    };
    if ms < MIN_STATUS_CHECK_INTERVAL_MS {
        MIN_STATUS_CHECK_INTERVAL_MS
    } else {
        ms
    }
}

pub fn key_status_interval(key: &StreamrsKeyBinding) -> (r: u64)
    ensures
        r == status_interval_spec(key.status_interval_ms),
        r >= MIN_STATUS_CHECK_INTERVAL_MS,
{
    let ms = match key.status_interval_ms {
        Some(ms) => ms,
        None => DEFAULT_STATUS_CHECK_INTERVAL_MS,
    };
    if ms < MIN_STATUS_CHECK_INTERVAL_MS {
        MIN_STATUS_CHECK_INTERVAL_MS
    } else {
        ms
    }
}

/// A command that opens a file or URL: its first word is `open` or
/// `xdg-open`, or its first two words are `gio open`.
pub open spec fn launcher_like(command: Seq<char>) -> bool {
    let w1 = first_word(command);
    let w2 = second_word(command);
    w1 == "open"@ || w1 == "xdg-open"@ || (w1 == "gio"@ && w2 == "open"@)
}

pub fn is_launcher_like_command(command: &str) -> (r: bool)
    ensures
        r == launcher_like(command@),
{
    let (w1, w2) = first_two_words(command);
    let open = String::from_str("open");
    let xdg_open = String::from_str("xdg-open");
    let gio = String::from_str("gio");
    w1 == open || w1 == xdg_open || (w1 == gio && w2 == open)
}

} // verus!
