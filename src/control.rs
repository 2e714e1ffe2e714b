//! Decisions of the daemon's control loop: which page is shown, what a key
//! press does, and whether an edited configuration replaces the running one.
//! The loop around it performs the device and file work these decisions ask
//! for.
use crate::config::{config_error, config_valid, validate_config, ConfigError, StreamrsConfig};
use crate::keystate::{clone_action, PageState};
use crate::paging::{page_count_spec, STREAMDECK_KEY_COUNT};
use crate::plan::{page_count, ButtonAction};
use vstd::prelude::*;

verus! {

/// How often the loop looks for a device while none is connected.
pub const DEVICE_PROBE_INTERVAL_MS: u64 = 500;

/// How often the loop reads the configuration file again.
pub const CONFIG_RELOAD_INTERVAL_MS: u64 = 10_000;

/// Whether at least `interval` milliseconds have passed at `now` since
/// `last`; always so when nothing happened yet.
pub open spec fn interval_elapsed(now: u64, last: Option<u64>, interval: u64) -> bool {
    match last {
        None => true,
        Some(t) => now >= t && now - t >= interval,
    }
}

fn elapsed(now: u64, last: Option<u64>, interval: u64) -> (r: bool)
    ensures
        r == interval_elapsed(now, last, interval),
{
    match last {
        None => true,
        Some(t) => now >= t && now - t >= interval,
    }
}

/// Whether the loop should look for a device at `now`, given whether one is
/// connected and when it last looked.
pub fn probe_due(connected: bool, now: u64, last_probe: Option<u64>) -> (r: bool)
    ensures
        r == (!connected && interval_elapsed(now, last_probe, DEVICE_PROBE_INTERVAL_MS)),
{
    !connected && elapsed(now, last_probe, DEVICE_PROBE_INTERVAL_MS)
}

/// Whether the loop should read the configuration file again at `now`,
/// given when it last did.
pub fn reload_due(now: u64, last_reload: u64) -> (r: bool)
    ensures
        r == interval_elapsed(now, Some(last_reload), CONFIG_RELOAD_INTERVAL_MS),
{
    elapsed(now, Some(last_reload), CONFIG_RELOAD_INTERVAL_MS)
}

/// What the loop must do after a key-state poll.
#[derive(Clone, Debug, PartialEq, Eq)]
pub enum KeyDispatch {
    /// Nothing to do.
    Nothing,
    /// Start this command line.
    Launch(String),
    /// Build and show this page.
    ShowPage(usize),
}

/// What came of reading the configuration file again.
#[derive(Clone, Debug, PartialEq, Eq)]
pub enum ReloadOutcome {
    /// The file's text has not changed.
    Unchanged,
    /// The text could not be parsed; the message says why.
    ParseFailed(String),
    /// The parsed configuration was refused.
    Rejected(ConfigError),
    /// The new configuration is active. `identity_changed` tells that the
    /// device identity differs, which an open connection does not follow.
    Applied { identity_changed: bool },
}

/// State the control loop keeps between iterations.
pub struct ControlState {
    pub config: StreamrsConfig,
    /// Text the active configuration was parsed from.
    pub config_raw: String,
    pub current_page: usize,
    pub total_pages: usize,
    /// Key reported pressed by the previous poll.
    pub last_pressed: Option<usize>,
    /// State of the page on the device, while one is connected.
    pub page_state: Option<PageState>,
}

/// Whether two configurations name the same device.
pub open spec fn same_identity(a: StreamrsConfig, b: StreamrsConfig) -> bool {
    a.vendor_id == b.vendor_id && a.product_id == b.product_id && a.usage == b.usage
        && a.usage_page == b.usage_page
}

impl ControlState {
    pub open spec fn wf(&self) -> bool {
        &&& config_valid(self.config)
        &&& self.total_pages == page_count_spec(
            self.config.keys_per_page as int,
            self.config.keys@.len() as int,
        )
        &&& self.current_page < self.total_pages
        &&& self.page_state matches Some(p) ==> p.wf()
    }

    /// Starts on the first page of a valid configuration, with no device.
    pub fn new(config: StreamrsConfig, config_raw: String) -> (r: ControlState)
        requires
            config_valid(config),
        ensures
            r.wf(),
            r.config == config,
            r.config_raw == config_raw,
            r.current_page == 0,
            r.last_pressed is None,
            r.page_state is None,
    {
        let total_pages = page_count(&config);
        ControlState {
            config,
            config_raw,
            current_page: 0,
            total_pages,
            last_pressed: None,
            page_state: None,
        }
    }

    /// A device was found: forget the last press. Returns the page to build.
    pub fn on_connected(&mut self) -> (r: usize)
        requires
            old(self).wf(),
        ensures
            final(self).wf(),
            final(self).config == old(self).config,
            final(self).config_raw == old(self).config_raw,
            final(self).current_page == old(self).current_page,
            final(self).page_state == old(self).page_state,
            final(self).last_pressed is None,
            r == final(self).current_page,
    {
        self.last_pressed = None;
        self.current_page
    }

    /// The page built for the device is now shown.
    pub fn install_page(&mut self, state: PageState)
        requires
            old(self).wf(),
            state.wf(),
        ensures
            final(self).wf(),
            final(self).config == old(self).config,
            final(self).config_raw == old(self).config_raw,
            final(self).current_page == old(self).current_page,
            final(self).last_pressed == old(self).last_pressed,
            final(self).page_state == Some(state),
    {
        self.page_state = Some(state);
    }

    /// The device is gone: drop its page and the last press.
    pub fn on_disconnected(&mut self)
        requires
            old(self).wf(),
        ensures
            final(self).wf(),
            final(self).config == old(self).config,
            final(self).config_raw == old(self).config_raw,
            final(self).current_page == old(self).current_page,
            final(self).page_state is None,
            final(self).last_pressed is None,
    {
        self.page_state = None;
        self.last_pressed = None;
    }

    /// Handles the key reported pressed by a poll. Only a change from the
    /// previous poll acts: a launch action is handed back, and the page
    /// buttons move one page within range.
    pub fn on_key_state(&mut self, pressed: Option<usize>) -> (r: KeyDispatch)
        requires
            old(self).wf(),
        ensures
            final(self).wf(),
            final(self).config == old(self).config,
            final(self).config_raw == old(self).config_raw,
            final(self).page_state == old(self).page_state,
            final(self).last_pressed == pressed,
            pressed == old(self).last_pressed ==> r == KeyDispatch::Nothing && final(self).current_page == old(self).current_page,
            pressed != old(self).last_pressed ==> {
                let action = match (pressed, old(self).page_state) {
                    (Some(i), Some(p)) => if i < STREAMDECK_KEY_COUNT {
                        p.button_actions@[i as int]
                    } else {
                        None
                    },
                    _ => None,
                };
                match action {
                    Some(ButtonAction::Launch(c)) => r == KeyDispatch::Launch(c)
                        && final(self).current_page == old(self).current_page,
                    Some(ButtonAction::PreviousPage) => if old(self).current_page > 0 {
                        final(self).current_page == old(self).current_page - 1 && r
                            == KeyDispatch::ShowPage(final(self).current_page)
                    } else {
                        r == KeyDispatch::Nothing && final(self).current_page == old(self).current_page
                    },
                    Some(ButtonAction::NextPage) => if old(self).current_page + 1 < old(self).total_pages {
                        final(self).current_page == old(self).current_page + 1 && r
                            == KeyDispatch::ShowPage(final(self).current_page)
                    } else {
                        r == KeyDispatch::Nothing && final(self).current_page == old(self).current_page
                    },
                    None => r == KeyDispatch::Nothing && final(self).current_page == old(self).current_page,
                }
            },
    {
        if pressed == self.last_pressed {
            return KeyDispatch::Nothing;
        }
        self.last_pressed = pressed;
        let action = match (pressed, &self.page_state) {
            (Some(i), Some(p)) => if i < STREAMDECK_KEY_COUNT {
                clone_action(&p.button_actions[i])
            } else {
                None
            },
            _ => None,
        };
        match action {
            Some(ButtonAction::Launch(c)) => KeyDispatch::Launch(c),
            Some(ButtonAction::PreviousPage) => {
                if self.current_page > 0 {
                    self.current_page = self.current_page - 1;
                    KeyDispatch::ShowPage(self.current_page)
                } else {
                    KeyDispatch::Nothing
                }
            },
            Some(ButtonAction::NextPage) => {
                if self.current_page + 1 < self.total_pages {
                    self.current_page = self.current_page + 1;
                    KeyDispatch::ShowPage(self.current_page)
                } else {
                    KeyDispatch::Nothing
                }
            },
            None => KeyDispatch::Nothing,
        }
    }

    /// Takes the configuration file's text as read again, with what parsing
    /// it gave. Unchanged text does nothing. A text that fails to parse, or a
    /// configuration that is refused, leaves the whole state as it was: the
    /// running configuration, page and page state stay. Otherwise the new
    /// configuration becomes active, keeping the current page where it still
    /// exists; the caller rebuilds the image cache and, when a device is
    /// connected, the page.
    pub fn reload(&mut self, raw: String, parsed: Result<StreamrsConfig, String>) -> (r:
        ReloadOutcome)
        requires
            old(self).wf(),
        ensures
            final(self).wf(),
            raw@ == old(self).config_raw@ ==> r == ReloadOutcome::Unchanged && *final(self)
                == *old(self),
            raw@ != old(self).config_raw@ ==> match parsed {
                Err(e) => r == ReloadOutcome::ParseFailed(e) && *final(self) == *old(self),
                Ok(c) => if !config_valid(c) {
                    r == ReloadOutcome::Rejected(config_error(c)) && *final(self) == *old(self)
                } else {
                    &&& r == ReloadOutcome::Applied {
                        identity_changed: !same_identity(c, old(self).config),
                    }
                    &&& final(self).config == c
                    &&& final(self).config_raw == raw
                    &&& final(self).current_page == if old(self).current_page
                        < final(self).total_pages {
                        old(self).current_page as int
                    } else {
                        final(self).total_pages - 1
                    }
                    &&& final(self).page_state == old(self).page_state
                    &&& final(self).last_pressed == if old(self).page_state is Some {
                        None
                    } else {
                        old(self).last_pressed
                    }
                },
            },
    {
        if raw == self.config_raw {
            return ReloadOutcome::Unchanged;
        }
        let candidate = match parsed {
            Err(e) => {
                return ReloadOutcome::ParseFailed(e);
            },
            Ok(c) => c,
        };
        let identity_changed = !(candidate.vendor_id == self.config.vendor_id
            && candidate.product_id == self.config.product_id && candidate.usage
            == self.config.usage && candidate.usage_page == self.config.usage_page);
        let config = match validate_config(candidate) {
            Err(e) => {
                return ReloadOutcome::Rejected(e);
            },
            Ok(c) => c,
        };
        let total_pages = page_count(&config);
        if self.current_page >= total_pages {
            self.current_page = total_pages - 1;
        }
        self.total_pages = total_pages;
        self.config = config;
        self.config_raw = raw;
        if self.page_state.is_some() {
            self.last_pressed = None;
        }
        ReloadOutcome::Applied { identity_changed }
    }
}

} // verus!
