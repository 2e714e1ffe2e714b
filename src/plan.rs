//! Page plans: what each physical slot shows and does on one page of a
//! configuration, before anything is sent to the device.
use crate::config::{
    is_launcher_like_command, key_clock_background, key_launch_action, key_status_command,
    key_status_icon_off, key_status_icon_on, key_status_interval, launcher_like, opt_view,
    status_icon_spec, status_interval_spec, trimmed_non_empty_spec, StreamrsConfig,
    StreamrsKeyBinding,
};
use crate::paging::{
    navigation_spec, page_capacity_spec, page_count_spec, page_offset_spec, lemma_offset_within_keys,
    NavigationSlot, PagingLayout, STREAMDECK_KEY_COUNT,
};
use crate::status::StatusCache;
use vstd::prelude::*;

verus! {

/// Icon of the "next page" button.
pub const NEXT_PAGE_ICON: &'static str = "stream-deck-next-page.png";

/// Icon of the "previous page" button.
pub const PREVIOUS_PAGE_ICON: &'static str = "stream-deck-previous-page.png";

/// What pressing a slot does.
#[derive(Clone, Debug, PartialEq, Eq)]
pub enum ButtonAction {
    Launch(String),
    PreviousPage,
    NextPage,
}

/// A button action with its command as text.
pub enum ActionView {
    Launch(Seq<char>),
    PreviousPage,
    NextPage,
}

impl ButtonAction {
    pub open spec fn view(&self) -> ActionView {
        match self {
            ButtonAction::Launch(s) => ActionView::Launch(s@),
            ButtonAction::PreviousPage => ActionView::PreviousPage,
            ButtonAction::NextPage => ActionView::NextPage,
        }
    }
}

/// A status key as planned for a page.
#[derive(Clone, Debug, PartialEq, Eq)]
pub struct PlannedStatusKey {
    pub command: String,
    pub icon_on: String,
    pub icon_off: String,
    pub clock_background: Option<String>,
    pub check_interval_ms: u64,
    /// Result cached from an earlier check, if any.
    pub current_on: Option<bool>,
    /// No cached result: check at once instead of after one interval.
    pub poll_now: bool,
}

/// A planned status key with its texts as sequences.
pub struct StatusView {
    pub command: Seq<char>,
    pub icon_on: Seq<char>,
    pub icon_off: Seq<char>,
    pub clock_background: Option<Seq<char>>,
    pub check_interval_ms: u64,
    pub current_on: Option<bool>,
    pub poll_now: bool,
}

impl PlannedStatusKey {
    pub open spec fn view(&self) -> StatusView {
        StatusView {
            command: self.command@,
            icon_on: self.icon_on@,
            icon_off: self.icon_off@,
            clock_background: opt_view(self.clock_background),
            check_interval_ms: self.check_interval_ms,
            current_on: self.current_on,
            poll_now: self.poll_now,
        }
    }
}

/// Something odd in a key's configuration that the plan worked around.
#[derive(Clone, Debug, PartialEq, Eq)]
pub enum PagePlanWarning {
    /// A launcher-like status command on a key without an action: it
    /// becomes the key's action.
    LauncherLikeStatusWithoutAction { key_number: usize, command: String },
    /// A launcher-like status command on a key with an action: it is ignored.
    LauncherLikeStatusIgnored { key_number: usize },
}

pub enum WarningView {
    WithoutAction(int, Seq<char>),
    Ignored(int),
}

impl PagePlanWarning {
    pub open spec fn view(&self) -> WarningView {
        match self {
            PagePlanWarning::LauncherLikeStatusWithoutAction { key_number, command } =>
                WarningView::WithoutAction(*key_number as int, command@),
            PagePlanWarning::LauncherLikeStatusIgnored { key_number } => WarningView::Ignored(
                *key_number as int,
            ),
        }
    }
}

/// Icon name and optional clock background of a slot.
pub type SlotIcon = Option<(String, Option<String>)>;

pub open spec fn icon_view(o: SlotIcon) -> Option<(Seq<char>, Option<Seq<char>>)> {
    match o {
        Some((i, b)) => Some((i@, opt_view(b))),
        None => None,
    }
}

pub open spec fn action_opt_view(o: Option<ButtonAction>) -> Option<ActionView> {
    match o {
        Some(a) => Some(a.view()),
        None => None,
    }
}

pub open spec fn status_opt_view(o: Option<PlannedStatusKey>) -> Option<StatusView> {
    match o {
        Some(s) => Some(s.view()),
        None => None,
    }
}

/// Everything a page shows and does, slot by slot.
#[derive(Clone, Debug)]
pub struct PageLayoutPlan {
    pub page: usize,
    pub total_pages: usize,
    pub icons: Vec<SlotIcon>,
    pub button_actions: Vec<Option<ButtonAction>>,
    pub status_slots: Vec<Option<PlannedStatusKey>>,
    pub warnings: Vec<PagePlanWarning>,
}

/// The key's status command, trimmed, if it has one.
pub open spec fn status_command_spec(key: StreamrsKeyBinding) -> Option<Seq<char>> {
    trimmed_non_empty_spec(opt_view(key.status))
}

/// A status command that opens something: never polled.
pub open spec fn launcher_status(key: StreamrsKeyBinding) -> bool {
    status_command_spec(key) is Some && launcher_like(status_command_spec(key).unwrap())
}

/// A key whose icon follows its status command.
pub open spec fn polled(key: StreamrsKeyBinding) -> bool {
    status_command_spec(key) is Some && !launcher_like(status_command_spec(key).unwrap())
}

/// Icon a key shows when its page is built.
pub open spec fn key_icon_spec(key: StreamrsKeyBinding, cache: StatusCache) -> (
    Seq<char>,
    Option<Seq<char>>,
) {
    let bg = trimmed_non_empty_spec(opt_view(key.clock_background));
    if polled(key) {
        if cache.lookup(status_command_spec(key).unwrap()) == Some(true) {
            (status_icon_spec(key.icon_on, key.icon), bg)
        } else {
            (status_icon_spec(key.icon_off, key.icon), bg)
        }
    } else {
        (key.icon@, bg)
    }
}

/// What pressing a key does: its action, else a launcher-like status command.
pub open spec fn key_action_spec(key: StreamrsKeyBinding) -> Option<ActionView> {
    match trimmed_non_empty_spec(opt_view(key.action)) {
        Some(a) => Some(ActionView::Launch(a)),
        None => if launcher_status(key) {
            Some(ActionView::Launch(status_command_spec(key).unwrap()))
        } else {
            None
        },
    }
}

/// The status poll planned for a key.
pub open spec fn key_status_spec(key: StreamrsKeyBinding, cache: StatusCache) -> Option<
    StatusView,
> {
    if polled(key) {
        let cmd = status_command_spec(key).unwrap();
        Some(
            StatusView {
                command: cmd,
                icon_on: status_icon_spec(key.icon_on, key.icon),
                icon_off: status_icon_spec(key.icon_off, key.icon),
                clock_background: trimmed_non_empty_spec(opt_view(key.clock_background)),
                check_interval_ms: status_interval_spec(key.status_interval_ms),
                current_on: cache.lookup(cmd),
                poll_now: cache.lookup(cmd) is None,
            },
        )
    } else {
        None
    }
}

/// The warning a key at 1-based position `number` raises, if any.
pub open spec fn key_warning_spec(key: StreamrsKeyBinding, number: int) -> Option<WarningView> {
    if launcher_status(key) {
        if trimmed_non_empty_spec(opt_view(key.action)) is None {
            Some(WarningView::WithoutAction(number, status_command_spec(key).unwrap()))
        } else {
            Some(WarningView::Ignored(number))
        }
    } else {
        None
    }
}

/// The page actually shown when `page` is asked for: at most the last one.
pub open spec fn clamp_page(page: int, total: int) -> int {
    if page < total - 1 {
        page
    } else {
        total - 1
    }
}

/// Index of the key shown at slot `i` of page `pg`, if any.
pub open spec fn slot_key(c: StreamrsConfig, pg: int, total: int, i: int) -> Option<int> {
    let k = c.keys_per_page as int;
    let off = page_offset_spec(k, pg, total);
    if navigation_spec(k, STREAMDECK_KEY_COUNT as int, pg, total, i) is None && i
        < page_capacity_spec(k, pg, total) && off + i < c.keys@.len() {
        Some(off + i)
    } else {
        None
    }
}

/// Icon of slot `i` on page `pg`.
pub open spec fn slot_icon_spec(
    c: StreamrsConfig,
    cache: StatusCache,
    pg: int,
    total: int,
    i: int,
) -> Option<(Seq<char>, Option<Seq<char>>)> {
    match navigation_spec(c.keys_per_page as int, STREAMDECK_KEY_COUNT as int, pg, total, i) {
        Some(NavigationSlot::PreviousPage) => Some((PREVIOUS_PAGE_ICON@, None)),
        Some(NavigationSlot::NextPage) => Some((NEXT_PAGE_ICON@, None)),
        None => match slot_key(c, pg, total, i) {
            Some(j) => Some(key_icon_spec(c.keys@[j], cache)),
            None => None,
        },
    }
}

/// Action of slot `i` on page `pg`.
pub open spec fn slot_action_spec(c: StreamrsConfig, pg: int, total: int, i: int) -> Option<
    ActionView,
> {
    match navigation_spec(c.keys_per_page as int, STREAMDECK_KEY_COUNT as int, pg, total, i) {
        Some(NavigationSlot::PreviousPage) => Some(ActionView::PreviousPage),
        Some(NavigationSlot::NextPage) => Some(ActionView::NextPage),
        None => match slot_key(c, pg, total, i) {
            Some(j) => key_action_spec(c.keys@[j]),
            None => None,
        },
    }
}

/// Status poll of slot `i` on page `pg`.
pub open spec fn slot_status_spec(
    c: StreamrsConfig,
    cache: StatusCache,
    pg: int,
    total: int,
    i: int,
) -> Option<StatusView> {
    match slot_key(c, pg, total, i) {
        Some(j) => key_status_spec(c.keys@[j], cache),
        None => None,
    }
}

/// Warnings raised by slots `0..n` of page `pg`, in slot order.
pub open spec fn warnings_spec(c: StreamrsConfig, pg: int, total: int, n: int) -> Seq<WarningView>
    decreases n,
{
    if n <= 0 {
        Seq::empty()
    } else {
        let before = warnings_spec(c, pg, total, n - 1);
        match slot_key(c, pg, total, n - 1) {
            Some(j) => match key_warning_spec(c.keys@[j], j + 1) {
                Some(w) => before.push(w),
                None => before,
            },
            None => before,
        }
    }
}

/// A status key's first state comes from the cache: with nothing cached for
/// its command the page shows its "off" icon and checks at once; with a
/// cached success it shows its "on" icon and checks one interval later.
pub proof fn lemma_status_plan_follows_cache(
    c: StreamrsConfig,
    cache: StatusCache,
    pg: int,
    total: int,
    i: int,
    j: int,
)
    requires
        slot_key(c, pg, total, i) == Some(j),
        polled(c.keys@[j]),
    ensures
        ({
            let key = c.keys@[j];
            let cmd = status_command_spec(key).unwrap();
            let bg = trimmed_non_empty_spec(opt_view(key.clock_background));
            &&& cache.lookup(cmd) is None ==> {
                &&& slot_icon_spec(c, cache, pg, total, i) == Some(
                    (status_icon_spec(key.icon_off, key.icon), bg),
                )
                &&& slot_status_spec(c, cache, pg, total, i) matches Some(s) && s.poll_now
                    && s.current_on is None
            }
            &&& cache.lookup(cmd) == Some(true) ==> {
                &&& slot_icon_spec(c, cache, pg, total, i) == Some(
                    (status_icon_spec(key.icon_on, key.icon), bg),
                )
                &&& slot_status_spec(c, cache, pg, total, i) matches Some(s) && !s.poll_now
                    && s.current_on == Some(true)
            }
        }),
{
}

/// The layout a configuration asks for.
pub fn paging_layout(config: &StreamrsConfig) -> (r: PagingLayout)
    ensures
        r.total_slots == STREAMDECK_KEY_COUNT,
        r.keys_per_page == config.keys_per_page,
{
    PagingLayout::new(STREAMDECK_KEY_COUNT, config.keys_per_page)
}

/// Number of pages a configuration needs.
pub fn page_count(config: &StreamrsConfig) -> (r: usize)
    requires
        3 <= config.keys_per_page <= STREAMDECK_KEY_COUNT,
    ensures
        r == page_count_spec(config.keys_per_page as int, config.keys@.len() as int),
        r >= 1,
{
    paging_layout(config).page_count(config.keys.len())
}

/// The status command of a key that is polled, if it is.
fn polled_command(key: &StreamrsKeyBinding) -> (r: (Option<String>, bool))
    ensures
        opt_view(r.0) == status_command_spec(*key),
        r.1 == launcher_status(*key),
{
    let cmd = key_status_command(key);
    let launcher = match &cmd {
        Some(c) => is_launcher_like_command(c.as_str()),
        None => false,
    };
    (cmd, launcher)
}

/// Plans slot `index` of the page for the key `key` at 0-based position
/// `key_index`: icon, action, status poll and warning.
fn plan_key(key: &StreamrsKeyBinding, key_index: usize, cache: &StatusCache) -> (r: (
    SlotIcon,
    Option<ButtonAction>,
    Option<PlannedStatusKey>,
    Option<PagePlanWarning>,
))
    requires
        key_index < usize::MAX,
    ensures
        icon_view(r.0) == Some(key_icon_spec(*key, *cache)),
        action_opt_view(r.1) == key_action_spec(*key),
        status_opt_view(r.2) == key_status_spec(*key, *cache),
        match r.3 {
            Some(w) => Some(w.view()),
            None => None,
        } == key_warning_spec(*key, key_index + 1),
{
    let clock_background = key_clock_background(key);
    let launch_action = key_launch_action(key);
    let (status_command, status_is_launcher) = polled_command(key);

    let mut icon: SlotIcon = None;
    let mut status: Option<PlannedStatusKey> = None;
    match &status_command {
        Some(command) if !status_is_launcher => {
            let icon_on = key_status_icon_on(key);
            let icon_off = key_status_icon_off(key);
            let check_interval_ms = key_status_interval(key);
            let cached = cache.get(command.as_str());
            let initial_on = match cached {
                Some(v) => v,
                None => false,
            };
            let initial_icon = if initial_on {
                icon_on.clone()
            } else {
                icon_off.clone()
            };
            icon = Some((initial_icon, clock_background.clone()));
            status = Some(
                PlannedStatusKey {
                    command: command.clone(),
                    icon_on,
                    icon_off,
                    clock_background: clock_background.clone(),
                    check_interval_ms,
                    current_on: cached,
                    poll_now: cached.is_none(),
                },
            );
        },
        _ => {
            icon = Some((key.icon.clone(), clock_background.clone()));
        },
    }

    let mut action: Option<ButtonAction> = None;
    let mut warning: Option<PagePlanWarning> = None;
    if status_is_launcher {
        match &launch_action {
            None => {
                if let Some(command) = &status_command {
                    warning = Some(
                        PagePlanWarning::LauncherLikeStatusWithoutAction {
                            key_number: key_index + 1,
                            command: command.clone(),
                        },
                    );
                    action = Some(ButtonAction::Launch(command.clone()));
                }
            },
            Some(_) => {
                warning = Some(
                    PagePlanWarning::LauncherLikeStatusIgnored { key_number: key_index + 1 },
                );
            },
        }
    }
    if let Some(a) = launch_action {
        action = Some(ButtonAction::Launch(a));
    }
    (icon, action, status, warning)
}

/// Plans page `page` (clamped to the last page) of a valid configuration.
pub fn plan_page_layout(config: &StreamrsConfig, status_cache: &StatusCache, page: usize) -> (r:
    PageLayoutPlan)
    requires
        3 <= config.keys_per_page <= STREAMDECK_KEY_COUNT,
    ensures
        r.total_pages == page_count_spec(config.keys_per_page as int, config.keys@.len() as int),
        r.page == clamp_page(page as int, r.total_pages as int),
        r.icons@.len() == STREAMDECK_KEY_COUNT,
        r.button_actions@.len() == STREAMDECK_KEY_COUNT,
        r.status_slots@.len() == STREAMDECK_KEY_COUNT,
        forall|i: int|
            0 <= i < STREAMDECK_KEY_COUNT ==> icon_view(#[trigger] r.icons@[i]) == slot_icon_spec(
                *config,
                *status_cache,
                r.page as int,
                r.total_pages as int,
                i,
            ),
        forall|i: int|
            0 <= i < STREAMDECK_KEY_COUNT ==> action_opt_view(#[trigger] r.button_actions@[i])
                == slot_action_spec(*config, r.page as int, r.total_pages as int, i),
        forall|i: int|
            0 <= i < STREAMDECK_KEY_COUNT ==> status_opt_view(#[trigger] r.status_slots@[i])
                == slot_status_spec(*config, *status_cache, r.page as int, r.total_pages as int, i),
        r.warnings@.map_values(|w: PagePlanWarning| w.view()) == warnings_spec(
            *config,
            r.page as int,
            r.total_pages as int,
            STREAMDECK_KEY_COUNT as int,
        ),
{
    let layout = paging_layout(config);
    let ghost k = config.keys_per_page as int;
    let total_pages = layout.page_count(config.keys.len());
    let page = if page < total_pages - 1 {
        page
    } else {
        total_pages - 1
    };
    let capacity = layout.page_capacity(page, total_pages);
    proof {
        lemma_offset_within_keys(k, config.keys@.len() as int, page as int);
    }
    let offset = layout.page_offset(page, total_pages);

    let mut icons: Vec<SlotIcon> = Vec::new();
    let mut button_actions: Vec<Option<ButtonAction>> = Vec::new();
    let mut status_slots: Vec<Option<PlannedStatusKey>> = Vec::new();
    let mut warnings: Vec<PagePlanWarning> = Vec::new();
    let mut slot: usize = 0;
    while slot < STREAMDECK_KEY_COUNT
        invariant
            layout.total_slots == STREAMDECK_KEY_COUNT,
            layout.keys_per_page == config.keys_per_page,
            3 <= config.keys_per_page <= STREAMDECK_KEY_COUNT,
            total_pages == page_count_spec(k, config.keys@.len() as int),
            k == config.keys_per_page,
            page == clamp_page(page as int, total_pages as int),
            page < total_pages,
            capacity == page_capacity_spec(k, page as int, total_pages as int),
            offset == page_offset_spec(k, page as int, total_pages as int),
            offset <= config.keys@.len(),
            slot <= STREAMDECK_KEY_COUNT,
            icons@.len() == slot,
            button_actions@.len() == slot,
            status_slots@.len() == slot,
            forall|i: int|
                0 <= i < slot ==> icon_view(#[trigger] icons@[i]) == slot_icon_spec(
                    *config,
                    *status_cache,
                    page as int,
                    total_pages as int,
                    i,
                ),
            forall|i: int|
                0 <= i < slot ==> action_opt_view(#[trigger] button_actions@[i])
                    == slot_action_spec(*config, page as int, total_pages as int, i),
            forall|i: int|
                0 <= i < slot ==> status_opt_view(#[trigger] status_slots@[i]) == slot_status_spec(
                    *config,
                    *status_cache,
                    page as int,
                    total_pages as int,
                    i,
                ),
            warnings@.map_values(|w: PagePlanWarning| w.view()) == warnings_spec(
                *config,
                page as int,
                total_pages as int,
                slot as int,
            ),
        decreases STREAMDECK_KEY_COUNT - slot,
    {
        let ghost before = warnings@;
        match layout.navigation_slot_for_slot(page, total_pages, slot) {
            Some(NavigationSlot::PreviousPage) => {
                icons.push(Some((String::from_str(PREVIOUS_PAGE_ICON), None)));
                button_actions.push(Some(ButtonAction::PreviousPage));
                status_slots.push(None);
            },
            Some(NavigationSlot::NextPage) => {
                icons.push(Some((String::from_str(NEXT_PAGE_ICON), None)));
                button_actions.push(Some(ButtonAction::NextPage));
                status_slots.push(None);
            },
            None => {
                if slot < capacity && slot < config.keys.len() - offset {
                    let key_index = offset + slot;
                    let (icon, action, status, warning) = plan_key(
                        &config.keys[key_index],
                        key_index,
                        status_cache,
                    );
                    icons.push(icon);
                    button_actions.push(action);
                    status_slots.push(status);
                    if let Some(w) = warning {
                        warnings.push(w);
                    }
                } else {
                    icons.push(None);
                    button_actions.push(None);
                    status_slots.push(None);
                }
            },
        }
        proof {
            assert(warnings@.map_values(|w: PagePlanWarning| w.view()) =~= warnings_spec(
                *config,
                page as int,
                total_pages as int,
                slot + 1,
            ));
        }
        slot = slot + 1;
    }
    PageLayoutPlan { page, total_pages, icons, button_actions, status_slots, warnings }
}

} // verus!
