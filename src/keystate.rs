//! Runtime state of the page on the device: what each slot does when
//! pressed, and the timers that advance animations, refresh clock faces and
//! poll status commands. Times are milliseconds on a monotonic clock.
use crate::paging::STREAMDECK_KEY_COUNT;
use crate::plan::{ButtonAction, PageLayoutPlan, PlannedStatusKey};
use crate::status::{add_capped, StatusKeyState};
use vstd::prelude::*;

verus! {

/// How often a clock face is checked for a new minute.
pub const CLOCK_REFRESH_MS: u64 = 1000;

/// A decoded icon, ready for the device.
#[derive(Clone, Debug)]
pub enum LoadedKeyImage {
    /// One tile.
    Static(Vec<u8>),
    /// Tiles shown in turn, each for its delay in milliseconds.
    Animated { frames: Vec<Vec<u8>>, delays: Vec<u64> },
    /// A clock face drawn for `current_text`.
    Clock { image: Vec<u8>, current_text: String, background_name: Option<String> },
}

impl LoadedKeyImage {
    /// Every animation has as many delays as frames, and at least one frame.
    pub open spec fn wf(&self) -> bool {
        match self {
            LoadedKeyImage::Animated { frames, delays } => frames@.len() == delays@.len()
                && frames@.len() > 0,
            _ => true,
        }
    }

    /// The tile shown first.
    pub open spec fn first_tile(&self) -> Seq<u8> {
        match self {
            LoadedKeyImage::Static(data) => data@,
            LoadedKeyImage::Animated { frames, delays } => frames@[0]@,
            LoadedKeyImage::Clock { image, .. } => image@,
        }
    }

    pub fn first_tile_bytes(&self) -> (r: &Vec<u8>)
        requires
            self.wf(),
        ensures
            r@ == self.first_tile(),
    {
        match self {
            LoadedKeyImage::Static(data) => data,
            LoadedKeyImage::Animated { frames, .. } => &frames[0],
            LoadedKeyImage::Clock { image, .. } => image,
        }
    }
}

/// An animation running on a slot.
pub struct AnimatedKeyState {
    pub frames: Vec<Vec<u8>>,
    pub delays: Vec<u64>,
    pub current_frame: usize,
    pub next_frame_at: u64,
}

impl AnimatedKeyState {
    pub open spec fn wf(&self) -> bool {
        &&& self.frames@.len() == self.delays@.len()
        &&& self.frames@.len() > 0
        &&& self.current_frame < self.frames@.len()
    }

    /// At `now`, moves to the next frame if the current one has been shown
    /// long enough, and returns the index of the frame to show then.
    pub fn advance(&mut self, now: u64) -> (r: Option<usize>)
        requires
            old(self).wf(),
        ensures
            final(self).wf(),
            *final(self) == stepped(*old(self), now),
            r == if now < old(self).next_frame_at {
                None
            } else {
                Some(final(self).current_frame)
            },
            final(self).frames == old(self).frames,
            final(self).delays == old(self).delays,
            now < old(self).next_frame_at ==> r is None && *final(self) == *old(self),
            now >= old(self).next_frame_at ==> {
                &&& final(self).current_frame == (old(self).current_frame + 1) % (
                old(self).frames@.len() as int)
                &&& r == Some(final(self).current_frame)
                &&& final(self).next_frame_at == add_capped(
                    now,
                    old(self).delays@[final(self).current_frame as int],
                )
            },
    {
        if now < self.next_frame_at {
            return None;
        }
        let n = self.frames.len();
        self.current_frame = (self.current_frame + 1) % n;
        self.next_frame_at = now.saturating_add(self.delays[self.current_frame]);
        Some(self.current_frame)
    }
}

/// An animation after a tick at `now`: unchanged until its frame is due,
/// then on the next frame, due again after that frame's delay.
pub open spec fn stepped(a: AnimatedKeyState, now: u64) -> AnimatedKeyState {
    if now < a.next_frame_at {
        a
    } else {
        let next = ((a.current_frame + 1) % (a.frames@.len() as int)) as usize;
        AnimatedKeyState {
            frames: a.frames,
            delays: a.delays,
            current_frame: next,
            next_frame_at: add_capped(now, a.delays@[next as int]),
        }
    }
}

/// A clock face shown on a slot.
pub struct ClockKeyState {
    pub current_text: String,
    pub background_name: Option<String>,
    pub next_update_at: u64,
}

impl ClockKeyState {
    /// Whether the face must be redrawn at `now`, when the time reads `text`:
    /// it is due and the text differs from the one shown.
    pub fn needs_redraw(&self, now: u64, text: &str) -> (r: bool)
        ensures
            r == (now >= self.next_update_at && text@ != self.current_text@),
    {
        if now < self.next_update_at {
            return false;
        }
        let shown = self.current_text.as_str();
        !(shown.unicode_len() == text.unicode_len() && same_text(shown, text))
    }

    /// Ends a due check at `now`: records `text` when the face was redrawn
    /// with it, and schedules the next check one second later.
    pub fn finish_check(&mut self, now: u64, text: String, redrawn: bool)
        ensures
            final(self).current_text@ == if redrawn {
                text@
            } else {
                old(self).current_text@
            },
            final(self).background_name == old(self).background_name,
            final(self).next_update_at == add_capped(now, CLOCK_REFRESH_MS),
    {
        if redrawn {
            self.current_text = text;
        }
        self.next_update_at = now.saturating_add(CLOCK_REFRESH_MS);
    }
}

/// Whether two texts of equal length are equal.
fn same_text(a: &str, b: &str) -> (r: bool)
    requires
        a@.len() == b@.len(),
    ensures
        r == (a@ == b@),
{
    let n = a.unicode_len();
    let mut i: usize = 0;
    while i < n
        invariant
            n == a@.len(),
            n == b@.len(),
            i <= n,
            forall|j: int| 0 <= j < i ==> a@[j] == b@[j],
        decreases n - i,
    {
        if a.get_char(i) != b.get_char(i) {
            return false;
        }
        i = i + 1;
    }
    assert(a@ =~= b@);
    true
}

/// Display timer of a slot.
pub enum DynamicKeyState {
    Animated(AnimatedKeyState),
    Clock(ClockKeyState),
}

impl DynamicKeyState {
    pub open spec fn wf(&self) -> bool {
        match self {
            DynamicKeyState::Animated(a) => a.wf(),
            DynamicKeyState::Clock(_) => true,
        }
    }
}

/// Whether `r` is the display timer of `loaded` started at `now`: none for a
/// still picture; an animation on its first frame, due after that frame's
/// delay; a clock showing its text, checked again one second later.
pub open spec fn started_timer(loaded: LoadedKeyImage, now: u64, r: Option<DynamicKeyState>) -> bool {
    match loaded {
        LoadedKeyImage::Static(_) => r is None,
        LoadedKeyImage::Animated { frames, delays } => r matches Some(DynamicKeyState::Animated(a))
            && a.frames == frames && a.delays == delays && a.current_frame == 0 && a.next_frame_at
            == add_capped(now, delays@[0]),
        LoadedKeyImage::Clock { image, current_text, background_name } => r matches Some(
            DynamicKeyState::Clock(c),
        ) && c.current_text == current_text && c.background_name == background_name
            && c.next_update_at == add_capped(now, CLOCK_REFRESH_MS),
    }
}

/// The display timer a loaded icon needs once its first tile is shown at
/// `now`: none for a still picture.
pub fn dynamic_state_for(loaded: LoadedKeyImage, now: u64) -> (r: Option<DynamicKeyState>)
    requires
        loaded.wf(),
    ensures
        r matches Some(d) ==> d.wf(),
        started_timer(loaded, now, r),
{
    match loaded {
        LoadedKeyImage::Static(_) => None,
        LoadedKeyImage::Animated { frames, delays } => {
            let first_delay = delays[0];
            Some(
                DynamicKeyState::Animated(
                    AnimatedKeyState {
                        frames,
                        delays,
                        current_frame: 0,
                        next_frame_at: now.saturating_add(first_delay),
                    },
                ),
            )
        },
        LoadedKeyImage::Clock { image, current_text, background_name } => Some(
            DynamicKeyState::Clock(
                ClockKeyState {
                    current_text,
                    background_name,
                    next_update_at: now.saturating_add(CLOCK_REFRESH_MS),
                },
            ),
        ),
    }
}

/// The status timer of a planned status key, started at `now`: the first
/// check comes at once when nothing was cached, else one interval later.
pub fn status_state_for(planned: &PlannedStatusKey, now: u64) -> (r: StatusKeyState)
    ensures
        r.command == planned.command,
        r.icon_on == planned.icon_on,
        r.icon_off == planned.icon_off,
        r.clock_background == planned.clock_background,
        r.check_interval_ms == planned.check_interval_ms,
        r.current_on == planned.current_on,
        r.next_check_at == if planned.poll_now {
            now
        } else {
            add_capped(now, planned.check_interval_ms)
        },
{
    StatusKeyState {
        command: planned.command.clone(),
        icon_on: planned.icon_on.clone(),
        icon_off: planned.icon_off.clone(),
        clock_background: planned.clock_background.clone(),
        check_interval_ms: planned.check_interval_ms,
        next_check_at: if planned.poll_now {
            now
        } else {
            now.saturating_add(planned.check_interval_ms)
        },
        current_on: planned.current_on,
    }
}

/// Runtime state of the page shown on the device, one entry per slot.
pub struct PageState {
    pub button_actions: Vec<Option<ButtonAction>>,
    pub dynamic_states: Vec<Option<DynamicKeyState>>,
    pub status_states: Vec<Option<StatusKeyState>>,
}

impl PageState {
    pub open spec fn wf(&self) -> bool {
        &&& self.button_actions@.len() == STREAMDECK_KEY_COUNT
        &&& self.dynamic_states@.len() == STREAMDECK_KEY_COUNT
        &&& self.status_states@.len() == STREAMDECK_KEY_COUNT
        &&& forall|i: int|
            0 <= i < STREAMDECK_KEY_COUNT ==> (#[trigger] self.dynamic_states@[i] matches Some(d)
                ==> d.wf())
    }

    /// Starts the state of a planned page at `now`: the plan's actions and
    /// status timers, and no display timer yet.
    pub fn from_plan(plan: &PageLayoutPlan, now: u64) -> (r: PageState)
        requires
            plan.button_actions@.len() == STREAMDECK_KEY_COUNT,
            plan.status_slots@.len() == STREAMDECK_KEY_COUNT,
        ensures
            r.wf(),
            r.button_actions@ == plan.button_actions@,
            forall|i: int| 0 <= i < STREAMDECK_KEY_COUNT ==> #[trigger] r.dynamic_states@[i] is None,
            forall|i: int|
                0 <= i < STREAMDECK_KEY_COUNT ==> (#[trigger] r.status_states@[i] is Some
                    <==> plan.status_slots@[i] is Some),
            forall|i: int|
                0 <= i < STREAMDECK_KEY_COUNT ==> (#[trigger] r.status_states@[i] matches Some(s)
                    ==> {
                    let p = plan.status_slots@[i].unwrap();
                    &&& s.command == p.command
                    &&& s.icon_on == p.icon_on
                    &&& s.icon_off == p.icon_off
                    &&& s.clock_background == p.clock_background
                    &&& s.check_interval_ms == p.check_interval_ms
                    &&& s.current_on == p.current_on
                    &&& s.next_check_at == if p.poll_now {
                        now
                    } else {
                        add_capped(now, p.check_interval_ms)
                    }
                }),
    {
        let mut button_actions: Vec<Option<ButtonAction>> = Vec::new();
        let mut dynamic_states: Vec<Option<DynamicKeyState>> = Vec::new();
        let mut status_states: Vec<Option<StatusKeyState>> = Vec::new();
        let mut i: usize = 0;
        while i < STREAMDECK_KEY_COUNT
            invariant
                plan.button_actions@.len() == STREAMDECK_KEY_COUNT,
                plan.status_slots@.len() == STREAMDECK_KEY_COUNT,
                i <= STREAMDECK_KEY_COUNT,
                button_actions@ == plan.button_actions@.subrange(0, i as int),
                dynamic_states@.len() == i,
                status_states@.len() == i,
                forall|j: int| 0 <= j < i ==> #[trigger] dynamic_states@[j] is None,
                forall|j: int|
                    0 <= j < i ==> (#[trigger] status_states@[j] is Some
                        <==> plan.status_slots@[j] is Some),
                forall|j: int|
                    0 <= j < i ==> (#[trigger] status_states@[j] matches Some(s) ==> {
                        let p = plan.status_slots@[j].unwrap();
                        &&& s.command == p.command
                        &&& s.icon_on == p.icon_on
                        &&& s.icon_off == p.icon_off
                        &&& s.clock_background == p.clock_background
                        &&& s.check_interval_ms == p.check_interval_ms
                        &&& s.current_on == p.current_on
                        &&& s.next_check_at == if p.poll_now {
                            now
                        } else {
                            add_capped(now, p.check_interval_ms)
                        }
                    }),
            decreases STREAMDECK_KEY_COUNT - i,
        {
            button_actions.push(clone_action(&plan.button_actions[i]));
            dynamic_states.push(None);
            match &plan.status_slots[i] {
                Some(p) => status_states.push(Some(status_state_for(p, now))),
                None => status_states.push(None),
            }
            assert(button_actions@ =~= plan.button_actions@.subrange(0, i + 1));
            i = i + 1;
        }
        assert(button_actions@ =~= plan.button_actions@);
        PageState { button_actions, dynamic_states, status_states }
    }

    /// Installs the display timer for slot `key` after its first tile was
    /// shown at `now`.
    pub fn set_dynamic(&mut self, key: usize, loaded: LoadedKeyImage, now: u64)
        requires
            old(self).wf(),
            key < STREAMDECK_KEY_COUNT,
            loaded.wf(),
        ensures
            final(self).wf(),
            final(self).button_actions == old(self).button_actions,
            final(self).status_states == old(self).status_states,
            forall|i: int|
                0 <= i < STREAMDECK_KEY_COUNT && i != key ==> #[trigger] final(self).dynamic_states@[i]
                    == old(self).dynamic_states@[i],
            started_timer(loaded, now, final(self).dynamic_states@[key as int]),
    {
        let d = dynamic_state_for(loaded, now);
        self.dynamic_states.set(key, d);
    }
}

/// Whether a slot's status check is due at `now`.
pub open spec fn status_due(s: Option<StatusKeyState>, now: u64) -> bool {
    s matches Some(st) && now >= st.next_check_at
}

/// Slots among the first `n` whose status check is due at `now`, in order.
pub open spec fn due_slots(states: Seq<Option<StatusKeyState>>, now: u64, n: int) -> Seq<usize>
    decreases n,
{
    if n <= 0 {
        Seq::empty()
    } else if status_due(states[n - 1], now) {
        due_slots(states, now, n - 1).push((n - 1) as usize)
    } else {
        due_slots(states, now, n - 1)
    }
}

/// A slot's display timer after a tick at `now`: animations step, the rest
/// waits.
pub open spec fn ticked(d: Option<DynamicKeyState>, now: u64) -> Option<DynamicKeyState> {
    match d {
        Some(DynamicKeyState::Animated(a)) => Some(DynamicKeyState::Animated(stepped(a, now))),
        other => other,
    }
}

/// Frames to show after a tick at `now` on the first `n` slots: the slot and
/// the new frame of each animation that moved on, in slot order.
pub open spec fn frame_pushes(dyns: Seq<Option<DynamicKeyState>>, now: u64, n: int) -> Seq<
    (usize, usize),
>
    decreases n,
{
    if n <= 0 {
        Seq::empty()
    } else {
        let before = frame_pushes(dyns, now, n - 1);
        match dyns[n - 1] {
            Some(DynamicKeyState::Animated(a)) => if now >= a.next_frame_at {
                before.push(((n - 1) as usize, stepped(a, now).current_frame))
            } else {
                before
            },
            _ => before,
        }
    }
}

/// Whether a slot's clock face must be redrawn at `now` for `text`.
pub open spec fn clock_stale(d: Option<DynamicKeyState>, now: u64, text: Seq<char>) -> bool {
    d matches Some(DynamicKeyState::Clock(c)) && now >= c.next_update_at && text
        != c.current_text@
}

/// Slots among the first `n` whose clock face is stale at `now`, in order.
pub open spec fn stale_clocks(dyns: Seq<Option<DynamicKeyState>>, now: u64, text: Seq<char>, n: int) -> Seq<usize>
    decreases n,
{
    if n <= 0 {
        Seq::empty()
    } else if clock_stale(dyns[n - 1], now, text) {
        stale_clocks(dyns, now, text, n - 1).push((n - 1) as usize)
    } else {
        stale_clocks(dyns, now, text, n - 1)
    }
}

impl PageState {
    /// Slots whose status command is due at `now`, in slot order.
    pub fn due_status_slots(&self, now: u64) -> (r: Vec<usize>)
        requires
            self.wf(),
        ensures
            r@ == due_slots(self.status_states@, now, STREAMDECK_KEY_COUNT as int),
    {
        let mut r: Vec<usize> = Vec::new();
        let mut i: usize = 0;
        while i < STREAMDECK_KEY_COUNT
            invariant
                self.wf(),
                i <= STREAMDECK_KEY_COUNT,
                r@ == due_slots(self.status_states@, now, i as int),
            decreases STREAMDECK_KEY_COUNT - i,
        {
            let due = match &self.status_states[i] {
                Some(s) => s.is_due(now),
                None => false,
            };
            if due {
                r.push(i);
            }
            i = i + 1;
        }
        r
    }

    /// Moves every animation whose frame is due at `now` to its next frame.
    /// Returns, in slot order, each slot that moved with its new frame.
    pub fn advance_animations(&mut self, now: u64) -> (r: Vec<(usize, usize)>)
        requires
            old(self).wf(),
        ensures
            final(self).wf(),
            final(self).button_actions == old(self).button_actions,
            final(self).status_states == old(self).status_states,
            final(self).dynamic_states@.len() == old(self).dynamic_states@.len(),
            forall|i: int|
                0 <= i < STREAMDECK_KEY_COUNT ==> #[trigger] final(self).dynamic_states@[i]
                    == ticked(old(self).dynamic_states@[i], now),
            r@ == frame_pushes(old(self).dynamic_states@, now, STREAMDECK_KEY_COUNT as int),
    {
        let ghost start = self.dynamic_states@;
        let mut r: Vec<(usize, usize)> = Vec::new();
        let mut i: usize = 0;
        while i < STREAMDECK_KEY_COUNT
            invariant
                i <= STREAMDECK_KEY_COUNT,
                start.len() == STREAMDECK_KEY_COUNT,
                self.button_actions == old(self).button_actions,
                self.status_states == old(self).status_states,
                old(self).wf(),
                start == old(self).dynamic_states@,
                self.dynamic_states@.len() == STREAMDECK_KEY_COUNT,
                forall|j: int|
                    0 <= j < i ==> #[trigger] self.dynamic_states@[j] == ticked(start[j], now),
                forall|j: int| i <= j < STREAMDECK_KEY_COUNT ==> #[trigger] self.dynamic_states@[j] == start[j],
                forall|j: int|
                    0 <= j < STREAMDECK_KEY_COUNT ==> (#[trigger] self.dynamic_states@[j] matches Some(d) ==> d.wf()),
                r@ == frame_pushes(start, now, i as int),
            decreases STREAMDECK_KEY_COUNT - i,
        {
            match &mut self.dynamic_states[i] {
                Some(DynamicKeyState::Animated(a)) => {
                    if let Some(frame) = a.advance(now) {
                        r.push((i, frame));
                    }
                },
                _ => {},
            }
            i = i + 1;
        }
        r
    }

    /// Slots whose clock face must be redrawn at `now`, when the time reads
    /// `text`, in slot order.
    pub fn clocks_to_redraw(&self, now: u64, text: &str) -> (r: Vec<usize>)
        requires
            self.wf(),
        ensures
            r@ == stale_clocks(self.dynamic_states@, now, text@, STREAMDECK_KEY_COUNT as int),
    {
        let mut r: Vec<usize> = Vec::new();
        let mut i: usize = 0;
        while i < STREAMDECK_KEY_COUNT
            invariant
                self.wf(),
                i <= STREAMDECK_KEY_COUNT,
                r@ == stale_clocks(self.dynamic_states@, now, text@, i as int),
            decreases STREAMDECK_KEY_COUNT - i,
        {
            let stale = match &self.dynamic_states[i] {
                Some(DynamicKeyState::Clock(c)) => c.needs_redraw(now, text),
                _ => false,
            };
            if stale {
                r.push(i);
            }
            i = i + 1;
        }
        r
    }

    /// Ends the clock checks of a tick at `now`: every clock that was due
    /// waits one more second, and those in `redrawn` now show `text`.
    pub fn finish_clock_checks(&mut self, now: u64, text: &str, redrawn: &Vec<usize>)
        requires
            old(self).wf(),
        ensures
            final(self).wf(),
            final(self).button_actions == old(self).button_actions,
            final(self).status_states == old(self).status_states,
            final(self).dynamic_states@.len() == old(self).dynamic_states@.len(),
            forall|i: int|
                0 <= i < STREAMDECK_KEY_COUNT ==> match old(self).dynamic_states@[i] {
                    Some(DynamicKeyState::Clock(c)) => if now >= c.next_update_at {
                        final(self).dynamic_states@[i] matches Some(DynamicKeyState::Clock(c2))
                            && c2.background_name == c.background_name && c2.next_update_at
                            == add_capped(now, CLOCK_REFRESH_MS) && c2.current_text@ == if redrawn@.contains(i as usize) {
                            text@
                        } else {
                            c.current_text@
                        }
                    } else {
                        #[trigger] final(self).dynamic_states@[i] == old(self).dynamic_states@[i]
                    },
                    _ => final(self).dynamic_states@[i] == old(self).dynamic_states@[i],
                },
    {
        let ghost start = self.dynamic_states@;
        let mut i: usize = 0;
        while i < STREAMDECK_KEY_COUNT
            invariant
                i <= STREAMDECK_KEY_COUNT,
                start.len() == STREAMDECK_KEY_COUNT,
                self.button_actions == old(self).button_actions,
                self.status_states == old(self).status_states,
                old(self).wf(),
                start == old(self).dynamic_states@,
                self.dynamic_states@.len() == STREAMDECK_KEY_COUNT,
                forall|j: int|
                    0 <= j < i ==> match start[j] {
                        Some(DynamicKeyState::Clock(c)) => if now >= c.next_update_at {
                            self.dynamic_states@[j] matches Some(DynamicKeyState::Clock(c2))
                                && c2.background_name == c.background_name && c2.next_update_at
                                == add_capped(now, CLOCK_REFRESH_MS) && c2.current_text@ == if redrawn@.contains(j as usize) {
                                text@
                            } else {
                                c.current_text@
                            }
                        } else {
                            #[trigger] self.dynamic_states@[j] == start[j]
                        },
                        _ => self.dynamic_states@[j] == start[j],
                    },
                forall|j: int| i <= j < STREAMDECK_KEY_COUNT ==> #[trigger] self.dynamic_states@[j] == start[j],
                forall|j: int|
                    0 <= j < STREAMDECK_KEY_COUNT ==> (#[trigger] self.dynamic_states@[j] matches Some(d) ==> d.wf()),
            decreases STREAMDECK_KEY_COUNT - i,
        {
            let was_redrawn = contains_slot(redrawn, i);
            match &mut self.dynamic_states[i] {
                Some(DynamicKeyState::Clock(c)) => {
                    if now >= c.next_update_at {
                        c.finish_check(now, String::from_str(text), was_redrawn);
                    }
                },
                _ => {},
            }
            i = i + 1;
        }
    }
}

fn contains_slot(slots: &Vec<usize>, slot: usize) -> (r: bool)
    ensures
        r == slots@.contains(slot),
{
    let mut i: usize = 0;
    while i < slots.len()
        invariant
            i <= slots@.len(),
            forall|j: int| 0 <= j < i ==> slots@[j] != slot,
        decreases slots@.len() - i,
    {
        if slots[i] == slot {
            return true;
        }
        i = i + 1;
    }
    false
}

/// A copy of an optional action, equal to it.
pub fn clone_action(a: &Option<ButtonAction>) -> (r: Option<ButtonAction>)
    ensures
        r == *a,
{
    match a {
        Some(ButtonAction::Launch(s)) => Some(ButtonAction::Launch(s.clone())),
        Some(ButtonAction::PreviousPage) => Some(ButtonAction::PreviousPage),
        Some(ButtonAction::NextPage) => Some(ButtonAction::NextPage),
        None => None,
    }
}

} // verus!
