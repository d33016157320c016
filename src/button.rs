use vstd::prelude::*;

verus! {

/// Stable state of a button as seen on one tick.
#[derive(Clone, Copy, Debug, PartialEq, Eq, Structural)]
pub enum ButtonState {
    /// Not pressed, and was not pressed on the previous tick.
    Inactive,
    /// Pressed, and was pressed on the previous tick.
    Active,
    /// Pressed on this tick for the first time.
    Pressed,
    /// Released on this tick for the first time.
    Released,
}

/// Gesture waiting to be taken; `NoEvent` when nothing is pending.
#[derive(Clone, Copy, Debug, PartialEq, Eq, Structural)]
pub enum ButtonEvent {
    Click,
    LongClick,
    LongClickContinuous,
    DoubleClick,
    NoEvent,
}

/// Ticks of agreeing raw samples that change the stable state.
pub const DEBOUNCECYCLES: u8 = 50;

pub const PRESSED_FOR_MAX: u16 = 65000;

pub const RELEASED_FOR_MAX: u16 = 65000;

/// Ticks of holding that make a long click, and its period while held.
pub const PRESSED_FOR_LONG: u16 = 1000;

/// Ticks after a release within which a new press is a double click.
pub const RELEASED_FOR_DOUBLE_CLICK: u16 = 1000;

/// What a button is: its polarity, the stable state of this tick and the last,
/// the integrator, the ticks since it was last pressed or released, and the
/// pending gesture.
pub struct ButtonView {
    pub active_high: bool,
    pub last_active: bool,
    pub active: bool,
    pub integrator: u8,
    pub pressed_for: u16,
    pub released_for: u16,
    pub event: ButtonEvent,
}

pub open spec fn button_wf(b: ButtonView) -> bool {
    &&& b.integrator <= DEBOUNCECYCLES
    &&& b.pressed_for <= PRESSED_FOR_MAX
    &&& b.released_for <= RELEASED_FOR_MAX + 1
}

/// Whether a raw reading means pressed: low is pressed unless the button is active high.
pub open spec fn raw_active(active_high: bool, input_low: bool) -> bool {
    if active_high { !input_low } else { input_low }
}

/// The integrator moves one unit toward the raw reading, within `0..=DEBOUNCECYCLES`.
pub open spec fn integrate(integrator: u8, raw: bool) -> u8 {
    if raw {
        if integrator < DEBOUNCECYCLES { (integrator + 1) as u8 } else { integrator }
    } else {
        if integrator > 0 { (integrator - 1) as u8 } else { integrator }
    }
}

/// One tick with raw activity `raw`. The stable state turns on only when the
/// integrator is full and off only when it is empty. The counters restart on
/// each change and saturate. A press soon after a release is a double click at
/// once; holding makes a long click at the threshold and a continuous one on
/// the tick the count reaches each later multiple, if nothing is pending (a
/// count saturated at its maximum fires nothing more); a short press becomes a
/// click, while released, once the double-click window after its release has
/// passed.
pub open spec fn button_tick(b: ButtonView, raw: bool) -> ButtonView {
    let i = integrate(b.integrator, raw);
    let active = if i == 0 { false } else if i >= DEBOUNCECYCLES { true } else { b.active };
    let pf0 = if !b.active && active { 0 } else { b.pressed_for };
    let rf0 = if b.active && !active { 0 } else { b.released_for };
    let grew = active && pf0 < PRESSED_FOR_MAX;
    let pf1 = if grew { (pf0 + 1) as u16 } else { pf0 };
    let rf1 = if !active && rf0 < RELEASED_FOR_MAX { (rf0 + 1) as u16 } else { rf0 };
    let double = active && pf1 == 1 && rf1 < RELEASED_FOR_DOUBLE_CLICK;
    let e1 = if double { ButtonEvent::DoubleClick } else { b.event };
    let pf2 = if double { (pf1 + 1) as u16 } else { pf1 };
    let e2 = if active && pf2 == PRESSED_FOR_LONG {
        ButtonEvent::LongClick
    } else if grew && pf2 % PRESSED_FOR_LONG == 0 && e1 == ButtonEvent::NoEvent {
        ButtonEvent::LongClickContinuous
    } else {
        e1
    };
    let click = !active && pf2 < PRESSED_FOR_LONG && pf2 > 1 && rf1 == RELEASED_FOR_DOUBLE_CLICK;
    ButtonView {
        last_active: b.active,
        active,
        integrator: i,
        pressed_for: pf2,
        released_for: if click { (rf1 + 1) as u16 } else { rf1 },
        event: if click { ButtonEvent::Click } else { e2 },
        ..b
    }
}

pub open spec fn state_of(b: ButtonView) -> ButtonState {
    if b.active {
        if b.last_active { ButtonState::Active } else { ButtonState::Pressed }
    } else {
        if b.last_active { ButtonState::Released } else { ButtonState::Inactive }
    }
}

/// `k` ticks with the same raw activity.
pub open spec fn button_hold(b: ButtonView, raw: bool, k: nat) -> ButtonView
    decreases k,
{
    if k == 0 {
        b
    } else {
        button_tick(button_hold(b, raw, (k - 1) as nat), raw)
    }
}

/// A debounced push-button with gesture detection.
#[derive(Clone, Copy)]
pub struct Button {
    active_high: bool,
    last_active: bool,
    active: bool,
    integrator: u8,
    pressed_for: u16,
    released_for: u16,
    last_event: ButtonEvent,
}

impl View for Button {
    type V = ButtonView;

    closed spec fn view(&self) -> ButtonView {
        ButtonView {
            active_high: self.active_high,
            last_active: self.last_active,
            active: self.active,
            integrator: self.integrator,
            pressed_for: self.pressed_for,
            released_for: self.released_for,
            event: self.last_event,
        }
    }
}

impl Button {
    pub open spec fn wf(&self) -> bool {
        button_wf(self@)
    }

    /// A released button with nothing pending; `active_high` tells whether a
    /// high reading means pressed.
    pub fn create(active_high: bool) -> (b: Button)
        ensures
            b.wf(),
            b@ == (ButtonView {
                active_high,
                last_active: false,
                active: false,
                integrator: 0,
                pressed_for: 0,
                released_for: 0,
                event: ButtonEvent::NoEvent,
            }),
    {
        Button {
            active_high,
            last_active: false,
            active: false,
            integrator: 0,
            pressed_for: 0,
            released_for: 0,
            last_event: ButtonEvent::NoEvent,
        }
    }

    /// One tick, given whether the input line reads low on it.
    pub fn step(&mut self, input_low: bool)
        requires
            old(self).wf(),
        ensures
            final(self).wf(),
            final(self)@ == button_tick(old(self)@, raw_active(old(self)@.active_high, input_low)),
    {
        let mut btn_active = input_low;
        if self.active_high {
            btn_active = !btn_active;
        }
        if !btn_active {
            if self.integrator > 0 {
                self.integrator = self.integrator - 1;
            }
        } else if self.integrator < DEBOUNCECYCLES {
            self.integrator = self.integrator + 1;
        }
        let last_active = self.active;
        self.active = self.pressed();
        if !last_active && self.active {
            self.pressed_for = 0;
        } else if last_active && !self.active {
            self.released_for = 0;
        }
        let mut grew = false;
        if self.active {
            if self.pressed_for < PRESSED_FOR_MAX {
                self.pressed_for = self.pressed_for + 1;
                grew = true;
            }
        } else {
            if self.released_for < RELEASED_FOR_MAX {
                self.released_for = self.released_for + 1;
            }
        }
        // A press soon after a release fires at once; a single click waits for the window to pass.
        if self.active && self.pressed_for == 1 && self.released_for < RELEASED_FOR_DOUBLE_CLICK {
            self.last_event = ButtonEvent::DoubleClick;
            self.pressed_for = self.pressed_for + 1;
        }
        if self.active && self.pressed_for == PRESSED_FOR_LONG {
            self.last_event = ButtonEvent::LongClick;
        } else if grew && self.pressed_for % PRESSED_FOR_LONG == 0 && self.last_event == ButtonEvent::NoEvent {
            self.last_event = ButtonEvent::LongClickContinuous;
        }
        if !self.active && self.pressed_for < PRESSED_FOR_LONG && self.pressed_for > 1 && self.released_for
            == RELEASED_FOR_DOUBLE_CLICK {
            self.last_event = ButtonEvent::Click;
            self.released_for = self.released_for + 1;
        }
    }

    /// Takes the pending gesture, leaving none.
    pub fn event(&mut self) -> (e: ButtonEvent)
        ensures
            e == old(self)@.event,
            final(self)@ == (ButtonView { event: ButtonEvent::NoEvent, ..old(self)@ }),
    {
        let last_event = self.last_event;
        self.last_event = ButtonEvent::NoEvent;
        last_event
    }

    /// Settles the stable state from the integrator and records the previous one.
    fn pressed(&mut self) -> (r: bool)
        requires
            old(self).integrator <= DEBOUNCECYCLES,
        ensures
            r == final(self).active,
            final(self).last_active == old(self).active,
            final(self).active == if old(self).integrator == 0 {
                false
            } else if old(self).integrator >= DEBOUNCECYCLES {
                true
            } else {
                old(self).active
            },
            final(self).integrator == old(self).integrator,
            final(self).active_high == old(self).active_high,
            final(self).pressed_for == old(self).pressed_for,
            final(self).released_for == old(self).released_for,
            final(self).last_event == old(self).last_event,
    {
        self.last_active = self.active;
        if self.integrator == 0 {
            self.active = false;
        } else if self.integrator >= DEBOUNCECYCLES {
            self.integrator = DEBOUNCECYCLES;
            self.active = true;
        }
        self.active
    }

    pub fn state(&self) -> (s: ButtonState)
        ensures
            s == state_of(self@),
    {
        if self.active {
            if self.last_active {
                return ButtonState::Active;
            }
            return ButtonState::Pressed;
        }
        if !self.last_active {
            return ButtonState::Inactive;
        }
        ButtonState::Released
    }
}

} // verus!

verus! {

/// From a released button with an empty integrator, `k` ticks of raw activity
/// fill the integrator by `k`, and the stable state turns on exactly at the
/// `DEBOUNCECYCLES`-th tick.
pub proof fn lemma_debounce_press(b: ButtonView, k: nat)
    requires
        button_wf(b),
        b.integrator == 0,
        !b.active,
        k <= DEBOUNCECYCLES,
    ensures
        button_hold(b, true, k).integrator == k,
        button_hold(b, true, k).active == (k == DEBOUNCECYCLES),
    decreases k,
{
    if k > 0 {
        lemma_debounce_press(b, (k - 1) as nat);
    }
}

/// From a pressed button with a full integrator, `k` ticks of raw inactivity
/// drain the integrator by `k`, and the stable state turns off exactly at the
/// `DEBOUNCECYCLES`-th tick.
pub proof fn lemma_debounce_release(b: ButtonView, k: nat)
    requires
        button_wf(b),
        b.integrator == DEBOUNCECYCLES,
        b.active,
        k <= DEBOUNCECYCLES,
    ensures
        button_hold(b, false, k).integrator == DEBOUNCECYCLES - k,
        button_hold(b, false, k).active == (k < DEBOUNCECYCLES),
    decreases k,
{
    if k > 0 {
        lemma_debounce_release(b, (k - 1) as nat);
    }
}

/// A single tick moves the integrator by at most one unit, and changes the
/// stable state only when the integrator reaches the end of its range on that
/// tick; so one glitch tick against a settled state never flips it.
pub proof fn lemma_glitch_immunity(b: ButtonView, raw: bool)
    requires
        button_wf(b),
    ensures
        ({
            let n = button_tick(b, raw);
            &&& -1 <= n.integrator - b.integrator <= 1
            &&& n.active != b.active ==> (n.active && n.integrator == DEBOUNCECYCLES) || (!n.active
                && n.integrator == 0)
            &&& b.active && b.integrator == DEBOUNCECYCLES ==> n.active
            &&& !b.active && b.integrator == 0 ==> !n.active
        }),
{
}

/// While a settled press is held with nothing pending, the pressed-for count
/// goes up by one per tick and no gesture fires until it reaches a multiple of
/// `PRESSED_FOR_LONG`: at the first multiple a long click fires, at each later
/// one a continuous long click. One pending gesture at most, by construction.
pub proof fn lemma_long_press(b: ButtonView, k: nat)
    requires
        button_wf(b),
        b.active,
        b.integrator == DEBOUNCECYCLES,
        b.event == ButtonEvent::NoEvent,
        b.pressed_for >= 2,
        b.pressed_for + k <= PRESSED_FOR_MAX,
        b.pressed_for + k <= PRESSED_FOR_LONG * (b.pressed_for / PRESSED_FOR_LONG + 1),
    ensures
        ({
            let h = button_hold(b, true, k);
            let p = b.pressed_for + k;
            &&& h.active
            &&& h.integrator == DEBOUNCECYCLES
            &&& h.pressed_for == p
            &&& h.released_for == b.released_for
            &&& h.event == if k > 0 && p % PRESSED_FOR_LONG as int == 0 {
                if p == PRESSED_FOR_LONG { ButtonEvent::LongClick } else { ButtonEvent::LongClickContinuous }
            } else {
                ButtonEvent::NoEvent
            }
        }),
    decreases k,
{
    if k > 0 {
        lemma_long_press(b, (k - 1) as nat);
        let p = b.pressed_for + k;
        assert((p - 1) % 1000 != 0 || k == 1) by {
            if k > 1 && (p - 1) % 1000 == 0 {
                assert(b.pressed_for < p - 1 < 1000 * (b.pressed_for / 1000 + 1));
            }
        }
    }
}

} // verus!

verus! {

/// A hold whose count has saturated fires nothing more: a continuous long
/// click comes only on the tick the count reaches a multiple of the threshold.
pub proof fn lemma_saturated_hold_is_quiet(b: ButtonView)
    requires
        button_wf(b),
        b.active,
        b.integrator == DEBOUNCECYCLES,
        b.pressed_for == PRESSED_FOR_MAX,
        b.event == ButtonEvent::NoEvent,
    ensures
        button_tick(b, true).event == ButtonEvent::NoEvent,
        button_tick(b, true).pressed_for == PRESSED_FOR_MAX,
{
}

/// A click fires only on a tick on which the button is released.
pub proof fn lemma_click_only_when_released(b: ButtonView, raw: bool)
    requires
        button_wf(b),
        b.event != ButtonEvent::Click,
        button_tick(b, raw).event == ButtonEvent::Click,
    ensures
        !button_tick(b, raw).active,
{
}

} // verus!
