//! The e-paper screen of the board: a menu that button A cycles through, and the BLE
//! pairing pin. The buttons (debounced), the drawing and the panel are the firmware's; this
//! module decides when the screen is redrawn and what it shows.
use vstd::prelude::*;
use crate::text::{decimal, decimal_text, chars_of, string_of};

verus! {

broadcast use vstd::string::group_string_axioms;

/// The pages of the menu.
#[derive(Debug, Clone, Copy, PartialEq, Eq, Structural)]
pub enum MenuState {
    ConnectionInfo,
    WebsiteQR,
    GameInfo,
}

/// The next page of the menu.
pub open spec fn next_page(m: MenuState) -> MenuState {
    match m {
        MenuState::ConnectionInfo => MenuState::WebsiteQR,
        MenuState::WebsiteQR => MenuState::GameInfo,
        MenuState::GameInfo => MenuState::ConnectionInfo,
    }
}

/// Three presses of button A come back to the same page.
pub proof fn law_three_presses_return(m: MenuState)
    ensures
        next_page(next_page(next_page(m))) == m,
{
}

/// The pin as six digits at least, padded with zeros on the left (`{:0>6}`).
pub open spec fn pin_text(pin: u32) -> Seq<char> {
    let d = decimal(pin as nat);
    if d.len() >= 6 {
        d
    } else {
        Seq::new((6 - d.len()) as nat, |i: int| '0') + d
    }
}

/// The lines the screen shows: a title and the pin, or that there is none.
pub open spec fn screen_lines(pin: Option<u32>) -> Seq<Seq<char>> {
    match pin {
        Some(p) => seq!["BLE Pin"@, pin_text(p)],
        None => seq!["BLE Pin"@, "No BLE Pin"@],
    }
}

#[verifier::external_type_specification]
#[verifier::external_body]
#[verifier::reject_recursive_types(S)]
#[verifier::reject_recursive_types(M)]
pub struct ExDebouncer<S, M>(debouncr::Debouncer<S, M>);

#[verifier::external_type_specification]
#[verifier::external_body]
pub struct ExRepeat2(debouncr::Repeat2);

/// The readings a debouncer of two readings holds: the last two, the newer in the lowest
/// bit (both set: stable high; none set: stable low).
pub uninterp spec fn samples(d: debouncr::Debouncer<u8, debouncr::Repeat2>) -> u8;

/// The readings after one more: unchanged where the reading confirms a stable state, else
/// shifted in.
pub open spec fn next_samples(s: u8, high: bool) -> u8 {
    if (s == 3 && high) || (s == 0 && !high) {
        s
    } else {
        ((s * 2) % 4 + if high { 1u8 } else { 0u8 }) as u8
    }
}

/// The edge that one more reading makes: rising (`Some(true)`) when the readings become
/// stable high, falling (`Some(false)`) when they become stable low.
pub open spec fn edge(s: u8, high: bool) -> Option<bool> {
    if (s == 3 && high) || (s == 0 && !high) {
        None
    } else if next_samples(s, high) == 3 {
        Some(true)
    } else if next_samples(s, high) == 0 {
        Some(false)
    } else {
        None
    }
}

/// `debouncr::debounce_2`: a debouncer of two readings. Claims what the crate's source
/// shows: it starts stable high or stable low.
#[verifier::external_body]
pub(crate) fn debounce_2(initial_high: bool) -> (r: debouncr::Debouncer<u8, debouncr::Repeat2>)
    ensures
        samples(r) == (if initial_high { 3u8 } else { 0u8 }),
{
    debouncr::debounce_2(initial_high)
}

/// `Debouncer::update` with a reading; the edge as `Some(true)` for rising and
/// `Some(false)` for falling. Claims what the crate's source shows: the readings and the
/// edge follow `next_samples` and `edge`.
#[verifier::external_body]
pub(crate) fn debounce_update(d: &mut debouncr::Debouncer<u8, debouncr::Repeat2>, high: bool) -> (r:
    Option<bool>)
    ensures
        samples(*final(d)) == next_samples(samples(*old(d)), high),
        r == edge(samples(*old(d)), high),
{
    match d.update(high) {
        Some(debouncr::Edge::Rising) => Some(true),
        Some(debouncr::Edge::Falling) => Some(false),
        None => None,
    }
}

/// The state of the screen.
pub struct EinkState {
    button_a: debouncr::Debouncer<u8, debouncr::Repeat2>,
    button_b: debouncr::Debouncer<u8, debouncr::Repeat2>,
    state: MenuState,
    dirty: bool,
    ble_pin: Option<u32>,
}

impl EinkState {
    /// The first page, to be drawn, with no pin known.
    pub fn new() -> (r: EinkState)
        ensures
            r.page() == MenuState::ConnectionInfo,
            r.needs_drawing(),
            r.pin() is None,
            r.buttons() == (3u8, 3u8),
    {
        EinkState {
            button_a: debounce_2(true),
            button_b: debounce_2(true),
            state: MenuState::ConnectionInfo,
            dirty: true,
            ble_pin: None,
        }
    }

    /// The readings the debouncers of buttons A and B hold.
    pub closed spec fn buttons(&self) -> (u8, u8) {
        (samples(self.button_a), samples(self.button_b))
    }

    /// One tick with the levels read from the buttons: button A is pressed when its
    /// debounced level rises; the rest is `tick`.
    pub fn tick_buttons(&mut self, a_high: bool, b_high: bool, new_pin: Option<u32>) -> (r: Option<
        Vec<String>,
    >)
        ensures
            final(self).buttons() == (
                next_samples(old(self).buttons().0, a_high),
                next_samples(old(self).buttons().1, b_high),
            ),
            ({
                let pressed = edge(old(self).buttons().0, a_high) == Some(true);
                &&& final(self).page() == (if pressed { next_page(old(self).page()) } else { old(self).page() })
                &&& final(self).pin() == (match new_pin { Some(p) => Some(p), None => old(self).pin() })
                &&& !final(self).needs_drawing()
                &&& (old(self).needs_drawing() || pressed) ==> (r matches Some(v) && v@.map_values(
                    |l: String| l@,
                ) == screen_lines(final(self).pin()))
                &&& !(old(self).needs_drawing() || pressed) ==> r is None
            }),
    {
        let pressed = debounce_update(&mut self.button_a, a_high) == Some(true);
        let _ = debounce_update(&mut self.button_b, b_high);
        self.tick(pressed, new_pin)
    }

    pub closed spec fn page(&self) -> MenuState {
        self.state
    }

    pub closed spec fn needs_drawing(&self) -> bool {
        self.dirty
    }

    pub closed spec fn pin(&self) -> Option<u32> {
        self.ble_pin
    }

    /// One tick: a press of button A turns to the next page; a pin that arrived is kept;
    /// the screen is drawn (its lines given) when a page turn or the start asked for it.
    pub fn tick(&mut self, button_a_pressed: bool, new_pin: Option<u32>) -> (r: Option<Vec<String>>)
        ensures
            final(self).buttons() == old(self).buttons(),
            final(self).page() == (if button_a_pressed { next_page(old(self).page()) } else { old(self).page() }),
            final(self).pin() == (match new_pin { Some(p) => Some(p), None => old(self).pin() }),
            !final(self).needs_drawing(),
            (old(self).needs_drawing() || button_a_pressed) ==> (r matches Some(v) && v@.map_values(
                |l: String| l@,
            ) == screen_lines(final(self).pin())),
            !(old(self).needs_drawing() || button_a_pressed) ==> r is None,
    {
        if button_a_pressed {
            self.state = match self.state {
                MenuState::ConnectionInfo => MenuState::WebsiteQR,
                MenuState::WebsiteQR => MenuState::GameInfo,
                MenuState::GameInfo => MenuState::ConnectionInfo,
            };
            self.dirty = true;
        }
        if let Some(p) = new_pin {
            self.ble_pin = Some(p);
        }
        if !self.dirty {
            return None;
        }
        self.dirty = false;
        let mut lines: Vec<String> = Vec::new();
        lines.push("BLE Pin".to_string());
        match self.ble_pin {
            Some(p) => lines.push(format_pin(p)),
            None => lines.push("No BLE Pin".to_string()),
        }
        assert(lines@.map_values(|l: String| l@) =~= screen_lines(self.ble_pin));
        Some(lines)
    }
}

/// The pin as six digits at least.
pub fn format_pin(pin: u32) -> (r: String)
    ensures
        r@ == pin_text(pin),
{
    let d = decimal_text(pin as u64);
    let digits = chars_of(d.as_str());
    if digits.len() >= 6 {
        return d;
    }
    let mut v: Vec<char> = Vec::new();
    let pad = 6 - digits.len();
    let mut i: usize = 0;
    while i < pad
        invariant
            i <= pad,
            v@ == Seq::new(i as nat, |k: int| '0'),
        decreases pad - i,
    {
        v.push('0');
        i += 1;
        assert(v@ =~= Seq::new(i as nat, |k: int| '0'));
    }
    let mut j: usize = 0;
    let ghost zeros = v@;
    while j < digits.len()
        invariant
            j <= digits@.len(),
            v@ == zeros + digits@.take(j as int),
        decreases digits@.len() - j,
    {
        v.push(digits[j]);
        j += 1;
        assert(v@ =~= zeros + digits@.take(j as int));
    }
    assert(digits@.take(digits@.len() as int) =~= digits@);
    string_of(v.as_slice())
}

} // verus!
