use vstd::prelude::*;
use crate::protocol::EQ_BANDS;

verus! {

/// A key pressed in the terminal client.
#[derive(Clone, Copy, PartialEq, Eq, Debug, Structural)]
pub enum Key {
    Char(char),
    Left,
    Right,
    Up,
    Down,
    Tab,
    Esc,
    Other,
}

/// What a key asks of the DSP state.
#[derive(Clone, Copy, PartialEq, Eq, Debug, Structural)]
pub enum KeyAction {
    ToggleMute,
    VolumeUp,
    VolumeDown,
    /// Raise the gain of this band by one decibel.
    GainUp(usize),
    /// Lower the gain of this band by one decibel.
    GainDown(usize),
    ToggleLoudness,
    ToggleLimiter,
    ToggleSource,
    Nothing,
}

/// The equalizer editor of the terminal client: whether it is open, and
/// which band it has selected.
#[derive(Clone, Copy, PartialEq, Eq, Debug, Structural)]
pub struct EqCursor {
    pub sel_band: usize,
    pub eq_edit: bool,
}

/// The selected band is always one of the equalizer's bands.
pub open spec fn cursor_wf(c: EqCursor) -> bool {
    c.sel_band < EQ_BANDS
}

/// The editor after a key, and what the key asks of the DSP state.
pub open spec fn spec_handle_key(c: EqCursor, key: Key) -> (EqCursor, KeyAction) {
    match key {
        Key::Char('m') | Key::Char('M') => (c, KeyAction::ToggleMute),
        Key::Char('+') | Key::Char('=') => (c, KeyAction::VolumeUp),
        Key::Char('-') => (c, KeyAction::VolumeDown),
        Key::Char('e') | Key::Char('E') => (EqCursor { sel_band: c.sel_band, eq_edit: !c.eq_edit }, KeyAction::Nothing),
        Key::Left if c.eq_edit => (
            EqCursor { sel_band: if c.sel_band == 0 { 0 } else { (c.sel_band - 1) as usize }, eq_edit: true },
            KeyAction::Nothing,
        ),
        Key::Right if c.eq_edit => (
            EqCursor {
                sel_band: if c.sel_band + 1 < EQ_BANDS - 1 { (c.sel_band + 1) as usize } else { (EQ_BANDS - 1) as usize },
                eq_edit: true,
            },
            KeyAction::Nothing,
        ),
        Key::Up if c.eq_edit => (c, KeyAction::GainUp(c.sel_band)),
        Key::Down if c.eq_edit => (c, KeyAction::GainDown(c.sel_band)),
        Key::Char('l') | Key::Char('L') => (c, KeyAction::ToggleLoudness),
        Key::Char('r') | Key::Char('R') => (c, KeyAction::ToggleLimiter),
        Key::Tab => (c, KeyAction::ToggleSource),
        _ => (c, KeyAction::Nothing),
    }
}

impl EqCursor {
    /// The editor closed, on the first band.
    pub fn new() -> (r: Self)
        ensures
            r == (EqCursor { sel_band: 0, eq_edit: false }),
            cursor_wf(r),
    {
        EqCursor { sel_band: 0, eq_edit: false }
    }

    /// Takes a key press and returns what it asks of the DSP state.
    pub fn handle_key(&mut self, key: Key) -> (r: KeyAction)
        ensures
            (*final(self), r) == spec_handle_key(*old(self), key),
    {
        let c = *self;
        let (next, action) = match key {
            Key::Char('m') | Key::Char('M') => (c, KeyAction::ToggleMute),
            Key::Char('+') | Key::Char('=') => (c, KeyAction::VolumeUp),
            Key::Char('-') => (c, KeyAction::VolumeDown),
            Key::Char('e') | Key::Char('E') => (
                EqCursor { sel_band: c.sel_band, eq_edit: !c.eq_edit },
                KeyAction::Nothing,
            ),
            Key::Left if c.eq_edit => (
                EqCursor { sel_band: c.sel_band.saturating_sub(1), eq_edit: true },
                KeyAction::Nothing,
            ),
            Key::Right if c.eq_edit => {
                let up = if c.sel_band < usize::MAX { c.sel_band + 1 } else { usize::MAX };
                let band = if up < EQ_BANDS - 1 { up } else { EQ_BANDS - 1 };
                (EqCursor { sel_band: band, eq_edit: true }, KeyAction::Nothing)
            },
            Key::Up if c.eq_edit => (c, KeyAction::GainUp(c.sel_band)),
            Key::Down if c.eq_edit => (c, KeyAction::GainDown(c.sel_band)),
            Key::Char('l') | Key::Char('L') => (c, KeyAction::ToggleLoudness),
            Key::Char('r') | Key::Char('R') => (c, KeyAction::ToggleLimiter),
            Key::Tab => (c, KeyAction::ToggleSource),
            _ => (c, KeyAction::Nothing),
        };
        *self = next;
        action
    }
}

/// Whether the key quits the client.
pub fn is_quit_key(key: Key) -> (r: bool)
    ensures
        r == (key == Key::Char('q') || key == Key::Esc),
{
    match key {
        Key::Char('q') | Key::Esc => true,
        _ => false,
    }
}

/// Every key keeps the selected band among the equalizer's bands, and a
/// gain change always names that band.
pub proof fn law_cursor_stays_on_a_band(c: EqCursor, key: Key)
    requires
        cursor_wf(c),
    ensures
        cursor_wf(spec_handle_key(c, key).0),
        spec_handle_key(c, key).1 matches KeyAction::GainUp(b) ==> b == c.sel_band && b < EQ_BANDS,
        spec_handle_key(c, key).1 matches KeyAction::GainDown(b) ==> b == c.sel_band && b < EQ_BANDS,
{
}

/// With the editor closed, arrow keys neither move the selection nor
/// change a gain.
pub proof fn law_arrows_need_the_editor(c: EqCursor, key: Key)
    requires
        !c.eq_edit,
        key == Key::Left || key == Key::Right || key == Key::Up || key == Key::Down,
    ensures
        spec_handle_key(c, key) == (c, KeyAction::Nothing),
{
}

/// Opening and closing the editor with `e` gives back the editor as it was.
pub proof fn law_edit_toggle_involutive(c: EqCursor)
    ensures
        spec_handle_key(spec_handle_key(c, Key::Char('e')).0, Key::Char('e')).0 == c,
{
}


/// With the editor open, Right selects the next band, and stays on the
/// last one; Left selects the previous band, and stays on the first one.
/// Neither asks anything of the DSP state or closes the editor.
pub proof fn law_arrows_move_one_band(c: EqCursor)
    requires
        c.eq_edit,
        cursor_wf(c),
    ensures
        spec_handle_key(c, Key::Right).0.sel_band == (if c.sel_band + 1 < EQ_BANDS {
            c.sel_band + 1
        } else {
            c.sel_band as int
        }),
        spec_handle_key(c, Key::Left).0.sel_band == (if c.sel_band > 0 {
            c.sel_band - 1
        } else {
            0int
        }),
        spec_handle_key(c, Key::Right).0.eq_edit,
        spec_handle_key(c, Key::Left).0.eq_edit,
        spec_handle_key(c, Key::Right).1 == KeyAction::Nothing,
        spec_handle_key(c, Key::Left).1 == KeyAction::Nothing,
{
}

/// Right then Left comes back to the band one started from, except from
/// the last band; Left then Right likewise, except from the first band.
pub proof fn law_right_left_round_trip(c: EqCursor)
    requires
        c.eq_edit,
        cursor_wf(c),
    ensures
        c.sel_band + 1 < EQ_BANDS ==> spec_handle_key(spec_handle_key(c, Key::Right).0, Key::Left).0 == c,
        c.sel_band > 0 ==> spec_handle_key(spec_handle_key(c, Key::Left).0, Key::Right).0 == c,
{
}

} // verus!
