//! Raw key presses turned into key events, over the modifier and
//! layout state that the xkb layout engine reports.
//!
//! The engine itself (compiling layouts, finding the symbol of a key) sits
//! outside this module: what it answers comes in as plain values. What is
//! decided here is which modifiers count as held, how a symbol becomes a key
//! value, and how an event is put together.
use crate::common_util::push_char;
use vstd::prelude::*;

verus! {

/// The engine's sentinel for a modifier name that the layout lacks.
pub const MOD_INVALID: u32 = 0xffff_ffff;

/// The engine's log levels, as numbers.
pub const XKB_LOG_LEVEL_CRITICAL: u32 = 10;
pub const XKB_LOG_LEVEL_ERROR: u32 = 20;
pub const XKB_LOG_LEVEL_WARNING: u32 = 30;
pub const XKB_LOG_LEVEL_INFO: u32 = 40;
pub const XKB_LOG_LEVEL_DEBUG: u32 = 50;

/// Modifier flags of a key event, with the bit values of
/// `keyboard_types::Modifiers`.
pub const ALT: u32 = 0x01;
pub const CAPS_LOCK: u32 = 0x04;
pub const CONTROL: u32 = 0x08;
pub const NUM_LOCK: u32 = 0x80;
pub const SHIFT: u32 = 0x200;
pub const SUPER: u32 = 0x2000;

/// The layout's indices of the six modifiers that key events report; each
/// is `MOD_INVALID` where the layout has no such modifier.
#[derive(Clone, Copy, Debug, PartialEq, Eq)]
pub struct ModsIndices {
    pub control: u32,
    pub shift: u32,
    pub alt: u32,
    pub super_: u32,
    pub caps_lock: u32,
    pub num_lock: u32,
}

impl ModsIndices {
    pub fn new(
        control: u32,
        shift: u32,
        alt: u32,
        super_: u32,
        caps_lock: u32,
        num_lock: u32,
    ) -> (r: ModsIndices)
        ensures
            r == (ModsIndices { control, shift, alt, super_, caps_lock, num_lock }),
    {
        ModsIndices { control, shift, alt, super_, caps_lock, num_lock }
    }
}

/// A full snapshot of the modifier and layout-group state: pressed
/// (`base`), latched and locked, for modifiers and for the group.
#[derive(Clone, Copy, Debug, PartialEq, Eq)]
pub struct ActiveModifiers {
    pub base_mods: u32,
    pub latched_mods: u32,
    pub locked_mods: u32,
    pub base_layout: u32,
    pub latched_layout: u32,
    pub locked_layout: u32,
}

/// The effective modifier mask: pressed, latched or locked.
pub open spec fn effective_mods(a: ActiveModifiers) -> u32 {
    a.base_mods | a.latched_mods | a.locked_mods
}

/// Whether the modifier at `idx` is in effect. An index past the 32 mask
/// bits, the absent sentinel among them, never is.
pub open spec fn mod_is_active(a: ActiveModifiers, idx: u32) -> bool {
    idx < 32 && (effective_mods(a) >> idx) & 1u32 == 1u32
}

/// `flag` where `b` holds, else no flag.
pub open spec fn flag_if(b: bool, flag: u32) -> u32 {
    if b {
        flag
    } else {
        0
    }
}

/// The modifier flags in effect under `a`, for the indices `m`.
pub open spec fn modifier_bits(a: ActiveModifiers, m: ModsIndices) -> u32 {
    flag_if(mod_is_active(a, m.control), CONTROL) | flag_if(mod_is_active(a, m.shift), SHIFT)
        | flag_if(mod_is_active(a, m.super_), SUPER) | flag_if(mod_is_active(a, m.alt), ALT)
        | flag_if(mod_is_active(a, m.caps_lock), CAPS_LOCK) | flag_if(
        mod_is_active(a, m.num_lock),
        NUM_LOCK,
    )
}

/// A set of modifier flags.
#[derive(Clone, Copy, Debug, PartialEq, Eq)]
pub struct Modifiers {
    pub bits: u32,
}

impl Modifiers {
    pub fn empty() -> (r: Modifiers)
        ensures
            r.bits == 0,
    {
        Modifiers { bits: 0 }
    }

    /// Whether every flag of `flags` is in the set.
    pub fn contains(&self, flags: u32) -> (r: bool)
        ensures
            r == (self.bits & flags == flags),
    {
        self.bits & flags == flags
    }
}

/// Whether a key went down or came up.
#[derive(Clone, Copy, Debug, PartialEq, Eq)]
pub enum KeyState {
    Down,
    Up,
}

/// The meaning of a key press.
#[derive(Debug, PartialEq, Eq)]
pub enum KeyValue {
    /// A key of the named-key table.
    Named(keyboard_types::Key),
    /// A key that stands for one character.
    Character(String),
    Unidentified,
}

/// `keyboard_types::Key`, carried as an opaque value: the named keys of the
/// symbol table.
#[verifier::external_type_specification]
#[verifier::external_body]
pub struct ExKeyboardKey(keyboard_types::Key);

/// A code point that is a Unicode scalar value.
pub open spec fn is_scalar(u: u32) -> bool {
    u < 0xD800 || (0xE000 <= u && u <= 0x10FFFF)
}

/// Relies on `char::from_u32`: `Some` exactly for a scalar value, holding
/// the character of that code point.
#[verifier::external_body]
fn char_from_u32(u: u32) -> (r: Option<char>)
    ensures
        r is Some <==> is_scalar(u),
        r matches Some(c) ==> c as u32 == u,
{
    char::from_u32(u)
}

/// `k` is the key value of a symbol whose entry in the named-key table is
/// `named` and whose code point is `code_point` (0: none): the named key
/// first, else the one character, else unidentified.
pub open spec fn is_resolved_key(k: KeyValue, named: Option<keyboard_types::Key>, code_point: u32) -> bool {
    match named {
        Some(n) => k == KeyValue::Named(n),
        None => if code_point != 0 && is_scalar(code_point) {
            k matches KeyValue::Character(s) && s@.len() == 1 && s@[0] as u32 == code_point
        } else {
            k is Unidentified
        },
    }
}

/// The key value of a keyboard symbol, from its entry in the named-key table
/// and its Unicode code point (0 where it has none).
pub fn resolve_key(named: Option<keyboard_types::Key>, code_point: u32) -> (r: KeyValue)
    ensures
        is_resolved_key(r, named, code_point),
{
    match named {
        Some(n) => KeyValue::Named(n),
        None => {
            if code_point == 0 {
                // There is no unicode representation of this symbol
                KeyValue::Unidentified
            } else {
                match char_from_u32(code_point) {
                    Some(c) => {
                        let mut s = String::new();
                        push_char(&mut s, c);
                        KeyValue::Character(s)
                    },
                    None => KeyValue::Unidentified,
                }
            }
        },
    }
}

/// One key press or release, as the toolkit sees it.
///
/// `hardware_code` is the scancode where it fits a hardware keycode; the
/// physical code and the location are looked up from it, and where it is
/// `None` both are unidentified.
#[derive(Debug, PartialEq, Eq)]
pub struct KeyEvent {
    pub state: KeyState,
    pub key: KeyValue,
    pub hardware_code: Option<u16>,
    pub mods: Modifiers,
    pub repeat: bool,
    pub is_composing: bool,
}

/// The modifier and layout state of one keyboard, with the layout's
/// modifier indices, which are found once when the state is made.
#[derive(Clone, Copy)]
pub struct State {
    mods: ModsIndices,
    active: ActiveModifiers,
}

impl State {
    pub closed spec fn indices(&self) -> ModsIndices {
        self.mods
    }

    pub closed spec fn active(&self) -> ActiveModifiers {
        self.active
    }

    /// A state with the given modifier indices and nothing pressed, latched
    /// or locked.
    pub fn new(mods: ModsIndices) -> (r: State)
        ensures
            r.indices() == mods,
            r.active() == (ActiveModifiers {
                base_mods: 0,
                latched_mods: 0,
                locked_mods: 0,
                base_layout: 0,
                latched_layout: 0,
                locked_layout: 0,
            }),
    {
        State {
            mods,
            active: ActiveModifiers {
                base_mods: 0,
                latched_mods: 0,
                locked_mods: 0,
                base_layout: 0,
                latched_layout: 0,
                locked_layout: 0,
            },
        }
    }

    /// Take in a full snapshot of the modifier and layout state.
    pub fn update_xkb_state(&mut self, mods: ActiveModifiers)
        ensures
            final(self).active() == mods,
            final(self).indices() == old(self).indices(),
    {
        self.active = mods;
    }

    /// Whether the modifier at `idx` is in effect.
    pub fn is_modifier_active(&self, idx: u32) -> (r: bool)
        ensures
            r == mod_is_active(self.active(), idx),
    {
        if idx >= 32 {
            false
        } else {
            let effective = self.active.base_mods | self.active.latched_mods
                | self.active.locked_mods;
            (effective >> idx) & 1u32 == 1u32
        }
    }

    fn flag_when_active(&self, idx: u32, flag: u32) -> (r: u32)
        ensures
            r == flag_if(mod_is_active(self.active(), idx), flag),
    {
        if self.is_modifier_active(idx) {
            flag
        } else {
            0
        }
    }

    /// The modifier flags in effect.
    pub fn modifiers(&self) -> (r: Modifiers)
        ensures
            r.bits == modifier_bits(self.active(), self.indices()),
    {
        let m = self.mods;
        let bits = self.flag_when_active(m.control, CONTROL) | self.flag_when_active(m.shift, SHIFT)
            | self.flag_when_active(m.super_, SUPER) | self.flag_when_active(m.alt, ALT)
            | self.flag_when_active(m.caps_lock, CAPS_LOCK) | self.flag_when_active(
            m.num_lock,
            NUM_LOCK,
        );
        Modifiers { bits }
    }

    /// The key event for `scancode` going down or up.
    ///
    /// `named` and `code_point` describe the symbol that the layout engine
    /// gives the key under the current state: its entry in the named-key
    /// table, and its code point (0 where it has none).
    pub fn key_event(
        &self,
        scancode: u32,
        state: KeyState,
        repeat: bool,
        named: Option<keyboard_types::Key>,
        code_point: u32,
    ) -> (r: KeyEvent)
        ensures
            r.state == state,
            is_resolved_key(r.key, named, code_point),
            r.hardware_code == (if scancode <= u16::MAX {
                Some(scancode as u16)
            } else {
                None::<u16>
            }),
            r.mods.bits == modifier_bits(self.active(), self.indices()),
            r.repeat == repeat,
            !r.is_composing,
    {
        let hardware_code = if scancode <= 0xffff {
            Some(scancode as u16)
        } else {
            None
        };
        let key = resolve_key(named, code_point);
        let mods = self.modifiers();
        KeyEvent { state, key, hardware_code, mods, repeat, is_composing: false }
    }
}

/// Whatever the modifier state, an absent modifier index is never in
/// effect, and neither is any index past the mask.
pub proof fn lemma_absent_never_active(a: ActiveModifiers, idx: u32)
    requires
        idx == MOD_INVALID || idx >= 32,
    ensures
        !mod_is_active(a, idx),
{
}

/// A modifier whose bit is set in the pressed mask is in effect.
pub proof fn lemma_pressed_is_active(a: ActiveModifiers, idx: u32)
    requires
        idx < 32,
        (a.base_mods >> idx) & 1u32 == 1u32,
    ensures
        mod_is_active(a, idx),
{
    let b = a.base_mods;
    let l = a.latched_mods;
    let k = a.locked_mods;
    assert(((b >> idx) & 1u32 == 1u32) ==> (((b | l | k) >> idx) & 1u32 == 1u32)) by (bit_vector);
}

/// Each flag of an event's modifier set is there exactly when its modifier
/// is in effect.
pub proof fn lemma_modifier_flags(a: ActiveModifiers, m: ModsIndices)
    ensures
        (modifier_bits(a, m) & CONTROL == CONTROL) == mod_is_active(a, m.control),
        (modifier_bits(a, m) & SHIFT == SHIFT) == mod_is_active(a, m.shift),
        (modifier_bits(a, m) & SUPER == SUPER) == mod_is_active(a, m.super_),
        (modifier_bits(a, m) & ALT == ALT) == mod_is_active(a, m.alt),
        (modifier_bits(a, m) & CAPS_LOCK == CAPS_LOCK) == mod_is_active(a, m.caps_lock),
        (modifier_bits(a, m) & NUM_LOCK == NUM_LOCK) == mod_is_active(a, m.num_lock),
{
    let c = flag_if(mod_is_active(a, m.control), CONTROL);
    let s = flag_if(mod_is_active(a, m.shift), SHIFT);
    let su = flag_if(mod_is_active(a, m.super_), SUPER);
    let al = flag_if(mod_is_active(a, m.alt), ALT);
    let ca = flag_if(mod_is_active(a, m.caps_lock), CAPS_LOCK);
    let nu = flag_if(mod_is_active(a, m.num_lock), NUM_LOCK);
    lemma_six_flags(c, s, su, al, ca, nu);
}

proof fn lemma_six_flags(c: u32, s: u32, su: u32, al: u32, ca: u32, nu: u32) by (bit_vector)
    requires
        c == 0 || c == 0x08,
        s == 0 || s == 0x200,
        su == 0 || su == 0x2000,
        al == 0 || al == 0x01,
        ca == 0 || ca == 0x04,
        nu == 0 || nu == 0x80,
    ensures
        ((c | s | su | al | ca | nu) & 0x08 == 0x08) == (c == 0x08),
        ((c | s | su | al | ca | nu) & 0x200 == 0x200) == (s == 0x200),
        ((c | s | su | al | ca | nu) & 0x2000 == 0x2000) == (su == 0x2000),
        ((c | s | su | al | ca | nu) & 0x01 == 0x01) == (al == 0x01),
        ((c | s | su | al | ca | nu) & 0x04 == 0x04) == (ca == 0x04),
        ((c | s | su | al | ca | nu) & 0x80 == 0x80) == (nu == 0x80),
{
}

/// After a snapshot whose pressed mask holds the Shift modifier's bit, the
/// next key event's modifier set holds `SHIFT`.
pub proof fn lemma_shift_after_update(s: State, a: ActiveModifiers)
    requires
        s.indices().shift < 32,
        (a.base_mods >> s.indices().shift) & 1u32 == 1u32,
    ensures
        modifier_bits(a, s.indices()) & SHIFT == SHIFT,
{
    lemma_pressed_is_active(a, s.indices().shift);
    lemma_modifier_flags(a, s.indices());
}

/// The levels of a logger, most severe first.
#[derive(Clone, Copy, Debug, PartialEq, Eq)]
pub enum LogLevel {
    Error,
    Warn,
    Info,
    Debug,
    Trace,
}

/// The engine's log level for a logger level. The engine has a level more
/// severe than an error, so each level maps one step up: error to critical,
/// warn to error, and so on.
pub fn xkb_log_level(level: LogLevel) -> (r: u32)
    ensures
        r == match level {
            LogLevel::Error => XKB_LOG_LEVEL_CRITICAL,
            LogLevel::Warn => XKB_LOG_LEVEL_ERROR,
            LogLevel::Info => XKB_LOG_LEVEL_WARNING,
            LogLevel::Debug => XKB_LOG_LEVEL_INFO,
            LogLevel::Trace => XKB_LOG_LEVEL_DEBUG,
        },
{
    match level {
        LogLevel::Error => XKB_LOG_LEVEL_CRITICAL,
        LogLevel::Warn => XKB_LOG_LEVEL_ERROR,
        LogLevel::Info => XKB_LOG_LEVEL_WARNING,
        LogLevel::Debug => XKB_LOG_LEVEL_INFO,
        LogLevel::Trace => XKB_LOG_LEVEL_DEBUG,
    }
}

} // verus!
