//! The per-surface input translator: consumes raw pointer, keyboard and
//! modifier events and produces an ordered queue of abstract UI events,
//! drained once per render pass.
//!
//! The translator is a small state machine: it holds the current modifier
//! set, the last pointer position, the pending event queue, the logical
//! screen size, and the text remembered from the most recent key press
//! (used to synthesize text for repeat events when the protocol does not
//! resupply it).  Clipboard chords (ctrl plus `c`/`x`/`v`) are intercepted
//! at press time and replaced by a synthetic copy/cut/paste key event.

use vstd::prelude::*;

use crate::keymap::KeyLocation;
use crate::keymap::LogicalKey;
use crate::keymap::MouseButton;
use crate::keymap::NamedKey;
use crate::keymap::PhysicalKey;
use crate::keymap::KEYSYM_C;
use crate::keymap::KEYSYM_V;
use crate::keymap::KEYSYM_X;
use crate::keymap::spec_key_location;
use crate::keymap::spec_logical_key;
use crate::keymap::spec_physical_key;
use crate::keymap::spec_pointer_button;
use crate::keymap::map_logical_key;
use crate::keymap::map_physical_key;
use crate::keymap::wayland_button_to_iced;

verus! {

/// The abstract modifier set attached to every keyboard event.  It is
/// replaced wholesale by each modifier event, never merged incrementally.
#[derive(Clone, Copy, PartialEq, Eq, Debug, Structural)]
pub struct Modifiers {
    pub shift: bool,
    pub ctrl: bool,
    pub alt: bool,
    pub logo: bool,
}

impl Modifiers {
    /// The empty modifier set: no modifier held.
    pub fn empty() -> (r: Modifiers)
        ensures
            r == (Modifiers { shift: false, ctrl: false, alt: false, logo: false }),
    {
        Modifiers { shift: false, ctrl: false, alt: false, logo: false }
    }
}

/// The self-describing modifier flags as the seat protocol reports them.
#[derive(Clone, Copy, PartialEq, Eq, Debug, Structural)]
pub struct RawModifiers {
    pub ctrl: bool,
    pub alt: bool,
    pub shift: bool,
    pub caps_lock: bool,
    pub logo: bool,
    pub num_lock: bool,
}

/// A raw keyboard event as the protocol reports it: the layout-dependent
/// key symbol, the hardware scan code, and optional composed text.
#[derive(Clone, PartialEq, Debug)]
pub struct KeyEvent {
    pub keysym: u32,
    pub raw_code: u32,
    pub utf8: Option<String>,
}

/// One sub-event of a pointer frame.  Discrete axis deltas are in whole
/// line steps; continuous-only scrolling reports (0, 0) here.
#[derive(Clone, Copy, PartialEq, Eq, Debug, Structural)]
pub enum PointerEventKind {
    Enter,
    Leave,
    Motion,
    Press { button: u32 },
    Release { button: u32 },
    Axis { horizontal_discrete: i32, vertical_discrete: i32 },
}

/// A raw pointer sub-event, tagged with the pointer position in logical
/// coordinates at the instant of the event.
#[derive(Clone, Copy, PartialEq, Eq, Debug, Structural)]
pub struct PointerEvent {
    pub x: i64,
    pub y: i64,
    pub kind: PointerEventKind,
}

/// An abstract mouse event in the UI toolkit's vocabulary.
#[derive(Clone, Copy, PartialEq, Eq, Debug, Structural)]
pub enum MouseEvent {
    CursorEntered,
    CursorLeft,
    CursorMoved { x: i64, y: i64 },
    ButtonPressed(MouseButton),
    ButtonReleased(MouseButton),
    WheelScrolled { lines_x: i32, lines_y: i32 },
}

/// An abstract keyboard event in the UI toolkit's vocabulary.  Only press
/// events may carry composed text; release events never do.
#[derive(Clone, PartialEq, Debug)]
pub enum KeyboardEvent {
    KeyPressed {
        key: LogicalKey,
        location: KeyLocation,
        modifiers: Modifiers,
        text: Option<String>,
        physical_key: PhysicalKey,
        repeat: bool,
    },
    KeyReleased {
        key: LogicalKey,
        location: KeyLocation,
        modifiers: Modifiers,
        physical_key: PhysicalKey,
    },
}

/// One entry of the translated event queue handed to the UI toolkit.
/// `RedrawRequested` is the marker appended once per render pass.
#[derive(Clone, PartialEq, Debug)]
pub enum UiEvent {
    Mouse(MouseEvent),
    Keyboard(KeyboardEvent),
    RedrawRequested,
}

/// A control character must never be forwarded as composed text.
pub open spec fn char_is_control(c: char) -> bool {
    (c as u32) < 0x20 || (c as u32) == 0x7f
}

/// Text may be attached to a key event only when none of its characters
/// is a control character.
pub open spec fn text_acceptable(s: Seq<char>) -> bool {
    forall|i: int| 0 <= i < s.len() ==> !char_is_control(s[i])
}

/// The protocol-supplied text of a key event, with text holding control
/// characters filtered out.
pub open spec fn acceptable_supplied_text(utf8: Option<String>) -> Option<String> {
    match utf8 {
        Some(t) => if text_acceptable(t@) {
            utf8
        } else {
            None
        },
        None => None,
    }
}

/// The text attached to a press or repeat event: the protocol-supplied
/// text is preferred; a repeat without supplied text falls back to the
/// text remembered from the most recent press.
pub open spec fn chosen_press_text(
    supplied: Option<String>,
    remembered: Option<String>,
    is_repeat: bool,
) -> Option<String> {
    if supplied is Some {
        supplied
    } else if is_repeat {
        remembered
    } else {
        None
    }
}

/// A clipboard chord: ctrl held, not a repeat, and the layout symbol is
/// exactly `c`, `x` or `v`.  The chord is consumed at press time.
pub open spec fn is_clipboard_chord(mods: Modifiers, keysym: u32, is_repeat: bool) -> bool {
    mods.ctrl && !is_repeat && (keysym == KEYSYM_C || keysym == KEYSYM_X || keysym == KEYSYM_V)
}

/// The synthetic key emitted for a clipboard chord.
pub open spec fn clipboard_synthetic_key(keysym: u32) -> NamedKey {
    if keysym == KEYSYM_C {
        NamedKey::Copy
    } else if keysym == KEYSYM_X {
        NamedKey::Cut
    } else {
        NamedKey::Paste
    }
}

/// The single event appended to the queue by a keyboard press, repeat or
/// release, given the modifier set and remembered text before the call.
pub open spec fn spec_keyboard_event(
    mods: Modifiers,
    remembered: Option<String>,
    ev: KeyEvent,
    pressed: bool,
    is_repeat: bool,
) -> UiEvent {
    if pressed {
        if is_clipboard_chord(mods, ev.keysym, is_repeat) {
            UiEvent::Keyboard(KeyboardEvent::KeyPressed {
                key: LogicalKey::Named(clipboard_synthetic_key(ev.keysym)),
                location: spec_key_location(ev.keysym),
                modifiers: mods,
                text: None,
                physical_key: spec_physical_key(ev.keysym, ev.raw_code),
                repeat: false,
            })
        } else {
            UiEvent::Keyboard(KeyboardEvent::KeyPressed {
                key: spec_logical_key(ev.keysym),
                location: spec_key_location(ev.keysym),
                modifiers: mods,
                text: chosen_press_text(acceptable_supplied_text(ev.utf8), remembered, is_repeat),
                physical_key: spec_physical_key(ev.keysym, ev.raw_code),
                repeat: is_repeat,
            })
        }
    } else {
        UiEvent::Keyboard(KeyboardEvent::KeyReleased {
            key: spec_logical_key(ev.keysym),
            location: spec_key_location(ev.keysym),
            modifiers: mods,
            physical_key: spec_physical_key(ev.keysym, ev.raw_code),
        })
    }
}

/// The remembered text after a keyboard event: a fresh press (chords
/// excepted) replaces it with the acceptable supplied text; repeats and
/// releases leave it unchanged.
pub open spec fn spec_remembered_after(
    mods: Modifiers,
    remembered: Option<String>,
    ev: KeyEvent,
    pressed: bool,
    is_repeat: bool,
) -> Option<String> {
    if pressed && !is_repeat && !is_clipboard_chord(mods, ev.keysym, is_repeat) {
        acceptable_supplied_text(ev.utf8)
    } else {
        remembered
    }
}

/// The events a pointer sub-event appends to the queue: zero or one.
/// Unrecognized button codes and axis sub-events with no discrete step
/// append nothing.
pub open spec fn spec_pointer_events(ev: PointerEvent) -> Seq<UiEvent> {
    match ev.kind {
        PointerEventKind::Enter => seq![UiEvent::Mouse(MouseEvent::CursorEntered)],
        PointerEventKind::Leave => seq![UiEvent::Mouse(MouseEvent::CursorLeft)],
        PointerEventKind::Motion => seq![
            UiEvent::Mouse(MouseEvent::CursorMoved { x: ev.x, y: ev.y }),
        ],
        PointerEventKind::Press { button } => match spec_pointer_button(button) {
            Some(b) => seq![UiEvent::Mouse(MouseEvent::ButtonPressed(b))],
            None => Seq::empty(),
        },
        PointerEventKind::Release { button } => match spec_pointer_button(button) {
            Some(b) => seq![UiEvent::Mouse(MouseEvent::ButtonReleased(b))],
            None => Seq::empty(),
        },
        PointerEventKind::Axis { horizontal_discrete, vertical_discrete } => {
            if horizontal_discrete != 0 || vertical_discrete != 0 {
                seq![
                    UiEvent::Mouse(MouseEvent::WheelScrolled {
                        lines_x: horizontal_discrete,
                        lines_y: vertical_discrete,
                    }),
                ]
            } else {
                Seq::empty()
            }
        },
    }
}

/// The pointer position after a pointer sub-event: enter and motion
/// snapshot the event's position, every other kind leaves it unchanged.
pub open spec fn spec_pointer_pos_after(pre_x: i64, pre_y: i64, ev: PointerEvent) -> (i64, i64) {
    match ev.kind {
        PointerEventKind::Enter => (ev.x, ev.y),
        PointerEventKind::Motion => (ev.x, ev.y),
        _ => (pre_x, pre_y),
    }
}

/// The events a whole pointer frame — a batch of sub-events sharing one
/// logical instant — appends to the queue, in batch order.
pub open spec fn spec_pointer_batch_events(evs: Seq<PointerEvent>) -> Seq<UiEvent>
    decreases evs.len(),
{
    if evs.len() == 0 {
        Seq::empty()
    } else {
        spec_pointer_events(evs[0]) + spec_pointer_batch_events(evs.drop_first())
    }
}

/// The pointer position after a whole pointer frame.
pub open spec fn spec_pointer_pos_batch(x: i64, y: i64, evs: Seq<PointerEvent>) -> (i64, i64)
    decreases evs.len(),
{
    if evs.len() == 0 {
        (x, y)
    } else {
        let p = spec_pointer_pos_after(x, y, evs[0]);
        spec_pointer_pos_batch(p.0, p.1, evs.drop_first())
    }
}

/// Extending a batch by one sub-event appends that sub-event's queue
/// contribution at the end.
pub proof fn lemma_pointer_batch_push(evs: Seq<PointerEvent>, e: PointerEvent)
    ensures
        spec_pointer_batch_events(evs.push(e)) == spec_pointer_batch_events(evs)
            + spec_pointer_events(e),
    decreases evs.len(),
{
    if evs.len() == 0 {
        assert(evs.push(e)[0] == e);
        assert(evs.push(e).drop_first() =~= Seq::<PointerEvent>::empty());
        assert(spec_pointer_batch_events(evs.push(e)) == spec_pointer_events(e)
            + spec_pointer_batch_events(Seq::empty()));
        assert(spec_pointer_events(e) + Seq::<UiEvent>::empty() =~= spec_pointer_events(e));
        assert(Seq::<UiEvent>::empty() + spec_pointer_events(e) =~= spec_pointer_events(e));
    } else {
        assert(evs.push(e)[0] == evs[0]);
        assert(evs.push(e).drop_first() =~= evs.drop_first().push(e));
        lemma_pointer_batch_push(evs.drop_first(), e);
        assert(spec_pointer_batch_events(evs.push(e)) == spec_pointer_events(evs[0])
            + spec_pointer_batch_events(evs.drop_first().push(e)));
        assert(spec_pointer_batch_events(evs.drop_first().push(e)) == spec_pointer_batch_events(
            evs.drop_first(),
        ) + spec_pointer_events(e));
        assert(spec_pointer_batch_events(evs) == spec_pointer_events(evs[0])
            + spec_pointer_batch_events(evs.drop_first()));
        assert(spec_pointer_events(evs[0]) + (spec_pointer_batch_events(evs.drop_first())
            + spec_pointer_events(e)) =~= (spec_pointer_events(evs[0])
            + spec_pointer_batch_events(evs.drop_first())) + spec_pointer_events(e));
    }
}

/// Extending a batch by one sub-event folds that sub-event into the
/// position last.
pub proof fn lemma_pointer_pos_batch_push(x: i64, y: i64, evs: Seq<PointerEvent>, e: PointerEvent)
    ensures
        spec_pointer_pos_batch(x, y, evs.push(e)) == ({
            let p = spec_pointer_pos_batch(x, y, evs);
            spec_pointer_pos_after(p.0, p.1, e)
        }),
    decreases evs.len(),
{
    if evs.len() == 0 {
        assert(evs.push(e)[0] == e);
        assert(evs.push(e).drop_first() =~= Seq::<PointerEvent>::empty());
        let p = spec_pointer_pos_after(x, y, e);
        assert(spec_pointer_pos_batch(x, y, evs.push(e)) == spec_pointer_pos_batch(
            p.0,
            p.1,
            Seq::empty(),
        ));
        assert(spec_pointer_pos_batch(x, y, evs) == (x, y));
    } else {
        assert(evs.push(e)[0] == evs[0]);
        assert(evs.push(e).drop_first() =~= evs.drop_first().push(e));
        let p = spec_pointer_pos_after(x, y, evs[0]);
        lemma_pointer_pos_batch_push(p.0, p.1, evs.drop_first(), e);
        assert(spec_pointer_pos_batch(x, y, evs.push(e)) == spec_pointer_pos_batch(
            p.0,
            p.1,
            evs.drop_first().push(e),
        ));
        assert(spec_pointer_pos_batch(x, y, evs) == spec_pointer_pos_batch(
            p.0,
            p.1,
            evs.drop_first(),
        ));
    }
}

/// Relates the translator state before and after one keyboard press,
/// repeat or release: exactly one event is appended, the remembered text
/// is updated as `spec_remembered_after` says, and nothing else moves.
pub open spec fn keyboard_step(
    pre: WaylandToIcedInput,
    post: WaylandToIcedInput,
    ev: KeyEvent,
    pressed: bool,
    is_repeat: bool,
) -> bool {
    &&& post.events@ == pre.events@.push(
        spec_keyboard_event(pre.modifiers, pre.last_key_utf8, ev, pressed, is_repeat),
    )
    &&& post.last_key_utf8 == spec_remembered_after(
        pre.modifiers,
        pre.last_key_utf8,
        ev,
        pressed,
        is_repeat,
    )
    &&& post.modifiers == pre.modifiers
    &&& post.pointer_x == pre.pointer_x
    &&& post.pointer_y == pre.pointer_y
    &&& post.screen_width == pre.screen_width
    &&& post.screen_height == pre.screen_height
}

/// Relates the translator state before and after one pointer sub-event:
/// at most one event is appended and the position snapshot is taken on
/// enter and motion.
pub open spec fn pointer_step(
    pre: WaylandToIcedInput,
    post: WaylandToIcedInput,
    ev: PointerEvent,
) -> bool {
    &&& post.events@ == pre.events@ + spec_pointer_events(ev)
    &&& (post.pointer_x, post.pointer_y) == spec_pointer_pos_after(pre.pointer_x, pre.pointer_y, ev)
    &&& post.modifiers == pre.modifiers
    &&& post.screen_width == pre.screen_width
    &&& post.screen_height == pre.screen_height
    &&& post.last_key_utf8 == pre.last_key_utf8
}

/// Relates the translator state before and after a modifier event: the
/// modifier set is replaced wholesale and nothing else moves.
pub open spec fn modifiers_step(
    pre: WaylandToIcedInput,
    post: WaylandToIcedInput,
    raw: RawModifiers,
) -> bool {
    post == (WaylandToIcedInput {
        modifiers: Modifiers { shift: raw.shift, ctrl: raw.ctrl, alt: raw.alt, logo: raw.logo },
        ..pre
    })
}

/// A freshly created translator: empty queue, no modifier held, pointer
/// at the origin, the default 256 by 256 screen, and no remembered text.
pub open spec fn fresh_translator(t: WaylandToIcedInput) -> bool {
    &&& t.modifiers == (Modifiers { shift: false, ctrl: false, alt: false, logo: false })
    &&& t.pointer_x == 0
    &&& t.pointer_y == 0
    &&& t.events@ =~= Seq::<UiEvent>::empty()
    &&& t.screen_width == 256
    &&& t.screen_height == 256
    &&& t.last_key_utf8 is None
}

/// Translates raw seat events into the UI toolkit's event vocabulary.
/// One translator per surface; created with it and never shared.
pub struct WaylandToIcedInput {
    /// The modifier set as of the last modifier event.
    pub modifiers: Modifiers,
    /// Last pointer position, in logical coordinates.
    pub pointer_x: i64,
    pub pointer_y: i64,
    /// The pending event queue, in receipt order, drained once per render
    /// pass.
    pub events: Vec<UiEvent>,
    /// Logical screen size, for translations that need bounds.
    pub screen_width: u32,
    pub screen_height: u32,
    /// Text remembered from the most recent press, used when a repeat
    /// arrives without protocol-supplied text.
    pub last_key_utf8: Option<String>,
}

impl WaylandToIcedInput {
    /// A fresh translator: empty queue, empty modifier set, pointer at the
    /// origin, and the default 256 by 256 logical screen.
    pub fn new() -> (r: WaylandToIcedInput)
        ensures
            fresh_translator(r),
    {
        WaylandToIcedInput {
            modifiers: Modifiers::empty(),
            pointer_x: 0,
            pointer_y: 0,
            events: Vec::new(),
            screen_width: 256,
            screen_height: 256,
            last_key_utf8: None,
        }
    }

    pub fn set_screen_size(&mut self, width: u32, height: u32)
        ensures
            *final(self) == (WaylandToIcedInput {
                screen_width: width,
                screen_height: height,
                ..(*old(self))
            }),
    {
        self.screen_width = width;
        self.screen_height = height;
    }

    pub fn set_pointer_position(&mut self, x: i64, y: i64)
        ensures
            *final(self) == (WaylandToIcedInput { pointer_x: x, pointer_y: y, ..(*old(self)) }),
    {
        self.pointer_x = x;
        self.pointer_y = y;
    }

    pub fn get_modifiers(&self) -> (r: Modifiers)
        ensures
            r == self.modifiers,
    {
        self.modifiers
    }

    pub fn get_pointer_position(&self) -> (r: (i64, i64))
        ensures
            r == (self.pointer_x, self.pointer_y),
    {
        (self.pointer_x, self.pointer_y)
    }

    /// Replaces the modifier set from the protocol's self-describing
    /// flags.  Lock states are not part of the abstract set.
    pub fn update_modifiers(&mut self, wayland_mods: &RawModifiers)
        ensures
            modifiers_step(*old(self), *final(self), *wayland_mods),
    {
        self.modifiers = Modifiers {
            shift: wayland_mods.shift,
            ctrl: wayland_mods.ctrl,
            alt: wayland_mods.alt,
            logo: wayland_mods.logo,
        };
    }

    /// Keyboard focus entered the surface.  The toolkit vocabulary has no
    /// matching event, so the translator state is left untouched.
    pub fn handle_keyboard_enter(&mut self)
        ensures
            *final(self) == *old(self),
    {
    }

    /// Keyboard focus left the surface; like `handle_keyboard_enter`, a
    /// deliberate no-op.
    pub fn handle_keyboard_leave(&mut self)
        ensures
            *final(self) == *old(self),
    {
    }

    /// Drains the pending queue, handing the events out in receipt order
    /// and leaving the queue empty.
    pub fn take_events(&mut self) -> (r: Vec<UiEvent>)
        ensures
            r@ == old(self).events@,
            *final(self) == (WaylandToIcedInput { events: final(self).events, ..(*old(self)) }),
            final(self).events@ =~= Seq::<UiEvent>::empty(),
    {
        let mut out: Vec<UiEvent> = Vec::new();
        core::mem::swap(&mut out, &mut self.events);
        out
    }

    /// Translates one pointer sub-event: snapshots the position on enter
    /// and motion, and appends at most one abstract mouse event.  Sub-events
    /// with nothing to report (unrecognized buttons, scrolls without a
    /// discrete step) append nothing.
    pub fn handle_pointer_event(&mut self, event: &PointerEvent)
        ensures
            pointer_step(*old(self), *final(self), *event),
    {
        match event.kind {
            PointerEventKind::Enter => {
                self.pointer_x = event.x;
                self.pointer_y = event.y;
                self.events.push(UiEvent::Mouse(MouseEvent::CursorEntered));
            },
            PointerEventKind::Leave => {
                self.events.push(UiEvent::Mouse(MouseEvent::CursorLeft));
            },
            PointerEventKind::Motion => {
                self.pointer_x = event.x;
                self.pointer_y = event.y;
                self.events.push(
                    UiEvent::Mouse(MouseEvent::CursorMoved { x: event.x, y: event.y }),
                );
            },
            PointerEventKind::Press { button } => {
                if let Some(b) = wayland_button_to_iced(button) {
                    self.events.push(UiEvent::Mouse(MouseEvent::ButtonPressed(b)));
                }
            },
            PointerEventKind::Release { button } => {
                if let Some(b) = wayland_button_to_iced(button) {
                    self.events.push(UiEvent::Mouse(MouseEvent::ButtonReleased(b)));
                }
            },
            PointerEventKind::Axis { horizontal_discrete, vertical_discrete } => {
                if horizontal_discrete != 0 || vertical_discrete != 0 {
                    self.events.push(
                        UiEvent::Mouse(MouseEvent::WheelScrolled {
                            lines_x: horizontal_discrete,
                            lines_y: vertical_discrete,
                        }),
                    );
                }
            },
        }
        proof {
            assert(self.events@ =~= old(self).events@ + spec_pointer_events(*event));
        }
    }

    /// Translates one keyboard press, repeat or release into exactly one
    /// queued event.  Clipboard chords are consumed: the press emits a
    /// synthetic copy/cut/paste key instead of the literal character.
    /// No event is ever dropped for a mapping miss.
    pub fn handle_keyboard_event(&mut self, event: &KeyEvent, pressed: bool, is_repeat: bool)
        ensures
            keyboard_step(*old(self), *final(self), *event, pressed, is_repeat),
    {
        let (key, location) = map_logical_key(event.keysym);
        let physical_key = map_physical_key(event.keysym, event.raw_code);
        if pressed {
            let chord = self.modifiers.ctrl && !is_repeat && (event.keysym == KEYSYM_C
                || event.keysym == KEYSYM_X || event.keysym == KEYSYM_V);
            if chord {
                let synthetic = if event.keysym == KEYSYM_C {
                    NamedKey::Copy
                } else if event.keysym == KEYSYM_X {
                    NamedKey::Cut
                } else {
                    NamedKey::Paste
                };
                self.events.push(
                    UiEvent::Keyboard(KeyboardEvent::KeyPressed {
                        key: LogicalKey::Named(synthetic),
                        location,
                        modifiers: self.modifiers,
                        text: None,
                        physical_key,
                        repeat: false,
                    }),
                );
            } else {
                let supplied: Option<String> = match &event.utf8 {
                    Some(t) => if text_forwardable(t) {
                        Some(t.clone())
                    } else {
                        None
                    },
                    None => None,
                };
                let text: Option<String> = if supplied.is_some() {
                    clone_text(&supplied)
                } else if is_repeat {
                    clone_text(&self.last_key_utf8)
                } else {
                    None
                };
                if !is_repeat {
                    self.last_key_utf8 = supplied;
                }
                self.events.push(
                    UiEvent::Keyboard(KeyboardEvent::KeyPressed {
                        key,
                        location,
                        modifiers: self.modifiers,
                        text,
                        physical_key,
                        repeat: is_repeat,
                    }),
                );
            }
        } else {
            self.events.push(
                UiEvent::Keyboard(KeyboardEvent::KeyReleased {
                    key,
                    location,
                    modifiers: self.modifiers,
                    physical_key,
                }),
            );
        }
    }
}

/// True when the text may be attached to a key event: none of its
/// characters is a control character.
fn text_forwardable(t: &String) -> (r: bool)
    ensures
        r == text_acceptable(t@),
{
    let s = t.as_str();
    let n = s.unicode_len();
    let mut i: usize = 0;
    while i < n
        invariant
            n == s@.len(),
            s@ == t@,
            i <= n,
            forall|j: int| 0 <= j < i ==> !char_is_control(t@[j]),
        decreases n - i,
    {
        let c = s.get_char(i);
        let v = c as u32;
        if v < 0x20 || v == 0x7f {
            return false;
        }
        i += 1;
    }
    true
}

/// A value-preserving copy of optional composed text.
fn clone_text(o: &Option<String>) -> (r: Option<String>)
    ensures
        r == *o,
{
    match o {
        Some(t) => Some(t.clone()),
        None => None,
    }
}

/// Clipboard chord interception: pressing `c` while ctrl is held emits
/// exactly one event, the synthetic copy key with no text — never the
/// literal character — and leaves the remembered text untouched.  The
/// following release of `c` is an ordinary literal release event: chord
/// suppression applies only to press translation.
pub proof fn lemma_clipboard_chord_copy(
    mods: Modifiers,
    remembered: Option<String>,
    press: KeyEvent,
    release: KeyEvent,
)
    requires
        mods.ctrl,
        press.keysym == KEYSYM_C,
        release.keysym == KEYSYM_C,
    ensures
        spec_keyboard_event(mods, remembered, press, true, false) == UiEvent::Keyboard(
            KeyboardEvent::KeyPressed {
                key: LogicalKey::Named(NamedKey::Copy),
                location: spec_key_location(press.keysym),
                modifiers: mods,
                text: None,
                physical_key: spec_physical_key(press.keysym, press.raw_code),
                repeat: false,
            },
        ),
        spec_remembered_after(mods, remembered, press, true, false) == remembered,
        spec_keyboard_event(mods, remembered, release, false, false) == UiEvent::Keyboard(
            KeyboardEvent::KeyReleased {
                key: spec_logical_key(release.keysym),
                location: spec_key_location(release.keysym),
                modifiers: mods,
                physical_key: spec_physical_key(release.keysym, release.raw_code),
            },
        ),
{
}

/// Key-repeat text fallback: after a press that supplied acceptable text,
/// a repeat arriving without protocol-supplied text carries the text of
/// that press.
pub proof fn lemma_repeat_text_fallback(
    mods: Modifiers,
    remembered: Option<String>,
    press: KeyEvent,
    repeat_ev: KeyEvent,
)
    requires
        !is_clipboard_chord(mods, press.keysym, false),
        press.utf8 is Some,
        text_acceptable(press.utf8->Some_0@),
        repeat_ev.utf8 is None,
    ensures
        spec_remembered_after(mods, remembered, press, true, false) == press.utf8,
        spec_keyboard_event(mods, press.utf8, repeat_ev, true, true) == UiEvent::Keyboard(
            KeyboardEvent::KeyPressed {
                key: spec_logical_key(repeat_ev.keysym),
                location: spec_key_location(repeat_ev.keysym),
                modifiers: mods,
                text: press.utf8,
                physical_key: spec_physical_key(repeat_ev.keysym, repeat_ev.raw_code),
                repeat: true,
            },
        ),
{
}

/// Scroll suppression: an axis sub-event whose discrete deltas are both
/// zero queues nothing, and one with a non-zero discrete delta queues
/// exactly one wheel-scroll event in line units.
pub proof fn lemma_scroll_suppression(ev: PointerEvent, h: i32, v: i32)
    requires
        ev.kind == (PointerEventKind::Axis { horizontal_discrete: h, vertical_discrete: v }),
    ensures
        h == 0 && v == 0 ==> spec_pointer_events(ev) =~= Seq::<UiEvent>::empty(),
        h != 0 || v != 0 ==> spec_pointer_events(ev) =~= seq![
            UiEvent::Mouse(MouseEvent::WheelScrolled { lines_x: h, lines_y: v }),
        ],
{
}

} // verus!
