//! The simple software-rendered application path: one process-wide
//! tracker of plain windows, each presented through a shared-memory
//! buffer painted a solid colour.
//!
//! This is the minimal counterpart of the container system: one input
//! translator for the whole process, windows tracked in a vector, and
//! configure events routed by protocol object identity.  The shell
//! around the crate creates the protocol objects and attaches the
//! buffers; the tracking, routing, clamping and pixel pattern live
//! here.

use vstd::prelude::*;

use crate::input::KeyEvent;
use crate::input::PointerEvent;
use crate::input::RawModifiers;
use crate::input::WaylandToIcedInput;
use crate::input::fresh_translator;
use crate::input::keyboard_step;
use crate::input::modifiers_step;
use crate::input::spec_pointer_batch_events;
use crate::input::spec_pointer_pos_batch;
use crate::input::lemma_pointer_batch_push;
use crate::input::lemma_pointer_pos_batch_push;
use crate::render::spec_clamp_dim;

verus! {

/// Which shell protocol a tracked window belongs to.
#[derive(Clone, Copy, PartialEq, Eq, Debug, Structural)]
pub enum WindowKind {
    LayerSurface,
    Window,
}

/// One tracked window of the software path: its identity, kind,
/// current size, buffer scale, and whether a buffer has been attached.
#[derive(Clone, Copy, PartialEq, Eq, Debug, Structural)]
pub struct WaylandWindow {
    /// Protocol object identity of the underlying surface.
    pub identity: u64,
    pub kind: WindowKind,
    pub width: u32,
    pub height: u32,
    pub scale_factor: i32,
    /// Whether a configure has attached a painted buffer yet.
    pub has_buffer: bool,
}

/// The blue-grey solid colour every buffer is painted, as the byte at
/// each offset of a four-byte little-endian ARGB pixel.
pub open spec fn spec_argb_byte(offset: int) -> u8 {
    if offset == 0 {
        0x30u8
    } else if offset == 1 {
        0x80u8
    } else if offset == 2 {
        0xc0u8
    } else {
        0xffu8
    }
}

/// The decimal digits.
pub open spec fn spec_digit(d: int) -> char {
    if d == 0 {
        '0'
    } else if d == 1 {
        '1'
    } else if d == 2 {
        '2'
    } else if d == 3 {
        '3'
    } else if d == 4 {
        '4'
    } else if d == 5 {
        '5'
    } else if d == 6 {
        '6'
    } else if d == 7 {
        '7'
    } else if d == 8 {
        '8'
    } else {
        '9'
    }
}

/// The decimal rendering of a non-negative number, most significant
/// digit first.
pub open spec fn spec_dec(n: int) -> Seq<char>
    recommends
        n >= 0,
    decreases n,
{
    if n < 10 {
        seq![spec_digit(n)]
    } else {
        spec_dec(n / 10) + seq![spec_digit(n % 10)]
    }
}

/// The textual description `list_windows` gives of one tracked window.
pub open spec fn spec_window_line(index: int, w: WaylandWindow) -> Seq<char> {
    spec_dec(index) + (match w.kind {
        WindowKind::LayerSurface => ": LayerSurface ("@,
        WindowKind::Window => ": XDG Window ("@,
    }) + spec_dec(w.width as int) + "x"@ + spec_dec(w.height as int) + ")"@
}

fn digit_str(d: u64) -> (r: &'static str)
    requires
        d < 10,
    ensures
        r@ =~= seq![spec_digit(d as int)],
{
    if d == 0 {
        proof {
            reveal_strlit("0");
        }
        "0"
    } else if d == 1 {
        proof {
            reveal_strlit("1");
        }
        "1"
    } else if d == 2 {
        proof {
            reveal_strlit("2");
        }
        "2"
    } else if d == 3 {
        proof {
            reveal_strlit("3");
        }
        "3"
    } else if d == 4 {
        proof {
            reveal_strlit("4");
        }
        "4"
    } else if d == 5 {
        proof {
            reveal_strlit("5");
        }
        "5"
    } else if d == 6 {
        proof {
            reveal_strlit("6");
        }
        "6"
    } else if d == 7 {
        proof {
            reveal_strlit("7");
        }
        "7"
    } else if d == 8 {
        proof {
            reveal_strlit("8");
        }
        "8"
    } else {
        proof {
            reveal_strlit("9");
        }
        "9"
    }
}

/// Renders a number in decimal, most significant digit first.
pub fn u64_string(n: u64) -> (r: String)
    ensures
        r@ == spec_dec(n as int),
    decreases n,
{
    if n < 10 {
        String::from_str(digit_str(n))
    } else {
        let prefix = u64_string(n / 10);
        let r = prefix.concat(digit_str(n % 10));
        proof {
            assert(r@ =~= spec_dec(n as int));
        }
        r
    }
}

/// The painted buffer for a window of the given logical size: four
/// bytes per pixel, every pixel the same solid colour.
pub fn solid_buffer(width: u32, height: u32) -> (r: Vec<u8>)
    requires
        (width as int) * (height as int) * 4 <= usize::MAX as int,
    ensures
        r@.len() == (width as int) * (height as int) * 4,
        forall|j: int| 0 <= j < r@.len() ==> #[trigger] r@[j] == spec_argb_byte(j % 4),
{
    proof {
        assert((width as int) * (height as int) >= 0) by (nonlinear_arith);
        assert((width as int) * (height as int) * 4 == ((width as int) * (height as int)) * 4)
            by (nonlinear_arith);
    }
    let pixels: usize = (width as usize) * (height as usize);
    let size: usize = pixels * 4;
    let mut buf: Vec<u8> = Vec::new();
    let mut i: usize = 0;
    while i < size
        invariant
            i <= size,
            size == (width as int) * (height as int) * 4,
            buf@.len() == i,
            forall|j: int| 0 <= j < i ==> #[trigger] buf@[j] == spec_argb_byte(j % 4),
        decreases size - i,
    {
        let r = i % 4;
        let b: u8 = if r == 0 {
            0x30
        } else if r == 1 {
            0x80
        } else if r == 2 {
            0xc0
        } else {
            0xff
        };
        buf.push(b);
        i += 1;
    }
    buf
}

/// The process-wide application state of the software path: the tracked
/// windows in creation order and one shared input translator.
pub struct Application {
    pub windows: Vec<WaylandWindow>,
    pub input_state: WaylandToIcedInput,
}

impl Application {
    /// An application tracking no windows yet, with a fresh translator.
    pub fn new() -> (r: Application)
        ensures
            r.windows@.len() == 0,
            fresh_translator(r.input_state),
    {
        Application { windows: Vec::new(), input_state: WaylandToIcedInput::new() }
    }

    /// Tracks a newly created layer surface under its identity, at the
    /// default size, and returns its index.
    pub fn track_layer_surface(&mut self, identity: u64) -> (index: usize)
        ensures
            index == old(self).windows@.len(),
            final(self).windows@ == old(self).windows@.push(
                WaylandWindow {
                    identity,
                    kind: WindowKind::LayerSurface,
                    width: 256,
                    height: 256,
                    scale_factor: 1,
                    has_buffer: false,
                },
            ),
            final(self).input_state == old(self).input_state,
    {
        let index = self.windows.len();
        self.windows.push(
            WaylandWindow {
                identity,
                kind: WindowKind::LayerSurface,
                width: 256,
                height: 256,
                scale_factor: 1,
                has_buffer: false,
            },
        );
        index
    }

    /// Tracks a newly created top-level window under its identity, at
    /// the default size, and returns its index.
    pub fn track_xdg_window(&mut self, identity: u64) -> (index: usize)
        ensures
            index == old(self).windows@.len(),
            final(self).windows@ == old(self).windows@.push(
                WaylandWindow {
                    identity,
                    kind: WindowKind::Window,
                    width: 256,
                    height: 256,
                    scale_factor: 1,
                    has_buffer: false,
                },
            ),
            final(self).input_state == old(self).input_state,
    {
        let index = self.windows.len();
        self.windows.push(
            WaylandWindow {
                identity,
                kind: WindowKind::Window,
                width: 256,
                height: 256,
                scale_factor: 1,
                has_buffer: false,
            },
        );
        index
    }

    /// Textual descriptions of the tracked windows, one per window, in
    /// creation order.
    pub fn list_windows(&self) -> (r: Vec<String>)
        ensures
            r@.len() == self.windows@.len(),
            forall|i: int| 0 <= i < r@.len() ==> #[trigger] r@[i]@ == spec_window_line(
                i,
                self.windows@[i],
            ),
    {
        let mut out: Vec<String> = Vec::new();
        let mut i: usize = 0;
        while i < self.windows.len()
            invariant
                i <= self.windows@.len(),
                out@.len() == i,
                forall|k: int| 0 <= k < i ==> #[trigger] out@[k]@ == spec_window_line(
                    k,
                    self.windows@[k],
                ),
            decreases self.windows@.len() - i,
        {
            let w = self.windows[i];
            let mut line = u64_string(i as u64);
            match w.kind {
                WindowKind::LayerSurface => line.append(": LayerSurface ("),
                WindowKind::Window => line.append(": XDG Window ("),
            }
            let width_text = u64_string(w.width as u64);
            line.append(width_text.as_str());
            line.append("x");
            let height_text = u64_string(w.height as u64);
            line.append(height_text.as_str());
            line.append(")");
            proof {
                assert(line@ =~= spec_window_line(i as int, self.windows@[i as int]));
            }
            out.push(line);
            i += 1;
        }
        out
    }

    /// Closes and forgets the window at the index: the windows after it
    /// move up one place.  An out-of-range index changes nothing and
    /// reports failure.
    pub fn close_window(&mut self, index: usize) -> (r: Option<()>)
        ensures
            r is Some <==> index < old(self).windows@.len(),
            index < old(self).windows@.len() ==> final(self).windows@ == old(
                self,
            ).windows@.remove(index as int),
            index >= old(self).windows@.len() ==> final(self).windows@ == old(self).windows@,
            final(self).input_state == old(self).input_state,
    {
        if index < self.windows.len() {
            let _removed: WaylandWindow = self.windows.remove(index);
            Some(())
        } else {
            None
        }
    }

    /// Routes a layer-surface configure by identity: the first tracked
    /// layer surface under that identity adopts the size — clamped to at
    /// least one in both dimensions — the translator learns the new
    /// screen size, and the window is marked as having a buffer.  An
    /// unknown identity is a no-op.
    pub fn handle_layer_configure(&mut self, identity: u64, width: u32, height: u32) -> (found:
        bool)
        ensures
            handled_configure(
                *old(self),
                *final(self),
                identity,
                WindowKind::LayerSurface,
                spec_clamp_dim(width),
                spec_clamp_dim(height),
                found,
            ),
    {
        let w = if width == 0 {
            1
        } else {
            width
        };
        let h = if height == 0 {
            1
        } else {
            height
        };
        self.apply_configure(identity, WindowKind::LayerSurface, w, h)
    }

    /// Routes a window configure by identity, defaulting an unspecified
    /// dimension before clamping, as `handle_layer_configure` does.
    pub fn handle_window_configure(
        &mut self,
        identity: u64,
        width: Option<u32>,
        height: Option<u32>,
    ) -> (found: bool)
        ensures
            handled_configure(
                *old(self),
                *final(self),
                identity,
                WindowKind::Window,
                spec_clamp_dim(crate::containers::spec_window_dim(width)),
                spec_clamp_dim(crate::containers::spec_window_dim(height)),
                found,
            ),
    {
        let w0 = match width {
            Some(v) => v,
            None => 256,
        };
        let h0 = match height {
            Some(v) => v,
            None => 256,
        };
        let w = if w0 == 0 {
            1
        } else {
            w0
        };
        let h = if h0 == 0 {
            1
        } else {
            h0
        };
        self.apply_configure(identity, WindowKind::Window, w, h)
    }

    /// The shared routing step of the two configure handlers.
    fn apply_configure(&mut self, identity: u64, kind: WindowKind, w: u32, h: u32) -> (found: bool)
        requires
            w >= 1,
            h >= 1,
        ensures
            handled_configure(*old(self), *final(self), identity, kind, w, h, found),
    {
        let n = self.windows.len();
        let mut i: usize = 0;
        while i < n
            invariant
                i <= n,
                n == self.windows@.len(),
                *self == *old(self),
                forall|j: int| 0 <= j < i ==> !window_matches(
                    #[trigger] self.windows@[j],
                    identity,
                    kind,
                ),
            decreases n - i,
        {
            let cand = self.windows[i];
            if cand.identity == identity && cand.kind == kind {
                self.windows[i] = WaylandWindow { width: w, height: h, has_buffer: true, ..cand };
                self.input_state.set_screen_size(w, h);
                return true;
            }
            i += 1;
        }
        false
    }

    /// Translates every sub-event of a pointer frame, in batch order.
    pub fn pointer_frame(&mut self, events: &Vec<PointerEvent>)
        ensures
            final(self).input_state.events@ == old(self).input_state.events@
                + spec_pointer_batch_events(events@),
            (final(self).input_state.pointer_x, final(self).input_state.pointer_y)
                == spec_pointer_pos_batch(
                old(self).input_state.pointer_x,
                old(self).input_state.pointer_y,
                events@,
            ),
            final(self).input_state.modifiers == old(self).input_state.modifiers,
            final(self).input_state.screen_width == old(self).input_state.screen_width,
            final(self).input_state.screen_height == old(self).input_state.screen_height,
            final(self).input_state.last_key_utf8 == old(self).input_state.last_key_utf8,
            final(self).windows@ == old(self).windows@,
    {
        let n = events.len();
        let mut i: usize = 0;
        proof {
            assert(events@.subrange(0, 0) =~= Seq::<PointerEvent>::empty());
            assert(self.input_state.events@ =~= self.input_state.events@
                + spec_pointer_batch_events(events@.subrange(0, 0)));
        }
        while i < n
            invariant
                i <= n,
                n == events@.len(),
                self.input_state.events@ == old(self).input_state.events@
                    + spec_pointer_batch_events(events@.subrange(0, i as int)),
                (self.input_state.pointer_x, self.input_state.pointer_y) == spec_pointer_pos_batch(
                    old(self).input_state.pointer_x,
                    old(self).input_state.pointer_y,
                    events@.subrange(0, i as int),
                ),
                self.input_state.modifiers == old(self).input_state.modifiers,
                self.input_state.screen_width == old(self).input_state.screen_width,
                self.input_state.screen_height == old(self).input_state.screen_height,
                self.input_state.last_key_utf8 == old(self).input_state.last_key_utf8,
                self.windows@ == old(self).windows@,
            decreases n - i,
        {
            self.input_state.handle_pointer_event(&events[i]);
            proof {
                let prefix = events@.subrange(0, i as int);
                assert(events@.subrange(0, i + 1) =~= prefix.push(events@[i as int]));
                lemma_pointer_batch_push(prefix, events@[i as int]);
                lemma_pointer_pos_batch_push(
                    old(self).input_state.pointer_x,
                    old(self).input_state.pointer_y,
                    prefix,
                    events@[i as int],
                );
                assert(self.input_state.events@ =~= old(self).input_state.events@
                    + spec_pointer_batch_events(events@.subrange(0, i + 1)));
            }
            i += 1;
        }
        proof {
            assert(events@.subrange(0, n as int) =~= events@);
        }
    }

    /// Translates a key press.
    pub fn press_key(&mut self, event: &KeyEvent)
        ensures
            keyboard_step(old(self).input_state, final(self).input_state, *event, true, false),
            final(self).windows@ == old(self).windows@,
    {
        self.input_state.handle_keyboard_event(event, true, false);
    }

    /// Translates a key release.
    pub fn release_key(&mut self, event: &KeyEvent)
        ensures
            keyboard_step(old(self).input_state, final(self).input_state, *event, false, false),
            final(self).windows@ == old(self).windows@,
    {
        self.input_state.handle_keyboard_event(event, false, false);
    }

    /// Translates a key repeat.
    pub fn repeat_key(&mut self, event: &KeyEvent)
        ensures
            keyboard_step(old(self).input_state, final(self).input_state, *event, true, true),
            final(self).windows@ == old(self).windows@,
    {
        self.input_state.handle_keyboard_event(event, true, true);
    }

    /// Replaces the modifier set.
    pub fn update_modifiers(&mut self, modifiers: &RawModifiers)
        ensures
            modifiers_step(old(self).input_state, final(self).input_state, *modifiers),
            final(self).windows@ == old(self).windows@,
    {
        self.input_state.update_modifiers(modifiers);
    }
}

/// Whether a tracked window answers to this identity and kind.
pub open spec fn window_matches(w: WaylandWindow, identity: u64, kind: WindowKind) -> bool {
    w.identity == identity && w.kind == kind
}

/// Relates the application state before and after routing a configure:
/// either no tracked window matched and nothing changed, or the first
/// matching window adopted the size, gained a buffer, and the translator
/// learned the new screen size.
pub open spec fn handled_configure(
    pre: Application,
    post: Application,
    identity: u64,
    kind: WindowKind,
    w: u32,
    h: u32,
    found: bool,
) -> bool {
    &&& !found ==> {
        &&& post.windows@ == pre.windows@
        &&& post.input_state == pre.input_state
        &&& forall|j: int| 0 <= j < pre.windows@.len() ==> !window_matches(
            #[trigger] pre.windows@[j],
            identity,
            kind,
        )
    }
    &&& found ==> exists|i: int|
        #![auto]
        {
            &&& 0 <= i < pre.windows@.len()
            &&& window_matches(pre.windows@[i], identity, kind)
            &&& forall|j: int| 0 <= j < i ==> !window_matches(
                #[trigger] pre.windows@[j],
                identity,
                kind,
            )
            &&& post.windows@ == pre.windows@.update(
                i,
                WaylandWindow { width: w, height: h, has_buffer: true, ..pre.windows@[i] },
            )
            &&& post.input_state == (WaylandToIcedInput {
                screen_width: w,
                screen_height: h,
                ..pre.input_state
            })
        }
}

} // verus!
