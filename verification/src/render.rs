//! The per-surface render state and frame-pacing controller.
//!
//! Each on-screen surface owns one `IcedSurfaceState`: its input
//! translator, its application data, its logical geometry (never
//! degenerate: both dimensions are clamped to at least one), the last
//! negotiated presentation configuration, and the bookkeeping that paces
//! re-rendering.  The GPU presentation surface and the toolkit's widget
//! machinery live outside this crate; a render pass is driven through
//! three steps — `begin_frame`, `apply_update_outcome`,
//! `should_request_frame` — whose decisions are fully specified here,
//! while the shell around the crate performs the drawing they direct.

use vstd::prelude::*;

use crate::input::KeyEvent;
use crate::input::PointerEvent;
use crate::input::RawModifiers;
use crate::input::UiEvent;
use crate::input::WaylandToIcedInput;
use crate::input::keyboard_step;
use crate::input::modifiers_step;
use crate::input::pointer_step;

verus! {

/// The application data a surface renders: the UI toolkit's message type
/// and the state update applied for each message the toolkit emits.
/// Implemented by the code that uses this crate.
pub trait IcedAppData {
    type Message;

    fn update(&mut self, message: Self::Message);
}

/// The mouse-interaction value the UI toolkit reports after an update
/// pass; it drives the cursor shape shown over the surface.
#[derive(Clone, Copy, PartialEq, Eq, Debug, Structural)]
pub enum MouseInteraction {
    Idle,
    Pointer,
    Grab,
    Grabbing,
    Crosshair,
    Text,
    NotAllowed,
    ZoomIn,
    ZoomOut,
    Cell,
    Move,
    Copy,
    NoDrop,
    Alias,
    ContextMenu,
    Help,
    AllScroll,
    Progress,
    Wait,
    ResizingHorizontally,
    ResizingVertically,
    Hidden,
    ResizingDiagonallyUp,
    ResizingDiagonallyDown,
    ResizingColumn,
    ResizingRow,
}

/// The cursor shapes the compositor's cursor-shape protocol understands.
#[derive(Clone, Copy, PartialEq, Eq, Debug, Structural)]
pub enum CursorShape {
    Default,
    Pointer,
    Grab,
    Grabbing,
    Crosshair,
    Text,
    NotAllowed,
    ZoomIn,
    ZoomOut,
    Cell,
    Move,
    Copy,
    NoDrop,
    Alias,
    ContextMenu,
    Help,
    AllScroll,
    Progress,
    Wait,
    EwResize,
    NsResize,
    NeswResize,
    NwseResize,
    ColResize,
    RowResize,
}

/// The cursor shape requested for each mouse-interaction value.  Hidden
/// has no shape of its own and falls back to the default.
pub open spec fn spec_cursor_shape(interaction: MouseInteraction) -> CursorShape {
    match interaction {
        MouseInteraction::Idle => CursorShape::Default,
        MouseInteraction::Pointer => CursorShape::Pointer,
        MouseInteraction::Grab => CursorShape::Grab,
        MouseInteraction::Grabbing => CursorShape::Grabbing,
        MouseInteraction::Crosshair => CursorShape::Crosshair,
        MouseInteraction::Text => CursorShape::Text,
        MouseInteraction::NotAllowed => CursorShape::NotAllowed,
        MouseInteraction::ZoomIn => CursorShape::ZoomIn,
        MouseInteraction::ZoomOut => CursorShape::ZoomOut,
        MouseInteraction::Cell => CursorShape::Cell,
        MouseInteraction::Move => CursorShape::Move,
        MouseInteraction::Copy => CursorShape::Copy,
        MouseInteraction::NoDrop => CursorShape::NoDrop,
        MouseInteraction::Alias => CursorShape::Alias,
        MouseInteraction::ContextMenu => CursorShape::ContextMenu,
        MouseInteraction::Help => CursorShape::Help,
        MouseInteraction::AllScroll => CursorShape::AllScroll,
        MouseInteraction::Progress => CursorShape::Progress,
        MouseInteraction::Wait => CursorShape::Wait,
        MouseInteraction::ResizingHorizontally => CursorShape::EwResize,
        MouseInteraction::ResizingVertically => CursorShape::NsResize,
        MouseInteraction::Hidden => CursorShape::Default,
        MouseInteraction::ResizingDiagonallyUp => CursorShape::NeswResize,
        MouseInteraction::ResizingDiagonallyDown => CursorShape::NwseResize,
        MouseInteraction::ResizingColumn => CursorShape::ColResize,
        MouseInteraction::ResizingRow => CursorShape::RowResize,
    }
}

/// Maps the toolkit's mouse-interaction value to the cursor shape
/// requested from the compositor.
pub fn iced_to_cursor_shape(interaction: MouseInteraction) -> (r: CursorShape)
    ensures
        r == spec_cursor_shape(interaction),
{
    match interaction {
        MouseInteraction::Idle => CursorShape::Default,
        MouseInteraction::Pointer => CursorShape::Pointer,
        MouseInteraction::Grab => CursorShape::Grab,
        MouseInteraction::Grabbing => CursorShape::Grabbing,
        MouseInteraction::Crosshair => CursorShape::Crosshair,
        MouseInteraction::Text => CursorShape::Text,
        MouseInteraction::NotAllowed => CursorShape::NotAllowed,
        MouseInteraction::ZoomIn => CursorShape::ZoomIn,
        MouseInteraction::ZoomOut => CursorShape::ZoomOut,
        MouseInteraction::Cell => CursorShape::Cell,
        MouseInteraction::Move => CursorShape::Move,
        MouseInteraction::Copy => CursorShape::Copy,
        MouseInteraction::NoDrop => CursorShape::NoDrop,
        MouseInteraction::Alias => CursorShape::Alias,
        MouseInteraction::ContextMenu => CursorShape::ContextMenu,
        MouseInteraction::Help => CursorShape::Help,
        MouseInteraction::AllScroll => CursorShape::AllScroll,
        MouseInteraction::Progress => CursorShape::Progress,
        MouseInteraction::Wait => CursorShape::Wait,
        MouseInteraction::ResizingHorizontally => CursorShape::EwResize,
        MouseInteraction::ResizingVertically => CursorShape::NsResize,
        MouseInteraction::Hidden => CursorShape::Default,
        MouseInteraction::ResizingDiagonallyUp => CursorShape::NeswResize,
        MouseInteraction::ResizingDiagonallyDown => CursorShape::NwseResize,
        MouseInteraction::ResizingColumn => CursorShape::ColResize,
        MouseInteraction::ResizingRow => CursorShape::RowResize,
    }
}

/// The last presentation configuration negotiated with the GPU surface,
/// in physical pixels.
#[derive(Clone, Copy, PartialEq, Eq, Debug, Structural)]
pub struct SurfaceConfig {
    pub width: u32,
    pub height: u32,
}

/// What the shell must do after an update pass: rebuild the widget tree
/// before drawing when messages changed the application state, and
/// request a new cursor shape exactly when the interaction changed.
#[derive(Clone, Copy, PartialEq, Eq, Debug, Structural)]
pub struct FrameDirectives {
    pub rebuild: bool,
    pub cursor_change: Option<CursorShape>,
}

/// Multiplication that sticks at the largest representable value instead
/// of wrapping.
pub open spec fn spec_sat_mul_u32(a: u32, b: u32) -> u32 {
    if a as int * b as int > u32::MAX as int {
        u32::MAX
    } else {
        (a as int * b as int) as u32
    }
}

fn sat_mul_u32(a: u32, b: u32) -> (r: u32)
    ensures
        r == spec_sat_mul_u32(a, b),
{
    proof {
        assert((a as int) * (b as int) <= (u32::MAX as int) * (u32::MAX as int)) by (nonlinear_arith)
            requires
                a <= u32::MAX,
                b <= u32::MAX,
        ;
    }
    let p: u64 = (a as u64) * (b as u64);
    if p > (u32::MAX as u64) {
        u32::MAX
    } else {
        p as u32
    }
}

/// The buffer scale actually applied: scale factors below one are
/// clamped to one.
pub open spec fn spec_physical_scale(scale_factor: i32) -> u32 {
    if scale_factor >= 1 {
        scale_factor as u32
    } else {
        1
    }
}

/// The physical-pixel presentation configuration for a logical size and
/// scale factor: logical size times scale, saturating, and never zero.
pub open spec fn spec_physical_config(width: u32, height: u32, scale_factor: i32) -> SurfaceConfig {
    let s = spec_physical_scale(scale_factor);
    SurfaceConfig {
        width: if spec_sat_mul_u32(width, s) == 0 {
            1u32
        } else {
            spec_sat_mul_u32(width, s)
        },
        height: if spec_sat_mul_u32(height, s) == 0 {
            1u32
        } else {
            spec_sat_mul_u32(height, s)
        },
    }
}

/// A dimension clamped to at least one logical unit.
pub open spec fn spec_clamp_dim(v: u32) -> u32 {
    if v == 0 {
        1u32
    } else {
        v
    }
}

/// The ghost model of a surface's render state, carrying exactly what the
/// pacing laws speak about.
pub struct SurfaceModel {
    pub queue: Seq<UiEvent>,
    pub width: u32,
    pub height: u32,
    pub scale_factor: i32,
    pub surface_config: Option<SurfaceConfig>,
    pub mouse_interaction: MouseInteraction,
    pub had_input: bool,
}

/// What a configure does to the model: both dimensions clamped to at
/// least one, the presentation configuration renegotiated, and — key to
/// the pacing laws — the input queue untouched.
pub open spec fn spec_configure_model(pre: SurfaceModel, width: u32, height: u32) -> SurfaceModel {
    SurfaceModel {
        width: spec_clamp_dim(width),
        height: spec_clamp_dim(height),
        surface_config: Some(
            spec_physical_config(spec_clamp_dim(width), spec_clamp_dim(height), pre.scale_factor),
        ),
        ..pre
    }
}

/// What draining the queue at the start of a render pass does to the
/// model: the queue empties and `had_input` records whether it held
/// anything.
pub open spec fn spec_begin_frame_model(pre: SurfaceModel) -> SurfaceModel {
    SurfaceModel { queue: Seq::empty(), had_input: pre.queue.len() > 0, ..pre }
}

/// Owns everything one surface needs to render: translator, application
/// data, geometry and pacing state.  The invariant that width and height
/// are at least one is established by `new` and preserved by every
/// method.
pub struct IcedSurfaceState<A: IcedAppData> {
    pub input_state: WaylandToIcedInput,
    pub iced_app: A,
    /// Logical size; never zero in either dimension.
    pub width: u32,
    pub height: u32,
    /// Integer buffer scale; at least one.
    pub scale_factor: i32,
    /// Absent until the first configure negotiates one.
    pub surface_config: Option<SurfaceConfig>,
    /// The interaction last reported by the toolkit, for cursor-shape
    /// feedback emitted once per change.
    pub mouse_interaction: MouseInteraction,
    /// Whether the queue drained by the current render pass held input;
    /// decides whether the pass requests the next frame callback.
    pub had_input: bool,
}

/// The geometry invariant every method preserves.
pub open spec fn surface_wf<A: IcedAppData>(s: IcedSurfaceState<A>) -> bool {
    s.width >= 1 && s.height >= 1 && s.scale_factor >= 1
}

/// Relates a surface state before and after adopting a new logical
/// size: both dimensions clamped to at least one, the translator told
/// the new screen size, the presentation configuration renegotiated,
/// and everything else — the input queue above all — untouched.
pub open spec fn configure_step<A: IcedAppData>(
    pre: IcedSurfaceState<A>,
    post: IcedSurfaceState<A>,
    width: u32,
    height: u32,
) -> bool {
    &&& post.width == spec_clamp_dim(width)
    &&& post.height == spec_clamp_dim(height)
    &&& post.input_state == (WaylandToIcedInput {
        screen_width: spec_clamp_dim(width),
        screen_height: spec_clamp_dim(height),
        ..pre.input_state
    })
    &&& post.model() == spec_configure_model(pre.model(), width, height)
    &&& post.iced_app == pre.iced_app
    &&& post.scale_factor == pre.scale_factor
    &&& post.mouse_interaction == pre.mouse_interaction
    &&& post.had_input == pre.had_input
}

/// Relates a surface state before and after a scale-factor change:
/// an unchanged (clamped) scale is a no-op, a changed one renegotiates
/// the presentation configuration.
pub open spec fn scale_step<A: IcedAppData>(
    pre: IcedSurfaceState<A>,
    post: IcedSurfaceState<A>,
    new_factor: i32,
    changed: bool,
) -> bool {
    &&& changed == (spec_physical_scale(new_factor) as i32 != pre.scale_factor)
    &&& !changed ==> post == pre
    &&& changed ==> post == (IcedSurfaceState {
        scale_factor: spec_physical_scale(new_factor) as i32,
        surface_config: Some(
            spec_physical_config(pre.width, pre.height, spec_physical_scale(new_factor) as i32),
        ),
        ..pre
    })
}

/// A freshly constructed surface state around the given application
/// data.
pub open spec fn fresh_surface<A: IcedAppData>(
    s: IcedSurfaceState<A>,
    app: A,
    width: u32,
    height: u32,
) -> bool {
    &&& s.iced_app == app
    &&& s.width == spec_clamp_dim(width)
    &&& s.height == spec_clamp_dim(height)
    &&& s.scale_factor == 1
    &&& s.surface_config is None
    &&& s.mouse_interaction == MouseInteraction::Idle
    &&& s.had_input == false
    &&& crate::input::fresh_translator(s.input_state)
}

/// The fields a pure input-forwarding method leaves untouched.
pub open spec fn same_but_input<A: IcedAppData>(
    pre: IcedSurfaceState<A>,
    post: IcedSurfaceState<A>,
) -> bool {
    &&& post.iced_app == pre.iced_app
    &&& post.width == pre.width
    &&& post.height == pre.height
    &&& post.scale_factor == pre.scale_factor
    &&& post.surface_config == pre.surface_config
    &&& post.mouse_interaction == pre.mouse_interaction
    &&& post.had_input == pre.had_input
}

impl<A: IcedAppData> IcedSurfaceState<A> {
    /// The ghost model this state projects to.
    pub open spec fn model(self) -> SurfaceModel {
        SurfaceModel {
            queue: self.input_state.events@,
            width: self.width,
            height: self.height,
            scale_factor: self.scale_factor,
            surface_config: self.surface_config,
            mouse_interaction: self.mouse_interaction,
            had_input: self.had_input,
        }
    }

    /// A fresh surface state around the given application data: a fresh
    /// translator, the requested logical size clamped to at least one,
    /// scale one, and no presentation configuration yet.
    pub fn new(iced_app: A, width: u32, height: u32) -> (r: IcedSurfaceState<A>)
        ensures
            fresh_surface(r, iced_app, width, height),
            surface_wf(r),
    {
        IcedSurfaceState {
            input_state: WaylandToIcedInput::new(),
            iced_app,
            width: if width == 0 {
                1
            } else {
                width
            },
            height: if height == 0 {
                1
            } else {
                height
            },
            scale_factor: 1,
            surface_config: None,
            mouse_interaction: MouseInteraction::Idle,
            had_input: false,
        }
    }

    /// Renegotiates the presentation configuration from the current
    /// logical size and scale.
    fn reconfigure_surface(&mut self)
        ensures
            *final(self) == (IcedSurfaceState {
                surface_config: Some(
                    spec_physical_config(
                        old(self).width,
                        old(self).height,
                        old(self).scale_factor,
                    ),
                ),
                ..(*old(self))
            }),
    {
        let s = self.physical_scale();
        let w = sat_mul_u32(self.width, s);
        let h = sat_mul_u32(self.height, s);
        self.surface_config = Some(
            SurfaceConfig {
                width: if w == 0 {
                    1
                } else {
                    w
                },
                height: if h == 0 {
                    1
                } else {
                    h
                },
            },
        );
    }

    /// The buffer scale actually applied; never below one.
    pub fn physical_scale(&self) -> (r: u32)
        ensures
            r == spec_physical_scale(self.scale_factor),
    {
        if self.scale_factor >= 1 {
            self.scale_factor as u32
        } else {
            1
        }
    }

    /// Adopts a new logical size: both dimensions clamped to at least
    /// one, the translator told the new screen size, and the
    /// presentation configuration renegotiated.  The shell renders once
    /// immediately after, so the first frame appears without waiting for
    /// a separate frame grant.  The input queue is untouched.
    pub fn configure(&mut self, width: u32, height: u32)
        ensures
            configure_step(*old(self), *final(self), width, height),
            final(self).width >= 1 && final(self).height >= 1,
    {
        self.width = if width == 0 {
            1
        } else {
            width
        };
        self.height = if height == 0 {
            1
        } else {
            height
        };
        let w = self.width;
        let h = self.height;
        self.input_state.set_screen_size(w, h);
        self.reconfigure_surface();
    }

    /// Adopts a new buffer scale, clamped to at least one.  Returns
    /// whether anything changed: when it did, the presentation
    /// configuration was renegotiated and the shell must re-render; an
    /// unchanged scale is a no-op.
    pub fn scale_factor_changed(&mut self, new_factor: i32) -> (changed: bool)
        ensures
            scale_step(*old(self), *final(self), new_factor, changed),
    {
        let factor: i32 = if new_factor >= 1 {
            new_factor
        } else {
            1
        };
        if factor == self.scale_factor {
            return false;
        }
        self.scale_factor = factor;
        self.reconfigure_surface();
        true
    }

    /// The compositor granted a frame: the shell runs a render pass.
    /// Nothing in this state changes; pacing is decided by the pass
    /// itself.
    pub fn frame(&mut self, _time: u32)
        ensures
            *final(self) == *old(self),
    {
    }

    /// Starts a render pass: drains the pending input queue, records
    /// whether it held anything (this decides re-arming), and appends the
    /// redraw-requested marker so widgets can refresh their status.
    pub fn begin_frame(&mut self) -> (r: Vec<UiEvent>)
        ensures
            r@ == old(self).input_state.events@.push(UiEvent::RedrawRequested),
            final(self).model() == spec_begin_frame_model(old(self).model()),
            final(self).input_state == (WaylandToIcedInput {
                events: final(self).input_state.events,
                ..old(self).input_state
            }),
            final(self).input_state.events@ =~= Seq::<UiEvent>::empty(),
            final(self).iced_app == old(self).iced_app,
    {
        let mut events = self.input_state.take_events();
        self.had_input = events.len() > 0;
        events.push(UiEvent::RedrawRequested);
        events
    }

    /// Finishes the update step of a render pass.  Applies every toolkit
    /// message to the application state in order; directs the shell to
    /// rebuild the widget tree before drawing exactly when there were
    /// messages, so the frame reflects the latest application state; and
    /// reports a cursor-shape request exactly when the reported
    /// interaction differs from the last one.
    pub fn apply_update_outcome(
        &mut self,
        messages: Vec<A::Message>,
        interaction: MouseInteraction,
    ) -> (r: FrameDirectives)
        ensures
            r.rebuild == (messages@.len() > 0),
            r.cursor_change == (if interaction == old(self).mouse_interaction {
                None::<CursorShape>
            } else {
                Some(spec_cursor_shape(interaction))
            }),
            final(self).mouse_interaction == interaction,
            final(self).input_state == old(self).input_state,
            final(self).width == old(self).width,
            final(self).height == old(self).height,
            final(self).scale_factor == old(self).scale_factor,
            final(self).surface_config == old(self).surface_config,
            final(self).had_input == old(self).had_input,
    {
        let rebuild = messages.len() > 0;
        let cursor_change: Option<CursorShape> = if self.mouse_interaction != interaction {
            self.mouse_interaction = interaction;
            Some(iced_to_cursor_shape(interaction))
        } else {
            None
        };
        let mut ms = messages;
        while ms.len() > 0
            invariant
                self.mouse_interaction == interaction,
                self.input_state == old(self).input_state,
                self.width == old(self).width,
                self.height == old(self).height,
                self.scale_factor == old(self).scale_factor,
                self.surface_config == old(self).surface_config,
                self.had_input == old(self).had_input,
            decreases ms@.len(),
        {
            let m = ms.remove(0);
            self.iced_app.update(m);
        }
        FrameDirectives { rebuild, cursor_change }
    }

    /// Ends a render pass: the next frame callback is requested exactly
    /// when the queue drained by this pass held input, so a redraw not
    /// caused by input does not perpetuate itself.
    pub fn should_request_frame(&self) -> (rearm: bool)
        ensures
            rearm == self.had_input,
            rearm == self.model().had_input,
    {
        self.had_input
    }

    /// Forwards one pointer sub-event to the translator; the shell then
    /// runs a render pass.
    pub fn handle_pointer_event(&mut self, event: &PointerEvent)
        ensures
            pointer_step(old(self).input_state, final(self).input_state, *event),
            same_but_input(*old(self), *final(self)),
    {
        self.input_state.handle_pointer_event(event);
    }

    /// Keyboard focus entered the surface; the translator keeps no focus
    /// state, so only a render pass follows.
    pub fn handle_keyboard_enter(&mut self)
        ensures
            *final(self) == *old(self),
    {
        self.input_state.handle_keyboard_enter();
    }

    /// Keyboard focus left the surface; as for `handle_keyboard_enter`.
    pub fn handle_keyboard_leave(&mut self)
        ensures
            *final(self) == *old(self),
    {
        self.input_state.handle_keyboard_leave();
    }

    /// Forwards one keyboard press, repeat or release to the translator;
    /// the shell then runs a render pass.
    pub fn handle_keyboard_event(&mut self, event: &KeyEvent, pressed: bool, is_repeat: bool)
        ensures
            keyboard_step(old(self).input_state, final(self).input_state, *event, pressed, is_repeat),
            same_but_input(*old(self), *final(self)),
    {
        self.input_state.handle_keyboard_event(event, pressed, is_repeat);
    }

    /// Replaces the modifier set from the protocol's flags; the shell
    /// then runs a render pass.
    pub fn update_modifiers(&mut self, modifiers: &RawModifiers)
        ensures
            modifiers_step(old(self).input_state, final(self).input_state, *modifiers),
            same_but_input(*old(self), *final(self)),
    {
        self.input_state.update_modifiers(modifiers);
    }
}

/// Idle re-arm: a render pass that follows a configure does not request
/// the next frame callback unless input was already queued, and a pass
/// whose drained queue was non-empty always does.  A configure never
/// queues input, so configure-driven redraws do not self-perpetuate.
pub proof fn lemma_idle_rearm(pre: SurfaceModel, width: u32, height: u32)
    ensures
        spec_begin_frame_model(spec_configure_model(pre, width, height)).had_input == (
        pre.queue.len() > 0),
        spec_begin_frame_model(pre).had_input == (pre.queue.len() > 0),
{
}

/// Configure idempotence: re-applying a configure with the same payload
/// leaves the state exactly where the first application put it, so
/// repeated identical configures cannot corrupt the negotiated
/// presentation configuration.
pub proof fn lemma_configure_idempotent(pre: SurfaceModel, width: u32, height: u32)
    ensures
        spec_configure_model(spec_configure_model(pre, width, height), width, height)
            == spec_configure_model(pre, width, height),
{
}

/// Configure clamps: whatever the compositor sent, the adopted size is
/// at least one in both dimensions, and so is the physical size handed
/// to the presentation surface.
pub proof fn lemma_configure_clamps(pre: SurfaceModel, width: u32, height: u32)
    ensures
        spec_configure_model(pre, width, height).width >= 1,
        spec_configure_model(pre, width, height).height >= 1,
        spec_configure_model(pre, width, height).surface_config matches Some(c) ==> c.width >= 1
            && c.height >= 1,
{
}

} // verus!
