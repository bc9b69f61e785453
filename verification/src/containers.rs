//! The capability-polymorphic surface containers.
//!
//! Four surface kinds — top-level window, layer surface, popup and
//! subsurface — share most behaviour: each owns one render surface state
//! and forwards compositor, keyboard and pointer callbacks into it.  They
//! differ in the shape of their configure payload and in their terminal
//! notification, so each kind normalizes its payload into a common
//! (width, height) pair before forwarding.  A terminal notification only
//! marks the container eligible for removal; tearing it down is the
//! registry caller's decision.

use vstd::prelude::*;

use crate::input::KeyEvent;
use crate::input::PointerEvent;
use crate::input::RawModifiers;
use crate::render::IcedAppData;
use crate::render::IcedSurfaceState;
use crate::render::configure_step;
use crate::render::fresh_surface;

verus! {

/// The closed set of surface kinds a container can wrap.
#[derive(Clone, Copy, PartialEq, Eq, Debug, Structural)]
pub enum SurfaceKind {
    Window,
    LayerSurface,
    Popup,
    Subsurface,
}

/// The default dimension adopted when a window configure leaves one
/// unspecified.
pub const DEFAULT_SURFACE_DIM: u32 = 256;

/// A window configure payload: the compositor may leave either
/// dimension unspecified.
#[derive(Clone, Copy, PartialEq, Eq, Debug, Structural)]
pub struct WindowConfigureData {
    pub width: Option<u32>,
    pub height: Option<u32>,
}

/// A layer-surface configure payload: both dimensions are mandatory.
#[derive(Clone, Copy, PartialEq, Eq, Debug, Structural)]
pub struct LayerConfigureData {
    pub width: u32,
    pub height: u32,
}

/// A popup configure payload: dimensions arrive as signed values.
#[derive(Clone, Copy, PartialEq, Eq, Debug, Structural)]
pub struct PopupConfigureData {
    pub width: i32,
    pub height: i32,
}

/// A window dimension left unspecified falls back to the default.
pub open spec fn spec_window_dim(d: Option<u32>) -> u32 {
    match d {
        Some(v) => v,
        None => DEFAULT_SURFACE_DIM,
    }
}

/// A negative popup dimension means "keep the previous size": a configure
/// is never fatal, and skipping a resize is safer than adopting garbage.
pub open spec fn spec_popup_dim(d: i32, prev: u32) -> u32 {
    if d < 0 {
        prev
    } else {
        d as u32
    }
}

/// Compositor-level notifications every container forwards.  Output
/// enter and leave carry the output's protocol identity; no container
/// kind reacts to them, but the interface delivers them uniformly.
pub trait CompositorHandlerContainer {
    fn scale_factor_changed(&mut self, new_factor: i32);

    fn frame(&mut self, time: u32);

    fn surface_enter(&mut self, output: u64);

    fn surface_leave(&mut self, output: u64);
}

/// Keyboard notifications every container forwards.
pub trait KeyboardHandlerContainer {
    fn enter(&mut self);

    fn leave(&mut self);

    fn press_key(&mut self, event: &KeyEvent);

    fn release_key(&mut self, event: &KeyEvent);

    fn update_modifiers(&mut self, modifiers: &RawModifiers);

    fn repeat_key(&mut self, event: &KeyEvent);
}

/// Pointer notifications every container forwards.
pub trait PointerHandlerContainer {
    fn pointer_frame(&mut self, event: &PointerEvent);
}

/// What every surface container offers regardless of kind, including the
/// protocol object identity the dispatch registry keys on.
pub trait BaseTrait: CompositorHandlerContainer + KeyboardHandlerContainer
    + PointerHandlerContainer {
    fn get_object_id(&self) -> u64;
}

/// The window kind's own interface: its optional-dimension configure.
pub trait WindowContainer: BaseTrait {
    fn configure(&mut self, configure: &WindowConfigureData);
}

/// The layer-surface kind's own interface: mandatory-dimension configure
/// and the `closed` terminal notification.
pub trait LayerSurfaceContainer: BaseTrait {
    fn configure(&mut self, config: &LayerConfigureData);

    fn closed(&mut self);
}

/// The popup kind's own interface: signed-dimension configure and the
/// `done` terminal notification.
pub trait PopupContainer: BaseTrait {
    fn configure(&mut self, config: &PopupConfigureData);

    fn done(&mut self);
}

/// The subsurface kind's own interface: externally driven dimensions,
/// with no native configure event.
pub trait SubsurfaceContainer: BaseTrait {
    fn configure(&mut self, width: u32, height: u32);
}

/// A top-level window surface and its render state.
pub struct IcedWindow<A: IcedAppData> {
    /// Protocol object identity; stable for the container's lifetime.
    pub identity: u64,
    pub surface: IcedSurfaceState<A>,
    /// Set by a terminal notification; the registry caller decides when
    /// to actually remove the container.
    pub removal_eligible: bool,
}

/// A layer surface and its render state.
pub struct IcedLayerSurface<A: IcedAppData> {
    pub identity: u64,
    pub surface: IcedSurfaceState<A>,
    pub removal_eligible: bool,
}

/// A transient popup surface and its render state.
pub struct IcedPopup<A: IcedAppData> {
    pub identity: u64,
    pub surface: IcedSurfaceState<A>,
    pub removal_eligible: bool,
}

/// An embedded subsurface and its render state.
pub struct IcedSubsurface<A: IcedAppData> {
    pub identity: u64,
    pub surface: IcedSurfaceState<A>,
    pub removal_eligible: bool,
}

impl<A: IcedAppData> IcedWindow<A> {
    pub fn new(identity: u64, iced_app: A, width: u32, height: u32) -> (r: IcedWindow<A>)
        ensures
            r.identity == identity,
            !r.removal_eligible,
            fresh_surface(r.surface, iced_app, width, height),
    {
        IcedWindow {
            identity,
            surface: IcedSurfaceState::new(iced_app, width, height),
            removal_eligible: false,
        }
    }

    /// Normalizes the window configure — an unspecified dimension falls
    /// back to the default — and forwards the result.
    pub fn window_configure(&mut self, configure: &WindowConfigureData)
        ensures
            configure_step(
                old(self).surface,
                final(self).surface,
                spec_window_dim(configure.width),
                spec_window_dim(configure.height),
            ),
            final(self).identity == old(self).identity,
            final(self).removal_eligible == old(self).removal_eligible,
    {
        let w = match configure.width {
            Some(v) => v,
            None => DEFAULT_SURFACE_DIM,
        };
        let h = match configure.height {
            Some(v) => v,
            None => DEFAULT_SURFACE_DIM,
        };
        self.surface.configure(w, h);
    }

    /// The compositor asked the window to close: the container becomes
    /// eligible for removal from the registry.
    pub fn request_close(&mut self)
        ensures
            final(self).removal_eligible,
            final(self).identity == old(self).identity,
            final(self).surface == old(self).surface,
    {
        self.removal_eligible = true;
    }
}

impl<A: IcedAppData> IcedLayerSurface<A> {
    pub fn new(identity: u64, iced_app: A, width: u32, height: u32) -> (r: IcedLayerSurface<A>)
        ensures
            r.identity == identity,
            !r.removal_eligible,
            fresh_surface(r.surface, iced_app, width, height),
    {
        IcedLayerSurface {
            identity,
            surface: IcedSurfaceState::new(iced_app, width, height),
            removal_eligible: false,
        }
    }

    /// Forwards the layer configure; both dimensions are mandatory in
    /// the payload and clamped to at least one downstream.
    pub fn layer_configure(&mut self, config: &LayerConfigureData)
        ensures
            configure_step(old(self).surface, final(self).surface, config.width, config.height),
            final(self).identity == old(self).identity,
            final(self).removal_eligible == old(self).removal_eligible,
    {
        self.surface.configure(config.width, config.height);
    }

    /// The compositor closed the layer surface: the container becomes
    /// eligible for removal.
    pub fn layer_closed(&mut self)
        ensures
            final(self).removal_eligible,
            final(self).identity == old(self).identity,
            final(self).surface == old(self).surface,
    {
        self.removal_eligible = true;
    }
}

impl<A: IcedAppData> IcedPopup<A> {
    pub fn new(identity: u64, iced_app: A, width: u32, height: u32) -> (r: IcedPopup<A>)
        ensures
            r.identity == identity,
            !r.removal_eligible,
            fresh_surface(r.surface, iced_app, width, height),
    {
        IcedPopup {
            identity,
            surface: IcedSurfaceState::new(iced_app, width, height),
            removal_eligible: false,
        }
    }

    /// Normalizes the popup configure — a negative dimension keeps the
    /// previous size — and forwards the result.
    pub fn popup_configure(&mut self, config: &PopupConfigureData)
        ensures
            configure_step(
                old(self).surface,
                final(self).surface,
                spec_popup_dim(config.width, old(self).surface.width),
                spec_popup_dim(config.height, old(self).surface.height),
            ),
            final(self).identity == old(self).identity,
            final(self).removal_eligible == old(self).removal_eligible,
    {
        let w: u32 = if config.width < 0 {
            self.surface.width
        } else {
            config.width as u32
        };
        let h: u32 = if config.height < 0 {
            self.surface.height
        } else {
            config.height as u32
        };
        self.surface.configure(w, h);
    }

    /// The popup was dismissed: the container becomes eligible for
    /// removal.
    pub fn popup_done(&mut self)
        ensures
            final(self).removal_eligible,
            final(self).identity == old(self).identity,
            final(self).surface == old(self).surface,
    {
        self.removal_eligible = true;
    }
}

impl<A: IcedAppData> IcedSubsurface<A> {
    pub fn new(identity: u64, iced_app: A, width: u32, height: u32) -> (r: IcedSubsurface<A>)
        ensures
            r.identity == identity,
            !r.removal_eligible,
            fresh_surface(r.surface, iced_app, width, height),
    {
        IcedSubsurface {
            identity,
            surface: IcedSurfaceState::new(iced_app, width, height),
            removal_eligible: false,
        }
    }

    /// A subsurface has no native configure event; the owning parent
    /// drives its size directly.
    pub fn subsurface_configure(&mut self, width: u32, height: u32)
        ensures
            configure_step(old(self).surface, final(self).surface, width, height),
            final(self).identity == old(self).identity,
            final(self).removal_eligible == old(self).removal_eligible,
    {
        self.surface.configure(width, height);
    }
}

impl<A: IcedAppData> CompositorHandlerContainer for IcedWindow<A> {
    fn scale_factor_changed(&mut self, new_factor: i32) {
        let _changed: bool = self.surface.scale_factor_changed(new_factor);
    }

    fn frame(&mut self, time: u32) {
        self.surface.frame(time);
    }

    fn surface_enter(&mut self, _output: u64) {
    }

    fn surface_leave(&mut self, _output: u64) {
    }
}

impl<A: IcedAppData> KeyboardHandlerContainer for IcedWindow<A> {
    fn enter(&mut self) {
        self.surface.handle_keyboard_enter();
    }

    fn leave(&mut self) {
        self.surface.handle_keyboard_leave();
    }

    fn press_key(&mut self, event: &KeyEvent) {
        self.surface.handle_keyboard_event(event, true, false);
    }

    fn release_key(&mut self, event: &KeyEvent) {
        self.surface.handle_keyboard_event(event, false, false);
    }

    fn update_modifiers(&mut self, modifiers: &RawModifiers) {
        self.surface.update_modifiers(modifiers);
    }

    fn repeat_key(&mut self, event: &KeyEvent) {
        self.surface.handle_keyboard_event(event, true, true);
    }
}

impl<A: IcedAppData> PointerHandlerContainer for IcedWindow<A> {
    fn pointer_frame(&mut self, event: &PointerEvent) {
        self.surface.handle_pointer_event(event);
    }
}

impl<A: IcedAppData> BaseTrait for IcedWindow<A> {
    fn get_object_id(&self) -> u64 {
        self.identity
    }
}

impl<A: IcedAppData> WindowContainer for IcedWindow<A> {
    fn configure(&mut self, configure: &WindowConfigureData) {
        self.window_configure(configure);
    }
}

impl<A: IcedAppData> CompositorHandlerContainer for IcedLayerSurface<A> {
    fn scale_factor_changed(&mut self, new_factor: i32) {
        let _changed: bool = self.surface.scale_factor_changed(new_factor);
    }

    fn frame(&mut self, time: u32) {
        self.surface.frame(time);
    }

    fn surface_enter(&mut self, _output: u64) {
    }

    fn surface_leave(&mut self, _output: u64) {
    }
}

impl<A: IcedAppData> KeyboardHandlerContainer for IcedLayerSurface<A> {
    fn enter(&mut self) {
        self.surface.handle_keyboard_enter();
    }

    fn leave(&mut self) {
        self.surface.handle_keyboard_leave();
    }

    fn press_key(&mut self, event: &KeyEvent) {
        self.surface.handle_keyboard_event(event, true, false);
    }

    fn release_key(&mut self, event: &KeyEvent) {
        self.surface.handle_keyboard_event(event, false, false);
    }

    fn update_modifiers(&mut self, modifiers: &RawModifiers) {
        self.surface.update_modifiers(modifiers);
    }

    fn repeat_key(&mut self, event: &KeyEvent) {
        self.surface.handle_keyboard_event(event, true, true);
    }
}

impl<A: IcedAppData> PointerHandlerContainer for IcedLayerSurface<A> {
    fn pointer_frame(&mut self, event: &PointerEvent) {
        self.surface.handle_pointer_event(event);
    }
}

impl<A: IcedAppData> BaseTrait for IcedLayerSurface<A> {
    fn get_object_id(&self) -> u64 {
        self.identity
    }
}

impl<A: IcedAppData> LayerSurfaceContainer for IcedLayerSurface<A> {
    fn configure(&mut self, config: &LayerConfigureData) {
        self.layer_configure(config);
    }

    fn closed(&mut self) {
        self.layer_closed();
    }
}

impl<A: IcedAppData> CompositorHandlerContainer for IcedPopup<A> {
    fn scale_factor_changed(&mut self, new_factor: i32) {
        let _changed: bool = self.surface.scale_factor_changed(new_factor);
    }

    fn frame(&mut self, time: u32) {
        self.surface.frame(time);
    }

    fn surface_enter(&mut self, _output: u64) {
    }

    fn surface_leave(&mut self, _output: u64) {
    }
}

impl<A: IcedAppData> KeyboardHandlerContainer for IcedPopup<A> {
    fn enter(&mut self) {
        self.surface.handle_keyboard_enter();
    }

    fn leave(&mut self) {
        self.surface.handle_keyboard_leave();
    }

    fn press_key(&mut self, event: &KeyEvent) {
        self.surface.handle_keyboard_event(event, true, false);
    }

    fn release_key(&mut self, event: &KeyEvent) {
        self.surface.handle_keyboard_event(event, false, false);
    }

    fn update_modifiers(&mut self, modifiers: &RawModifiers) {
        self.surface.update_modifiers(modifiers);
    }

    fn repeat_key(&mut self, event: &KeyEvent) {
        self.surface.handle_keyboard_event(event, true, true);
    }
}

impl<A: IcedAppData> PointerHandlerContainer for IcedPopup<A> {
    fn pointer_frame(&mut self, event: &PointerEvent) {
        self.surface.handle_pointer_event(event);
    }
}

impl<A: IcedAppData> BaseTrait for IcedPopup<A> {
    fn get_object_id(&self) -> u64 {
        self.identity
    }
}

impl<A: IcedAppData> PopupContainer for IcedPopup<A> {
    fn configure(&mut self, config: &PopupConfigureData) {
        self.popup_configure(config);
    }

    fn done(&mut self) {
        self.popup_done();
    }
}

impl<A: IcedAppData> CompositorHandlerContainer for IcedSubsurface<A> {
    fn scale_factor_changed(&mut self, new_factor: i32) {
        let _changed: bool = self.surface.scale_factor_changed(new_factor);
    }

    fn frame(&mut self, time: u32) {
        self.surface.frame(time);
    }

    fn surface_enter(&mut self, _output: u64) {
    }

    fn surface_leave(&mut self, _output: u64) {
    }
}

impl<A: IcedAppData> KeyboardHandlerContainer for IcedSubsurface<A> {
    fn enter(&mut self) {
        self.surface.handle_keyboard_enter();
    }

    fn leave(&mut self) {
        self.surface.handle_keyboard_leave();
    }

    fn press_key(&mut self, event: &KeyEvent) {
        self.surface.handle_keyboard_event(event, true, false);
    }

    fn release_key(&mut self, event: &KeyEvent) {
        self.surface.handle_keyboard_event(event, false, false);
    }

    fn update_modifiers(&mut self, modifiers: &RawModifiers) {
        self.surface.update_modifiers(modifiers);
    }

    fn repeat_key(&mut self, event: &KeyEvent) {
        self.surface.handle_keyboard_event(event, true, true);
    }
}

impl<A: IcedAppData> PointerHandlerContainer for IcedSubsurface<A> {
    fn pointer_frame(&mut self, event: &PointerEvent) {
        self.surface.handle_pointer_event(event);
    }
}

impl<A: IcedAppData> BaseTrait for IcedSubsurface<A> {
    fn get_object_id(&self) -> u64 {
        self.identity
    }
}

impl<A: IcedAppData> SubsurfaceContainer for IcedSubsurface<A> {
    fn configure(&mut self, width: u32, height: u32) {
        self.subsurface_configure(width, height);
    }
}

} // verus!
