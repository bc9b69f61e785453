//! The dispatch registry: the outermost component.
//!
//! It owns every surface container the process has, in insertion order,
//! keyed by protocol object identity, and routes each incoming protocol
//! callback to the matching container.  An event whose identity matches
//! no container is a no-op, never an error: the surface was already
//! destroyed or the event raced with removal.  Removal through the
//! registry is the only path that drops a container.

use vstd::prelude::*;

use crate::containers::IcedLayerSurface;
use crate::containers::IcedPopup;
use crate::containers::IcedSubsurface;
use crate::containers::IcedWindow;
use crate::containers::LayerConfigureData;
use crate::containers::PopupConfigureData;
use crate::containers::SurfaceKind;
use crate::containers::WindowConfigureData;
use crate::containers::spec_popup_dim;
use crate::containers::spec_window_dim;
use crate::input::KeyEvent;
use crate::input::PointerEvent;
use crate::input::RawModifiers;
use crate::input::UiEvent;
use crate::input::keyboard_step;
use crate::input::modifiers_step;
use crate::input::pointer_step;
use crate::render::FrameDirectives;
use crate::render::IcedAppData;
use crate::render::IcedSurfaceState;
use crate::render::MouseInteraction;
use crate::render::configure_step;
use crate::render::same_but_input;
use crate::render::scale_step;
use crate::render::spec_begin_frame_model;
use crate::render::spec_cursor_shape;

verus! {

/// One registered container: exactly one of the four surface kinds.
pub enum ContainerEntry<A: IcedAppData> {
    Window(IcedWindow<A>),
    LayerSurface(IcedLayerSurface<A>),
    Popup(IcedPopup<A>),
    Subsurface(IcedSubsurface<A>),
}

impl<A: IcedAppData> ContainerEntry<A> {
    /// Which of the four kinds this entry wraps.
    pub open spec fn spec_kind(self) -> SurfaceKind {
        match self {
            ContainerEntry::Window(_) => SurfaceKind::Window,
            ContainerEntry::LayerSurface(_) => SurfaceKind::LayerSurface,
            ContainerEntry::Popup(_) => SurfaceKind::Popup,
            ContainerEntry::Subsurface(_) => SurfaceKind::Subsurface,
        }
    }

    /// The protocol object identity the registry keys on.
    pub open spec fn spec_identity(self) -> u64 {
        match self {
            ContainerEntry::Window(c) => c.identity,
            ContainerEntry::LayerSurface(c) => c.identity,
            ContainerEntry::Popup(c) => c.identity,
            ContainerEntry::Subsurface(c) => c.identity,
        }
    }

    /// The render surface state the entry owns, whatever its kind.
    pub open spec fn spec_surface(self) -> IcedSurfaceState<A> {
        match self {
            ContainerEntry::Window(c) => c.surface,
            ContainerEntry::LayerSurface(c) => c.surface,
            ContainerEntry::Popup(c) => c.surface,
            ContainerEntry::Subsurface(c) => c.surface,
        }
    }

    /// Whether a terminal notification has marked the entry for removal.
    pub open spec fn spec_removal_eligible(self) -> bool {
        match self {
            ContainerEntry::Window(c) => c.removal_eligible,
            ContainerEntry::LayerSurface(c) => c.removal_eligible,
            ContainerEntry::Popup(c) => c.removal_eligible,
            ContainerEntry::Subsurface(c) => c.removal_eligible,
        }
    }

    pub fn identity(&self) -> (r: u64)
        ensures
            r == self.spec_identity(),
    {
        match self {
            ContainerEntry::Window(c) => c.identity,
            ContainerEntry::LayerSurface(c) => c.identity,
            ContainerEntry::Popup(c) => c.identity,
            ContainerEntry::Subsurface(c) => c.identity,
        }
    }

    pub fn kind(&self) -> (r: SurfaceKind)
        ensures
            r == self.spec_kind(),
    {
        match self {
            ContainerEntry::Window(_) => SurfaceKind::Window,
            ContainerEntry::LayerSurface(_) => SurfaceKind::LayerSurface,
            ContainerEntry::Popup(_) => SurfaceKind::Popup,
            ContainerEntry::Subsurface(_) => SurfaceKind::Subsurface,
        }
    }

    pub fn removal_eligible(&self) -> (r: bool)
        ensures
            r == self.spec_removal_eligible(),
    {
        match self {
            ContainerEntry::Window(c) => c.removal_eligible,
            ContainerEntry::LayerSurface(c) => c.removal_eligible,
            ContainerEntry::Popup(c) => c.removal_eligible,
            ContainerEntry::Subsurface(c) => c.removal_eligible,
        }
    }
}

/// Kind, identity and removal flag survive every forwarded event.
pub open spec fn entry_frame_kept<A: IcedAppData>(
    pre: ContainerEntry<A>,
    post: ContainerEntry<A>,
) -> bool {
    &&& post.spec_kind() == pre.spec_kind()
    &&& post.spec_identity() == pre.spec_identity()
    &&& post.spec_removal_eligible() == pre.spec_removal_eligible()
}

/// A keyboard event forwarded into an entry's translator.
pub open spec fn entry_keyboard_step<A: IcedAppData>(
    pre: ContainerEntry<A>,
    post: ContainerEntry<A>,
    ev: KeyEvent,
    pressed: bool,
    is_repeat: bool,
) -> bool {
    &&& entry_frame_kept(pre, post)
    &&& keyboard_step(
        pre.spec_surface().input_state,
        post.spec_surface().input_state,
        ev,
        pressed,
        is_repeat,
    )
    &&& same_but_input(pre.spec_surface(), post.spec_surface())
}

/// A pointer sub-event forwarded into an entry's translator.
pub open spec fn entry_pointer_step<A: IcedAppData>(
    pre: ContainerEntry<A>,
    post: ContainerEntry<A>,
    ev: PointerEvent,
) -> bool {
    &&& entry_frame_kept(pre, post)
    &&& pointer_step(pre.spec_surface().input_state, post.spec_surface().input_state, ev)
    &&& same_but_input(pre.spec_surface(), post.spec_surface())
}

/// A modifier event forwarded into an entry's translator.
pub open spec fn entry_modifiers_step<A: IcedAppData>(
    pre: ContainerEntry<A>,
    post: ContainerEntry<A>,
    raw: RawModifiers,
) -> bool {
    &&& entry_frame_kept(pre, post)
    &&& modifiers_step(pre.spec_surface().input_state, post.spec_surface().input_state, raw)
    &&& same_but_input(pre.spec_surface(), post.spec_surface())
}

/// A terminal notification: the entry is marked eligible for removal
/// and its surface state is untouched.
pub open spec fn entry_marked_removable<A: IcedAppData>(
    pre: ContainerEntry<A>,
    post: ContainerEntry<A>,
) -> bool {
    &&& post.spec_kind() == pre.spec_kind()
    &&& post.spec_identity() == pre.spec_identity()
    &&& post.spec_surface() == pre.spec_surface()
    &&& post.spec_removal_eligible()
}

/// A scale-factor change forwarded into an entry's surface.
pub open spec fn entry_scale_step<A: IcedAppData>(
    pre: ContainerEntry<A>,
    post: ContainerEntry<A>,
    new_factor: i32,
    changed: bool,
) -> bool {
    &&& entry_frame_kept(pre, post)
    &&& scale_step(pre.spec_surface(), post.spec_surface(), new_factor, changed)
}

/// The start of a render pass forwarded into an entry's surface: the
/// queue drains and the re-arm flag records whether it held anything.
pub open spec fn entry_begin_frame_step<A: IcedAppData>(
    pre: ContainerEntry<A>,
    post: ContainerEntry<A>,
) -> bool {
    &&& entry_frame_kept(pre, post)
    &&& post.spec_surface().model() == spec_begin_frame_model(pre.spec_surface().model())
    &&& post.spec_surface().iced_app == pre.spec_surface().iced_app
    &&& post.spec_surface().input_state.events@ =~= Seq::<UiEvent>::empty()
    &&& post.spec_surface().input_state.modifiers == pre.spec_surface().input_state.modifiers
    &&& post.spec_surface().input_state.pointer_x == pre.spec_surface().input_state.pointer_x
    &&& post.spec_surface().input_state.pointer_y == pre.spec_surface().input_state.pointer_y
    &&& post.spec_surface().input_state.screen_width == pre.spec_surface().input_state.screen_width
    &&& post.spec_surface().input_state.screen_height
        == pre.spec_surface().input_state.screen_height
    &&& post.spec_surface().input_state.last_key_utf8
        == pre.spec_surface().input_state.last_key_utf8
}

/// The update step of a render pass forwarded into an entry's surface:
/// only the application data and the remembered mouse interaction move.
pub open spec fn entry_update_step<A: IcedAppData>(
    pre: ContainerEntry<A>,
    post: ContainerEntry<A>,
    interaction: MouseInteraction,
) -> bool {
    &&& entry_frame_kept(pre, post)
    &&& post.spec_surface().mouse_interaction == interaction
    &&& post.spec_surface().input_state == pre.spec_surface().input_state
    &&& post.spec_surface().width == pre.spec_surface().width
    &&& post.spec_surface().height == pre.spec_surface().height
    &&& post.spec_surface().scale_factor == pre.spec_surface().scale_factor
    &&& post.spec_surface().surface_config == pre.spec_surface().surface_config
    &&& post.spec_surface().had_input == pre.spec_surface().had_input
}

/// A configure forwarded into an entry's surface with the given
/// normalized dimensions.
pub open spec fn entry_configure_step<A: IcedAppData>(
    pre: ContainerEntry<A>,
    post: ContainerEntry<A>,
    width: u32,
    height: u32,
) -> bool {
    &&& entry_frame_kept(pre, post)
    &&& configure_step(pre.spec_surface(), post.spec_surface(), width, height)
}

/// No two entries share an identity.
pub open spec fn ids_distinct<A: IcedAppData>(s: Seq<ContainerEntry<A>>) -> bool {
    forall|i: int, j: int|
        0 <= i < j < s.len() ==> #[trigger] s[i].spec_identity() != #[trigger] s[j].spec_identity()
}

proof fn lemma_ids_distinct_update<A: IcedAppData>(
    pre: Seq<ContainerEntry<A>>,
    post: Seq<ContainerEntry<A>>,
)
    requires
        ids_distinct(pre),
        post.len() == pre.len(),
        forall|k: int| 0 <= k < pre.len() ==> #[trigger] post[k].spec_identity()
            == pre[k].spec_identity(),
    ensures
        ids_distinct(post),
{
}

/// Owns the insertion-ordered collection of surface containers, keyed by
/// protocol object identity.  At most one container per identity.
pub struct DispatchRegistry<A: IcedAppData> {
    pub entries: Vec<ContainerEntry<A>>,
}

impl<A: IcedAppData> DispatchRegistry<A> {
    /// The registry invariant: identities are unique.
    pub open spec fn wf(self) -> bool {
        ids_distinct(self.entries@)
    }

    /// Whether some entry carries this identity.
    pub open spec fn spec_contains(self, identity: u64) -> bool {
        exists|i: int|
            0 <= i < self.entries@.len() && #[trigger] self.entries@[i].spec_identity() == identity
    }

    pub fn new() -> (r: DispatchRegistry<A>)
        ensures
            r.entries@.len() == 0,
            r.wf(),
    {
        DispatchRegistry { entries: Vec::new() }
    }

    pub fn len(&self) -> (r: usize)
        ensures
            r == self.entries@.len(),
    {
        self.entries.len()
    }

    /// The index of the entry carrying this identity, if any.  With the
    /// registry invariant that index is unique.
    fn position(&self, identity: u64) -> (r: Option<usize>)
        ensures
            match r {
                Some(i) => i < self.entries@.len() && self.entries@[i as int].spec_identity()
                    == identity && self.spec_contains(identity),
                None => !self.spec_contains(identity),
            },
    {
        let n = self.entries.len();
        let mut i: usize = 0;
        while i < n
            invariant
                i <= n,
                n == self.entries@.len(),
                forall|j: int| 0 <= j < i ==> #[trigger] self.entries@[j].spec_identity()
                    != identity,
            decreases n - i,
        {
            if self.entries[i].identity() == identity {
                return Some(i);
            }
            i += 1;
        }
        None
    }

    pub fn contains(&self, identity: u64) -> (r: bool)
        ensures
            r == self.spec_contains(identity),
    {
        self.position(identity).is_some()
    }

    /// Appends a container.  A second container under an already
    /// registered identity is refused, keeping the registry's one
    /// container per identity.
    pub fn register(&mut self, container: ContainerEntry<A>) -> (r: bool)
        requires
            old(self).wf(),
        ensures
            final(self).wf(),
            r == !old(self).spec_contains(container.spec_identity()),
            !r ==> final(self).entries@ == old(self).entries@,
            r ==> final(self).entries@ == old(self).entries@.push(container),
    {
        let id = container.identity();
        if self.position(id).is_some() {
            return false;
        }
        self.entries.push(container);
        proof {
            assert forall|i: int, j: int|
                0 <= i < j < self.entries@.len() implies #[trigger] self.entries@[
                i
            ].spec_identity() != #[trigger] self.entries@[j].spec_identity() by {
                if j + 1 < self.entries@.len() {
                    assert(old(self).entries@[i].spec_identity() != old(self).entries@[j].spec_identity());
                }
            }
        }
        true
    }

    /// Detaches and drops the container carrying this identity, keeping
    /// the order of the others.  Removing an unknown identity is a no-op.
    pub fn remove(&mut self, identity: u64) -> (r: bool)
        requires
            old(self).wf(),
        ensures
            final(self).wf(),
            r == old(self).spec_contains(identity),
            !r ==> final(self).entries@ == old(self).entries@,
            r ==> exists|i: int|
                #![auto]
                0 <= i < old(self).entries@.len() && old(self).entries@[i].spec_identity()
                    == identity && final(self).entries@ == old(self).entries@.remove(i),
    {
        match self.position(identity) {
            Some(i) => {
                let _removed: ContainerEntry<A> = self.entries.remove(i);
                proof {
                    assert forall|p: int, q: int|
                        0 <= p < q < self.entries@.len() implies #[trigger] self.entries@[
                        p
                    ].spec_identity() != #[trigger] self.entries@[q].spec_identity() by {
                        let p0 = if p < i { p } else { p + 1 };
                        let q0 = if q < i { q } else { q + 1 };
                        assert(self.entries@[p] == old(self).entries@[p0]);
                        assert(self.entries@[q] == old(self).entries@[q0]);
                        assert(old(self).entries@[p0].spec_identity() != old(self).entries@[q0].spec_identity());
                    }
                }
                true
            },
            None => false,
        }
    }

    /// Routes one keyboard press to its container; an unknown identity
    /// is a no-op.
    pub fn dispatch_press_key(&mut self, identity: u64, event: &KeyEvent) -> (found: bool)
        requires
            old(self).wf(),
        ensures
            final(self).wf(),
            found == old(self).spec_contains(identity),
            !found ==> final(self).entries@ == old(self).entries@,
            found ==> exists|i: int|
                #![auto]
                0 <= i < old(self).entries@.len() && old(self).entries@[i].spec_identity()
                    == identity && entry_keyboard_step(
                    old(self).entries@[i],
                    final(self).entries@[i],
                    *event,
                    true,
                    false,
                ) && final(self).entries@ == old(self).entries@.update(
                    i,
                    final(self).entries@[i],
                ),
    {
        match self.position(identity) {
            Some(i) => {
                let e = &mut self.entries[i];
                match e {
                    ContainerEntry::Window(c) => c.surface.handle_keyboard_event(
                        event,
                        true,
                        false,
                    ),
                    ContainerEntry::LayerSurface(c) => c.surface.handle_keyboard_event(
                        event,
                        true,
                        false,
                    ),
                    ContainerEntry::Popup(c) => c.surface.handle_keyboard_event(
                        event,
                        true,
                        false,
                    ),
                    ContainerEntry::Subsurface(c) => c.surface.handle_keyboard_event(
                        event,
                        true,
                        false,
                    ),
                }
                proof {
                    lemma_ids_distinct_update(old(self).entries@, self.entries@);
                }
                true
            },
            None => false,
        }
    }

    /// Routes one keyboard release to its container; an unknown identity
    /// is a no-op.
    pub fn dispatch_release_key(&mut self, identity: u64, event: &KeyEvent) -> (found: bool)
        requires
            old(self).wf(),
        ensures
            final(self).wf(),
            found == old(self).spec_contains(identity),
            !found ==> final(self).entries@ == old(self).entries@,
            found ==> exists|i: int|
                #![auto]
                0 <= i < old(self).entries@.len() && old(self).entries@[i].spec_identity()
                    == identity && entry_keyboard_step(
                    old(self).entries@[i],
                    final(self).entries@[i],
                    *event,
                    false,
                    false,
                ) && final(self).entries@ == old(self).entries@.update(
                    i,
                    final(self).entries@[i],
                ),
    {
        match self.position(identity) {
            Some(i) => {
                let e = &mut self.entries[i];
                match e {
                    ContainerEntry::Window(c) => c.surface.handle_keyboard_event(
                        event,
                        false,
                        false,
                    ),
                    ContainerEntry::LayerSurface(c) => c.surface.handle_keyboard_event(
                        event,
                        false,
                        false,
                    ),
                    ContainerEntry::Popup(c) => c.surface.handle_keyboard_event(
                        event,
                        false,
                        false,
                    ),
                    ContainerEntry::Subsurface(c) => c.surface.handle_keyboard_event(
                        event,
                        false,
                        false,
                    ),
                }
                proof {
                    lemma_ids_distinct_update(old(self).entries@, self.entries@);
                }
                true
            },
            None => false,
        }
    }

    /// Routes one key repeat to its container; an unknown identity is a
    /// no-op.
    pub fn dispatch_repeat_key(&mut self, identity: u64, event: &KeyEvent) -> (found: bool)
        requires
            old(self).wf(),
        ensures
            final(self).wf(),
            found == old(self).spec_contains(identity),
            !found ==> final(self).entries@ == old(self).entries@,
            found ==> exists|i: int|
                #![auto]
                0 <= i < old(self).entries@.len() && old(self).entries@[i].spec_identity()
                    == identity && entry_keyboard_step(
                    old(self).entries@[i],
                    final(self).entries@[i],
                    *event,
                    true,
                    true,
                ) && final(self).entries@ == old(self).entries@.update(
                    i,
                    final(self).entries@[i],
                ),
    {
        match self.position(identity) {
            Some(i) => {
                let e = &mut self.entries[i];
                match e {
                    ContainerEntry::Window(c) => c.surface.handle_keyboard_event(event, true, true),
                    ContainerEntry::LayerSurface(c) => c.surface.handle_keyboard_event(
                        event,
                        true,
                        true,
                    ),
                    ContainerEntry::Popup(c) => c.surface.handle_keyboard_event(event, true, true),
                    ContainerEntry::Subsurface(c) => c.surface.handle_keyboard_event(
                        event,
                        true,
                        true,
                    ),
                }
                proof {
                    lemma_ids_distinct_update(old(self).entries@, self.entries@);
                }
                true
            },
            None => false,
        }
    }

    /// Routes a modifier update to its container; an unknown identity is
    /// a no-op.
    pub fn dispatch_update_modifiers(
        &mut self,
        identity: u64,
        modifiers: &RawModifiers,
    ) -> (found: bool)
        requires
            old(self).wf(),
        ensures
            final(self).wf(),
            found == old(self).spec_contains(identity),
            !found ==> final(self).entries@ == old(self).entries@,
            found ==> exists|i: int|
                #![auto]
                0 <= i < old(self).entries@.len() && old(self).entries@[i].spec_identity()
                    == identity && entry_modifiers_step(
                    old(self).entries@[i],
                    final(self).entries@[i],
                    *modifiers,
                ) && final(self).entries@ == old(self).entries@.update(
                    i,
                    final(self).entries@[i],
                ),
    {
        match self.position(identity) {
            Some(i) => {
                let e = &mut self.entries[i];
                match e {
                    ContainerEntry::Window(c) => c.surface.update_modifiers(modifiers),
                    ContainerEntry::LayerSurface(c) => c.surface.update_modifiers(modifiers),
                    ContainerEntry::Popup(c) => c.surface.update_modifiers(modifiers),
                    ContainerEntry::Subsurface(c) => c.surface.update_modifiers(modifiers),
                }
                proof {
                    lemma_ids_distinct_update(old(self).entries@, self.entries@);
                }
                true
            },
            None => false,
        }
    }

    /// Routes one pointer sub-event to its container; an unknown
    /// identity is a no-op.
    pub fn dispatch_pointer_frame(&mut self, identity: u64, event: &PointerEvent) -> (found: bool)
        requires
            old(self).wf(),
        ensures
            final(self).wf(),
            found == old(self).spec_contains(identity),
            !found ==> final(self).entries@ == old(self).entries@,
            found ==> exists|i: int|
                #![auto]
                0 <= i < old(self).entries@.len() && old(self).entries@[i].spec_identity()
                    == identity && entry_pointer_step(
                    old(self).entries@[i],
                    final(self).entries@[i],
                    *event,
                ) && final(self).entries@ == old(self).entries@.update(
                    i,
                    final(self).entries@[i],
                ),
    {
        match self.position(identity) {
            Some(i) => {
                let e = &mut self.entries[i];
                match e {
                    ContainerEntry::Window(c) => c.surface.handle_pointer_event(event),
                    ContainerEntry::LayerSurface(c) => c.surface.handle_pointer_event(event),
                    ContainerEntry::Popup(c) => c.surface.handle_pointer_event(event),
                    ContainerEntry::Subsurface(c) => c.surface.handle_pointer_event(event),
                }
                proof {
                    lemma_ids_distinct_update(old(self).entries@, self.entries@);
                }
                true
            },
            None => false,
        }
    }

    /// Routes a keyboard-focus-entered notification; the translator
    /// keeps no focus state, so the registry is unchanged either way.
    pub fn dispatch_keyboard_enter(&mut self, identity: u64) -> (found: bool)
        requires
            old(self).wf(),
        ensures
            final(self).wf(),
            found == old(self).spec_contains(identity),
            final(self).entries@ == old(self).entries@,
    {
        match self.position(identity) {
            Some(i) => {
                let e = &mut self.entries[i];
                match e {
                    ContainerEntry::Window(c) => c.surface.handle_keyboard_enter(),
                    ContainerEntry::LayerSurface(c) => c.surface.handle_keyboard_enter(),
                    ContainerEntry::Popup(c) => c.surface.handle_keyboard_enter(),
                    ContainerEntry::Subsurface(c) => c.surface.handle_keyboard_enter(),
                }
                proof {
                    assert(self.entries@ =~= old(self).entries@);
                }
                true
            },
            None => false,
        }
    }

    /// Routes a keyboard-focus-left notification; as for
    /// `dispatch_keyboard_enter`.
    pub fn dispatch_keyboard_leave(&mut self, identity: u64) -> (found: bool)
        requires
            old(self).wf(),
        ensures
            final(self).wf(),
            found == old(self).spec_contains(identity),
            final(self).entries@ == old(self).entries@,
    {
        match self.position(identity) {
            Some(i) => {
                let e = &mut self.entries[i];
                match e {
                    ContainerEntry::Window(c) => c.surface.handle_keyboard_leave(),
                    ContainerEntry::LayerSurface(c) => c.surface.handle_keyboard_leave(),
                    ContainerEntry::Popup(c) => c.surface.handle_keyboard_leave(),
                    ContainerEntry::Subsurface(c) => c.surface.handle_keyboard_leave(),
                }
                proof {
                    assert(self.entries@ =~= old(self).entries@);
                }
                true
            },
            None => false,
        }
    }

    /// Routes a compositor frame grant: the shell runs a render pass for
    /// the matched surface; the registry itself is unchanged.
    pub fn dispatch_frame(&mut self, identity: u64, time: u32) -> (found: bool)
        requires
            old(self).wf(),
        ensures
            final(self).wf(),
            found == old(self).spec_contains(identity),
            final(self).entries@ == old(self).entries@,
    {
        match self.position(identity) {
            Some(i) => {
                let e = &mut self.entries[i];
                match e {
                    ContainerEntry::Window(c) => c.surface.frame(time),
                    ContainerEntry::LayerSurface(c) => c.surface.frame(time),
                    ContainerEntry::Popup(c) => c.surface.frame(time),
                    ContainerEntry::Subsurface(c) => c.surface.frame(time),
                }
                proof {
                    assert(self.entries@ =~= old(self).entries@);
                }
                true
            },
            None => false,
        }
    }

    /// Routes a scale-factor change; returns whether the matched surface
    /// actually changed scale and must be re-rendered.  An unknown
    /// identity changes nothing.
    pub fn dispatch_scale_factor_changed(&mut self, identity: u64, new_factor: i32) -> (changed:
        bool)
        requires
            old(self).wf(),
        ensures
            final(self).wf(),
            !old(self).spec_contains(identity) ==> !changed && final(self).entries@ == old(self).entries@,
            old(self).spec_contains(identity) ==> exists|i: int|
                #![auto]
                0 <= i < old(self).entries@.len() && old(self).entries@[i].spec_identity()
                    == identity && entry_scale_step(
                    old(self).entries@[i],
                    final(self).entries@[i],
                    new_factor,
                    changed,
                ) && final(self).entries@ == old(self).entries@.update(
                    i,
                    final(self).entries@[i],
                ),
    {
        match self.position(identity) {
            Some(i) => {
                let e = &mut self.entries[i];
                let changed = match e {
                    ContainerEntry::Window(c) => c.surface.scale_factor_changed(new_factor),
                    ContainerEntry::LayerSurface(c) => c.surface.scale_factor_changed(new_factor),
                    ContainerEntry::Popup(c) => c.surface.scale_factor_changed(new_factor),
                    ContainerEntry::Subsurface(c) => c.surface.scale_factor_changed(new_factor),
                };
                proof {
                    lemma_ids_distinct_update(old(self).entries@, self.entries@);
                }
                changed
            },
            None => false,
        }
    }

    /// Routes a window configure.  Only a window-kind container adopts
    /// it; a container of another kind under this identity is left
    /// untouched, and an unknown identity is a no-op.
    pub fn dispatch_window_configure(
        &mut self,
        identity: u64,
        configure: &WindowConfigureData,
    ) -> (found: bool)
        requires
            old(self).wf(),
        ensures
            final(self).wf(),
            found == old(self).spec_contains(identity),
            !found ==> final(self).entries@ == old(self).entries@,
            found ==> exists|i: int|
                #![auto]
                0 <= i < old(self).entries@.len() && old(self).entries@[i].spec_identity()
                    == identity && (old(self).entries@[i].spec_kind() == SurfaceKind::Window
                    ==> entry_configure_step(
                    old(self).entries@[i],
                    final(self).entries@[i],
                    spec_window_dim(configure.width),
                    spec_window_dim(configure.height),
                )) && (old(self).entries@[i].spec_kind() != SurfaceKind::Window ==> final(self).entries@[i] == old(self).entries@[i]) && final(self).entries@ == old(self).entries@.update(i, final(self).entries@[i]),
    {
        match self.position(identity) {
            Some(i) => {
                let e = &mut self.entries[i];
                match e {
                    ContainerEntry::Window(c) => c.window_configure(configure),
                    _ => {},
                }
                proof {
                    lemma_ids_distinct_update(old(self).entries@, self.entries@);
                }
                true
            },
            None => false,
        }
    }

    /// Routes a layer-surface configure; only a layer-kind container
    /// adopts it.
    pub fn dispatch_layer_configure(
        &mut self,
        identity: u64,
        config: &LayerConfigureData,
    ) -> (found: bool)
        requires
            old(self).wf(),
        ensures
            final(self).wf(),
            found == old(self).spec_contains(identity),
            !found ==> final(self).entries@ == old(self).entries@,
            found ==> exists|i: int|
                #![auto]
                0 <= i < old(self).entries@.len() && old(self).entries@[i].spec_identity()
                    == identity && (old(self).entries@[i].spec_kind() == SurfaceKind::LayerSurface
                    ==> entry_configure_step(
                    old(self).entries@[i],
                    final(self).entries@[i],
                    config.width,
                    config.height,
                )) && (old(self).entries@[i].spec_kind() != SurfaceKind::LayerSurface ==> final(self).entries@[i] == old(self).entries@[i]) && final(self).entries@ == old(self).entries@.update(i, final(self).entries@[i]),
    {
        match self.position(identity) {
            Some(i) => {
                let e = &mut self.entries[i];
                match e {
                    ContainerEntry::LayerSurface(c) => c.layer_configure(config),
                    _ => {},
                }
                proof {
                    lemma_ids_distinct_update(old(self).entries@, self.entries@);
                }
                true
            },
            None => false,
        }
    }

    /// Routes a popup configure; only a popup-kind container adopts it,
    /// and a negative dimension keeps that container's previous size.
    pub fn dispatch_popup_configure(
        &mut self,
        identity: u64,
        config: &PopupConfigureData,
    ) -> (found: bool)
        requires
            old(self).wf(),
        ensures
            final(self).wf(),
            found == old(self).spec_contains(identity),
            !found ==> final(self).entries@ == old(self).entries@,
            found ==> exists|i: int|
                #![auto]
                0 <= i < old(self).entries@.len() && old(self).entries@[i].spec_identity()
                    == identity && (old(self).entries@[i].spec_kind() == SurfaceKind::Popup
                    ==> entry_configure_step(
                    old(self).entries@[i],
                    final(self).entries@[i],
                    spec_popup_dim(config.width, old(self).entries@[i].spec_surface().width),
                    spec_popup_dim(config.height, old(self).entries@[i].spec_surface().height),
                )) && (old(self).entries@[i].spec_kind() != SurfaceKind::Popup ==> final(self).entries@[i] == old(self).entries@[i]) && final(self).entries@ == old(self).entries@.update(i, final(self).entries@[i]),
    {
        match self.position(identity) {
            Some(i) => {
                let e = &mut self.entries[i];
                match e {
                    ContainerEntry::Popup(c) => c.popup_configure(config),
                    _ => {},
                }
                proof {
                    lemma_ids_distinct_update(old(self).entries@, self.entries@);
                }
                true
            },
            None => false,
        }
    }

    /// Drives a subsurface's size from its owning parent; only a
    /// subsurface-kind container adopts it.
    pub fn dispatch_subsurface_configure(
        &mut self,
        identity: u64,
        width: u32,
        height: u32,
    ) -> (found: bool)
        requires
            old(self).wf(),
        ensures
            final(self).wf(),
            found == old(self).spec_contains(identity),
            !found ==> final(self).entries@ == old(self).entries@,
            found ==> exists|i: int|
                #![auto]
                0 <= i < old(self).entries@.len() && old(self).entries@[i].spec_identity()
                    == identity && (old(self).entries@[i].spec_kind() == SurfaceKind::Subsurface
                    ==> entry_configure_step(
                    old(self).entries@[i],
                    final(self).entries@[i],
                    width,
                    height,
                )) && (old(self).entries@[i].spec_kind() != SurfaceKind::Subsurface ==> final(self).entries@[i] == old(self).entries@[i]) && final(self).entries@ == old(self).entries@.update(i, final(self).entries@[i]),
    {
        match self.position(identity) {
            Some(i) => {
                let e = &mut self.entries[i];
                match e {
                    ContainerEntry::Subsurface(c) => c.subsurface_configure(width, height),
                    _ => {},
                }
                proof {
                    lemma_ids_distinct_update(old(self).entries@, self.entries@);
                }
                true
            },
            None => false,
        }
    }

    /// Routes a layer surface's `closed` notification: the matched
    /// layer-kind container becomes eligible for removal.
    pub fn dispatch_closed(&mut self, identity: u64) -> (found: bool)
        requires
            old(self).wf(),
        ensures
            final(self).wf(),
            found == old(self).spec_contains(identity),
            !found ==> final(self).entries@ == old(self).entries@,
            found ==> exists|i: int|
                #![auto]
                0 <= i < old(self).entries@.len() && old(self).entries@[i].spec_identity()
                    == identity && (old(self).entries@[i].spec_kind() == SurfaceKind::LayerSurface
                    ==> entry_marked_removable(old(self).entries@[i], final(self).entries@[i]))
                    && (old(self).entries@[i].spec_kind() != SurfaceKind::LayerSurface ==> final(self).entries@[i] == old(self).entries@[i]) && final(self).entries@ == old(self).entries@.update(i, final(self).entries@[i]),
    {
        match self.position(identity) {
            Some(i) => {
                let e = &mut self.entries[i];
                match e {
                    ContainerEntry::LayerSurface(c) => c.layer_closed(),
                    _ => {},
                }
                proof {
                    lemma_ids_distinct_update(old(self).entries@, self.entries@);
                }
                true
            },
            None => false,
        }
    }

    /// Routes a popup's `done` notification: the matched popup-kind
    /// container becomes eligible for removal.
    pub fn dispatch_done(&mut self, identity: u64) -> (found: bool)
        requires
            old(self).wf(),
        ensures
            final(self).wf(),
            found == old(self).spec_contains(identity),
            !found ==> final(self).entries@ == old(self).entries@,
            found ==> exists|i: int|
                #![auto]
                0 <= i < old(self).entries@.len() && old(self).entries@[i].spec_identity()
                    == identity && (old(self).entries@[i].spec_kind() == SurfaceKind::Popup
                    ==> entry_marked_removable(old(self).entries@[i], final(self).entries@[i]))
                    && (old(self).entries@[i].spec_kind() != SurfaceKind::Popup ==> final(self).entries@[i] == old(self).entries@[i]) && final(self).entries@ == old(self).entries@.update(i, final(self).entries@[i]),
    {
        match self.position(identity) {
            Some(i) => {
                let e = &mut self.entries[i];
                match e {
                    ContainerEntry::Popup(c) => c.popup_done(),
                    _ => {},
                }
                proof {
                    lemma_ids_distinct_update(old(self).entries@, self.entries@);
                }
                true
            },
            None => false,
        }
    }

    /// Routes a window's close request: the matched window-kind
    /// container becomes eligible for removal.
    pub fn dispatch_request_close(&mut self, identity: u64) -> (found: bool)
        requires
            old(self).wf(),
        ensures
            final(self).wf(),
            found == old(self).spec_contains(identity),
            !found ==> final(self).entries@ == old(self).entries@,
            found ==> exists|i: int|
                #![auto]
                0 <= i < old(self).entries@.len() && old(self).entries@[i].spec_identity()
                    == identity && (old(self).entries@[i].spec_kind() == SurfaceKind::Window
                    ==> entry_marked_removable(old(self).entries@[i], final(self).entries@[i]))
                    && (old(self).entries@[i].spec_kind() != SurfaceKind::Window ==> final(self).entries@[i] == old(self).entries@[i]) && final(self).entries@ == old(self).entries@.update(i, final(self).entries@[i]),
    {
        match self.position(identity) {
            Some(i) => {
                let e = &mut self.entries[i];
                match e {
                    ContainerEntry::Window(c) => c.request_close(),
                    _ => {},
                }
                proof {
                    lemma_ids_distinct_update(old(self).entries@, self.entries@);
                }
                true
            },
            None => false,
        }
    }

    /// Starts a render pass for the matched surface: drains its queue
    /// and hands back the events plus the redraw-requested marker.  An
    /// unknown identity yields nothing and changes nothing.
    pub fn begin_frame(&mut self, identity: u64) -> (r: Option<Vec<UiEvent>>)
        requires
            old(self).wf(),
        ensures
            final(self).wf(),
            r is Some == old(self).spec_contains(identity),
            r is None ==> final(self).entries@ == old(self).entries@,
            r matches Some(events) ==> exists|i: int|
                #![auto]
                0 <= i < old(self).entries@.len() && old(self).entries@[i].spec_identity()
                    == identity && entry_begin_frame_step(
                    old(self).entries@[i],
                    final(self).entries@[i],
                ) && events@ == old(self).entries@[i].spec_surface().input_state.events@.push(
                    UiEvent::RedrawRequested,
                ) && final(self).entries@ == old(self).entries@.update(
                    i,
                    final(self).entries@[i],
                ),
    {
        match self.position(identity) {
            Some(i) => {
                let e = &mut self.entries[i];
                let events = match e {
                    ContainerEntry::Window(c) => c.surface.begin_frame(),
                    ContainerEntry::LayerSurface(c) => c.surface.begin_frame(),
                    ContainerEntry::Popup(c) => c.surface.begin_frame(),
                    ContainerEntry::Subsurface(c) => c.surface.begin_frame(),
                };
                proof {
                    lemma_ids_distinct_update(old(self).entries@, self.entries@);
                }
                Some(events)
            },
            None => None,
        }
    }

    /// Finishes the update step of a render pass for the matched
    /// surface: applies the toolkit's messages to its application data
    /// and reports the draw directives.  An unknown identity yields
    /// nothing and changes nothing.
    pub fn apply_update_outcome(
        &mut self,
        identity: u64,
        messages: Vec<A::Message>,
        interaction: MouseInteraction,
    ) -> (r: Option<FrameDirectives>)
        requires
            old(self).wf(),
        ensures
            final(self).wf(),
            r is Some == old(self).spec_contains(identity),
            r is None ==> final(self).entries@ == old(self).entries@,
            r matches Some(d) ==> exists|i: int|
                #![auto]
                0 <= i < old(self).entries@.len() && old(self).entries@[i].spec_identity()
                    == identity && entry_update_step(
                    old(self).entries@[i],
                    final(self).entries@[i],
                    interaction,
                ) && d.rebuild == (messages@.len() > 0) && d.cursor_change == (
                if interaction == old(self).entries@[i].spec_surface().mouse_interaction {
                    None::<crate::render::CursorShape>
                } else {
                    Some(spec_cursor_shape(interaction))
                }) && final(self).entries@ == old(self).entries@.update(
                    i,
                    final(self).entries@[i],
                ),
    {
        match self.position(identity) {
            Some(i) => {
                let e = &mut self.entries[i];
                let d = match e {
                    ContainerEntry::Window(c) => c.surface.apply_update_outcome(
                        messages,
                        interaction,
                    ),
                    ContainerEntry::LayerSurface(c) => c.surface.apply_update_outcome(
                        messages,
                        interaction,
                    ),
                    ContainerEntry::Popup(c) => c.surface.apply_update_outcome(
                        messages,
                        interaction,
                    ),
                    ContainerEntry::Subsurface(c) => c.surface.apply_update_outcome(
                        messages,
                        interaction,
                    ),
                };
                proof {
                    lemma_ids_distinct_update(old(self).entries@, self.entries@);
                }
                Some(d)
            },
            None => None,
        }
    }

    /// Whether the render pass for the matched surface must request the
    /// next frame callback: exactly when the queue it drained held
    /// input.
    pub fn should_request_frame(&self, identity: u64) -> (r: Option<bool>)
        ensures
            r is Some == self.spec_contains(identity),
            r matches Some(b) ==> exists|i: int|
                #![auto]
                0 <= i < self.entries@.len() && self.entries@[i].spec_identity() == identity && b
                    == self.entries@[i].spec_surface().had_input,
    {
        match self.position(identity) {
            Some(i) => {
                let b = match &self.entries[i] {
                    ContainerEntry::Window(c) => c.surface.should_request_frame(),
                    ContainerEntry::LayerSurface(c) => c.surface.should_request_frame(),
                    ContainerEntry::Popup(c) => c.surface.should_request_frame(),
                    ContainerEntry::Subsurface(c) => c.surface.should_request_frame(),
                };
                Some(b)
            },
            None => None,
        }
    }

    /// Whether the matched container has been marked eligible for
    /// removal by a terminal notification.
    pub fn is_removal_eligible(&self, identity: u64) -> (r: Option<bool>)
        ensures
            r is Some == self.spec_contains(identity),
            r matches Some(b) ==> exists|i: int|
                #![auto]
                0 <= i < self.entries@.len() && self.entries@[i].spec_identity() == identity && b
                    == self.entries@[i].spec_removal_eligible(),
    {
        match self.position(identity) {
            Some(i) => Some(self.entries[i].removal_eligible()),
            None => None,
        }
    }
}

} // verus!
