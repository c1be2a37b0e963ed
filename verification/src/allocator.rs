//! The allocator: the native object that provides the buffers to draw into.

use vstd::prelude::*;
use crate::backend::{Backend, WlrBackend};
use crate::bridge::{without, Bridge, Event, ListenerToken, Signal};
use crate::error::{use_of_destroyed, WlrError};
use crate::handle::{outcome, wrapped, Destroyable, Handle, HandleState, Released};
use crate::renderer::{Renderer, WlrRenderer};

verus! {

/// A reference to a native allocator.
#[derive(Clone, Copy, Debug, PartialEq, Eq, Structural)]
pub struct WlrAllocator(pub usize);

impl Destroyable for WlrAllocator {
    open spec fn address(self) -> usize {
        self.0
    }

    open spec fn kind() -> Seq<char> {
        "wlr_allocator"@
    }

    fn destroy_signal(&self) -> Signal {
        Signal { object: self.0, event: Event::Destroy }
    }

    fn name() -> String {
        "wlr_allocator".to_owned()
    }
}

/// An allocator. It is made for a backend and a renderer and owns neither.
pub struct Allocator(Handle<WlrAllocator>);

impl View for Allocator {
    type V = HandleState<WlrAllocator>;

    closed spec fn view(&self) -> HandleState<WlrAllocator> {
        self.0@
    }
}

impl Allocator {
    /// Has the native library pick and construct the best allocator for
    /// `backend` and `renderer`, through `create`, and wraps it. Fails if
    /// the backend or else the renderer has been destroyed, without calling
    /// `create`, and with the name of the constructor if the library
    /// returns null.
    pub fn autocreate<F: FnOnce(WlrBackend, WlrRenderer) -> Option<WlrAllocator>>(
        backend: &Backend,
        renderer: &Renderer,
        destroy_listener: ListenerToken,
        bridge: &mut Bridge,
        create: F,
    ) -> (r: Result<Allocator, WlrError>)
        requires
            backend@.target is Some && renderer@.target is Some ==> create.requires(
                (backend@.target->Some_0, renderer@.target->Some_0),
            ),
        ensures
            match (backend@.target, renderer@.target) {
                (Some(b), Some(rd)) => exists|created: Option<WlrAllocator>| #[trigger]
                    create.ensures((b, rd), created) && wrapped(
                        created,
                        "wlr_allocator_autocreate"@,
                        destroy_listener,
                        old(bridge)@,
                        final(bridge)@,
                        outcome(r),
                    ),
                (None, _) => use_of_destroyed(r, WlrBackend::kind()) && final(bridge)@ == old(
                    bridge,
                )@,
                (Some(_), None) => use_of_destroyed(r, WlrRenderer::kind()) && final(bridge)@
                    == old(bridge)@,
            },
    {
        let backend = match backend.handle().try_as_ptr() {
            Ok(ptr) => ptr,
            Err(e) => { return Err(e); },
        };
        let renderer = match renderer.handle().try_as_ptr() {
            Ok(ptr) => ptr,
            Err(e) => { return Err(e); },
        };
        let created = create(backend, renderer);
        match Handle::wrap(created, "wlr_allocator_autocreate", destroy_listener, bridge) {
            Ok(handle) => Ok(Allocator(handle)),
            Err(e) => Err(e),
        }
    }

    /// The handle of the native allocator.
    pub fn handle(&self) -> (handle: &Handle<WlrAllocator>)
        ensures
            handle@ == self@,
    {
        &self.0
    }

    /// The handle of the native allocator, for the delivery of its destroy
    /// notification.
    pub fn handle_mut(&mut self) -> (handle: &mut Handle<WlrAllocator>)
        ensures
            handle@ == old(self)@,
            final(self)@ == final(handle)@,
    {
        &mut self.0
    }

    /// The end of the wrapper. Every listener that it still has is taken
    /// off its signal and returned for release. The native allocator is
    /// left to the library.
    pub fn release(self, bridge: &mut Bridge) -> (released: Released)
        ensures
            released.listeners@ == self@.listeners,
            released.destroy_listener == self@.own_listener(),
            final(bridge)@ == without(old(bridge)@, released.tokens()),
    {
        self.0.teardown(bridge)
    }
}

} // verus!
