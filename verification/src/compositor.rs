//! The compositor: the native global through which clients create surfaces.

use vstd::prelude::*;
use crate::bridge::{without, Bridge, Event, ListenerToken, Signal};
use crate::error::{use_of_destroyed, WlrError};
use crate::handle::{outcome, wrapped, Destroyable, Handle, HandleState, Released};
use crate::renderer::{Renderer, WlrRenderer};

verus! {

/// A reference to a native compositor.
#[derive(Clone, Copy, Debug, PartialEq, Eq, Structural)]
pub struct WlrCompositor(pub usize);

impl Destroyable for WlrCompositor {
    open spec fn address(self) -> usize {
        self.0
    }

    open spec fn kind() -> Seq<char> {
        "wlr_compositor"@
    }

    fn destroy_signal(&self) -> Signal {
        Signal { object: self.0, event: Event::Destroy }
    }

    fn name() -> String {
        "wlr_compositor".to_owned()
    }
}

/// A compositor, bound to the server's display. It is made for a renderer
/// and does not own it.
pub struct Compositor(Handle<WlrCompositor>);

impl View for Compositor {
    type V = HandleState<WlrCompositor>;

    closed spec fn view(&self) -> HandleState<WlrCompositor> {
        self.0@
    }
}

impl Compositor {
    /// Has the native library create the compositor for `renderer` on the
    /// server's display, through `create`, and wraps it. Fails if the
    /// renderer has been destroyed, without calling `create`, and with the
    /// name of the constructor if the library returns null.
    pub fn new<F: FnOnce(WlrRenderer) -> Option<WlrCompositor>>(
        renderer: &Renderer,
        destroy_listener: ListenerToken,
        bridge: &mut Bridge,
        create: F,
    ) -> (r: Result<Compositor, WlrError>)
        requires
            renderer@.target is Some ==> create.requires((renderer@.target->Some_0,)),
        ensures
            match renderer@.target {
                Some(rd) => exists|created: Option<WlrCompositor>| #[trigger]
                    create.ensures((rd,), created) && wrapped(
                        created,
                        "wlr_compositor_create"@,
                        destroy_listener,
                        old(bridge)@,
                        final(bridge)@,
                        outcome(r),
                    ),
                None => use_of_destroyed(r, WlrRenderer::kind()) && final(bridge)@ == old(
                    bridge,
                )@,
            },
    {
        let renderer = match renderer.handle().try_as_ptr() {
            Ok(ptr) => ptr,
            Err(e) => { return Err(e); },
        };
        let created = create(renderer);
        match Handle::wrap(created, "wlr_compositor_create", destroy_listener, bridge) {
            Ok(handle) => Ok(Compositor(handle)),
            Err(e) => Err(e),
        }
    }

    /// The handle of the native compositor.
    pub fn handle(&self) -> (handle: &Handle<WlrCompositor>)
        ensures
            handle@ == self@,
    {
        &self.0
    }

    /// The handle of the native compositor, for the delivery of its destroy
    /// notification.
    pub fn handle_mut(&mut self) -> (handle: &mut Handle<WlrCompositor>)
        ensures
            handle@ == old(self)@,
            final(self)@ == final(handle)@,
    {
        &mut self.0
    }

    /// The end of the wrapper. Every listener that it still has is taken
    /// off its signal and returned for release. The native compositor is
    /// left to the library.
    pub fn release(self, bridge: &mut Bridge) -> (released: Released)
        ensures
            released.listeners@ == self@.listeners,
            released.destroy_listener == self@.own_listener(),
            final(bridge)@ == without(old(bridge)@, released.tokens()),
    {
        self.0.teardown(bridge)
    }
}

} // verus!
