//! The renderer: the native object that draws.

use vstd::prelude::*;
use crate::backend::{Backend, WlrBackend};
use crate::bridge::{without, Bridge, Event, ListenerToken, Signal};
use crate::error::{check_call, completed, use_of_destroyed, WlrError};
use crate::handle::{outcome, wrapped, Destroyable, Handle, HandleState, Released};

verus! {

/// A reference to a native renderer.
#[derive(Clone, Copy, Debug, PartialEq, Eq, Structural)]
pub struct WlrRenderer(pub usize);

impl Destroyable for WlrRenderer {
    open spec fn address(self) -> usize {
        self.0
    }

    open spec fn kind() -> Seq<char> {
        "wlr_renderer"@
    }

    fn destroy_signal(&self) -> Signal {
        Signal { object: self.0, event: Event::Destroy }
    }

    fn name() -> String {
        "wlr_renderer".to_owned()
    }
}

/// A renderer. It is made for a backend and does not own it.
pub struct Renderer(Handle<WlrRenderer>);

impl View for Renderer {
    type V = HandleState<WlrRenderer>;

    closed spec fn view(&self) -> HandleState<WlrRenderer> {
        self.0@
    }
}

impl Renderer {
    /// Has the native library pick and construct the best renderer for
    /// `backend`, through `create`, and wraps it. Fails if the backend has
    /// been destroyed, without calling `create`, and with the name of the
    /// constructor if the library returns null.
    pub fn autocreate<F: FnOnce(WlrBackend) -> Option<WlrRenderer>>(
        backend: &Backend,
        destroy_listener: ListenerToken,
        bridge: &mut Bridge,
        create: F,
    ) -> (r: Result<Renderer, WlrError>)
        requires
            backend@.target is Some ==> create.requires((backend@.target->Some_0,)),
        ensures
            match backend@.target {
                Some(b) => exists|created: Option<WlrRenderer>| #[trigger]
                    create.ensures((b,), created) && wrapped(
                        created,
                        "wlr_renderer_autocreate"@,
                        destroy_listener,
                        old(bridge)@,
                        final(bridge)@,
                        outcome(r),
                    ),
                None => use_of_destroyed(r, WlrBackend::kind()) && final(bridge)@ == old(bridge)@,
            },
    {
        let backend = match backend.handle().try_as_ptr() {
            Ok(ptr) => ptr,
            Err(e) => { return Err(e); },
        };
        let created = create(backend);
        match Handle::wrap(created, "wlr_renderer_autocreate", destroy_listener, bridge) {
            Ok(handle) => Ok(Renderer(handle)),
            Err(e) => Err(e),
        }
    }

    /// Binds the renderer to the server's display, through `init`. Fails if
    /// the renderer has been destroyed, without calling `init`, and with
    /// the name of the native operation if that returns `false`.
    pub fn init_display<F: FnOnce(WlrRenderer) -> bool>(&self, init: F) -> (r: Result<
        (),
        WlrError,
    >)
        requires
            self@.target is Some ==> init.requires((self@.target->Some_0,)),
        ensures
            match self@.target {
                Some(ptr) => exists|ok: bool| #[trigger]
                    init.ensures((ptr,), ok) && completed(ok, "wlr_renderer_init_wl_display"@, r),
                None => use_of_destroyed(r, WlrRenderer::kind()),
            },
    {
        let ptr = match self.0.try_as_ptr() {
            Ok(ptr) => ptr,
            Err(e) => { return Err(e); },
        };
        check_call(init(ptr), "wlr_renderer_init_wl_display")
    }

    /// The handle of the native renderer.
    pub fn handle(&self) -> (handle: &Handle<WlrRenderer>)
        ensures
            handle@ == self@,
    {
        &self.0
    }

    /// The handle of the native renderer, for the delivery of its destroy
    /// notification.
    pub fn handle_mut(&mut self) -> (handle: &mut Handle<WlrRenderer>)
        ensures
            handle@ == old(self)@,
            final(self)@ == final(handle)@,
    {
        &mut self.0
    }

    /// The end of the wrapper. Every listener that it still has is taken
    /// off its signal and returned for release. The native renderer is left
    /// to the library.
    pub fn release(self, bridge: &mut Bridge) -> (released: Released)
        ensures
            released.listeners@ == self@.listeners,
            released.destroy_listener == self@.own_listener(),
            final(bridge)@ == without(old(bridge)@, released.tokens()),
    {
        self.0.teardown(bridge)
    }
}

} // verus!
