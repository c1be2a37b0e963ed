//! The backend: the native object that finds the input and output devices.

use vstd::prelude::*;
use crate::bridge::{without, Bridge, Event, ListenerToken, Signal};
use crate::error::WlrError;
use crate::handle::{
    outcome, registered, wrapped, Destroyable, Handle, HandleState, Released,
};

verus! {

/// A reference to a native backend.
#[derive(Clone, Copy, Debug, PartialEq, Eq, Structural)]
pub struct WlrBackend(pub usize);

impl Destroyable for WlrBackend {
    open spec fn address(self) -> usize {
        self.0
    }

    open spec fn kind() -> Seq<char> {
        "wlr_backend"@
    }

    fn destroy_signal(&self) -> Signal {
        Signal { object: self.0, event: Event::Destroy }
    }

    fn name() -> String {
        "wlr_backend".to_owned()
    }
}

/// A backend. The wrapper owns the destruction of the native object.
pub struct Backend(Handle<WlrBackend>);

impl View for Backend {
    type V = HandleState<WlrBackend>;

    closed spec fn view(&self) -> HandleState<WlrBackend> {
        self.0@
    }
}

impl Backend {
    /// Has the native library pick and construct the best backend that is
    /// available, through `create`, and wraps it. Fails with the name of
    /// the constructor if the library returns null.
    pub fn autocreate<F: FnOnce() -> Option<WlrBackend>>(
        destroy_listener: ListenerToken,
        bridge: &mut Bridge,
        create: F,
    ) -> (r: Result<Backend, WlrError>)
        requires
            create.requires(()),
        ensures
            exists|created: Option<WlrBackend>| #[trigger]
                create.ensures((), created) && wrapped(
                    created,
                    "wlr_backend_autocreate"@,
                    destroy_listener,
                    old(bridge)@,
                    final(bridge)@,
                    outcome(r),
                ),
    {
        let created = create();
        match Handle::wrap(created, "wlr_backend_autocreate", destroy_listener, bridge) {
            Ok(handle) => Ok(Backend(handle)),
            Err(e) => Err(e),
        }
    }

    /// Wraps a backend that the native library has handed over.
    pub fn from_ptr(
        ptr: WlrBackend,
        destroy_listener: ListenerToken,
        bridge: &mut Bridge,
    ) -> (backend: Backend)
        ensures
            backend@ == HandleState::fresh(ptr, destroy_listener),
            final(bridge)@ == old(bridge)@.push(
                HandleState::own_subscription(ptr, destroy_listener),
            ),
    {
        Backend(Handle::new(ptr, destroy_listener, bridge))
    }

    /// The handle of the native backend.
    pub fn handle(&self) -> (handle: &Handle<WlrBackend>)
        ensures
            handle@ == self@,
    {
        &self.0
    }

    /// The handle of the native backend, for the delivery of its destroy
    /// notification.
    pub fn handle_mut(&mut self) -> (handle: &mut Handle<WlrBackend>)
        ensures
            handle@ == old(self)@,
            final(self)@ == final(handle)@,
    {
        &mut self.0
    }

    /// Registers the listener `token` for the backend's announcement of a
    /// new output. The payload of that event is the reference to the new
    /// output.
    pub fn on_new_output(&mut self, token: ListenerToken, bridge: &mut Bridge) -> (r: Result<
        (),
        WlrError,
    >)
        ensures
            registered(
                old(self)@,
                Event::NewOutput,
                token,
                final(self)@,
                old(bridge)@,
                final(bridge)@,
                r,
            ),
    {
        self.0.listen(Event::NewOutput, token, bridge)
    }

    /// The end of the wrapper. Every listener that it still has is taken
    /// off its signal and returned for release, together with the backend
    /// that the caller must now have destroyed, if it still lives.
    pub fn release(self, bridge: &mut Bridge) -> (r: (Released, Option<WlrBackend>))
        ensures
            r.0.listeners@ == self@.listeners,
            r.0.destroy_listener == self@.own_listener(),
            r.1 == self@.target,
            final(bridge)@ == without(old(bridge)@, r.0.tokens()),
    {
        let target = match self.0.try_as_ptr() {
            Ok(ptr) => Some(ptr),
            Err(_) => None,
        };
        (self.0.teardown(bridge), target)
    }
}

} // verus!
