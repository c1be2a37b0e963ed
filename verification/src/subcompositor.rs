//! The subcompositor: the native global through which clients nest surfaces.

use vstd::prelude::*;
use crate::bridge::{without, Bridge, Event, ListenerToken, Signal};
use crate::error::WlrError;
use crate::handle::{outcome, wrapped, Destroyable, Handle, HandleState, Released};

verus! {

/// A reference to a native subcompositor.
#[derive(Clone, Copy, Debug, PartialEq, Eq, Structural)]
pub struct WlrSubcompositor(pub usize);

impl Destroyable for WlrSubcompositor {
    open spec fn address(self) -> usize {
        self.0
    }

    open spec fn kind() -> Seq<char> {
        "wlr_subcompositor"@
    }

    fn destroy_signal(&self) -> Signal {
        Signal { object: self.0, event: Event::Destroy }
    }

    fn name() -> String {
        "wlr_subcompositor".to_owned()
    }
}

/// A subcompositor, bound to the server's display.
pub struct Subcompositor(Handle<WlrSubcompositor>);

impl View for Subcompositor {
    type V = HandleState<WlrSubcompositor>;

    closed spec fn view(&self) -> HandleState<WlrSubcompositor> {
        self.0@
    }
}

impl Subcompositor {
    /// Has the native library create the subcompositor on the server's
    /// display, through `create`, and wraps it. Fails with the name of the
    /// constructor if the library returns null.
    pub fn new<F: FnOnce() -> Option<WlrSubcompositor>>(
        destroy_listener: ListenerToken,
        bridge: &mut Bridge,
        create: F,
    ) -> (r: Result<Subcompositor, WlrError>)
        requires
            create.requires(()),
        ensures
            exists|created: Option<WlrSubcompositor>| #[trigger]
                create.ensures((), created) && wrapped(
                    created,
                    "wlr_subcompositor_create"@,
                    destroy_listener,
                    old(bridge)@,
                    final(bridge)@,
                    outcome(r),
                ),
    {
        let created = create();
        match Handle::wrap(created, "wlr_subcompositor_create", destroy_listener, bridge) {
            Ok(handle) => Ok(Subcompositor(handle)),
            Err(e) => Err(e),
        }
    }

    /// The handle of the native subcompositor.
    pub fn handle(&self) -> (handle: &Handle<WlrSubcompositor>)
        ensures
            handle@ == self@,
    {
        &self.0
    }

    /// The handle of the native subcompositor, for the delivery of
    /// its destroy notification.
    pub fn handle_mut(&mut self) -> (handle: &mut Handle<WlrSubcompositor>)
        ensures
            handle@ == old(self)@,
            final(self)@ == final(handle)@,
    {
        &mut self.0
    }

    /// The end of the wrapper. Every listener that it still has is taken
    /// off its signal and returned for release. The native object is left
    /// to the library.
    pub fn release(self, bridge: &mut Bridge) -> (released: Released)
        ensures
            released.listeners@ == self@.listeners,
            released.destroy_listener == self@.own_listener(),
            final(bridge)@ == without(old(bridge)@, released.tokens()),
    {
        self.0.teardown(bridge)
    }
}

} // verus!
