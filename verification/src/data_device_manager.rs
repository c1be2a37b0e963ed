//! The data device manager: the native global behind the clipboard and drag
//! and drop.

use vstd::prelude::*;
use crate::bridge::{without, Bridge, Event, ListenerToken, Signal};
use crate::error::WlrError;
use crate::handle::{outcome, wrapped, Destroyable, Handle, HandleState, Released};

verus! {

/// A reference to a native data device manager.
#[derive(Clone, Copy, Debug, PartialEq, Eq, Structural)]
pub struct WlrDataDeviceManager(pub usize);

impl Destroyable for WlrDataDeviceManager {
    open spec fn address(self) -> usize {
        self.0
    }

    open spec fn kind() -> Seq<char> {
        "wlr_data_device_manager"@
    }

    fn destroy_signal(&self) -> Signal {
        Signal { object: self.0, event: Event::Destroy }
    }

    fn name() -> String {
        "wlr_data_device_manager".to_owned()
    }
}

/// A data device manager, bound to the server's display.
pub struct DataDeviceManager(Handle<WlrDataDeviceManager>);

impl View for DataDeviceManager {
    type V = HandleState<WlrDataDeviceManager>;

    closed spec fn view(&self) -> HandleState<WlrDataDeviceManager> {
        self.0@
    }
}

impl DataDeviceManager {
    /// Has the native library create the data device manager on the
    /// server's display, through `create`, and wraps it. Fails with the name
    /// of the constructor if the library returns null.
    pub fn new<F: FnOnce() -> Option<WlrDataDeviceManager>>(
        destroy_listener: ListenerToken,
        bridge: &mut Bridge,
        create: F,
    ) -> (r: Result<DataDeviceManager, WlrError>)
        requires
            create.requires(()),
        ensures
            exists|created: Option<WlrDataDeviceManager>| #[trigger]
                create.ensures((), created) && wrapped(
                    created,
                    "wlr_data_device_manager_create"@,
                    destroy_listener,
                    old(bridge)@,
                    final(bridge)@,
                    outcome(r),
                ),
    {
        let created = create();
        match Handle::wrap(created, "wlr_data_device_manager_create", destroy_listener, bridge) {
            Ok(handle) => Ok(DataDeviceManager(handle)),
            Err(e) => Err(e),
        }
    }

    /// The handle of the native data device manager.
    pub fn handle(&self) -> (handle: &Handle<WlrDataDeviceManager>)
        ensures
            handle@ == self@,
    {
        &self.0
    }

    /// The handle of the native data device manager, for the delivery of
    /// its destroy notification.
    pub fn handle_mut(&mut self) -> (handle: &mut Handle<WlrDataDeviceManager>)
        ensures
            handle@ == old(self)@,
            final(self)@ == final(handle)@,
    {
        &mut self.0
    }

    /// The end of the wrapper. Every listener that it still has is taken
    /// off its signal and returned for release. The native object is left
    /// to the library.
    pub fn release(self, bridge: &mut Bridge) -> (released: Released)
        ensures
            released.listeners@ == self@.listeners,
            released.destroy_listener == self@.own_listener(),
            final(bridge)@ == without(old(bridge)@, released.tokens()),
    {
        self.0.teardown(bridge)
    }
}

} // verus!
