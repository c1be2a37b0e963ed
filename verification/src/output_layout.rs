//! The output layout: the arrangement of the outputs in one coordinate
//! space.

use vstd::prelude::*;
use crate::bridge::{without, Bridge, Event, ListenerToken, Signal};
use crate::error::{use_of_destroyed, WlrError};
use crate::handle::{outcome, wrapped, Destroyable, Handle, HandleState, Released};
use crate::output::{Output, WlrOutput};

verus! {

/// A reference to a native output layout.
#[derive(Clone, Copy, Debug, PartialEq, Eq, Structural)]
pub struct WlrOutputLayout(pub usize);

impl Destroyable for WlrOutputLayout {
    open spec fn address(self) -> usize {
        self.0
    }

    open spec fn kind() -> Seq<char> {
        "wlr_output_layout"@
    }

    fn destroy_signal(&self) -> Signal {
        Signal { object: self.0, event: Event::Destroy }
    }

    fn name() -> String {
        "wlr_output_layout".to_owned()
    }
}

/// An output layout. The wrapper owns the destruction of the native object.
pub struct OutputLayout(Handle<WlrOutputLayout>);

impl View for OutputLayout {
    type V = HandleState<WlrOutputLayout>;

    closed spec fn view(&self) -> HandleState<WlrOutputLayout> {
        self.0@
    }
}

impl OutputLayout {
    /// Has the native library create an empty layout, through `create`,
    /// and wraps it. Fails with the name of the constructor if the library
    /// returns null.
    pub fn new<F: FnOnce() -> Option<WlrOutputLayout>>(
        destroy_listener: ListenerToken,
        bridge: &mut Bridge,
        create: F,
    ) -> (r: Result<OutputLayout, WlrError>)
        requires
            create.requires(()),
        ensures
            exists|created: Option<WlrOutputLayout>| #[trigger]
                create.ensures((), created) && wrapped(
                    created,
                    "wlr_output_layout_create"@,
                    destroy_listener,
                    old(bridge)@,
                    final(bridge)@,
                    outcome(r),
                ),
    {
        let created = create();
        match Handle::wrap(created, "wlr_output_layout_create", destroy_listener, bridge) {
            Ok(handle) => Ok(OutputLayout(handle)),
            Err(e) => Err(e),
        }
    }

    /// Adds `output` to the layout at a place that the native library
    /// picks, through `place`. Fails, without calling `place`, if the layout or
    /// else the output has been destroyed.
    pub fn add_auto<F: FnOnce(WlrOutputLayout, WlrOutput)>(&self, output: &Output, place: F) -> (r:
        Result<(), WlrError>)
        requires
            self@.target is Some && output@.target is Some ==> place.requires(
                (self@.target->Some_0, output@.target->Some_0),
            ),
        ensures
            match (self@.target, output@.target) {
                (Some(layout), Some(out)) => r is Ok && place.ensures((layout, out), ()),
                (None, _) => use_of_destroyed(r, WlrOutputLayout::kind()),
                (Some(_), None) => use_of_destroyed(r, WlrOutput::kind()),
            },
    {
        let layout = match self.0.try_as_ptr() {
            Ok(ptr) => ptr,
            Err(e) => { return Err(e); },
        };
        let output = match output.handle().try_as_ptr() {
            Ok(ptr) => ptr,
            Err(e) => { return Err(e); },
        };
        place(layout, output);
        Ok(())
    }

    /// The handle of the native layout.
    pub fn handle(&self) -> (handle: &Handle<WlrOutputLayout>)
        ensures
            handle@ == self@,
    {
        &self.0
    }

    /// The handle of the native layout, for the delivery of its destroy
    /// notification.
    pub fn handle_mut(&mut self) -> (handle: &mut Handle<WlrOutputLayout>)
        ensures
            handle@ == old(self)@,
            final(self)@ == final(handle)@,
    {
        &mut self.0
    }

    /// The end of the wrapper. Every listener that it still has is taken
    /// off its signal and returned for release, together with the layout
    /// that the caller must now have destroyed, if it still lives.
    pub fn release(self, bridge: &mut Bridge) -> (r: (Released, Option<WlrOutputLayout>))
        ensures
            r.0.listeners@ == self@.listeners,
            r.0.destroy_listener == self@.own_listener(),
            r.1 == self@.target,
            final(bridge)@ == without(old(bridge)@, r.0.tokens()),
    {
        let target = match self.0.try_as_ptr() {
            Ok(ptr) => Some(ptr),
            Err(_) => None,
        };
        (self.0.teardown(bridge), target)
    }
}

} // verus!
