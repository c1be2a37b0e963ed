//! Outputs: the display devices that a backend finds, and their modes.

use vstd::prelude::*;
use crate::allocator::{Allocator, WlrAllocator};
use crate::bridge::{without, Bridge, Event, ListenerToken, Signal};
use crate::error::{check_call, completed, use_of_destroyed, WlrError};
use crate::handle::{
    registered, ChildHandle, Destroyable, Handle, HandleState, Released,
};
use crate::renderer::{Renderer, WlrRenderer};

verus! {

/// A reference to a native output: its address, and the address of the head
/// of its list of modes.
#[derive(Clone, Copy, Debug, PartialEq, Eq, Structural)]
pub struct WlrOutput {
    pub address: usize,
    pub modes: usize,
}

impl Destroyable for WlrOutput {
    open spec fn address(self) -> usize {
        self.address
    }

    open spec fn kind() -> Seq<char> {
        "wlr_output"@
    }

    fn destroy_signal(&self) -> Signal {
        Signal { object: self.address, event: Event::Destroy }
    }

    fn name() -> String {
        "wlr_output".to_owned()
    }
}

/// A reference to a native display mode, with what the mode says.
#[derive(Clone, Copy, Debug, PartialEq, Eq, Structural)]
pub struct WlrOutputMode {
    pub address: usize,
    pub width: i32,
    pub height: i32,
    pub refresh: i32,
    pub preferred: bool,
}

/// An output. The backend announces it, and the wrapper is the caller's to
/// keep; the native object stays with the library.
pub struct Output(Handle<WlrOutput>);

impl View for Output {
    type V = HandleState<WlrOutput>;

    closed spec fn view(&self) -> HandleState<WlrOutput> {
        self.0@
    }
}

/// A display mode of an output. It is part of the output and is good as
/// long as the output is.
pub struct OutputMode<'parent>(ChildHandle<'parent, WlrOutputMode, WlrOutput>);

impl<'parent> OutputMode<'parent> {
    /// The native mode.
    pub closed spec fn reference(&self) -> WlrOutputMode {
        self.0.reference()
    }

    /// The state of the output that the mode belongs to.
    pub closed spec fn parent(&self) -> HandleState<WlrOutput> {
        self.0.parent()
    }

    /// What a read of the mode gives: `value` while the output lives, the
    /// failure that names the output's type afterwards.
    pub open spec fn reads<V>(&self, value: V, r: Result<V, WlrError>) -> bool {
        match self.parent().target {
            Some(_) => r == Ok::<V, WlrError>(value),
            None => use_of_destroyed(r, WlrOutput::kind()),
        }
    }

    /// The mode `ptr` of the output of `parent`.
    pub fn new(ptr: WlrOutputMode, parent: &'parent Handle<WlrOutput>) -> (mode: Self)
        ensures
            mode.reference() == ptr,
            mode.parent() == parent@,
    {
        OutputMode(ChildHandle::new(ptr, parent))
    }

    /// The reference to the native mode, or the failure if the output has
    /// been destroyed.
    pub fn try_as_ptr(&self) -> (r: Result<WlrOutputMode, WlrError>)
        ensures
            self.reads(self.reference(), r),
    {
        self.0.try_as_ptr()
    }

    /// Width and height of the mode, in pixels.
    pub fn dimensions(&self) -> (r: Result<(i32, i32), WlrError>)
        ensures
            self.reads((self.reference().width, self.reference().height), r),
    {
        match self.0.try_as_ptr() {
            Ok(mode) => Ok((mode.width, mode.height)),
            Err(e) => Err(e),
        }
    }

    /// The refresh rate of the mode, in millihertz.
    pub fn refresh(&self) -> (r: Result<i32, WlrError>)
        ensures
            self.reads(self.reference().refresh, r),
    {
        match self.0.try_as_ptr() {
            Ok(mode) => Ok(mode.refresh),
            Err(e) => Err(e),
        }
    }

    /// Whether the device prefers this mode.
    pub fn preferred(&self) -> (r: Result<bool, WlrError>)
        ensures
            self.reads(self.reference().preferred, r),
    {
        match self.0.try_as_ptr() {
            Ok(mode) => Ok(mode.preferred),
            Err(e) => Err(e),
        }
    }

    /// The aspect ratio of the picture: width to height.
    pub fn picture_aspect_ratio(&self) -> (r: Result<(i32, i32), WlrError>)
        ensures
            self.reads((self.reference().width, self.reference().height), r),
    {
        match self.0.try_as_ptr() {
            Ok(mode) => Ok((mode.width, mode.height)),
            Err(e) => Err(e),
        }
    }
}

/// What a step of a walk hands out: the mode `found` as a part of the
/// output in state `parent`, or the end of the list.
pub open spec fn yields<'a>(
    r: Result<Option<OutputMode<'a>>, WlrError>,
    found: Option<WlrOutputMode>,
    parent: HandleState<WlrOutput>,
) -> bool {
    match found {
        Some(mode) => r matches Ok(Some(handed)) && handed.reference() == mode && handed.parent()
            == parent,
        None => r matches Ok(None),
    }
}

/// A walk over the modes of an output.
///
/// The native library chains the modes of a device into a circular list:
/// every link holds the address of the next one, and the link after the
/// last mode is the head of the list, which belongs to no mode. The walk
/// starts at the head and follows the links until it is back there.
pub struct OutputModeIterator<'parent> {
    current: usize,
    head: usize,
    parent: &'parent Handle<WlrOutput>,
}

/// Where a walk stands.
pub struct Walk {
    /// The link that was reached last.
    pub current: usize,
    /// The head of the list.
    pub head: usize,
    /// The state of the output whose modes are walked.
    pub parent: HandleState<WlrOutput>,
}

impl Walk {
    /// The walk at the start of the list of `output`.
    pub open spec fn start(output: WlrOutput, parent: HandleState<WlrOutput>) -> Walk {
        Walk { current: output.modes, head: output.modes, parent }
    }

    /// Whether `link`, which is what the current link holds, ends the walk.
    pub open spec fn ends_at(self, link: usize) -> bool {
        link == self.head
    }

    /// The walk after the current link was found to hold `link`: it moves
    /// on to `link`, unless that is the head.
    pub open spec fn follow(self, link: usize) -> Walk {
        if self.ends_at(link) {
            self
        } else {
            Walk { current: link, ..self }
        }
    }

    /// The links of the modes that the next `steps` steps hand out, where
    /// every link holds what `links` gives for it. A walk over a destroyed
    /// output hands out nothing.
    pub open spec fn listing(self, links: spec_fn(usize) -> usize, steps: nat) -> Seq<usize>
        decreases steps,
    {
        if steps == 0 || self.parent.target is None || self.ends_at(links(self.current)) {
            Seq::empty()
        } else {
            seq![links(self.current)] + self.follow(links(self.current)).listing(
                links,
                (steps - 1) as nat,
            )
        }
    }
}

impl<'parent> View for OutputModeIterator<'parent> {
    type V = Walk;

    closed spec fn view(&self) -> Walk {
        Walk { current: self.current, head: self.head, parent: self.parent@ }
    }
}

impl<'parent> OutputModeIterator<'parent> {
    /// The link whose successor the next step reads.
    pub fn current(&self) -> (link: usize)
        ensures
            link == self@.current,
    {
        self.current
    }

    /// The next mode of the list, or `None` at its end.
    ///
    /// The step reads through `next_link` what the current link holds. If
    /// that is the head of the list, the walk is over, and every further
    /// step says so again. Otherwise the walk moves on to that link, and
    /// `mode_at` gives the mode that the link belongs to. The step fails,
    /// without a read, if the output has been destroyed.
    pub fn next<N: FnOnce(usize) -> usize, M: FnOnce(usize) -> WlrOutputMode>(
        &mut self,
        next_link: N,
        mode_at: M,
    ) -> (r: Result<Option<OutputMode<'parent>>, WlrError>)
        requires
            old(self)@.parent.target is Some ==> next_link.requires((old(self)@.current,)),
            forall|link: usize|
                old(self)@.parent.target is Some && #[trigger] next_link.ensures(
                    (old(self)@.current,),
                    link,
                ) && !old(self)@.ends_at(link) ==> mode_at.requires((link,)),
        ensures
            match old(self)@.parent.target {
                Some(_) => exists|link: usize| #[trigger]
                    next_link.ensures((old(self)@.current,), link) && final(self)@ == old(
                        self,
                    )@.follow(link) && if old(self)@.ends_at(link) {
                        yields(r, None, old(self)@.parent)
                    } else {
                        exists|mode: WlrOutputMode| #[trigger]
                            mode_at.ensures((link,), mode) && yields(
                                r,
                                Some(mode),
                                old(self)@.parent,
                            )
                    },
                None => use_of_destroyed(r, WlrOutput::kind()) && final(self)@ == old(self)@,
            },
    {
        if let Err(e) = self.parent.try_as_ptr() {
            return Err(e);
        }
        let link = next_link(self.current);
        if link == self.head {
            Ok(None)
        } else {
            self.current = link;
            let mode = mode_at(link);
            Ok(Some(OutputMode::new(mode, self.parent)))
        }
    }
}

impl Output {
    /// Wraps an output that the native library has handed over.
    pub fn from_ptr(
        ptr: WlrOutput,
        destroy_listener: ListenerToken,
        bridge: &mut Bridge,
    ) -> (output: Output)
        ensures
            output@ == HandleState::fresh(ptr, destroy_listener),
            final(bridge)@ == old(bridge)@.push(
                HandleState::own_subscription(ptr, destroy_listener),
            ),
    {
        Output(Handle::new(ptr, destroy_listener, bridge))
    }

    /// The handle of the native output.
    pub fn handle(&self) -> (handle: &Handle<WlrOutput>)
        ensures
            handle@ == self@,
    {
        &self.0
    }

    /// The handle of the native output, for the delivery of its destroy
    /// notification.
    pub fn handle_mut(&mut self) -> (handle: &mut Handle<WlrOutput>)
        ensures
            handle@ == old(self)@,
            final(self)@ == final(handle)@,
    {
        &mut self.0
    }

    /// A walk over the modes of the output, from the start of the list.
    /// Every call starts a walk of its own. Fails if the output has been
    /// destroyed.
    pub fn modes(&self) -> (r: Result<OutputModeIterator<'_>, WlrError>)
        ensures
            match self@.target {
                Some(ptr) => r is Ok && r->Ok_0@ == Walk::start(ptr, self@),
                None => use_of_destroyed(r, WlrOutput::kind()),
            },
    {
        match self.0.try_as_ptr() {
            Ok(ptr) => Ok(
                OutputModeIterator { current: ptr.modes, head: ptr.modes, parent: &self.0 },
            ),
            Err(e) => Err(e),
        }
    }

    /// The mode that the device prefers, as the native library reports it
    /// through `preferred`, or `None` if the device names none. Fails,
    /// without calling `preferred`, if the output has been destroyed.
    pub fn preferred_mode<F: FnOnce(WlrOutput) -> Option<WlrOutputMode>>(
        &self,
        preferred: F,
    ) -> (r: Result<Option<OutputMode<'_>>, WlrError>)
        requires
            self@.target is Some ==> preferred.requires((self@.target->Some_0,)),
        ensures
            match self@.target {
                Some(ptr) => exists|found: Option<WlrOutputMode>| #[trigger]
                    preferred.ensures((ptr,), found) && yields(r, found, self@),
                None => use_of_destroyed(r, WlrOutput::kind()),
            },
    {
        let ptr = match self.0.try_as_ptr() {
            Ok(ptr) => ptr,
            Err(e) => { return Err(e); },
        };
        match preferred(ptr) {
            Some(mode) => Ok(Some(OutputMode::new(mode, &self.0))),
            None => Ok(None),
        }
    }

    /// Selects `mode` for the next commit, through `select`. Fails, without
    /// calling `select`, if this output or the output of the mode has been
    /// destroyed.
    pub fn set_mode<F: FnOnce(WlrOutput, WlrOutputMode)>(
        &self,
        mode: OutputMode<'_>,
        select: F,
    ) -> (r: Result<(), WlrError>)
        requires
            self@.target is Some && mode.parent().target is Some ==> select.requires(
                (self@.target->Some_0, mode.reference()),
            ),
        ensures
            match (self@.target, mode.parent().target) {
                (Some(ptr), Some(_)) => r is Ok && select.ensures((ptr, mode.reference()), ()),
                _ => use_of_destroyed(r, WlrOutput::kind()),
            },
    {
        let ptr = match self.0.try_as_ptr() {
            Ok(ptr) => ptr,
            Err(e) => { return Err(e); },
        };
        let mode = match mode.try_as_ptr() {
            Ok(mode) => mode,
            Err(e) => { return Err(e); },
        };
        select(ptr, mode);
        Ok(())
    }

    /// Switches the output on or off for the next commit, through `switch`.
    /// Fails, without calling `switch`, if the output has been destroyed.
    pub fn enable<F: FnOnce(WlrOutput, bool)>(&self, enable: bool, switch: F) -> (r: Result<
        (),
        WlrError,
    >)
        requires
            self@.target is Some ==> switch.requires((self@.target->Some_0, enable)),
        ensures
            match self@.target {
                Some(ptr) => r is Ok && switch.ensures((ptr, enable), ()),
                None => use_of_destroyed(r, WlrOutput::kind()),
            },
    {
        let ptr = match self.0.try_as_ptr() {
            Ok(ptr) => ptr,
            Err(e) => { return Err(e); },
        };
        switch(ptr, enable);
        Ok(())
    }

    /// Applies what was selected, through `commit`. Fails, without calling
    /// `commit`, if the output has been destroyed, and with the name of the
    /// native operation if that returns `false`.
    pub fn commit<F: FnOnce(WlrOutput) -> bool>(&self, commit: F) -> (r: Result<(), WlrError>)
        requires
            self@.target is Some ==> commit.requires((self@.target->Some_0,)),
        ensures
            match self@.target {
                Some(ptr) => exists|ok: bool| #[trigger]
                    commit.ensures((ptr,), ok) && completed(ok, "wlr_output_commit"@, r),
                None => use_of_destroyed(r, WlrOutput::kind()),
            },
    {
        let ptr = match self.0.try_as_ptr() {
            Ok(ptr) => ptr,
            Err(e) => { return Err(e); },
        };
        check_call(commit(ptr), "wlr_output_commit")
    }

    /// Prepares the output for drawing with `allocator` and `renderer`,
    /// through `init`. Fails, without calling `init`, if the output, the
    /// allocator or the renderer has been destroyed, and names the first of
    /// them that has; fails with the name of the native operation if that
    /// returns `false`.
    pub fn init_render<F: FnOnce(WlrOutput, WlrAllocator, WlrRenderer) -> bool>(
        &mut self,
        allocator: &Allocator,
        renderer: &Renderer,
        init: F,
    ) -> (r: Result<(), WlrError>)
        requires
            old(self)@.target is Some && allocator@.target is Some && renderer@.target is Some
                ==> init.requires(
                (old(self)@.target->Some_0, allocator@.target->Some_0, renderer@.target->Some_0),
            ),
        ensures
            final(self)@ == old(self)@,
            match (old(self)@.target, allocator@.target, renderer@.target) {
                (Some(ptr), Some(al), Some(rd)) => exists|ok: bool| #[trigger]
                    init.ensures((ptr, al, rd), ok) && completed(
                        ok,
                        "wlr_output_init_render"@,
                        r,
                    ),
                (None, _, _) => use_of_destroyed(r, WlrOutput::kind()),
                (Some(_), None, _) => use_of_destroyed(r, WlrAllocator::kind()),
                (Some(_), Some(_), None) => use_of_destroyed(r, WlrRenderer::kind()),
            },
    {
        let output = match self.0.try_as_ptr() {
            Ok(ptr) => ptr,
            Err(e) => { return Err(e); },
        };
        let allocator = match allocator.handle().try_as_ptr() {
            Ok(ptr) => ptr,
            Err(e) => { return Err(e); },
        };
        let renderer = match renderer.handle().try_as_ptr() {
            Ok(ptr) => ptr,
            Err(e) => { return Err(e); },
        };
        check_call(init(output, allocator, renderer), "wlr_output_init_render")
    }

    /// Registers the listener `token` for the output's frame event, which
    /// carries no payload.
    pub fn on_frame(&mut self, token: ListenerToken, bridge: &mut Bridge) -> (r: Result<
        (),
        WlrError,
    >)
        ensures
            registered(
                old(self)@,
                Event::Frame,
                token,
                final(self)@,
                old(bridge)@,
                final(bridge)@,
                r,
            ),
    {
        self.0.listen(Event::Frame, token, bridge)
    }

    /// The end of the wrapper. Every listener that it still has is taken
    /// off its signal and returned for release. The native output is left
    /// to the library.
    pub fn release(self, bridge: &mut Bridge) -> (released: Released)
        ensures
            released.listeners@ == self@.listeners,
            released.destroy_listener == self@.own_listener(),
            final(bridge)@ == without(old(bridge)@, released.tokens()),
    {
        self.0.teardown(bridge)
    }
}

} // verus!
