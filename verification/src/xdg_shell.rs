//! The shell: the native global through which clients turn surfaces into
//! windows and popups.

use vstd::prelude::*;
use crate::bridge::{without, Bridge, Event, ListenerToken, Signal};
use crate::error::WlrError;
use crate::handle::{
    outcome, registered, wrapped, ChildHandle, Destroyable, Handle,
    HandleState, Released,
};

verus! {

/// A reference to a native shell.
#[derive(Clone, Copy, Debug, PartialEq, Eq, Structural)]
pub struct WlrXdgShell(pub usize);

impl Destroyable for WlrXdgShell {
    open spec fn address(self) -> usize {
        self.0
    }

    open spec fn kind() -> Seq<char> {
        "wlr_xdg_shell"@
    }

    fn destroy_signal(&self) -> Signal {
        Signal { object: self.0, event: Event::Destroy }
    }

    fn name() -> String {
        "wlr_xdg_shell".to_owned()
    }
}

/// A reference to the toplevel part of a native shell surface.
#[derive(Clone, Copy, Debug, PartialEq, Eq, Structural)]
pub struct WlrXdgToplevel(pub usize);

/// A reference to a plain native surface.
#[derive(Clone, Copy, Debug, PartialEq, Eq, Structural)]
pub struct WlrSurface(pub usize);

/// A reference to a native shell surface: its address, its toplevel part if
/// it has one, and the surface that it pops up from if it has none.
#[derive(Clone, Copy, Debug, PartialEq, Eq, Structural)]
pub struct WlrXdgSurface {
    pub address: usize,
    pub toplevel: Option<WlrXdgToplevel>,
    pub parent: Option<WlrSurface>,
}

impl Destroyable for WlrXdgSurface {
    open spec fn address(self) -> usize {
        self.address
    }

    open spec fn kind() -> Seq<char> {
        "wlr_xdg_surface"@
    }

    fn destroy_signal(&self) -> Signal {
        Signal { object: self.address, event: Event::Destroy }
    }

    fn name() -> String {
        "wlr_xdg_surface".to_owned()
    }
}

/// A shell, bound to the server's display.
pub struct XdgShell(Handle<WlrXdgShell>);

impl View for XdgShell {
    type V = HandleState<WlrXdgShell>;

    closed spec fn view(&self) -> HandleState<WlrXdgShell> {
        self.0@
    }
}

impl XdgShell {
    /// Has the native library create the shell in `version` of its
    /// protocol on the server's display, through `create`, and wraps it.
    /// Fails with the name of the constructor if the library returns null.
    pub fn new<F: FnOnce(u32) -> Option<WlrXdgShell>>(
        version: u32,
        destroy_listener: ListenerToken,
        bridge: &mut Bridge,
        create: F,
    ) -> (r: Result<XdgShell, WlrError>)
        requires
            create.requires((version,)),
        ensures
            exists|created: Option<WlrXdgShell>| #[trigger]
                create.ensures((version,), created) && wrapped(
                    created,
                    "wlr_xdg_shell_create"@,
                    destroy_listener,
                    old(bridge)@,
                    final(bridge)@,
                    outcome(r),
                ),
    {
        let created = create(version);
        match Handle::wrap(created, "wlr_xdg_shell_create", destroy_listener, bridge) {
            Ok(handle) => Ok(XdgShell(handle)),
            Err(e) => Err(e),
        }
    }

    /// The handle of the native shell.
    pub fn handle(&self) -> (handle: &Handle<WlrXdgShell>)
        ensures
            handle@ == self@,
    {
        &self.0
    }

    /// The handle of the native shell, for the delivery of its destroy
    /// notification.
    pub fn handle_mut(&mut self) -> (handle: &mut Handle<WlrXdgShell>)
        ensures
            handle@ == old(self)@,
            final(self)@ == final(handle)@,
    {
        &mut self.0
    }

    /// Registers the listener `token` for the shell's announcement of a new
    /// surface. The payload of that event is the reference to the new
    /// surface.
    pub fn on_new_surface(&mut self, token: ListenerToken, bridge: &mut Bridge) -> (r: Result<
        (),
        WlrError,
    >)
        ensures
            registered(
                old(self)@,
                Event::NewSurface,
                token,
                final(self)@,
                old(bridge)@,
                final(bridge)@,
                r,
            ),
    {
        self.0.listen(Event::NewSurface, token, bridge)
    }

    /// The end of the wrapper. Every listener that it still has is taken
    /// off its signal and returned for release. The native shell is left to
    /// the library.
    pub fn release(self, bridge: &mut Bridge) -> (released: Released)
        ensures
            released.listeners@ == self@.listeners,
            released.destroy_listener == self@.own_listener(),
            final(bridge)@ == without(old(bridge)@, released.tokens()),
    {
        self.0.teardown(bridge)
    }
}

/// A shell surface that is a window of its own.
pub struct XdgSurfaceToplevel {
    surf: Handle<WlrXdgSurface>,
    toplevel: WlrXdgToplevel,
}

/// A shell surface that pops up from another surface.
pub struct XdgSurfacePopup {
    surf: Handle<WlrXdgSurface>,
    parent: Option<WlrSurface>,
}

/// A shell surface, in one of its two roles.
pub enum XdgSurface {
    /// A window of its own, with its toplevel part.
    XdgSurfaceToplevel(XdgSurfaceToplevel),
    /// A popup, with the surface that it pops up from.
    XdgSurfacePopup(XdgSurfacePopup),
}

/// What a toplevel surface holds.
pub struct ToplevelState {
    /// The state of the handle of the surface.
    pub surface: HandleState<WlrXdgSurface>,
    /// The toplevel part of the surface.
    pub toplevel: WlrXdgToplevel,
}

/// What a popup holds.
pub struct PopupState {
    /// The state of the handle of the surface.
    pub surface: HandleState<WlrXdgSurface>,
    /// The surface that the popup belongs to, if the native library names
    /// one.
    pub parent: Option<WlrSurface>,
}

/// What a shell surface holds, in its role.
pub enum SurfaceState {
    /// A window of its own.
    Toplevel(ToplevelState),
    /// A popup.
    Popup(PopupState),
}

impl SurfaceState {
    /// The state of a surface that has just been wrapped. A surface with a
    /// toplevel part is a toplevel, and every other one is a popup of its
    /// parent.
    pub open spec fn fresh(ptr: WlrXdgSurface, destroy_listener: ListenerToken) -> SurfaceState {
        match ptr.toplevel {
            Some(toplevel) => SurfaceState::Toplevel(
                ToplevelState { surface: HandleState::fresh(ptr, destroy_listener), toplevel },
            ),
            None => SurfaceState::Popup(
                PopupState {
                    surface: HandleState::fresh(ptr, destroy_listener),
                    parent: ptr.parent,
                },
            ),
        }
    }

    /// The state of the handle of the surface.
    pub open spec fn handle(self) -> HandleState<WlrXdgSurface> {
        match self {
            SurfaceState::Toplevel(state) => state.surface,
            SurfaceState::Popup(state) => state.surface,
        }
    }

    /// The same surface in the same role, with its handle in the state
    /// `handle`.
    pub open spec fn with_handle(self, handle: HandleState<WlrXdgSurface>) -> SurfaceState {
        match self {
            SurfaceState::Toplevel(state) => SurfaceState::Toplevel(
                ToplevelState { surface: handle, ..state },
            ),
            SurfaceState::Popup(state) => SurfaceState::Popup(
                PopupState { surface: handle, ..state },
            ),
        }
    }
}

impl View for XdgSurfaceToplevel {
    type V = ToplevelState;

    closed spec fn view(&self) -> ToplevelState {
        ToplevelState { surface: self.surf@, toplevel: self.toplevel }
    }
}

impl View for XdgSurfacePopup {
    type V = PopupState;

    closed spec fn view(&self) -> PopupState {
        PopupState { surface: self.surf@, parent: self.parent }
    }
}

impl View for XdgSurface {
    type V = SurfaceState;

    open spec fn view(&self) -> SurfaceState {
        match self {
            XdgSurface::XdgSurfaceToplevel(surface) => SurfaceState::Toplevel(surface@),
            XdgSurface::XdgSurfacePopup(surface) => SurfaceState::Popup(surface@),
        }
    }
}

impl XdgSurfaceToplevel {
    /// The toplevel part of the surface, which is good as long as the
    /// surface is.
    pub fn toplevel(&self) -> (part: ChildHandle<'_, WlrXdgToplevel, WlrXdgSurface>)
        ensures
            part.reference() == self@.toplevel,
            part.parent() == self@.surface,
    {
        ChildHandle::new(self.toplevel, &self.surf)
    }
}

impl XdgSurfacePopup {
    /// The surface that the popup belongs to, which is good as long as the
    /// popup is.
    pub fn parent(&self) -> (origin: ChildHandle<'_, Option<WlrSurface>, WlrXdgSurface>)
        ensures
            origin.reference() == self@.parent,
            origin.parent() == self@.surface,
    {
        ChildHandle::new(self.parent, &self.surf)
    }
}

impl XdgSurface {
    /// Wraps a shell surface that the native library has handed over. A
    /// surface with a toplevel part is a toplevel, and every other one is a
    /// popup.
    pub fn from_ptr(
        ptr: WlrXdgSurface,
        destroy_listener: ListenerToken,
        bridge: &mut Bridge,
    ) -> (surface: XdgSurface)
        ensures
            surface@ == SurfaceState::fresh(ptr, destroy_listener),
            final(bridge)@ == old(bridge)@.push(
                HandleState::own_subscription(ptr, destroy_listener),
            ),
    {
        let surf = Handle::new(ptr, destroy_listener, bridge);
        match ptr.toplevel {
            Some(toplevel) => XdgSurface::XdgSurfaceToplevel(
                XdgSurfaceToplevel { surf, toplevel },
            ),
            None => XdgSurface::XdgSurfacePopup(XdgSurfacePopup { surf, parent: ptr.parent }),
        }
    }

    /// The handle of the native surface.
    pub fn handle(&self) -> (handle: &Handle<WlrXdgSurface>)
        ensures
            handle@ == self@.handle(),
    {
        match self {
            XdgSurface::XdgSurfaceToplevel(surface) => &surface.surf,
            XdgSurface::XdgSurfacePopup(surface) => &surface.surf,
        }
    }

    /// The handle of the native surface, for the delivery of its destroy
    /// notification.
    pub fn handle_mut(&mut self) -> (handle: &mut Handle<WlrXdgSurface>)
        ensures
            handle@ == old(self)@.handle(),
            final(self)@ == old(self)@.with_handle(final(handle)@),
    {
        match self {
            XdgSurface::XdgSurfaceToplevel(surface) => &mut surface.surf,
            XdgSurface::XdgSurfacePopup(surface) => &mut surface.surf,
        }
    }

    /// Registers the listener `token` for the surface's failure to answer a
    /// ping, which carries no payload.
    pub fn on_ping_timeout(&mut self, token: ListenerToken, bridge: &mut Bridge) -> (r: Result<
        (),
        WlrError,
    >)
        ensures
            registered(
                old(self)@.handle(),
                Event::PingTimeout,
                token,
                final(self)@.handle(),
                old(bridge)@,
                final(bridge)@,
                r,
            ),
            final(self)@ == old(self)@.with_handle(final(self)@.handle()),
    {
        match self {
            XdgSurface::XdgSurfaceToplevel(surface) => surface.surf.listen(
                Event::PingTimeout,
                token,
                bridge,
            ),
            XdgSurface::XdgSurfacePopup(surface) => surface.surf.listen(
                Event::PingTimeout,
                token,
                bridge,
            ),
        }
    }

    /// Registers the listener `token` for the surface's announcement of a
    /// new popup. The payload of that event is the reference to the popup.
    pub fn on_new_popup(&mut self, token: ListenerToken, bridge: &mut Bridge) -> (r: Result<
        (),
        WlrError,
    >)
        ensures
            registered(
                old(self)@.handle(),
                Event::NewPopup,
                token,
                final(self)@.handle(),
                old(bridge)@,
                final(bridge)@,
                r,
            ),
            final(self)@ == old(self)@.with_handle(final(self)@.handle()),
    {
        match self {
            XdgSurface::XdgSurfaceToplevel(surface) => surface.surf.listen(
                Event::NewPopup,
                token,
                bridge,
            ),
            XdgSurface::XdgSurfacePopup(surface) => surface.surf.listen(
                Event::NewPopup,
                token,
                bridge,
            ),
        }
    }

    /// The end of the wrapper. Every listener that it still has is taken
    /// off its signal and returned for release. The native surface is left
    /// to the library.
    pub fn release(self, bridge: &mut Bridge) -> (released: Released)
        ensures
            released.listeners@ == self@.handle().listeners,
            released.destroy_listener == self@.handle().own_listener(),
            final(bridge)@ == without(old(bridge)@, released.tokens()),
    {
        match self {
            XdgSurface::XdgSurfaceToplevel(surface) => surface.surf.teardown(bridge),
            XdgSurface::XdgSurfacePopup(surface) => surface.surf.teardown(bridge),
        }
    }
}

} // verus!
