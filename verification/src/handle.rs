//! Handles: references to objects that the native library owns, which
//! refuse to be used once the library has announced the object's destruction.

use vstd::prelude::*;
use crate::bridge::{
    lemma_without_twice, without, Bridge, Event, ListenerToken, Shape, Signal, Subscription,
};
use crate::error::{check_created, plain, Failure, WlrError};

verus! {

/// A reference to a native object that announces its own destruction.
pub trait Destroyable: Copy {
    /// The address of the object.
    spec fn address(self) -> usize;

    /// The name of the object's native type.
    spec fn kind() -> Seq<char>;

    /// The signal on which the object announces that it is about to be
    /// freed.
    fn destroy_signal(&self) -> (signal: Signal)
        ensures
            signal == destroy_signal_of(self.address()),
    ;

    /// The name of the object's native type, for messages.
    fn name() -> (name: String)
        ensures
            name@ == Self::kind(),
    ;
}

/// The destroy signal of the object at `address`.
pub open spec fn destroy_signal_of(address: usize) -> Signal {
    Signal { object: address, event: Event::Destroy }
}

/// What a handle holds.
pub struct HandleState<T> {
    /// The object, until its destroy notification has fired.
    pub target: Option<T>,
    /// The listener that the handle keeps on the object's destroy signal
    /// while the object lives.
    pub destroy_listener: ListenerToken,
    /// The listeners registered through the handle and not yet released,
    /// oldest first.
    pub listeners: Seq<ListenerToken>,
}

/// What can happen to a handle between its making and its end.
pub enum HandleOp {
    /// A listener is registered on a signal through the handle.
    Register(Signal, ListenerToken),
    /// The registered listeners are released.
    Cleanup,
    /// The object's destroy notification fires.
    Destroy,
}

impl<T> HandleState<T> {
    /// The state of a handle that has just been made for `ptr`.
    pub open spec fn fresh(ptr: T, destroy_listener: ListenerToken) -> Self {
        HandleState { target: Some(ptr), destroy_listener, listeners: Seq::empty() }
    }

    /// What holds of a handle from its making to its end: once the object
    /// is gone no listener is left.
    pub open spec fn wf(self) -> bool {
        self.target is None ==> self.listeners.len() == 0
    }

    /// Whether the object lives. Only then may the reference be asked for
    /// without a test.
    pub open spec fn live(self) -> bool {
        self.target is Some
    }

    /// The state after the registration of `token`, which takes effect only
    /// while the object lives.
    pub open spec fn registering(self, token: ListenerToken) -> Self {
        if self.target is Some {
            HandleState { listeners: self.listeners.push(token), ..self }
        } else {
            self
        }
    }

    /// The state after the registered listeners were released.
    pub open spec fn cleaned(self) -> Self {
        HandleState { listeners: Seq::empty(), ..self }
    }

    /// The state after the destroy notification: no object and no listener.
    pub open spec fn destroyed(self) -> Self {
        HandleState { target: None, listeners: Seq::empty(), ..self }
    }

    /// The handle's own listener on the destroy signal, while it is there.
    pub open spec fn own_listener(self) -> Option<ListenerToken> {
        if self.target is Some {
            Some(self.destroy_listener)
        } else {
            None
        }
    }

    /// Every listener that the handle still has on some signal: those that
    /// were registered through it, oldest first, and then its own listener
    /// on the destroy signal, while the object lives.
    pub open spec fn attachments(self) -> Seq<ListenerToken> {
        match self.own_listener() {
            Some(own) => self.listeners.push(own),
            None => self.listeners,
        }
    }

    /// The state after `op`.
    pub open spec fn apply(self, op: HandleOp) -> Self {
        match op {
            HandleOp::Register(_, token) => self.registering(token),
            HandleOp::Cleanup => self.cleaned(),
            HandleOp::Destroy => self.destroyed(),
        }
    }

    /// The listeners that `op` releases.
    pub open spec fn released_by(self, op: HandleOp) -> Seq<ListenerToken> {
        match op {
            HandleOp::Register(_, _) => Seq::empty(),
            HandleOp::Cleanup => self.listeners,
            HandleOp::Destroy => self.attachments(),
        }
    }

    /// The table of subscriptions after `op`, where it was `subs` before.
    pub open spec fn subscriptions_after(self, subs: Seq<Subscription>, op: HandleOp) -> Seq<
        Subscription,
    > {
        match op {
            HandleOp::Register(signal, token) => if self.target is Some {
                subs.push(Subscription { signal, shape: Shape::General, token })
            } else {
                subs
            },
            _ => without(subs, self.released_by(op)),
        }
    }

    /// The listeners that `op` takes in.
    pub open spec fn accepted_by(self, op: HandleOp) -> Seq<ListenerToken> {
        match op {
            HandleOp::Register(_, token) => if self.target is Some {
                seq![token]
            } else {
                Seq::empty()
            },
            _ => Seq::empty(),
        }
    }

    /// The state after `ops`, first to last.
    pub open spec fn run(self, ops: Seq<HandleOp>) -> Self
        decreases ops.len(),
    {
        if ops.len() == 0 {
            self
        } else {
            self.run(ops.drop_last()).apply(ops.last())
        }
    }

    /// The table of subscriptions after `ops`, where it was `subs` before.
    pub open spec fn subscriptions_in(self, subs: Seq<Subscription>, ops: Seq<HandleOp>) -> Seq<
        Subscription,
    >
        decreases ops.len(),
    {
        if ops.len() == 0 {
            subs
        } else {
            self.run(ops.drop_last()).subscriptions_after(
                self.subscriptions_in(subs, ops.drop_last()),
                ops.last(),
            )
        }
    }

    /// The listeners that `ops` release, in the order of their release.
    pub open spec fn released_in(self, ops: Seq<HandleOp>) -> Seq<ListenerToken>
        decreases ops.len(),
    {
        if ops.len() == 0 {
            Seq::empty()
        } else {
            self.released_in(ops.drop_last()) + self.run(ops.drop_last()).released_by(ops.last())
        }
    }

    /// The listeners that `ops` take in, in the order of their
    /// registration.
    pub open spec fn accepted_in(self, ops: Seq<HandleOp>) -> Seq<ListenerToken>
        decreases ops.len(),
    {
        if ops.len() == 0 {
            Seq::empty()
        } else {
            self.accepted_in(ops.drop_last()) + self.run(ops.drop_last()).accepted_by(ops.last())
        }
    }
}

impl<T: Destroyable> HandleState<T> {
    /// What an access through the handle gives: the object while it lives,
    /// the failure that names its type afterwards.
    pub open spec fn access(self) -> Result<T, Failure> {
        match self.target {
            Some(ptr) => Ok(ptr),
            None => Err(Failure::ObjectDestroyed(T::kind())),
        }
    }

    /// What an access to a part of the object gives: `part` while the
    /// object lives, the failure that names the object's type afterwards.
    pub open spec fn access_to<P>(self, part: P) -> Result<P, Failure> {
        match self.target {
            Some(_) => Ok(part),
            None => Err(Failure::ObjectDestroyed(T::kind())),
        }
    }

    /// The subscription of the handle's own listener to the object's
    /// destroy signal.
    pub open spec fn own_subscription(ptr: T, destroy_listener: ListenerToken) -> Subscription {
        Subscription {
            signal: destroy_signal_of(ptr.address()),
            shape: Shape::Destroy,
            token: destroy_listener,
        }
    }
}

/// What a constructor hands back, as plain values: the state of the new
/// wrapper, or the failure.
pub open spec fn outcome<W: View>(r: Result<W, WlrError>) -> Result<W::V, Failure> {
    match r {
        Ok(wrapper) => Ok(wrapper@),
        Err(e) => Err(e@),
    }
}

/// What a wrapper makes of the reference `created` that the native
/// constructor `operation` returned. Null is the failure of that
/// constructor, and nothing is subscribed. Anything else is wrapped in a new
/// handle, whose listener `destroy_listener` is subscribed to the object's
/// destroy signal.
pub open spec fn wrapped<T: Destroyable>(
    created: Option<T>,
    operation: Seq<char>,
    destroy_listener: ListenerToken,
    before: Seq<Subscription>,
    after: Seq<Subscription>,
    result: Result<HandleState<T>, Failure>,
) -> bool {
    match created {
        Some(ptr) => result == Ok::<HandleState<T>, Failure>(
            HandleState::fresh(ptr, destroy_listener),
        ) && after == before.push(HandleState::own_subscription(ptr, destroy_listener)),
        None => result == Err::<HandleState<T>, Failure>(Failure::CallFailed(operation))
            && after == before,
    }
}

/// What registering `token` for `event` through a handle in state `before`
/// comes to. While the object lives the token is subscribed to that event of
/// the object, last, and the handle keeps it. Afterwards the registration
/// fails and changes nothing.
pub open spec fn registered<T: Destroyable>(
    before: HandleState<T>,
    event: Event,
    token: ListenerToken,
    after: HandleState<T>,
    subs_before: Seq<Subscription>,
    subs_after: Seq<Subscription>,
    r: Result<(), WlrError>,
) -> bool {
    &&& after == before.registering(token)
    &&& plain(r) == before.access_to(())
    &&& subs_after == match before.target {
        Some(ptr) => subs_before.push(
            Subscription {
                signal: Signal { object: ptr.address(), event },
                shape: Shape::General,
                token,
            },
        ),
        None => subs_before,
    }
}

/// The listeners that a handle has let go of. The caller unlinks each of
/// them from its native signal and frees its record and the callback data
/// that the record owns, once.
pub struct Released {
    /// The listeners that were registered through the handle, oldest first.
    pub listeners: Vec<ListenerToken>,
    /// The handle's own listener on the destroy signal, if it was still
    /// there.
    pub destroy_listener: Option<ListenerToken>,
}

impl Released {
    /// All that was let go of, in one sequence: the registered listeners,
    /// oldest first, and then the handle's own.
    pub open spec fn tokens(self) -> Seq<ListenerToken> {
        match self.destroy_listener {
            Some(own) => self.listeners@.push(own),
            None => self.listeners@,
        }
    }
}

/// A reference to an object that the native library allocates and frees.
///
/// The library announces on the object's destroy signal that it is about to
/// free it. The handle listens there; once the notification has fired the
/// handle holds no reference any more, and every access fails.
///
/// The handle never frees the object. Its own end is [`Handle::teardown`],
/// which lets go of the listeners that it still has; a handle that is merely
/// dropped leaves them in the bridge.
pub struct Handle<T: Destroyable> {
    ptr: Option<T>,
    destroy_listener: ListenerToken,
    listeners: Vec<ListenerToken>,
}

impl<T: Destroyable> View for Handle<T> {
    type V = HandleState<T>;

    closed spec fn view(&self) -> HandleState<T> {
        HandleState {
            target: self.ptr,
            destroy_listener: self.destroy_listener,
            listeners: self.listeners@,
        }
    }
}

impl<T: Destroyable> Handle<T> {
    /// Makes the handle of the object `ptr` and subscribes
    /// `destroy_listener` to the object's destroy signal.
    pub fn new(ptr: T, destroy_listener: ListenerToken, bridge: &mut Bridge) -> (handle: Self)
        ensures
            handle@ == HandleState::fresh(ptr, destroy_listener),
            final(bridge)@ == old(bridge)@.push(
                HandleState::own_subscription(ptr, destroy_listener),
            ),
    {
        let signal = ptr.destroy_signal();
        bridge.subscribe(signal, Shape::Destroy, destroy_listener);
        Handle { ptr: Some(ptr), destroy_listener, listeners: Vec::new() }
    }

    /// Wraps what the native constructor `operation` returned: a handle of
    /// the new object, or the failure of the constructor if it returned
    /// null.
    pub fn wrap(
        created: Option<T>,
        operation: &str,
        destroy_listener: ListenerToken,
        bridge: &mut Bridge,
    ) -> (r: Result<Self, WlrError>)
        ensures
            wrapped(
                created,
                operation@,
                destroy_listener,
                old(bridge)@,
                final(bridge)@,
                outcome(r),
            ),
    {
        match check_created(created, operation) {
            Ok(ptr) => Ok(Handle::new(ptr, destroy_listener, bridge)),
            Err(e) => Err(e),
        }
    }

    /// The reference to the object. The object must not have been
    /// destroyed: a caller that cannot show that asks with
    /// [`Handle::try_as_ptr`] and stops on its failure.
    pub fn as_ptr(&self) -> (ptr: T)
        requires
            self@.live(),
        ensures
            self@.target == Some(ptr),
    {
        self.ptr.unwrap()
    }

    /// The reference to the object, or the failure that names its type if
    /// the object has been destroyed.
    pub fn try_as_ptr(&self) -> (r: Result<T, WlrError>)
        ensures
            plain(r) == self@.access(),
    {
        match self.ptr {
            Some(ptr) => Ok(ptr),
            None => Err(WlrError::ObjectDestroyed(T::name())),
        }
    }

    /// Registers the listener `token` on `signal`, after the listeners that
    /// are already there, and keeps the token for its release. Fails, and
    /// registers nothing, if the object has been destroyed.
    pub fn add_listener(&mut self, signal: Signal, token: ListenerToken, bridge: &mut Bridge) -> (r:
        Result<(), WlrError>)
        ensures
            final(self)@ == old(self)@.registering(token),
            plain(r) == old(self)@.access_to(()),
            final(bridge)@ == if old(self)@.target is Some {
                old(bridge)@.push(Subscription { signal, shape: Shape::General, token })
            } else {
                old(bridge)@
            },
    {
        if self.ptr.is_none() {
            return Err(WlrError::ObjectDestroyed(T::name()));
        }
        bridge.subscribe(signal, Shape::General, token);
        self.listeners.push(token);
        Ok(())
    }

    /// Registers the listener `token` for `event` of the handle's own
    /// object.
    pub fn listen(&mut self, event: Event, token: ListenerToken, bridge: &mut Bridge) -> (r: Result<
        (),
        WlrError,
    >)
        ensures
            registered(
                old(self)@,
                event,
                token,
                final(self)@,
                old(bridge)@,
                final(bridge)@,
                r,
            ),
    {
        match self.ptr {
            Some(ptr) => {
                let signal = Signal { object: ptr.destroy_signal().object, event };
                self.add_listener(signal, token, bridge)
            },
            None => Err(WlrError::ObjectDestroyed(T::name())),
        }
    }

    /// The destroy notification of the object. The handle drops its
    /// reference for good, and every listener that it still has is taken
    /// off its signal and handed out for release.
    pub fn on_destroy(&mut self, bridge: &mut Bridge) -> (released: Released)
        ensures
            final(self)@ == old(self)@.destroyed(),
            released.listeners@ == old(self)@.listeners,
            released.destroy_listener == old(self)@.own_listener(),
            final(bridge)@ == without(old(bridge)@, released.tokens()),
    {
        let mut listeners: Vec<ListenerToken> = Vec::new();
        std::mem::swap(&mut listeners, &mut self.listeners);
        bridge.unsubscribe(&listeners);
        let destroy_listener = match self.ptr {
            Some(_) => {
                let mut own: Vec<ListenerToken> = Vec::new();
                own.push(self.destroy_listener);
                bridge.unsubscribe(&own);
                proof {
                    lemma_without_twice(old(bridge)@, listeners@, own@);
                    assert(listeners@ + own@ == listeners@.push(self.destroy_listener));
                }
                Some(self.destroy_listener)
            },
            None => None,
        };
        self.ptr = None;
        Released { listeners, destroy_listener }
    }

    /// Takes the listeners that were registered through the handle off
    /// their signals and hands them out for release, oldest first. The
    /// handle's own listener on the destroy signal stays.
    pub fn cleanup_listeners(&mut self, bridge: &mut Bridge) -> (released: Vec<ListenerToken>)
        ensures
            final(self)@ == old(self)@.cleaned(),
            released@ == old(self)@.listeners,
            final(bridge)@ == without(old(bridge)@, released@),
    {
        let mut released: Vec<ListenerToken> = Vec::new();
        std::mem::swap(&mut released, &mut self.listeners);
        bridge.unsubscribe(&released);
        released
    }

    /// The end of the handle. Every listener that it still has is taken off
    /// its signal and handed out for release. The object itself is left to
    /// the native library.
    pub fn teardown(self, bridge: &mut Bridge) -> (released: Released)
        ensures
            released.listeners@ == self@.listeners,
            released.destroy_listener == self@.own_listener(),
            final(bridge)@ == without(old(bridge)@, released.tokens()),
    {
        let mut handle = self;
        handle.on_destroy(bridge)
    }
}

/// A reference to a part of a native object. The part lives exactly as long
/// as the object, so the reference is good exactly as long as the handle of
/// the object, its parent, is.
pub struct ChildHandle<'parent, T: Copy, P: Destroyable> {
    ptr: T,
    parent: &'parent Handle<P>,
}

impl<'parent, T: Copy, P: Destroyable> ChildHandle<'parent, T, P> {
    /// The reference to the part, whatever the state of the parent.
    pub closed spec fn reference(&self) -> T {
        self.ptr
    }

    /// The state of the parent.
    pub closed spec fn parent(&self) -> HandleState<P> {
        self.parent@
    }

    /// The reference `ptr` to a part of the object of `parent`.
    pub fn new(ptr: T, parent: &'parent Handle<P>) -> (child: Self)
        ensures
            child.reference() == ptr,
            child.parent() == parent@,
    {
        ChildHandle { ptr, parent }
    }

    /// The reference to the part. The parent must not have been destroyed:
    /// a caller that cannot show that asks with [`ChildHandle::try_as_ptr`]
    /// and stops on its failure.
    pub fn as_ptr(&self) -> (ptr: T)
        requires
            self.parent().live(),
        ensures
            ptr == self.reference(),
    {
        let _ = self.parent.as_ptr();
        self.ptr
    }

    /// The reference to the part, or the failure that names the parent's
    /// type if the parent has been destroyed.
    pub fn try_as_ptr(&self) -> (r: Result<T, WlrError>)
        ensures
            plain(r) == self.parent().access_to(self.reference()),
    {
        match self.parent.try_as_ptr() {
            Ok(_) => Ok(self.ptr),
            Err(e) => Err(e),
        }
    }
}

} // verus!
