//! The listener bridge: the table of every listener that the wrappers have
//! subscribed to a native signal.
//!
//! A native signal keeps its subscribers in a list of its own and invokes
//! them in the order in which they subscribed. The bridge records the same
//! subscriptions as plain values, so that what is attached, in which order it
//! fires and what is left after a removal can be stated and proved.

use vstd::prelude::*;

verus! {

/// An event that a native object announces to its listeners.
#[derive(Clone, Copy, Debug, PartialEq, Eq, Structural)]
pub enum Event {
    /// The object is about to be freed.
    Destroy,
    /// A backend has found a new output device.
    NewOutput,
    /// An output is ready to draw a frame.
    Frame,
    /// A shell has been given a new surface.
    NewSurface,
    /// A surface did not answer a ping in time.
    PingTimeout,
    /// A surface has been given a new popup.
    NewPopup,
}

/// A native signal: one event of the object at one address.
#[derive(Clone, Copy, Debug, PartialEq, Eq, Structural)]
pub struct Signal {
    pub object: usize,
    pub event: Event,
}

/// The shape of a callback. Each shape is served by one trampoline.
#[derive(Clone, Copy, Debug, PartialEq, Eq, Structural)]
pub enum Shape {
    /// Invalidates the handle that subscribed it.
    Destroy,
    /// Calls a boxed closure with the payload of the event.
    General,
}

/// A listener: the address of the native listener record and the address of
/// the callback data that the record owns. It stands for one subscription
/// and is released once, record and data together.
#[derive(Clone, Copy, Debug, PartialEq, Eq, Structural)]
pub struct ListenerToken {
    pub listener: usize,
    pub data: usize,
}

/// One entry of the bridge: `token` listens on `signal` with a callback of
/// shape `shape`.
#[derive(Clone, Copy, Debug, PartialEq, Eq, Structural)]
pub struct Subscription {
    pub signal: Signal,
    pub shape: Shape,
    pub token: ListenerToken,
}

/// The subscriptions of `subs` on `signal`, in the order of `subs`.
pub open spec fn subscribers(subs: Seq<Subscription>, signal: Signal) -> Seq<Subscription>
    decreases subs.len(),
{
    if subs.len() == 0 {
        Seq::empty()
    } else if subs.last().signal == signal {
        subscribers(subs.drop_last(), signal).push(subs.last())
    } else {
        subscribers(subs.drop_last(), signal)
    }
}

/// What is left of `subs`, in order, once every subscription of a token in
/// `tokens` is removed.
pub open spec fn without(subs: Seq<Subscription>, tokens: Seq<ListenerToken>) -> Seq<Subscription>
    decreases subs.len(),
{
    if subs.len() == 0 {
        Seq::empty()
    } else if tokens.contains(subs.last().token) {
        without(subs.drop_last(), tokens)
    } else {
        without(subs.drop_last(), tokens).push(subs.last())
    }
}

/// Whether `token` has a subscription in `subs`.
pub open spec fn attached(subs: Seq<Subscription>, token: ListenerToken) -> bool {
    exists|i: int| 0 <= i < subs.len() && (#[trigger] subs[i]).token == token
}

/// One more subscription on `signal` comes last among its subscribers; the
/// subscribers of every other signal stay as they are.
pub proof fn lemma_subscribers_push(subs: Seq<Subscription>, sub: Subscription, signal: Signal)
    ensures
        subscribers(subs.push(sub), signal) == if sub.signal == signal {
            subscribers(subs, signal).push(sub)
        } else {
            subscribers(subs, signal)
        },
{
    assert(subs.push(sub).drop_last() == subs);
}

/// Removing tokens from a table with one more entry.
pub proof fn lemma_without_push(
    subs: Seq<Subscription>,
    sub: Subscription,
    tokens: Seq<ListenerToken>,
)
    ensures
        without(subs.push(sub), tokens) == if tokens.contains(sub.token) {
            without(subs, tokens)
        } else {
            without(subs, tokens).push(sub)
        },
{
    assert(subs.push(sub).drop_last() == subs);
}

/// Every entry that is left after a removal was there before, and its token
/// is none of the removed ones.
pub proof fn lemma_without_keeps(subs: Seq<Subscription>, tokens: Seq<ListenerToken>)
    ensures
        forall|i: int|
            0 <= i < without(subs, tokens).len() ==> subs.contains(
                #[trigger] without(subs, tokens)[i],
            ) && !tokens.contains(without(subs, tokens)[i].token),
    decreases subs.len(),
{
    if subs.len() > 0 {
        lemma_without_keeps(subs.drop_last(), tokens);
        let rest = without(subs.drop_last(), tokens);
        assert forall|i: int| 0 <= i < without(subs, tokens).len() implies subs.contains(
            #[trigger] without(subs, tokens)[i],
        ) && !tokens.contains(without(subs, tokens)[i].token) by {
            if i < rest.len() {
                let j = choose|j: int|
                    0 <= j < subs.drop_last().len() && subs.drop_last()[j] == rest[i];
                assert(subs[j] == rest[i]);
            } else {
                assert(without(subs, tokens)[i] == subs[subs.len() - 1]);
            }
        }
    }
}

/// After a removal none of the removed tokens is attached.
pub proof fn lemma_without_detaches(
    subs: Seq<Subscription>,
    tokens: Seq<ListenerToken>,
    token: ListenerToken,
)
    requires
        tokens.contains(token),
    ensures
        !attached(without(subs, tokens), token),
{
    lemma_without_keeps(subs, tokens);
}

/// A removal leaves the subscriptions of every other token alone: one that
/// was attached stays attached.
pub proof fn lemma_without_spares(
    subs: Seq<Subscription>,
    tokens: Seq<ListenerToken>,
    token: ListenerToken,
)
    requires
        !tokens.contains(token),
        attached(subs, token),
    ensures
        attached(without(subs, tokens), token),
    decreases subs.len(),
{
    let i = choose|i: int| 0 <= i < subs.len() && (#[trigger] subs[i]).token == token;
    let rest = without(subs.drop_last(), tokens);
    if i == subs.len() - 1 {
        let kept = without(subs, tokens);
        assert(kept[kept.len() - 1].token == token);
    } else {
        assert(subs.drop_last()[i].token == token);
        lemma_without_spares(subs.drop_last(), tokens, token);
        let j = choose|j: int| 0 <= j < rest.len() && (#[trigger] rest[j]).token == token;
        assert(without(subs, tokens)[j].token == token);
    }
}

/// Two removals in a row come to one removal of both sets of tokens.
pub proof fn lemma_without_twice(
    subs: Seq<Subscription>,
    first: Seq<ListenerToken>,
    second: Seq<ListenerToken>,
)
    ensures
        without(without(subs, first), second) == without(subs, first + second),
    decreases subs.len(),
{
    if subs.len() > 0 {
        let last = subs.last();
        lemma_without_twice(subs.drop_last(), first, second);
        if first.contains(last.token) {
            let i = choose|i: int| 0 <= i < first.len() && first[i] == last.token;
            assert((first + second)[i] == last.token);
        } else {
            lemma_without_push(without(subs.drop_last(), first), last, second);
            if second.contains(last.token) {
                let i = choose|i: int| 0 <= i < second.len() && second[i] == last.token;
                assert((first + second)[first.len() + i] == last.token);
            }
        }
    }
}

/// The table of subscriptions, in the order in which they were made.
pub struct Bridge {
    subscriptions: Vec<Subscription>,
}

impl View for Bridge {
    type V = Seq<Subscription>;

    closed spec fn view(&self) -> Seq<Subscription> {
        self.subscriptions@
    }
}

/// Whether `token` occurs in `tokens`.
pub fn holds_token(tokens: &Vec<ListenerToken>, token: ListenerToken) -> (found: bool)
    ensures
        found == tokens@.contains(token),
{
    let mut i: usize = 0;
    while i < tokens.len()
        invariant
            i <= tokens.len(),
            forall|j: int| 0 <= j < i ==> tokens@[j] != token,
        decreases tokens.len() - i,
    {
        if tokens[i] == token {
            return true;
        }
        i += 1;
    }
    false
}

impl Bridge {
    /// A bridge with no subscription.
    pub fn new() -> (bridge: Bridge)
        ensures
            bridge@ == Seq::<Subscription>::empty(),
    {
        Bridge { subscriptions: Vec::new() }
    }

    /// Records that `token` now listens on `signal`, after every listener
    /// that subscribed before.
    pub fn subscribe(&mut self, signal: Signal, shape: Shape, token: ListenerToken)
        ensures
            final(self)@ == old(self)@.push(Subscription { signal, shape, token }),
    {
        self.subscriptions.push(Subscription { signal, shape, token });
    }

    /// Removes every subscription of a token in `tokens`, and keeps the
    /// others in their order.
    pub fn unsubscribe(&mut self, tokens: &Vec<ListenerToken>)
        ensures
            final(self)@ == without(old(self)@, tokens@),
    {
        let mut kept: Vec<Subscription> = Vec::new();
        let mut i: usize = 0;
        while i < self.subscriptions.len()
            invariant
                i <= self.subscriptions.len(),
                self.subscriptions@ == old(self).subscriptions@,
                kept@ == without(self.subscriptions@.take(i as int), tokens@),
            decreases self.subscriptions.len() - i,
        {
            let sub = self.subscriptions[i];
            proof {
                assert(self.subscriptions@.take(i + 1) == self.subscriptions@.take(i as int).push(
                    sub,
                ));
                lemma_without_push(self.subscriptions@.take(i as int), sub, tokens@);
            }
            if !holds_token(tokens, sub.token) {
                kept.push(sub);
            }
            i += 1;
        }
        assert(self.subscriptions@.take(i as int) == self.subscriptions@);
        self.subscriptions = kept;
    }

    /// The listeners that firing `signal` invokes, each once, in the order in
    /// which they subscribed. Firing removes none of them.
    pub fn emit(&self, signal: Signal) -> (invoked: Vec<Subscription>)
        ensures
            invoked@ == subscribers(self@, signal),
    {
        let mut invoked: Vec<Subscription> = Vec::new();
        let mut i: usize = 0;
        while i < self.subscriptions.len()
            invariant
                i <= self.subscriptions.len(),
                invoked@ == subscribers(self.subscriptions@.take(i as int), signal),
            decreases self.subscriptions.len() - i,
        {
            let sub = self.subscriptions[i];
            proof {
                assert(self.subscriptions@.take(i + 1) == self.subscriptions@.take(i as int).push(
                    sub,
                ));
                lemma_subscribers_push(self.subscriptions@.take(i as int), sub, signal);
            }
            if sub.signal == signal {
                invoked.push(sub);
            }
            i += 1;
        }
        assert(self.subscriptions@.take(i as int) == self.subscriptions@);
        invoked
    }

    /// Whether `token` is subscribed to any signal.
    pub fn is_attached(&self, token: ListenerToken) -> (found: bool)
        ensures
            found == attached(self@, token),
    {
        let mut i: usize = 0;
        while i < self.subscriptions.len()
            invariant
                i <= self.subscriptions.len(),
                forall|j: int| 0 <= j < i ==> self.subscriptions@[j].token != token,
            decreases self.subscriptions.len() - i,
        {
            if self.subscriptions[i].token == token {
                return true;
            }
            i += 1;
        }
        false
    }
}

} // verus!
