//! What holds of handles and of the bridge over any course of events.

use vstd::prelude::*;
use vstd::multiset::Multiset;
use vstd::seq_lib::lemma_multiset_commutative;
use crate::bridge::{
    attached, lemma_subscribers_push, lemma_without_keeps, subscribers, without, ListenerToken,
    Shape, Signal, Subscription,
};
use crate::error::Failure;
use crate::handle::{wrapped, Destroyable, HandleOp, HandleState};
use crate::output::{Walk, WlrOutput};

verus! {

/// A handle is well formed when it is made, and whatever happens to a well
/// formed handle leaves it well formed.
pub proof fn lemma_handles_stay_well_formed<T>(
    ptr: T,
    destroy_listener: ListenerToken,
    state: HandleState<T>,
    op: HandleOp,
)
    ensures
        HandleState::fresh(ptr, destroy_listener).wf(),
        state.wf() ==> state.apply(op).wf(),
{
}

/// A handle without an object never gets one again.
pub proof fn lemma_no_resurrection<T>(state: HandleState<T>, ops: Seq<HandleOp>)
    requires
        state.target is None,
    ensures
        state.run(ops).target is None,
    decreases ops.len(),
{
    if ops.len() > 0 {
        lemma_no_resurrection(state, ops.drop_last());
    }
}

/// Once the destroy notification of a handle has fired, every access
/// through the handle fails, whatever has happened to the handle in
/// between. The fallible access gives the failure that names the type of
/// the object, and what the other access asks of the handle never holds
/// again, so that it cannot be called. No access gives the old reference.
pub proof fn lemma_destroyed_for_good<T: Destroyable>(state: HandleState<T>, ops: Seq<HandleOp>)
    ensures
        state.destroyed().run(ops).access() == Err::<T, Failure>(
            Failure::ObjectDestroyed(T::kind()),
        ),
        !state.destroyed().run(ops).live(),
{
    lemma_no_resurrection(state.destroyed(), ops);
}

/// While the object lives, an access through the handle gives exactly the
/// reference that the handle was made with, and an access to a part of the
/// object gives exactly the reference to the part.
pub proof fn lemma_live_access_is_exact<T: Destroyable, P>(state: HandleState<T>, part: P)
    requires
        state.live(),
    ensures
        state.access() == Ok::<T, Failure>(state.target->Some_0),
        state.access_to(part) == Ok::<P, Failure>(part),
{
}

/// Once the destroy notification of a parent has fired, every access to a
/// part of its object fails, whatever the reference to the part is and
/// whatever has happened to the parent in between. The fallible access
/// gives the failure that names the type of the parent's object, and what
/// the other access asks of the parent never holds again.
pub proof fn lemma_parts_go_with_the_parent<T: Destroyable, P>(
    parent: HandleState<T>,
    ops: Seq<HandleOp>,
    part: P,
)
    ensures
        parent.destroyed().run(ops).access_to(part) == Err::<P, Failure>(
            Failure::ObjectDestroyed(T::kind()),
        ),
        !parent.destroyed().run(ops).live(),
{
    lemma_no_resurrection(parent.destroyed(), ops);
}

/// A constructor that the native library answers with null yields the
/// failure that names the native constructor. It yields no handle, and it
/// subscribes nothing.
pub proof fn lemma_null_is_a_named_failure<T: Destroyable>(
    operation: Seq<char>,
    destroy_listener: ListenerToken,
    before: Seq<Subscription>,
    after: Seq<Subscription>,
    result: Result<HandleState<T>, Failure>,
)
    requires
        wrapped(None::<T>, operation, destroy_listener, before, after, result),
    ensures
        result == Err::<HandleState<T>, Failure>(Failure::CallFailed(operation)),
        after == before,
{
}

/// A constructor that the native library answers with a reference yields a
/// live handle of exactly that reference.
pub proof fn lemma_reference_is_wrapped<T: Destroyable>(
    ptr: T,
    operation: Seq<char>,
    destroy_listener: ListenerToken,
    before: Seq<Subscription>,
    after: Seq<Subscription>,
    result: Result<HandleState<T>, Failure>,
)
    requires
        wrapped(Some(ptr), operation, destroy_listener, before, after, result),
    ensures
        result is Ok,
        result->Ok_0.access() == Ok::<T, Failure>(ptr),
        attached(after, destroy_listener),
{
    assert(after[after.len() - 1].token == destroy_listener);
}

/// What an event releases, together with what the handle has attached
/// after it, is what the handle had attached before it together with what
/// the event takes in.
proof fn lemma_event_balanced<T>(before: HandleState<T>, op: HandleOp)
    ensures
        before.released_by(op).to_multiset().add(before.apply(op).attachments().to_multiset())
            == before.attachments().to_multiset().add(before.accepted_by(op).to_multiset()),
{
    broadcast use vstd::seq_lib::group_to_multiset_ensures;

    let none = Seq::<ListenerToken>::empty();
    let own = before.destroy_listener;
    let held = before.listeners;
    assert(none.to_multiset() =~= Multiset::empty()) by {
        lemma_multiset_commutative(none, none);
        assert(none + none == none);
    }
    match op {
        HandleOp::Register(_, token) => {
            if before.target is Some {
                assert(before.accepted_by(op) == none.push(token));
                assert(before.apply(op).attachments() == held.push(token).push(own));
                assert(before.attachments() == held.push(own));
                assert(none.to_multiset().add(held.push(token).push(own).to_multiset())
                    =~= held.push(own).to_multiset().add(none.push(token).to_multiset()));
            } else {
                assert(none.to_multiset().add(held.to_multiset()) =~= held.to_multiset().add(
                    none.to_multiset(),
                ));
            }
        },
        HandleOp::Cleanup => {
            if before.target is Some {
                assert(before.apply(op).attachments() == none.push(own));
                assert(before.attachments() == held.push(own));
                assert(held.to_multiset().add(none.push(own).to_multiset()) =~= held.push(
                    own,
                ).to_multiset().add(none.to_multiset()));
            } else {
                assert(before.apply(op).attachments() == none);
            }
        },
        HandleOp::Destroy => {
            assert(before.apply(op).attachments() == none);
        },
    }
}

/// At every moment, the listeners that a handle has released together with
/// those that it still has attached are the listeners that it had at the
/// start together with those that it has taken in since, each as often as
/// it was taken in. So once the handle has let go of what it has attached,
/// every listener that was registered has been released exactly once.
pub proof fn lemma_listeners_balanced<T>(state: HandleState<T>, ops: Seq<HandleOp>)
    ensures
        (state.released_in(ops) + state.run(ops).attachments()).to_multiset() == (
        state.attachments() + state.accepted_in(ops)).to_multiset(),
    decreases ops.len(),
{
    if ops.len() == 0 {
        assert(state.released_in(ops) + state.attachments() == state.attachments());
        assert(state.attachments() + state.accepted_in(ops) == state.attachments());
    } else {
        let before = state.run(ops.drop_last());
        let op = ops.last();
        let released = state.released_in(ops.drop_last());
        let accepted = state.accepted_in(ops.drop_last());
        lemma_listeners_balanced(state, ops.drop_last());
        lemma_event_balanced(before, op);
        lemma_multiset_commutative(released, before.attachments());
        lemma_multiset_commutative(state.attachments(), accepted);
        lemma_multiset_commutative(released, before.released_by(op));
        lemma_multiset_commutative(
            released + before.released_by(op),
            before.apply(op).attachments(),
        );
        lemma_multiset_commutative(accepted, before.accepted_by(op));
        lemma_multiset_commutative(state.attachments(), accepted + before.accepted_by(op));
        let r = released.to_multiset();
        let rb = before.released_by(op).to_multiset();
        let after = before.apply(op).attachments().to_multiset();
        let held = before.attachments().to_multiset();
        let first = state.attachments().to_multiset();
        let acc = accepted.to_multiset();
        let ab = before.accepted_by(op).to_multiset();
        assert(r.add(rb).add(after) =~= r.add(rb.add(after)));
        assert(r.add(held.add(ab)) =~= r.add(held).add(ab));
        assert(first.add(acc).add(ab) =~= first.add(acc.add(ab)));
    }
}

/// Whether `token` is attached after a removal: it was attached before and
/// is none of the removed tokens.
pub proof fn lemma_attached_after_removal(
    subs: Seq<Subscription>,
    tokens: Seq<ListenerToken>,
    token: ListenerToken,
)
    requires
        attached(without(subs, tokens), token),
    ensures
        attached(subs, token),
        !tokens.contains(token),
{
    lemma_without_keeps(subs, tokens);
    let kept = without(subs, tokens);
    let i = choose|i: int| 0 <= i < kept.len() && (#[trigger] kept[i]).token == token;
    let j = choose|j: int| 0 <= j < subs.len() && subs[j] == kept[i];
    assert(subs[j].token == token);
}

/// A listener that a handle had at the start or has taken in since is
/// attached only as long as the handle has it.
proof fn lemma_attached_is_held<T>(
    state: HandleState<T>,
    subs: Seq<Subscription>,
    ops: Seq<HandleOp>,
    token: ListenerToken,
)
    requires
        (state.attachments() + state.accepted_in(ops)).contains(token),
        attached(state.subscriptions_in(subs, ops), token),
    ensures
        state.run(ops).attachments().contains(token),
    decreases ops.len(),
{
    if ops.len() > 0 {
        let op = ops.last();
        let before = state.run(ops.drop_last());
        let subs_before = state.subscriptions_in(subs, ops.drop_last());
        let now = before.apply(op).attachments();
        match op {
            HandleOp::Register(signal, registered) => {
                if before.target is Some {
                    let sub = Subscription { signal, shape: Shape::General, token: registered };
                    assert(now == before.listeners.push(registered).push(before.destroy_listener));
                    assert(now[before.listeners.len() as int] == registered);
                    if token != registered {
                        let i = choose|i: int|
                            0 <= i < subs_before.push(sub).len() && (#[trigger] subs_before.push(
                                sub,
                            )[i]).token == token;
                        assert(subs_before[i].token == token);
                        lemma_listed(state, ops, token);
                        lemma_attached_is_held(state, subs, ops.drop_last(), token);
                        let j = choose|j: int|
                            0 <= j < before.attachments().len() && before.attachments()[j]
                                == token;
                        if j < before.listeners.len() {
                            assert(now[j] == token);
                        } else {
                            assert(now[before.listeners.len() as int + 1] == token);
                        }
                    }
                } else {
                    lemma_listed(state, ops, token);
                    lemma_attached_is_held(state, subs, ops.drop_last(), token);
                }
            },
            _ => {
                lemma_attached_after_removal(subs_before, before.released_by(op), token);
                lemma_listed(state, ops, token);
                lemma_attached_is_held(state, subs, ops.drop_last(), token);
                let j = choose|j: int|
                    0 <= j < before.attachments().len() && before.attachments()[j] == token;
                if op is Cleanup && before.target is Some {
                    if j < before.listeners.len() {
                        assert(before.listeners[j] == token);
                    } else {
                        assert(now[0] == token);
                    }
                }
            },
        }
    } else {
        assert(state.attachments() + state.accepted_in(ops) == state.attachments());
    }
}

/// A listener that is attached and was there at the start or taken in by
/// `ops` was there at the start or taken in before the last of them, unless
/// the last one registers it.
proof fn lemma_listed<T>(state: HandleState<T>, ops: Seq<HandleOp>, token: ListenerToken)
    requires
        ops.len() > 0,
        (state.attachments() + state.accepted_in(ops)).contains(token),
        !state.run(ops.drop_last()).accepted_by(ops.last()).contains(token),
    ensures
        (state.attachments() + state.accepted_in(ops.drop_last())).contains(token),
{
    let all = state.attachments() + state.accepted_in(ops);
    let earlier = state.attachments() + state.accepted_in(ops.drop_last());
    let last = state.run(ops.drop_last()).accepted_by(ops.last());
    assert(all == earlier + last);
    let i = choose|i: int| 0 <= i < all.len() && all[i] == token;
    if i >= earlier.len() {
        assert(last[i - earlier.len()] == token);
    }
    assert(earlier[i] == token);
}

/// When a handle has come to its end, that is when it has let go of what it
/// still had attached, none of its listeners is attached to any signal any
/// more: neither one that it had at the start nor one that it has taken in
/// since. This holds whatever happened to the handle before.
pub proof fn lemma_nothing_left_attached<T>(
    state: HandleState<T>,
    subs: Seq<Subscription>,
    ops: Seq<HandleOp>,
    token: ListenerToken,
)
    requires
        (state.attachments() + state.accepted_in(ops)).contains(token),
    ensures
        !attached(
            without(state.subscriptions_in(subs, ops), state.run(ops).attachments()),
            token,
        ),
{
    let last = state.subscriptions_in(subs, ops);
    let held = state.run(ops).attachments();
    if attached(without(last, held), token) {
        lemma_attached_after_removal(last, held, token);
        lemma_attached_is_held(state, subs, ops, token);
    }
}

/// Firing a signal invokes only listeners that are subscribed to it: every
/// one that is invoked is an entry of the table, on that signal.
pub proof fn lemma_invoked_are_subscribed(subs: Seq<Subscription>, signal: Signal)
    ensures
        forall|i: int|
            0 <= i < subscribers(subs, signal).len() ==> subs.contains(
                #[trigger] subscribers(subs, signal)[i],
            ) && subscribers(subs, signal)[i].signal == signal,
    decreases subs.len(),
{
    if subs.len() > 0 {
        lemma_invoked_are_subscribed(subs.drop_last(), signal);
        let rest = subscribers(subs.drop_last(), signal);
        assert forall|i: int| 0 <= i < subscribers(subs, signal).len() implies subs.contains(
            #[trigger] subscribers(subs, signal)[i],
        ) && subscribers(subs, signal)[i].signal == signal by {
            if i < rest.len() {
                let j = choose|j: int|
                    0 <= j < subs.drop_last().len() && subs.drop_last()[j] == rest[i];
                assert(subs[j] == rest[i]);
            } else {
                assert(subscribers(subs, signal)[i] == subs[subs.len() - 1]);
            }
        }
    }
}

/// A listener that is not attached is invoked by no signal.
pub proof fn lemma_detached_is_never_invoked(
    subs: Seq<Subscription>,
    token: ListenerToken,
    signal: Signal,
)
    requires
        !attached(subs, token),
    ensures
        forall|i: int|
            0 <= i < subscribers(subs, signal).len() ==> (#[trigger] subscribers(
                subs,
                signal,
            )[i]).token != token,
{
    lemma_invoked_are_subscribed(subs, signal);
    assert forall|i: int| 0 <= i < subscribers(subs, signal).len() implies (#[trigger] subscribers(
        subs,
        signal,
    )[i]).token != token by {
        let invoked = subscribers(subs, signal)[i];
        let j = choose|j: int| 0 <= j < subs.len() && subs[j] == invoked;
        assert(subs[j].token == invoked.token);
    }
}

/// Two listeners that subscribe to one signal, one after the other, are
/// invoked after the listeners that were there before, the first before the
/// second, each once. The listeners of every other signal are not touched.
pub proof fn lemma_fires_in_registration_order(
    subs: Seq<Subscription>,
    first: Subscription,
    second: Subscription,
    other: Signal,
)
    requires
        first.signal == second.signal,
        other != first.signal,
    ensures
        subscribers(subs.push(first).push(second), first.signal) == subscribers(
            subs,
            first.signal,
        ).push(first).push(second),
        subscribers(subs.push(first).push(second), other) == subscribers(subs, other),
{
    lemma_subscribers_push(subs, first, first.signal);
    lemma_subscribers_push(subs.push(first), second, first.signal);
    lemma_subscribers_push(subs, first, other);
    lemma_subscribers_push(subs.push(first), second, other);
}

/// A walk over the modes of a live output depends on the output and on the
/// list alone: two walks from the start hand out the same modes, whatever
/// else has happened to the handle in between.
pub proof fn lemma_walks_restart(
    output: WlrOutput,
    first: HandleState<WlrOutput>,
    second: HandleState<WlrOutput>,
    links: spec_fn(usize) -> usize,
    steps: nat,
)
    requires
        first.target is Some,
        second.target is Some,
    ensures
        Walk::start(output, first).listing(links, steps) == Walk::start(output, second).listing(
            links,
            steps,
        ),
{
    lemma_listing_ignores_the_rest(
        Walk::start(output, first),
        Walk::start(output, second),
        links,
        steps,
    );
}

/// Two walks that stand at the same link of the same list, both over a live
/// output, hand out the same modes from there on.
pub proof fn lemma_listing_ignores_the_rest(
    first: Walk,
    second: Walk,
    links: spec_fn(usize) -> usize,
    steps: nat,
)
    requires
        first.current == second.current,
        first.head == second.head,
        first.parent.target is Some,
        second.parent.target is Some,
    ensures
        first.listing(links, steps) == second.listing(links, steps),
    decreases steps,
{
    if steps > 0 && !first.ends_at(links(first.current)) {
        lemma_listing_ignores_the_rest(
            first.follow(links(first.current)),
            second.follow(links(second.current)),
            links,
            (steps - 1) as nat,
        );
    }
}

/// A step of a walk over a live output goes along the listing of the walk.
/// Where the link that the step reads is what the current link holds, a
/// step that ends the walk leaves the walk where it is, with nothing more
/// to list. Any other step hands out the first link of the listing and
/// leaves a walk that lists the rest.
pub proof fn lemma_step_follows_listing(
    before: Walk,
    link: usize,
    links: spec_fn(usize) -> usize,
    steps: nat,
)
    requires
        before.parent.target is Some,
        link == links(before.current),
        steps > 0,
    ensures
        before.ends_at(link) ==> before.follow(link) == before && before.listing(links, steps)
            == Seq::<usize>::empty(),
        !before.ends_at(link) ==> before.listing(links, steps).len() > 0 && before.listing(
            links,
            steps,
        ).first() == link && before.listing(links, steps).drop_first() == before.follow(
            link,
        ).listing(links, (steps - 1) as nat),
{
    if !before.ends_at(link) {
        let rest = before.follow(link).listing(links, (steps - 1) as nat);
        assert((seq![link] + rest).drop_first() == rest);
    }
}

/// A walk over the modes of a destroyed output hands out nothing.
pub proof fn lemma_no_walk_after_destruction(walk: Walk, links: spec_fn(usize) -> usize, steps: nat)
    requires
        walk.parent.target is None,
    ensures
        walk.listing(links, steps) == Seq::<usize>::empty(),
{
}

} // verus!
