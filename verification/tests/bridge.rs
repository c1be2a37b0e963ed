use wlroots::bridge::{Bridge, Event, ListenerToken, Shape, Signal, Subscription};

fn token(listener: usize) -> ListenerToken {
    ListenerToken { listener, data: listener + 1 }
}

fn frame_of(object: usize) -> Signal {
    Signal { object, event: Event::Frame }
}

#[test]
fn new_bridge_fires_nothing() {
    let bridge = Bridge::new();
    assert!(bridge.emit(frame_of(1)).is_empty());
    assert!(!bridge.is_attached(token(10)));
}

#[test]
fn listeners_fire_in_the_order_of_their_subscription() {
    let mut bridge = Bridge::new();
    bridge.subscribe(frame_of(1), Shape::General, token(30));
    bridge.subscribe(frame_of(1), Shape::General, token(10));
    bridge.subscribe(frame_of(1), Shape::General, token(20));
    let fired: Vec<ListenerToken> = bridge.emit(frame_of(1)).iter().map(|s| s.token).collect();
    assert_eq!(fired, vec![token(30), token(10), token(20)]);
}

#[test]
fn a_signal_fires_only_its_own_listeners() {
    let mut bridge = Bridge::new();
    bridge.subscribe(frame_of(1), Shape::General, token(10));
    bridge.subscribe(frame_of(2), Shape::General, token(20));
    bridge.subscribe(Signal { object: 1, event: Event::Destroy }, Shape::Destroy, token(30));
    assert_eq!(
        bridge.emit(frame_of(1)),
        vec![Subscription { signal: frame_of(1), shape: Shape::General, token: token(10) }]
    );
    assert_eq!(
        bridge.emit(Signal { object: 1, event: Event::Destroy }),
        vec![Subscription {
            signal: Signal { object: 1, event: Event::Destroy },
            shape: Shape::Destroy,
            token: token(30)
        }]
    );
    assert!(bridge.emit(frame_of(3)).is_empty());
}

#[test]
fn firing_leaves_the_listeners_subscribed() {
    let mut bridge = Bridge::new();
    bridge.subscribe(frame_of(1), Shape::General, token(10));
    let first = bridge.emit(frame_of(1));
    let second = bridge.emit(frame_of(1));
    assert_eq!(first, second);
    assert_eq!(first.len(), 1);
}

#[test]
fn unsubscribe_removes_the_named_tokens_and_keeps_the_order_of_the_rest() {
    let mut bridge = Bridge::new();
    for listener in [10, 20, 30, 40] {
        bridge.subscribe(frame_of(1), Shape::General, token(listener));
    }
    bridge.unsubscribe(&vec![token(30), token(10)]);
    let fired: Vec<ListenerToken> = bridge.emit(frame_of(1)).iter().map(|s| s.token).collect();
    assert_eq!(fired, vec![token(20), token(40)]);
    assert!(!bridge.is_attached(token(10)));
    assert!(bridge.is_attached(token(20)));
    assert!(!bridge.is_attached(token(30)));
    assert!(bridge.is_attached(token(40)));
}

#[test]
fn unsubscribe_of_an_unknown_token_changes_nothing() {
    let mut bridge = Bridge::new();
    bridge.subscribe(frame_of(1), Shape::General, token(10));
    bridge.unsubscribe(&vec![token(99)]);
    bridge.unsubscribe(&Vec::new());
    assert_eq!(bridge.emit(frame_of(1)).len(), 1);
}

#[test]
fn a_token_is_told_apart_by_record_and_data() {
    let mut bridge = Bridge::new();
    bridge.subscribe(frame_of(1), Shape::General, ListenerToken { listener: 10, data: 1 });
    assert!(!bridge.is_attached(ListenerToken { listener: 10, data: 2 }));
    assert!(bridge.is_attached(ListenerToken { listener: 10, data: 1 }));
}

#[test]
fn holds_token_finds_what_is_there() {
    let tokens = vec![token(1), token(2)];
    assert!(wlroots::bridge::holds_token(&tokens, token(2)));
    assert!(!wlroots::bridge::holds_token(&tokens, token(3)));
    assert!(!wlroots::bridge::holds_token(&Vec::new(), token(1)));
}
