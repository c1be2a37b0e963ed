use std::cell::RefCell;
use std::collections::HashMap;
use std::rc::Rc;

use wlroots::backend::{Backend, WlrBackend};
use wlroots::bridge::{Bridge, Event, ListenerToken, Shape, Signal};
use wlroots::error::WlrError;
use wlroots::output::{Output, WlrOutput, WlrOutputMode};

/// The closures that the listeners own, by the address of their data.
type Callbacks = HashMap<usize, Box<dyn Fn(usize)>>;

fn fire(bridge: &Bridge, callbacks: &Callbacks, signal: Signal, payload: usize) {
    for subscription in bridge.emit(signal) {
        if subscription.shape == Shape::General {
            (callbacks[&subscription.token.data])(payload);
        }
    }
}

fn is_destroyed<T>(r: Result<T, WlrError>) -> bool {
    matches!(r, Err(WlrError::ObjectDestroyed(name)) if name == "wlr_output")
}

#[test]
fn an_output_that_was_enabled_and_then_destroyed_refuses_every_operation() {
    let mut bridge = Bridge::new();
    let mut callbacks = Callbacks::new();

    // Construct a backend and listen for its outputs.
    let mut backend =
        Backend::autocreate(ListenerToken { listener: 0x10, data: 0 }, &mut bridge, || Some(WlrBackend(0x1000)))
            .unwrap();
    let announced: Rc<RefCell<Vec<usize>>> = Rc::new(RefCell::new(Vec::new()));
    let seen = announced.clone();
    callbacks.insert(0x21, Box::new(move |payload| seen.borrow_mut().push(payload)));
    backend.on_new_output(ListenerToken { listener: 0x20, data: 0x21 }, &mut bridge).unwrap();

    // The backend announces an output; its payload is the reference to it.
    fire(&bridge, &callbacks, Signal { object: 0x1000, event: Event::NewOutput }, 0x2000);
    assert_eq!(*announced.borrow(), vec![0x2000]);
    let reference = WlrOutput { address: announced.borrow()[0], modes: 0x2040 };
    let destroy_listener = ListenerToken { listener: 0x30, data: 0 };
    let mut output = Output::from_ptr(reference, destroy_listener, &mut bridge);

    // Enable it with the mode that it prefers.
    let preferred = WlrOutputMode { address: 0x3000, width: 1920, height: 1080, refresh: 60000, preferred: true };
    let selected: RefCell<Option<WlrOutputMode>> = RefCell::new(None);
    let mode = output.preferred_mode(|_| Some(preferred)).unwrap().unwrap();
    output.set_mode(mode, |_, m| *selected.borrow_mut() = Some(m)).unwrap();
    output.enable(true, |_, _| ()).unwrap();
    output.commit(|_| selected.borrow().is_some()).unwrap();
    output.on_frame(ListenerToken { listener: 0x40, data: 0x41 }, &mut bridge).unwrap();

    // The native library announces the destruction of the output.
    let destroy = Signal { object: 0x2000, event: Event::Destroy };
    let invoked = bridge.emit(destroy);
    assert_eq!(invoked.len(), 1);
    assert_eq!(invoked[0].shape, Shape::Destroy);
    assert_eq!(invoked[0].token, destroy_listener);
    let released = output.handle_mut().on_destroy(&mut bridge);
    assert_eq!(released.listeners, vec![ListenerToken { listener: 0x40, data: 0x41 }]);
    assert_eq!(released.destroy_listener, Some(destroy_listener));

    // From now on every operation on the output fails, and none reaches the library.
    assert!(is_destroyed(output.handle().try_as_ptr()));
    assert!(is_destroyed(output.modes()));
    assert!(is_destroyed(output.preferred_mode(|_| panic!("must not be called"))));
    assert!(is_destroyed(output.enable(true, |_, _| panic!("must not be called"))));
    assert!(is_destroyed(output.commit(|_| panic!("must not be called"))));
    assert!(is_destroyed(output.on_frame(ListenerToken { listener: 0x50, data: 0x51 }, &mut bridge)));
    assert!(bridge.emit(destroy).is_empty());
    assert!(bridge.emit(Signal { object: 0x2000, event: Event::Frame }).is_empty());

    // The backend is not affected.
    assert_eq!(backend.handle().try_as_ptr().unwrap(), WlrBackend(0x1000));
    assert_eq!(bridge.emit(Signal { object: 0x1000, event: Event::NewOutput }).len(), 1);
}

#[test]
fn committing_before_a_mode_is_selected_is_a_failed_commit() {
    let mut bridge = Bridge::new();
    let output =
        Output::from_ptr(WlrOutput { address: 0x2000, modes: 0x2040 }, ListenerToken { listener: 1, data: 0 }, &mut bridge);
    let selected: RefCell<Option<WlrOutputMode>> = RefCell::new(None);
    output.enable(true, |_, _| ()).unwrap();
    match output.commit(|_| selected.borrow().is_some()) {
        Err(WlrError::CallFailed(name)) => assert_eq!(name, "wlr_output_commit"),
        _ => panic!("a commit without a mode must fail"),
    }
}

#[test]
fn two_listeners_on_one_signal_are_invoked_in_registration_order_once_each() {
    let mut bridge = Bridge::new();
    let mut callbacks = Callbacks::new();
    let log: Rc<RefCell<Vec<(&'static str, usize)>>> = Rc::new(RefCell::new(Vec::new()));

    let mut backend = Backend::from_ptr(WlrBackend(0x1000), ListenerToken { listener: 0x10, data: 0 }, &mut bridge);
    let first = log.clone();
    callbacks.insert(0x21, Box::new(move |payload| first.borrow_mut().push(("first", payload))));
    let second = log.clone();
    callbacks.insert(0x31, Box::new(move |payload| second.borrow_mut().push(("second", payload))));
    backend.on_new_output(ListenerToken { listener: 0x20, data: 0x21 }, &mut bridge).unwrap();
    backend.on_new_output(ListenerToken { listener: 0x30, data: 0x31 }, &mut bridge).unwrap();

    fire(&bridge, &callbacks, Signal { object: 0x1000, event: Event::NewOutput }, 0x2000);
    assert_eq!(*log.borrow(), vec![("first", 0x2000), ("second", 0x2000)]);

    // A second firing invokes both again: firing consumes no listener.
    fire(&bridge, &callbacks, Signal { object: 0x1000, event: Event::NewOutput }, 0x2001);
    assert_eq!(
        *log.borrow(),
        vec![("first", 0x2000), ("second", 0x2000), ("first", 0x2001), ("second", 0x2001)]
    );

    // Another signal of the same object invokes neither.
    fire(&bridge, &callbacks, Signal { object: 0x1000, event: Event::Frame }, 0);
    assert_eq!(log.borrow().len(), 4);
}

#[test]
fn every_registered_listener_is_released_exactly_once() {
    let mut bridge = Bridge::new();
    let mut output = Output::from_ptr(
        WlrOutput { address: 0x2000, modes: 0x2040 },
        ListenerToken { listener: 1, data: 0 },
        &mut bridge,
    );
    let mut registered = vec![ListenerToken { listener: 1, data: 0 }];
    let mut released = Vec::new();
    for n in 0..3 {
        let token = ListenerToken { listener: 0x100 + n, data: 0x200 + n };
        output.on_frame(token, &mut bridge).unwrap();
        registered.push(token);
    }
    released.extend(output.handle_mut().cleanup_listeners(&mut bridge));
    for n in 3..5 {
        let token = ListenerToken { listener: 0x100 + n, data: 0x200 + n };
        output.on_frame(token, &mut bridge).unwrap();
        registered.push(token);
    }
    let at_destroy = output.handle_mut().on_destroy(&mut bridge);
    released.extend(at_destroy.listeners);
    released.extend(at_destroy.destroy_listener);
    let at_end = output.release(&mut bridge);
    released.extend(at_end.listeners);
    released.extend(at_end.destroy_listener);

    registered.sort_by_key(|t| t.listener);
    released.sort_by_key(|t| t.listener);
    assert_eq!(registered, released);
    for token in registered {
        assert!(!bridge.is_attached(token));
    }
}
