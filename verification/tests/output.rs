use std::collections::HashMap;

use wlroots::allocator::{Allocator, WlrAllocator};
use wlroots::backend::{Backend, WlrBackend};
use wlroots::bridge::{Bridge, Event, ListenerToken, Signal};
use wlroots::error::WlrError;
use wlroots::output::{Output, OutputMode, WlrOutput, WlrOutputMode};
use wlroots::output_layout::{OutputLayout, WlrOutputLayout};
use wlroots::renderer::{Renderer, WlrRenderer};

const HEAD: usize = 0x2040;

fn token(listener: usize) -> ListenerToken {
    ListenerToken { listener, data: listener + 1 }
}

fn output_ref() -> WlrOutput {
    WlrOutput { address: 0x2000, modes: HEAD }
}

fn mode(link: usize, width: i32, height: i32, refresh: i32, preferred: bool) -> WlrOutputMode {
    WlrOutputMode { address: link - 0x20, width, height, refresh, preferred }
}

/// A list of three modes: head -> 0x3020 -> 0x4020 -> 0x5020 -> head.
fn three_modes() -> (HashMap<usize, usize>, HashMap<usize, WlrOutputMode>) {
    let links = HashMap::from([(HEAD, 0x3020), (0x3020, 0x4020), (0x4020, 0x5020), (0x5020, HEAD)]);
    let modes = HashMap::from([
        (0x3020, mode(0x3020, 1920, 1080, 60000, true)),
        (0x4020, mode(0x4020, 1280, 720, 60000, false)),
        (0x5020, mode(0x5020, 640, 480, 75000, false)),
    ]);
    (links, modes)
}

fn dimensions_of_all(
    output: &Output,
    links: &HashMap<usize, usize>,
    modes: &HashMap<usize, WlrOutputMode>,
) -> Vec<(i32, i32)> {
    let mut walk = output.modes().unwrap();
    let mut found = Vec::new();
    while let Some(mode) = walk.next(|link| links[&link], |link| modes[&link]).unwrap() {
        found.push(mode.dimensions().unwrap());
        assert!(found.len() <= modes.len(), "the walk must end at the head");
    }
    found
}

fn destroyed_name<T>(r: Result<T, WlrError>) -> String {
    match r {
        Err(WlrError::ObjectDestroyed(name)) => name,
        Err(WlrError::CallFailed(name)) => panic!("failed call {name}"),
        Ok(_) => panic!("the access must fail"),
    }
}

fn failed_name<T>(r: Result<T, WlrError>) -> String {
    match r {
        Err(WlrError::CallFailed(name)) => name,
        Err(WlrError::ObjectDestroyed(name)) => panic!("use of destroyed {name}"),
        Ok(_) => panic!("the call must fail"),
    }
}

#[test]
fn modes_walks_every_mode_in_the_order_of_the_list() {
    let mut bridge = Bridge::new();
    let output = Output::from_ptr(output_ref(), token(1), &mut bridge);
    let (links, modes) = three_modes();
    assert_eq!(dimensions_of_all(&output, &links, &modes), vec![(1920, 1080), (1280, 720), (640, 480)]);
}

#[test]
fn modes_starts_again_with_every_call() {
    let mut bridge = Bridge::new();
    let output = Output::from_ptr(output_ref(), token(1), &mut bridge);
    let (links, modes) = three_modes();
    let first = dimensions_of_all(&output, &links, &modes);
    // A walk that was left in the middle does not move the next one.
    let mut half = output.modes().unwrap();
    half.next(|link| links[&link], |link| modes[&link]).unwrap();
    drop(half);
    let second = dimensions_of_all(&output, &links, &modes);
    assert_eq!(first, second);
    assert_eq!(second.len(), 3);
}

#[test]
fn modes_of_an_empty_list_ends_at_once() {
    let mut bridge = Bridge::new();
    let output = Output::from_ptr(output_ref(), token(1), &mut bridge);
    let mut walk = output.modes().unwrap();
    assert_eq!(walk.current(), HEAD);
    assert!(walk.next(|_| HEAD, |_| panic!("there is no mode to read")).unwrap().is_none());
    assert_eq!(walk.current(), HEAD);
}

#[test]
fn a_walk_that_has_ended_stays_ended() {
    let mut bridge = Bridge::new();
    let output = Output::from_ptr(output_ref(), token(1), &mut bridge);
    let (links, modes) = three_modes();
    let mut walk = output.modes().unwrap();
    for _ in 0..3 {
        assert!(walk.next(|link| links[&link], |link| modes[&link]).unwrap().is_some());
    }
    assert_eq!(walk.current(), 0x5020);
    for _ in 0..2 {
        assert!(walk.next(|link| links[&link], |link| modes[&link]).unwrap().is_none());
        assert_eq!(walk.current(), 0x5020);
    }
}

#[test]
fn next_reads_the_link_that_the_walk_stands_at() {
    let mut bridge = Bridge::new();
    let output = Output::from_ptr(output_ref(), token(1), &mut bridge);
    let (links, modes) = three_modes();
    let mut walk = output.modes().unwrap();
    let first = walk
        .next(
            |link| {
                assert_eq!(link, HEAD);
                links[&link]
            },
            |link| {
                assert_eq!(link, 0x3020);
                modes[&link]
            },
        )
        .unwrap()
        .unwrap();
    assert_eq!(first.try_as_ptr().unwrap(), mode(0x3020, 1920, 1080, 60000, true));
    assert_eq!(walk.current(), 0x3020);
}

#[test]
fn modes_of_a_destroyed_output_fails() {
    let mut bridge = Bridge::new();
    let mut output = Output::from_ptr(output_ref(), token(1), &mut bridge);
    output.handle_mut().on_destroy(&mut bridge);
    assert_eq!(destroyed_name(output.modes()), "wlr_output");
}

#[test]
fn mode_says_what_the_native_mode_says() {
    let mut bridge = Bridge::new();
    let output = Output::from_ptr(output_ref(), token(1), &mut bridge);
    let mode = OutputMode::new(mode(0x3020, 1920, 1080, 59940, true), output.handle());
    assert_eq!(mode.dimensions().unwrap(), (1920, 1080));
    assert_eq!(mode.refresh().unwrap(), 59940);
    assert!(mode.preferred().unwrap());
    assert_eq!(mode.picture_aspect_ratio().unwrap(), (1920, 1080));
    assert_eq!(mode.try_as_ptr().unwrap().address, 0x3000);
}

#[test]
fn mode_of_a_destroyed_output_says_nothing() {
    let mut bridge = Bridge::new();
    let mut output = Output::from_ptr(output_ref(), token(1), &mut bridge);
    output.handle_mut().on_destroy(&mut bridge);
    let mode = OutputMode::new(mode(0x3020, 1920, 1080, 59940, true), output.handle());
    assert_eq!(destroyed_name(mode.dimensions()), "wlr_output");
    assert_eq!(destroyed_name(mode.refresh()), "wlr_output");
    assert_eq!(destroyed_name(mode.preferred()), "wlr_output");
    assert_eq!(destroyed_name(mode.picture_aspect_ratio()), "wlr_output");
    assert_eq!(destroyed_name(mode.try_as_ptr()), "wlr_output");
}

#[test]
fn preferred_mode_is_what_the_library_reports() {
    let mut bridge = Bridge::new();
    let output = Output::from_ptr(output_ref(), token(1), &mut bridge);
    let preferred = output
        .preferred_mode(|o| {
            assert_eq!(o, output_ref());
            Some(mode(0x4020, 1280, 720, 60000, true))
        })
        .unwrap()
        .unwrap();
    assert_eq!(preferred.dimensions().unwrap(), (1280, 720));
    assert!(output.preferred_mode(|_| None).unwrap().is_none());
}

#[test]
fn set_mode_and_enable_hand_their_arguments_to_the_library() {
    let mut bridge = Bridge::new();
    let output = Output::from_ptr(output_ref(), token(1), &mut bridge);
    let wanted = mode(0x4020, 1280, 720, 60000, false);
    let chosen = OutputMode::new(wanted, output.handle());
    output
        .set_mode(chosen, |o, m| {
            assert_eq!(o, output_ref());
            assert_eq!(m, wanted);
        })
        .unwrap();
    output
        .enable(true, |o, on| {
            assert_eq!(o, output_ref());
            assert!(on);
        })
        .unwrap();
    output.enable(false, |_, on| assert!(!on)).unwrap();
}

#[test]
fn set_mode_with_the_mode_of_a_destroyed_output_fails() {
    let mut bridge = Bridge::new();
    let output = Output::from_ptr(output_ref(), token(1), &mut bridge);
    let mut other = Output::from_ptr(WlrOutput { address: 0x6000, modes: 0x6040 }, token(2), &mut bridge);
    other.handle_mut().on_destroy(&mut bridge);
    let stale = OutputMode::new(mode(0x7020, 800, 600, 60000, false), other.handle());
    assert_eq!(destroyed_name(output.set_mode(stale, |_, _| panic!("must not be called"))), "wlr_output");
}

#[test]
fn commit_reports_what_the_library_said() {
    let mut bridge = Bridge::new();
    let output = Output::from_ptr(output_ref(), token(1), &mut bridge);
    assert!(output.commit(|o| o == output_ref()).is_ok());
    // A commit that the library rejects, such as one before a mode was selected.
    assert_eq!(failed_name(output.commit(|_| false)), "wlr_output_commit");
}

#[test]
fn init_render_is_given_all_three_references() {
    let mut bridge = Bridge::new();
    let backend = Backend::from_ptr(WlrBackend(0x1000), token(1), &mut bridge);
    let renderer = Renderer::autocreate(&backend, token(2), &mut bridge, |_| Some(WlrRenderer(0x1100))).unwrap();
    let allocator =
        Allocator::autocreate(&backend, &renderer, token(3), &mut bridge, |_, _| Some(WlrAllocator(0x1200)))
            .unwrap();
    let mut output = Output::from_ptr(output_ref(), token(4), &mut bridge);
    output
        .init_render(&allocator, &renderer, |o, a, r| {
            assert_eq!((o, a, r), (output_ref(), WlrAllocator(0x1200), WlrRenderer(0x1100)));
            true
        })
        .unwrap();
    assert_eq!(failed_name(output.init_render(&allocator, &renderer, |_, _, _| false)), "wlr_output_init_render");
}

#[test]
fn init_render_names_the_first_destroyed_object() {
    let mut bridge = Bridge::new();
    let backend = Backend::from_ptr(WlrBackend(0x1000), token(1), &mut bridge);
    let mut renderer =
        Renderer::autocreate(&backend, token(2), &mut bridge, |_| Some(WlrRenderer(0x1100))).unwrap();
    let mut allocator =
        Allocator::autocreate(&backend, &renderer, token(3), &mut bridge, |_, _| Some(WlrAllocator(0x1200)))
            .unwrap();
    let mut output = Output::from_ptr(output_ref(), token(4), &mut bridge);
    renderer.handle_mut().on_destroy(&mut bridge);
    let r = output.init_render(&allocator, &renderer, |_, _, _| panic!("must not be called"));
    assert_eq!(destroyed_name(r), "wlr_renderer");
    allocator.handle_mut().on_destroy(&mut bridge);
    let r = output.init_render(&allocator, &renderer, |_, _, _| panic!("must not be called"));
    assert_eq!(destroyed_name(r), "wlr_allocator");
    output.handle_mut().on_destroy(&mut bridge);
    let r = output.init_render(&allocator, &renderer, |_, _, _| panic!("must not be called"));
    assert_eq!(destroyed_name(r), "wlr_output");
}

#[test]
fn on_frame_subscribes_to_the_frame_event_of_the_output() {
    let mut bridge = Bridge::new();
    let mut output = Output::from_ptr(output_ref(), token(1), &mut bridge);
    output.on_frame(token(10), &mut bridge).unwrap();
    let fired = bridge.emit(Signal { object: 0x2000, event: Event::Frame });
    assert_eq!(fired.len(), 1);
    assert_eq!(fired[0].token, token(10));
    let released = output.release(&mut bridge);
    assert_eq!(released.listeners, vec![token(10)]);
    assert_eq!(released.destroy_listener, Some(token(1)));
    assert!(bridge.emit(Signal { object: 0x2000, event: Event::Frame }).is_empty());
}

#[test]
fn add_auto_places_a_live_output_in_a_live_layout() {
    let mut bridge = Bridge::new();
    let mut layout = OutputLayout::new(token(1), &mut bridge, || Some(WlrOutputLayout(0x1600))).unwrap();
    let mut output = Output::from_ptr(output_ref(), token(2), &mut bridge);
    layout
        .add_auto(&output, |l, o| {
            assert_eq!((l, o), (WlrOutputLayout(0x1600), output_ref()));
        })
        .unwrap();
    output.handle_mut().on_destroy(&mut bridge);
    assert_eq!(destroyed_name(layout.add_auto(&output, |_, _| panic!("must not be called"))), "wlr_output");
    layout.handle_mut().on_destroy(&mut bridge);
    assert_eq!(
        destroyed_name(layout.add_auto(&output, |_, _| panic!("must not be called"))),
        "wlr_output_layout"
    );
}
