use wlroots::bridge::{Bridge, ListenerToken};
use wlroots::error::WlrError;
use wlroots::output_layout::{OutputLayout, WlrOutputLayout};
use wlroots::scene::{Scene, WlrScene};

#[test]
fn scene_keeps_the_reference_it_was_created_with() {
    let scene = Scene::new(|| Some(WlrScene(0x5000))).unwrap();
    assert_eq!(scene.as_ptr(), WlrScene(0x5000));
    assert_eq!(scene.release(), WlrScene(0x5000));
}

#[test]
fn scene_creation_reports_a_null_scene() {
    match Scene::new(|| None) {
        Err(WlrError::CallFailed(name)) => assert_eq!(name, "wlr_scene_create"),
        _ => panic!("a null scene must be a failed call"),
    }
}

#[test]
fn scene_follows_a_live_layout_only() {
    let mut bridge = Bridge::new();
    let token = ListenerToken { listener: 1, data: 2 };
    let mut layout = OutputLayout::new(token, &mut bridge, || Some(WlrOutputLayout(0x1600))).unwrap();
    let scene = Scene::new(|| Some(WlrScene(0x5000))).unwrap();
    scene
        .attach_output_layout(&layout, |s, l| {
            assert_eq!((s, l), (WlrScene(0x5000), WlrOutputLayout(0x1600)));
        })
        .unwrap();
    layout.handle_mut().on_destroy(&mut bridge);
    match scene.attach_output_layout(&layout, |_, _| panic!("must not be called")) {
        Err(WlrError::ObjectDestroyed(name)) => assert_eq!(name, "wlr_output_layout"),
        _ => panic!("a destroyed layout must not be attached"),
    }
}
