//! The scene: the root of the graph of what is drawn.
//!
//! The native scene announces no destruction, so there is nothing for a
//! handle to listen to. The wrapper holds the bare reference and gives it
//! back at its end, for the caller to free.

use vstd::prelude::*;
use crate::error::{check_created, constructed, use_of_destroyed, WlrError};
use crate::handle::Destroyable;
use crate::output_layout::{OutputLayout, WlrOutputLayout};

verus! {

/// A reference to a native scene.
#[derive(Clone, Copy, Debug, PartialEq, Eq, Structural)]
pub struct WlrScene(pub usize);

/// A scene. The wrapper owns the native object.
pub struct Scene(WlrScene);

impl View for Scene {
    type V = WlrScene;

    closed spec fn view(&self) -> WlrScene {
        self.0
    }
}

/// What a constructor of a scene hands back, as plain values.
pub open spec fn scene_outcome(r: Result<Scene, WlrError>) -> Result<WlrScene, WlrError> {
    match r {
        Ok(scene) => Ok(scene@),
        Err(e) => Err(e),
    }
}

impl Scene {
    /// Has the native library create an empty scene, through `create`, and
    /// wraps it. Fails with the name of the constructor if the library
    /// returns null.
    pub fn new<F: FnOnce() -> Option<WlrScene>>(create: F) -> (r: Result<Scene, WlrError>)
        requires
            create.requires(()),
        ensures
            exists|created: Option<WlrScene>| #[trigger]
                create.ensures((), created) && constructed(
                    created,
                    "wlr_scene_create"@,
                    scene_outcome(r),
                ),
    {
        match check_created(create(), "wlr_scene_create") {
            Ok(ptr) => Ok(Scene(ptr)),
            Err(e) => Err(e),
        }
    }

    /// Has the scene follow `output_layout`, through `attach`. Fails,
    /// without calling `attach`, if the layout has been destroyed.
    pub fn attach_output_layout<F: FnOnce(WlrScene, WlrOutputLayout)>(
        &self,
        output_layout: &OutputLayout,
        attach: F,
    ) -> (r: Result<(), WlrError>)
        requires
            output_layout@.target is Some ==> attach.requires(
                (self@, output_layout@.target->Some_0),
            ),
        ensures
            match output_layout@.target {
                Some(layout) => r is Ok && attach.ensures((self@, layout), ()),
                None => use_of_destroyed(r, WlrOutputLayout::kind()),
            },
    {
        let layout = match output_layout.handle().try_as_ptr() {
            Ok(ptr) => ptr,
            Err(e) => { return Err(e); },
        };
        attach(self.0, layout);
        Ok(())
    }

    /// The reference to the native scene.
    pub fn as_ptr(&self) -> (ptr: WlrScene)
        ensures
            ptr == self@,
    {
        self.0
    }

    /// The end of the wrapper: the scene that the caller must now free.
    pub fn release(self) -> (ptr: WlrScene)
        ensures
            ptr == self@,
    {
        self.0
    }
}

} // verus!
