//! The plugin: which scene the game runs in.

use vstd::prelude::*;

verus! {

/// The scene that is loaded when the host names none.
pub const DEFAULT_SCENE: &'static str = "data/scene.rgs";

/// The host's name for a scene: a place in the host's pool of scenes, and
/// the generation of that place at the time the name was given. The name
/// with place zero and generation zero names no scene.
#[derive(Clone, Copy, Debug, PartialEq, Eq, Structural)]
pub struct SceneHandle {
    pub index: u32,
    pub generation: u32,
}

/// The game as a whole: the scene that it runs in.
#[derive(Clone, Copy, Debug, PartialEq, Eq, Structural)]
pub struct Game {
    pub scene: SceneHandle,
}

impl SceneHandle {
    /// The name that names no scene.
    pub open spec fn nothing() -> SceneHandle {
        SceneHandle { index: 0, generation: 0 }
    }

    /// The name that names no scene.
    pub fn none() -> (handle: SceneHandle)
        ensures
            handle == SceneHandle::nothing(),
    {
        SceneHandle { index: 0, generation: 0 }
    }

    /// Whether the name names a scene.
    pub fn is_some(&self) -> (named: bool)
        ensures
            named == (*self != SceneHandle::nothing()),
    {
        !(self.index == 0 && self.generation == 0)
    }
}

impl Game {
    /// The file of the scene to load at the start: the one that the host
    /// names, or else the default.
    pub open spec fn scene_to_load(scene_path: Option<&str>) -> Seq<char> {
        match scene_path {
            Some(path) => path@,
            None => DEFAULT_SCENE@,
        }
    }

    /// A game with no scene yet, and the file of the scene that the host is
    /// to load for it.
    pub fn new<'a>(scene_path: Option<&'a str>) -> (start: (Game, &'a str))
        ensures
            start.0.scene == SceneHandle::nothing(),
            start.1@ == Game::scene_to_load(scene_path),
    {
        let path = match scene_path {
            Some(path) => path,
            None => DEFAULT_SCENE,
        };
        (Game { scene: SceneHandle::none() }, path)
    }

    /// Called when the host begins to load a scene. Returns the scene that
    /// the game has run in so far, if there is one, for the host to remove.
    pub fn on_scene_begin_loading(&self) -> (stale: Option<SceneHandle>)
        ensures
            stale == (if self.scene == SceneHandle::nothing() {
                None
            } else {
                Some(self.scene)
            }),
    {
        if self.scene.is_some() {
            Some(self.scene)
        } else {
            None
        }
    }

    /// Called when the host has loaded a scene: the game runs in it from
    /// now on.
    pub fn on_scene_loaded(&mut self, scene: SceneHandle)
        ensures
            final(self).scene == scene,
    {
        self.scene = scene;
    }
}

} // verus!
