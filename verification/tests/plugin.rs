use game::plugin::Game;
use game::plugin::SceneHandle;
use game::plugin::DEFAULT_SCENE;

#[test]
fn game_asks_for_the_default_scene() {
    let (game, path) = Game::new(None);
    assert_eq!(game, Game { scene: SceneHandle { index: 0, generation: 0 } });
    assert_eq!(path, "data/scene.rgs");
    assert_eq!(DEFAULT_SCENE, "data/scene.rgs");
}

#[test]
fn game_asks_for_the_scene_it_is_given() {
    let (game, path) = Game::new(Some("data/level_two.rgs"));
    assert_eq!(game.scene, SceneHandle::none());
    assert_eq!(path, "data/level_two.rgs");
    let (_, empty) = Game::new(Some(""));
    assert_eq!(empty, "");
}

#[test]
fn only_the_zero_handle_names_nothing() {
    assert_eq!(SceneHandle::none(), SceneHandle { index: 0, generation: 0 });
    assert!(!SceneHandle::none().is_some());
    assert!(SceneHandle { index: 1, generation: 0 }.is_some());
    assert!(SceneHandle { index: 0, generation: 1 }.is_some());
    assert!(SceneHandle { index: u32::MAX, generation: u32::MAX }.is_some());
}

#[test]
fn game_keeps_the_loaded_scene() {
    let (mut game, _) = Game::new(None);
    assert_eq!(game.on_scene_begin_loading(), None);
    let first = SceneHandle { index: 1, generation: 1 };
    game.on_scene_loaded(first);
    assert_eq!(game.scene, first);
    assert_eq!(game.on_scene_begin_loading(), Some(first));
    assert_eq!(game.scene, first);
    let second = SceneHandle { index: 0, generation: 7 };
    game.on_scene_loaded(second);
    assert_eq!(game.on_scene_begin_loading(), Some(second));
    game.on_scene_loaded(SceneHandle::none());
    assert_eq!(game.on_scene_begin_loading(), None);
}
