use freefly::states::{
    Completion, EntityRef, MyLoadingState, MyPlayState, PlayEvent, Trans, WorldEffects,
    INFO_BUTTON_ID, INFO_DIALOG_ID, INFO_UI_PATH, LOADING_TEXT_ID, LOADING_UI_PATH,
    SCENE_PREFAB_PATH,
};

const NOTHING: WorldEffects =
    WorldEffects { spawn_scene: false, spawn_info_ui: false, delete: None, hide_cursor: None };

fn entity(id: u32) -> EntityRef {
    EntityRef { id, generation: 1 }
}

#[test]
fn loading_waits_then_switches_with_loaded_handles() {
    let mut state: MyLoadingState<&str, u64> = MyLoadingState::new();
    assert!(!state.has_handles());
    state.on_start("scene", 42);
    assert!(state.has_handles());
    for _ in 0..5 {
        assert!(matches!(state.update(Completion::Loading), Trans::Stay));
    }
    match state.update(Completion::Complete) {
        Trans::Switch(play) => {
            assert_eq!(*play.scene(), "scene");
            assert_eq!(*play.info_ui(), 42);
        }
        _ => panic!("expected a switch to the playing state"),
    }
    assert!(!state.has_handles());
}

#[test]
fn loading_failure_quits() {
    let mut state: MyLoadingState<u8, u8> = MyLoadingState::new();
    state.on_start(1, 2);
    assert!(matches!(state.update(Completion::Failed), Trans::Quit));
    // the handles are still there afterwards
    match state.update(Completion::Complete) {
        Trans::Switch(play) => assert_eq!((*play.scene(), *play.info_ui()), (1, 2)),
        _ => panic!("expected a switch"),
    }
}

#[test]
fn asset_paths_and_ids() {
    assert_eq!(LOADING_UI_PATH, "ui/loading.ron");
    assert_eq!(SCENE_PREFAB_PATH, "prefab/scene_prefab.ron");
    assert_eq!(INFO_UI_PATH, "ui/info.ron");
    assert_eq!(LOADING_TEXT_ID, "loading_text");
    assert_eq!(INFO_DIALOG_ID, "info_dialog");
    assert_eq!(INFO_BUTTON_ID, "info_button");
}

#[test]
fn play_start_spawns_and_shows_cursor() {
    let play = MyPlayState::new(1u8, 2u8);
    assert_eq!(
        play.on_start(),
        WorldEffects { spawn_scene: true, spawn_info_ui: true, delete: None, hide_cursor: Some(false) }
    );
}

#[test]
fn close_request_quits() {
    let play = MyPlayState::new((), ());
    let (t, e) = play.handle_event(PlayEvent::Window {
        close_requested: true,
        escape_down: false,
        info_dialog: Some(entity(3)),
    });
    assert!(matches!(t, Trans::Quit));
    assert_eq!(e, NOTHING);
}

#[test]
fn escape_closes_shown_dialog() {
    let play = MyPlayState::new((), ());
    let (t, e) = play.handle_event(PlayEvent::Window {
        close_requested: false,
        escape_down: true,
        info_dialog: Some(entity(3)),
    });
    assert!(matches!(t, Trans::Stay));
    assert_eq!(
        e,
        WorldEffects { spawn_scene: false, spawn_info_ui: false, delete: Some(entity(3)), hide_cursor: Some(true) }
    );
}

#[test]
fn escape_opens_missing_dialog() {
    let play = MyPlayState::new((), ());
    let (t, e) = play.handle_event(PlayEvent::Window {
        close_requested: false,
        escape_down: true,
        info_dialog: None,
    });
    assert!(matches!(t, Trans::Stay));
    assert_eq!(
        e,
        WorldEffects { spawn_scene: false, spawn_info_ui: true, delete: None, hide_cursor: Some(false) }
    );
}

#[test]
fn other_window_event_does_nothing() {
    let play = MyPlayState::new((), ());
    let (t, e) = play.handle_event(PlayEvent::Window {
        close_requested: false,
        escape_down: false,
        info_dialog: Some(entity(3)),
    });
    assert!(matches!(t, Trans::Stay));
    assert_eq!(e, NOTHING);
}

#[test]
fn click_on_info_button_closes_dialog() {
    let play = MyPlayState::new((), ());
    let (t, e) = play.handle_event(PlayEvent::Ui {
        is_click: true,
        target: entity(5),
        info_button: Some(entity(5)),
        info_dialog: Some(entity(4)),
    });
    assert!(matches!(t, Trans::Stay));
    assert_eq!(
        e,
        WorldEffects { spawn_scene: false, spawn_info_ui: false, delete: Some(entity(4)), hide_cursor: Some(true) }
    );
    let (_, e) = play.handle_event(PlayEvent::Ui {
        is_click: true,
        target: entity(5),
        info_button: Some(entity(5)),
        info_dialog: None,
    });
    assert_eq!(
        e,
        WorldEffects { spawn_scene: false, spawn_info_ui: false, delete: None, hide_cursor: Some(true) }
    );
}

#[test]
fn other_ui_events_do_nothing() {
    let play = MyPlayState::new((), ());
    let cases = [
        (false, entity(5), Some(entity(5))),
        (true, entity(6), Some(entity(5))),
        (true, EntityRef { id: 5, generation: 2 }, Some(entity(5))),
        (true, entity(5), None),
    ];
    for (is_click, target, info_button) in cases {
        let (t, e) = play.handle_event(PlayEvent::Ui {
            is_click,
            target,
            info_button,
            info_dialog: Some(entity(4)),
        });
        assert!(matches!(t, Trans::Stay));
        assert_eq!(e, NOTHING);
    }
}

/// Runs the effects on a tiny world: the shown dialog, if any, and the cursor.
fn apply(dialog: &mut Option<EntityRef>, hidden: &mut bool, next_id: &mut u32, e: WorldEffects) {
    if let Some(d) = e.delete {
        if *dialog == Some(d) {
            *dialog = None;
        }
    }
    if e.spawn_info_ui {
        *dialog = Some(entity(*next_id));
        *next_id += 1;
    }
    if let Some(h) = e.hide_cursor {
        *hidden = h;
    }
}

#[test]
fn cursor_hidden_exactly_while_dialog_closed() {
    let play = MyPlayState::new((), ());
    let (mut dialog, mut hidden, mut next_id) = (None, true, 10u32);
    apply(&mut dialog, &mut hidden, &mut next_id, play.on_start());
    assert!(dialog.is_some() && !hidden);
    let escape = |d| PlayEvent::Window { close_requested: false, escape_down: true, info_dialog: d };
    for round in 0..4 {
        let before = dialog.is_some();
        let (_, e) = play.handle_event(escape(dialog));
        apply(&mut dialog, &mut hidden, &mut next_id, e);
        assert_eq!(dialog.is_some(), !before, "round {}", round);
        assert_eq!(hidden, dialog.is_none());
    }
    // the dialog is shown again after an even number of presses; close it by its button
    let (_, e) = play.handle_event(PlayEvent::Ui {
        is_click: true,
        target: entity(1),
        info_button: Some(entity(1)),
        info_dialog: dialog,
    });
    apply(&mut dialog, &mut hidden, &mut next_id, e);
    assert!(dialog.is_none() && hidden);
}
