//! The game states: loading the assets, then playing.
//!
//! The states decide; the game engine does the work. Each step takes what
//! the engine observed (the progress of loading, a window or interface event
//! and the entities that the interface finder found) and returns the state
//! transition together with the effects on the world that the engine then
//! carries out.

use vstd::prelude::*;

verus! {

/// Interface prefab shown while the assets load.
pub const LOADING_UI_PATH: &'static str = "ui/loading.ron";

/// Scene prefab loaded by the loading state.
pub const SCENE_PREFAB_PATH: &'static str = "prefab/scene_prefab.ron";

/// Interface prefab of the info dialog.
pub const INFO_UI_PATH: &'static str = "ui/info.ron";

/// Identifier of the "loading" text, removed when loading ends.
pub const LOADING_TEXT_ID: &'static str = "loading_text";

/// Identifier of the info dialog.
pub const INFO_DIALOG_ID: &'static str = "info_dialog";

/// Identifier of the button that closes the info dialog.
pub const INFO_BUTTON_ID: &'static str = "info_button";

/// Progress of the assets that the loading state waits for.
#[derive(Clone, Copy, Debug, PartialEq, Eq, Structural)]
pub enum Completion {
    Complete,
    Failed,
    Loading,
}

/// The transition that a state asks for after a step.
#[derive(Debug, PartialEq)]
pub enum Trans<P> {
    /// Stay in the current state.
    Stay,
    /// End the game.
    Quit,
    /// Replace the current state with the given one.
    Switch(P),
}

/// An entity of the world, by its index and generation.
#[derive(Clone, Copy, Debug, PartialEq, Eq, Structural)]
pub struct EntityRef {
    pub id: u32,
    pub generation: i32,
}

/// The effects of a step on the world.
#[derive(Clone, Copy, Debug, PartialEq, Eq)]
pub struct WorldEffects {
    /// Create an entity that shows the scene.
    pub spawn_scene: bool,
    /// Create an entity that shows the info dialog.
    pub spawn_info_ui: bool,
    /// Delete this entity.
    pub delete: Option<EntityRef>,
    /// Set whether the cursor is hidden.
    pub hide_cursor: Option<bool>,
}

/// No effect at all.
pub open spec fn no_effects() -> WorldEffects {
    WorldEffects { spawn_scene: false, spawn_info_ui: false, delete: None, hide_cursor: None }
}

/// A value of the loading state: the handles of the scene and of the info
/// dialog, once their loading has started.
pub type LoadingView<S, U> = (Option<S>, Option<U>);

/// The loading state after a step that observed `completion`.
pub open spec fn loading_next<S, U>(v: LoadingView<S, U>, completion: Completion) -> LoadingView<S, U> {
    match completion {
        Completion::Complete => (None, None),
        _ => v,
    }
}

/// The transition of a loading step that observed `completion`: to the
/// playing state with the loaded handles once everything is loaded, to the
/// end of the game if loading failed, nowhere while it goes on.
pub open spec fn loading_trans<S, U>(v: LoadingView<S, U>, completion: Completion) -> Trans<(S, U)> {
    match completion {
        Completion::Complete => Trans::Switch((v.0->0, v.1->0)),
        Completion::Failed => Trans::Quit,
        Completion::Loading => Trans::Stay,
    }
}

/// The loading state after steps that observed each of `progress` in turn.
pub open spec fn loading_after<S, U>(v: LoadingView<S, U>, progress: Seq<Completion>) -> LoadingView<S, U>
    decreases progress.len(),
{
    if progress.len() == 0 {
        v
    } else {
        loading_next(loading_after(v, progress.drop_last()), progress.last())
    }
}

/// A transition to a playing state, with the playing state by its view.
pub open spec fn trans_view<S, U>(t: Trans<MyPlayState<S, U>>) -> Trans<(S, U)> {
    match t {
        Trans::Stay => Trans::Stay,
        Trans::Quit => Trans::Quit,
        Trans::Switch(p) => Trans::Switch(p@),
    }
}

/// Loading state: shows a "loading" text while the scene and the info dialog
/// load, then hands them to the playing state.
pub struct MyLoadingState<S, U> {
    scene: Option<S>,
    info_ui: Option<U>,
}

impl<S, U> View for MyLoadingState<S, U> {
    type V = LoadingView<S, U>;

    closed spec fn view(&self) -> LoadingView<S, U> {
        (self.scene, self.info_ui)
    }
}

impl<S, U> MyLoadingState<S, U> {
    /// A state whose loading has not started.
    pub fn new() -> (state: Self)
        ensures
            state@ == (None::<S>, None::<U>),
    {
        MyLoadingState { scene: None, info_ui: None }
    }

    /// Keeps the handles of the scene and of the info dialog whose loading
    /// the start of the state began (after the loading text was created).
    pub fn on_start(&mut self, scene: S, info_ui: U)
        ensures
            final(self)@ == (Some(scene), Some(info_ui)),
    {
        self.scene = Some(scene);
        self.info_ui = Some(info_ui);
    }

    /// Whether the handles of the scene and of the info dialog are held.
    pub fn has_handles(&self) -> (held: bool)
        ensures
            held == (self@.0 is Some && self@.1 is Some),
    {
        self.scene.is_some() && self.info_ui.is_some()
    }

    /// One step of the state, given the progress of loading.
    pub fn update(&mut self, completion: Completion) -> (t: Trans<MyPlayState<S, U>>)
        requires
            completion == Completion::Complete ==> old(self)@.0 is Some && old(self)@.1 is Some,
        ensures
            trans_view(t) == loading_trans(old(self)@, completion),
            final(self)@ == loading_next(old(self)@, completion),
    {
        match completion {
            Completion::Complete => {
                let scene = self.scene.take().unwrap();
                let info_ui = self.info_ui.take().unwrap();
                Trans::Switch(MyPlayState::new(scene, info_ui))
            },
            Completion::Failed => Trans::Quit,
            Completion::Loading => Trans::Stay,
        }
    }
}

/// Once loading has started, however many steps it takes, the playing state
/// receives exactly the scene and the info dialog whose loading started.
pub proof fn lemma_play_receives_loaded_handles<S, U>(scene: S, info_ui: U, waiting: Seq<Completion>)
    requires
        forall|i: int| 0 <= i < waiting.len() ==> #[trigger] waiting[i] == Completion::Loading,
    ensures
        loading_after((Some(scene), Some(info_ui)), waiting) == (Some(scene), Some(info_ui)),
        loading_trans(loading_after((Some(scene), Some(info_ui)), waiting), Completion::Complete)
            == Trans::Switch((scene, info_ui)),
    decreases waiting.len(),
{
    if waiting.len() > 0 {
        lemma_play_receives_loaded_handles(scene, info_ui, waiting.drop_last());
        assert(waiting.last() == waiting[waiting.len() - 1]);
    }
}

/// Something the playing state is told about.
#[derive(Clone, Copy, Debug, PartialEq, Eq)]
pub enum PlayEvent {
    /// A window event: whether it asks to close the window, whether it is a
    /// press of the escape key, and the info dialog if one is shown.
    Window { close_requested: bool, escape_down: bool, info_dialog: Option<EntityRef> },
    /// An interface event: whether it is a click, the entity it targets, the
    /// button that closes the info dialog and the info dialog, where shown.
    Ui {
        is_click: bool,
        target: EntityRef,
        info_button: Option<EntityRef>,
        info_dialog: Option<EntityRef>,
    },
}

/// The info dialog as the event saw it.
pub open spec fn observed_dialog(event: PlayEvent) -> Option<EntityRef> {
    match event {
        PlayEvent::Window { info_dialog, .. } => info_dialog,
        PlayEvent::Ui { info_dialog, .. } => info_dialog,
    }
}

/// Whether the event ends the game: a request to close the window.
pub open spec fn event_quits(event: PlayEvent) -> bool {
    match event {
        PlayEvent::Window { close_requested, .. } => close_requested,
        PlayEvent::Ui { .. } => false,
    }
}

/// The effects of an event on the world. Escape closes the info dialog and
/// hides the cursor where the dialog is shown, and otherwise shows both; a
/// click on the info button closes the dialog and hides the cursor.
pub open spec fn event_effects(event: PlayEvent) -> WorldEffects {
    match event {
        PlayEvent::Window { close_requested, escape_down, info_dialog } => {
            if close_requested || !escape_down {
                no_effects()
            } else {
                match info_dialog {
                    Some(dialog) => WorldEffects {
                        spawn_scene: false,
                        spawn_info_ui: false,
                        delete: Some(dialog),
                        hide_cursor: Some(true),
                    },
                    None => WorldEffects {
                        spawn_scene: false,
                        spawn_info_ui: true,
                        delete: None,
                        hide_cursor: Some(false),
                    },
                }
            }
        },
        PlayEvent::Ui { is_click, target, info_button, info_dialog } => {
            if is_click && info_button == Some(target) {
                WorldEffects {
                    spawn_scene: false,
                    spawn_info_ui: false,
                    delete: info_dialog,
                    hide_cursor: Some(true),
                }
            } else {
                no_effects()
            }
        },
    }
}

/// The effects of starting to play: the scene and the info dialog appear, and
/// the cursor is shown.
pub open spec fn start_effects() -> WorldEffects {
    WorldEffects {
        spawn_scene: true,
        spawn_info_ui: true,
        delete: None,
        hide_cursor: Some(false),
    }
}

/// The playing state, with the loaded scene and info dialog.
pub struct MyPlayState<S, U> {
    scene: S,
    info_ui: U,
}

impl<S, U> View for MyPlayState<S, U> {
    type V = (S, U);

    closed spec fn view(&self) -> (S, U) {
        (self.scene, self.info_ui)
    }
}

impl<S, U> MyPlayState<S, U> {
    /// A playing state for the given scene and info dialog.
    pub fn new(scene: S, info_ui: U) -> (state: Self)
        ensures
            state@ == (scene, info_ui),
    {
        MyPlayState { scene, info_ui }
    }

    /// The scene.
    pub fn scene(&self) -> (scene: &S)
        ensures
            *scene == self@.0,
    {
        &self.scene
    }

    /// The info dialog.
    pub fn info_ui(&self) -> (info_ui: &U)
        ensures
            *info_ui == self@.1,
    {
        &self.info_ui
    }

    /// The effects of starting to play.
    pub fn on_start(&self) -> (effects: WorldEffects)
        ensures
            effects == start_effects(),
    {
        WorldEffects {
            spawn_scene: true,
            spawn_info_ui: true,
            delete: None,
            hide_cursor: Some(false),
        }
    }

    /// Handles one event: quits when the window is to close, toggles the
    /// info dialog on escape and closes it on a click on its button.
    pub fn handle_event(&self, event: PlayEvent) -> (r: (Trans<MyPlayState<S, U>>, WorldEffects))
        ensures
            r.0 is Quit <==> event_quits(event),
            r.0 is Stay <==> !event_quits(event),
            r.1 == event_effects(event),
            event is Window ==> (r.0 is Quit <==> event->Window_close_requested),
            event is Ui ==> r.0 is Stay,
            event is Window && (event->Window_close_requested || !event->escape_down) ==> r.1
                == (WorldEffects { spawn_scene: false, spawn_info_ui: false, delete: None, hide_cursor: None }),
            event is Window && !event->Window_close_requested && event->escape_down
                && event->Window_info_dialog is Some ==> r.1 == (WorldEffects {
                spawn_scene: false,
                spawn_info_ui: false,
                delete: event->Window_info_dialog,
                hide_cursor: Some(true),
            }),
            event is Window && !event->Window_close_requested && event->escape_down
                && event->Window_info_dialog is None ==> r.1 == (WorldEffects {
                spawn_scene: false,
                spawn_info_ui: true,
                delete: None,
                hide_cursor: Some(false),
            }),
            event is Ui && event->is_click && event->info_button == Some(event->target) ==> r.1
                == (WorldEffects {
                spawn_scene: false,
                spawn_info_ui: false,
                delete: event->Ui_info_dialog,
                hide_cursor: Some(true),
            }),
            event is Ui && !(event->is_click && event->info_button == Some(event->target)) ==> r.1
                == (WorldEffects { spawn_scene: false, spawn_info_ui: false, delete: None, hide_cursor: None }),
    {
        let none = WorldEffects {
            spawn_scene: false,
            spawn_info_ui: false,
            delete: None,
            hide_cursor: None,
        };
        match event {
            PlayEvent::Window { close_requested, escape_down, info_dialog } => {
                if close_requested {
                    (Trans::Quit, none)
                } else if escape_down {
                    match info_dialog {
                        Some(dialog) => (
                            Trans::Stay,
                            WorldEffects {
                                spawn_scene: false,
                                spawn_info_ui: false,
                                delete: Some(dialog),
                                hide_cursor: Some(true),
                            },
                        ),
                        None => (
                            Trans::Stay,
                            WorldEffects {
                                spawn_scene: false,
                                spawn_info_ui: true,
                                delete: None,
                                hide_cursor: Some(false),
                            },
                        ),
                    }
                } else {
                    (Trans::Stay, none)
                }
            },
            PlayEvent::Ui { is_click, target, info_button, info_dialog } => {
                let on_button = match info_button {
                    Some(button) => button == target,
                    None => false,
                };
                if is_click && on_button {
                    (
                        Trans::Stay,
                        WorldEffects {
                            spawn_scene: false,
                            spawn_info_ui: false,
                            delete: info_dialog,
                            hide_cursor: Some(true),
                        },
                    )
                } else {
                    (Trans::Stay, none)
                }
            },
        }
    }
}

/// The game ends on an event exactly when it is a request to close the
/// window, whatever else the event carries.
pub proof fn lemma_quits_exactly_on_close_request(event: PlayEvent)
    ensures
        event_quits(event) <==> (event is Window && event->Window_close_requested),
{
}

/// A request to close the window, and a window event that is not a press of
/// escape, leave the world as it is, whether a dialog is shown or not.
pub proof fn lemma_window_events_without_escape_change_nothing(event: PlayEvent)
    requires
        event is Window,
        event->Window_close_requested || !event->escape_down,
    ensures
        event_effects(event) == (WorldEffects { spawn_scene: false, spawn_info_ui: false, delete: None, hide_cursor: None }),
{
}

/// An interface event changes the world only when it is a click on the info
/// button, and then it closes the dialog and hides the cursor; a click
/// elsewhere, the dialog itself included, changes nothing.
pub proof fn lemma_only_info_button_clicks_change_the_world(event: PlayEvent)
    requires
        event is Ui,
    ensures
        !event_quits(event),
        !(event->is_click && event->info_button == Some(event->target)) ==> event_effects(event)
            == (WorldEffects { spawn_scene: false, spawn_info_ui: false, delete: None, hide_cursor: None }),
        event->is_click && event->info_button == Some(event->target) ==> event_effects(event)
            == (WorldEffects {
            spawn_scene: false,
            spawn_info_ui: false,
            delete: event->Ui_info_dialog,
            hide_cursor: Some(true),
        }),
{
}

/// What the playing state keeps in view of the world: whether the info
/// dialog is shown and whether the cursor is hidden.
pub struct UiModel {
    pub dialog_shown: bool,
    pub cursor_hidden: bool,
}

/// Whether an event saw the world as the model has it.
pub open spec fn model_agrees(m: UiModel, event: PlayEvent) -> bool {
    m.dialog_shown == observed_dialog(event) is Some
}

/// The model after the effects, where `dialog` is the info dialog that the
/// step saw: deleting it closes the dialog, spawning one shows it.
pub open spec fn apply_effects(m: UiModel, effects: WorldEffects, dialog: Option<EntityRef>) -> UiModel {
    UiModel {
        dialog_shown: effects.spawn_info_ui || (m.dialog_shown && !(effects.delete is Some
            && effects.delete == dialog)),
        cursor_hidden: match effects.hide_cursor {
            Some(hidden) => hidden,
            None => m.cursor_hidden,
        },
    }
}

/// The cursor is hidden exactly while the info dialog is not shown.
pub open spec fn cursor_follows_dialog(m: UiModel) -> bool {
    m.cursor_hidden == !m.dialog_shown
}

/// Starting to play shows the info dialog and the cursor, whatever the world
/// was before.
pub proof fn lemma_start_shows_dialog_and_cursor(m: UiModel)
    ensures
        apply_effects(m, start_effects(), None).dialog_shown,
        !apply_effects(m, start_effects(), None).cursor_hidden,
        cursor_follows_dialog(apply_effects(m, start_effects(), None)),
{
}

/// Every event keeps the cursor hidden exactly while the info dialog is not
/// shown.
pub proof fn lemma_events_keep_cursor_following_dialog(m: UiModel, event: PlayEvent)
    requires
        model_agrees(m, event),
        cursor_follows_dialog(m),
    ensures
        cursor_follows_dialog(apply_effects(m, event_effects(event), observed_dialog(event))),
{
}

/// A press of escape that does not close the window toggles the info dialog.
pub proof fn lemma_escape_toggles_dialog(m: UiModel, info_dialog: Option<EntityRef>)
    requires
        model_agrees(
            m,
            PlayEvent::Window { close_requested: false, escape_down: true, info_dialog },
        ),
    ensures
        apply_effects(
            m,
            event_effects(
                PlayEvent::Window { close_requested: false, escape_down: true, info_dialog },
            ),
            info_dialog,
        ).dialog_shown == !m.dialog_shown,
{
}

/// A click on the info button closes the info dialog and hides the cursor.
pub proof fn lemma_info_button_closes_dialog(m: UiModel, event: PlayEvent)
    requires
        model_agrees(m, event),
        event matches PlayEvent::Ui { is_click, target, info_button, .. } && is_click
            && info_button == Some(target),
    ensures
        !apply_effects(m, event_effects(event), observed_dialog(event)).dialog_shown,
        apply_effects(m, event_effects(event), observed_dialog(event)).cursor_hidden,
{
}

/// While the info dialog is shown, the cursor is not hidden, so the camera
/// does not rotate.
pub proof fn lemma_no_rotation_while_dialog_shown(m: UiModel, window_focused: bool)
    requires
        cursor_follows_dialog(m),
        m.dialog_shown,
    ensures
        !crate::controls::rotation::rotation_active(window_focused, m.cursor_hidden),
{
}

} // verus!
