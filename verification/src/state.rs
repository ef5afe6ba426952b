use vstd::prelude::*;
use vstd::string::StringExecFns;

use crate::about::{about_created, AboutScreen};
use crate::events::UiEvent;
use crate::menu::MainMenu;
use crate::splash::SplashScreen;
use crate::world::{
    is_live_root, lemma_filter_all_keep, lemma_filter_none_keep, wf_entities, EntityModel, World,
};

verus! {

/// The finite set of mutually exclusive screens.
#[derive(Clone, Copy, Debug, PartialEq, Eq, Structural)]
pub enum ScreenId {
    Splash,
    MainMenu,
    Game,
    About,
    Pause,
    Credits,
}

/// What a screen asks of the frame loop after an event or an update:
/// stay, tear this screen down and start another, or quit the application.
#[derive(Clone, Copy, Debug, PartialEq, Eq, Structural)]
pub enum Trans {
    Stay,
    Switch(ScreenId),
    Quit,
}

/// A key the screens recognize.
#[derive(Clone, Copy, Debug, PartialEq, Eq, Structural)]
pub enum VirtualKeyCode {
    Escape,
    Other,
}

/// A pointer button.
#[derive(Clone, Copy, Debug, PartialEq, Eq, Structural)]
pub enum MouseButton {
    Left,
    Right,
    Middle,
}

/// A window-level input event as the host substrate delivers it.
#[derive(Clone, Copy, Debug, PartialEq, Eq, Structural)]
pub enum WindowEvent {
    CloseRequested,
    KeyDown(VirtualKeyCode),
    MouseButtonDown(MouseButton),
    Other,
}

/// One event delivered to the active screen: either a window-level input
/// event or a UI interaction event.
#[derive(Clone, Copy, Debug, PartialEq, Eq, Structural)]
pub enum StateEvent {
    Window(WindowEvent),
    Ui(UiEvent),
}

/// A side effect the screen logic asks the host to perform; the host owns
/// the actual call out of the application.
#[derive(Clone, Debug)]
pub enum HostRequest {
    OpenUrl(String),
}

/// Placeholder for the game proper; it builds no UI of its own here.
#[derive(Clone, Copy, Debug, PartialEq, Eq, Structural)]
pub struct GameScreen {}

impl Default for GameScreen {
    fn default() -> (r: Self)
        ensures
            r == (GameScreen {  }),
    {
        GameScreen {  }
    }
}

/// Placeholder for a pause overlay; unused.
#[derive(Clone, Copy, Debug, PartialEq, Eq, Structural)]
pub struct PauseScreen {}

/// Placeholder for a credits roll; unused.
#[derive(Clone, Copy, Debug, PartialEq, Eq, Structural)]
pub struct CreditsScreen {}

/// The value of the currently active screen.
#[derive(Clone, Copy, Debug, PartialEq, Eq, Structural)]
pub enum Screen {
    Splash(SplashScreen),
    Menu(MainMenu),
    About(AboutScreen),
    Game(GameScreen),
    Pause(PauseScreen),
    Credits(CreditsScreen),
}

/// The root entity the active screen owns, if it built one.
pub open spec fn screen_root(s: Screen) -> Option<u64> {
    match s {
        Screen::Splash(sp) => sp.ui_handle,
        Screen::Menu(m) => m.ui_root,
        Screen::About(a) => a.ui_handle,
        Screen::Game(_) => None,
        Screen::Pause(_) => None,
        Screen::Credits(_) => None,
    }
}

/// The entities a screen's `on_start` appends when the store's allocation
/// cursor stands at `n`.
pub open spec fn created_models(id: ScreenId, version: Seq<char>, n: u64) -> Seq<EntityModel> {
    match id {
        ScreenId::Splash => SplashScreen::splash_created(n),
        ScreenId::MainMenu => MainMenu::menu_created(n),
        ScreenId::About => about_created(version, n),
        ScreenId::Game => Seq::empty(),
        ScreenId::Pause => Seq::empty(),
        ScreenId::Credits => Seq::empty(),
    }
}

/// The screen value right after a default construction and `on_start`,
/// when the root it builds gets entity id `n`.
pub open spec fn started_screen(id: ScreenId, n: u64) -> Screen {
    match id {
        ScreenId::Splash => Screen::Splash(
            SplashScreen { ui_handle: Some(n), frame_displayed: 0 },
        ),
        ScreenId::MainMenu => Screen::Menu(
            MainMenu { ui_root: Some(n), button_start: None, button_about: None },
        ),
        ScreenId::About => Screen::About(AboutScreen { ui_handle: Some(n), twitter_link: None }),
        ScreenId::Game => Screen::Game(GameScreen {  }),
        ScreenId::Pause => Screen::Pause(PauseScreen {  }),
        ScreenId::Credits => Screen::Credits(CreditsScreen {  }),
    }
}

/// The store after the active screen's teardown: the subtree it owns is
/// gone; a screen without a root leaves the store alone.
pub open spec fn stop_entities(s: Screen, es: Seq<EntityModel>) -> Seq<EntityModel> {
    match screen_root(s) {
        Some(r) => es.filter(|rec: EntityModel| rec.owner != r),
        None => es,
    }
}

/// The transition the active screen decides for one event.
pub open spec fn spec_screen_trans(s: Screen, event: StateEvent) -> Trans {
    match s {
        Screen::Splash(_) => SplashScreen::splash_trans(event),
        Screen::Menu(m) => MainMenu::menu_trans(m, event),
        Screen::About(a) => AboutScreen::about_trans(a, event),
        Screen::Game(_) => Trans::Stay,
        Screen::Pause(_) => Trans::Stay,
        Screen::Credits(_) => Trans::Stay,
    }
}

/// Whether the event asks the host to open the external link: only the
/// about screen's resolved link does.
pub open spec fn spec_wants_link(s: Screen, event: StateEvent) -> bool {
    match s {
        Screen::About(a) => AboutScreen::wants_link(a, event),
        _ => false,
    }
}

/// Law: for every screen, `on_start` followed immediately by `on_stop`
/// leaks no entities — tearing the started screen's subtree out of the
/// store leaves exactly the entities that existed before the start.
pub proof fn lemma_start_stop_no_leak(
    es: Seq<EntityModel>,
    id: ScreenId,
    version: Seq<char>,
    next_id: u64,
)
    requires
        wf_entities(es, next_id),
    ensures
        (es + created_models(id, version, next_id)).filter(
            |rec: EntityModel| rec.owner != next_id,
        ) == es,
{
    let created = created_models(id, version, next_id);
    let pred = |rec: EntityModel| rec.owner != next_id;
    assert forall|i: int| 0 <= i < created.len() implies !pred(#[trigger] created[i]) by {
        assert(created[i].owner == next_id);
    }
    assert forall|i: int| 0 <= i < es.len() implies pred(#[trigger] es[i]) by {
        assert(es[i].owner <= es[i].id < next_id);
    }
    Seq::filter_distributes_over_add(es, created, pred);
    lemma_filter_all_keep(es, pred);
    lemma_filter_none_keep(created, pred);
    assert((es + created).filter(pred) =~= es);
}

/// What honoring one transition does: `Stay` changes nothing, `Quit` only
/// halts the frame loop, and `Switch` tears the active screen's subtree
/// down and then starts the next screen, synchronously and in that order.
pub open spec fn applied(
    pre: Director,
    pre_w: World,
    post: Director,
    post_w: World,
    trans: Trans,
) -> bool {
    match trans {
        Trans::Stay => post == pre && post_w@ == pre_w@ && post_w.next_id == pre_w.next_id,
        Trans::Quit => post.screen == pre.screen && post.version == pre.version && !post.running
            && post_w@ == pre_w@ && post_w.next_id == pre_w.next_id,
        Trans::Switch(id) => {
            &&& post_w@ == stop_entities(pre.screen, pre_w@) + created_models(
                id,
                pre.version@,
                pre_w.next_id,
            )
            &&& post_w.next_id == pre_w.next_id + created_models(
                id,
                pre.version@,
                pre_w.next_id,
            ).len()
            &&& post.screen == started_screen(id, pre_w.next_id)
            &&& post.running == pre.running
            &&& post.version == pre.version
        },
    }
}

/// Drives the screen state machine: holds the active screen, honors the
/// transition it requests after every event and update, and stops the
/// frame loop on `Quit`.
pub struct Director {
    pub screen: Screen,
    pub running: bool,
    pub version: String,
}

impl Director {
    /// The store is well-formed and the active screen's root — if it built
    /// one — is a live root entity owning its subtree.
    pub open spec fn world_inv(self, w: World) -> bool {
        &&& w.wf()
        &&& match screen_root(self.screen) {
            Some(r) => is_live_root(w@, r),
            None => true,
        }
    }

    /// Start the application: the splash screen comes up first.
    pub fn start(world: &mut World, version: &str) -> (d: Director)
        requires
            old(world).wf(),
            old(world).next_id < u64::MAX,
        ensures
            final(world)@ == old(world)@ + SplashScreen::splash_created(old(world).next_id),
            final(world).next_id == old(world).next_id + 1,
            final(world).wf(),
            d.screen == started_screen(ScreenId::Splash, old(world).next_id),
            d.running,
            d.version@ == version@,
            d.world_inv(*final(world)),
    {
        let mut s = SplashScreen::default();
        s.on_start(world);
        Director { screen: Screen::Splash(s), running: true, version: version.to_owned() }
    }

    /// Honor one transition: exactly one per event or update call.
    pub fn apply_trans(&mut self, world: &mut World, trans: Trans)
        requires
            old(self).world_inv(*old(world)),
            old(world).next_id + 15 <= u64::MAX,
        ensures
            applied(*old(self), *old(world), *final(self), *final(world), trans),
            final(self).world_inv(*final(world)),
    {
        match trans {
            Trans::Stay => {},
            Trans::Quit => {
                self.running = false;
            },
            Trans::Switch(id) => {
                match &mut self.screen {
                    Screen::Splash(s) => s.on_stop(world),
                    Screen::Menu(m) => m.on_stop(world),
                    Screen::About(a) => a.on_stop(world),
                    _ => {},
                }
                match id {
                    ScreenId::Splash => {
                        let mut s = SplashScreen::default();
                        s.on_start(world);
                        self.screen = Screen::Splash(s);
                    },
                    ScreenId::MainMenu => {
                        let mut m = MainMenu::default();
                        m.on_start(world);
                        self.screen = Screen::Menu(m);
                    },
                    ScreenId::About => {
                        let mut a = AboutScreen::default();
                        a.on_start(world, self.version.as_str());
                        self.screen = Screen::About(a);
                    },
                    ScreenId::Game => {
                        self.screen = Screen::Game(GameScreen {  });
                    },
                    ScreenId::Pause => {
                        self.screen = Screen::Pause(PauseScreen {  });
                    },
                    ScreenId::Credits => {
                        self.screen = Screen::Credits(CreditsScreen {  });
                    },
                }
            },
        }
    }

    /// Deliver one event to the active screen and honor the transition it
    /// decides; a click on the about screen's resolved link additionally
    /// hands back the host request to open the external page.
    pub fn handle_event(&mut self, world: &mut World, event: StateEvent) -> (req: Option<
        HostRequest,
    >)
        requires
            old(self).world_inv(*old(world)),
            old(world).next_id + 15 <= u64::MAX,
        ensures
            applied(
                *old(self),
                *old(world),
                *final(self),
                *final(world),
                spec_screen_trans(old(self).screen, event),
            ),
            final(self).world_inv(*final(world)),
            req matches Some(r) <==> spec_wants_link(old(self).screen, event),
            req matches Some(r) ==> (r matches HostRequest::OpenUrl(u) && u@ == crate::about::twitter_url()),
    {
        let (trans, req): (Trans, Option<HostRequest>) = match &self.screen {
            Screen::Splash(s) => (s.handle_event(event), None),
            Screen::Menu(m) => (m.handle_event(event), None),
            Screen::About(a) => a.handle_event(event),
            Screen::Game(_) => (Trans::Stay, None),
            Screen::Pause(_) => (Trans::Stay, None),
            Screen::Credits(_) => (Trans::Stay, None),
        };
        self.apply_trans(world, trans);
        req
    }

    /// Run one fixed-update tick: only the splash screen counts ticks, and
    /// its timeout transition is honored like any other.
    pub fn fixed_update(&mut self, world: &mut World)
        requires
            old(self).world_inv(*old(world)),
            old(world).next_id + 15 <= u64::MAX,
            old(self).screen matches Screen::Splash(sp) ==> sp.frame_displayed < u32::MAX,
        ensures
            final(self).world_inv(*final(world)),
            match old(self).screen {
                Screen::Splash(sp) => applied(
                    (Director {
                        screen: Screen::Splash(
                            (SplashScreen {
                                ui_handle: sp.ui_handle,
                                frame_displayed: (sp.frame_displayed + 1) as u32,
                            }),
                        ),
                        running: old(self).running,
                        version: old(self).version,
                    }),
                    *old(world),
                    *final(self),
                    *final(world),
                    SplashScreen::spec_tick_trans((sp.frame_displayed + 1) as u32),
                ),
                _ => *final(self) == *old(self) && final(world)@ == old(world)@
                    && final(world).next_id == old(world).next_id,
            },
    {
        let trans = match &mut self.screen {
            Screen::Splash(s) => s.fixed_update(),
            _ => Trans::Stay,
        };
        self.apply_trans(world, trans);
    }

    /// The active screen after one per-frame update: the menu and about
    /// screens run their lazy-resolve step, everything else is inert.
    pub open spec fn spec_update_screen(s: Screen, es: Seq<EntityModel>) -> Screen {
        match s {
            Screen::Menu(m) => Screen::Menu(MainMenu::resolve_step(m, es)),
            Screen::About(a) => Screen::About(AboutScreen::resolve_step(a, es)),
            _ => s,
        }
    }

    /// Run the active screen's per-frame update. No screen requests a
    /// transition here and none touches the store: the update only polls
    /// the finder for not-yet-resolved widget handles.
    pub fn update(&mut self, world: &World)
        ensures
            final(self).screen == Self::spec_update_screen(old(self).screen, world@),
            final(self).running == old(self).running,
            final(self).version == old(self).version,
    {
        match &mut self.screen {
            Screen::Menu(m) => {
                m.update(world);
            },
            Screen::About(a) => {
                a.update(world);
            },
            _ => {},
        }
    }
}

} // verus!
