use vstd::prelude::*;
use vstd::string::StringExecFns;

use crate::events::UiEventType;
use crate::state::{ScreenId, StateEvent, Trans, VirtualKeyCode, WindowEvent};
use crate::ui_scheme::Button;
use crate::world::{
    is_live_root, lemma_idx_of_unique, spec_find, Anchor, EntityModel, UiTransform,
    UiTransformModel, World,
};

verus! {

/// The main menu: a root entity with a "Start Game" and an "About" button
/// stacked under it, resolved lazily by id once they exist.
#[derive(Clone, Copy, Debug, PartialEq, Eq, Structural)]
pub struct MainMenu {
    pub ui_root: Option<u64>,
    pub button_start: Option<u64>,
    pub button_about: Option<u64>,
}

impl Default for MainMenu {
    fn default() -> (r: Self)
        ensures
            r.ui_root is None,
            r.button_start is None,
            r.button_about is None,
    {
        MainMenu { ui_root: None, button_start: None, button_about: None }
    }
}

impl MainMenu {
    /// The placement transform each menu button's handle is created with.
    pub open spec fn placement_model(id: Seq<char>, y: i32) -> UiTransformModel {
        UiTransformModel {
            id: id + "_container"@,
            anchor: Anchor::Middle,
            pivot: Anchor::Middle,
            x: 0,
            y,
            z_tenths: 0,
            width: 0,
            height: 0,
        }
    }

    /// The fifteen entities the menu creates: its root and the seven parts
    /// of each of the two buttons, stacked with fixed spacing.
    pub open spec fn menu_created(n: u64) -> Seq<EntityModel> {
        seq![
            EntityModel {
                id: n,
                parent: None,
                owner: n,
                transform: UiTransformModel {
                    id: "menu"@,
                    anchor: Anchor::Middle,
                    pivot: Anchor::Middle,
                    x: 0,
                    y: 0,
                    z_tenths: 0,
                    width: 0,
                    height: 0,
                },
                tag: false,
                fill: None,
                text: None,
                font_size: None,
            },
        ] + Button::button_models(
            "Start Game"@,
            "start"@,
            800,
            150,
            5,
            n,
            n,
            Self::placement_model("start"@, 75),
            (n + 1) as u64,
        ) + Button::button_models(
            "About"@,
            "about"@,
            800,
            150,
            5,
            n,
            n,
            Self::placement_model("about"@, -85i32),
            (n + 8) as u64,
        )
    }

    /// Build the menu subtree: a root entity and the two buttons, each
    /// vertically placed, and remember the root.
    pub fn on_start(&mut self, world: &mut World)
        requires
            old(world).wf(),
            old(world).next_id + 15 <= u64::MAX,
        ensures
            final(world)@ == old(world)@ + Self::menu_created(old(world).next_id),
            final(world).next_id == old(world).next_id + 15,
            final(world).wf(),
            is_live_root(final(world)@, old(world).next_id),
            final(self).ui_root == Some(old(world).next_id),
            final(self).button_start == old(self).button_start,
            final(self).button_about == old(self).button_about,
    {
        let ghost es0 = world@;
        let ghost n0 = es0.len() as int;
        let root_transform = UiTransform::new(
            String::from_str("menu"),
            Anchor::Middle,
            Anchor::Middle,
            0,
            0,
            0,
            0,
            0,
        );
        let menu = world.create_entity(None, root_transform, None, None, None, None);
        proof {
            lemma_idx_of_unique(world@, world.next_id, menu, n0);
        }

        let start_placement = UiTransform::new(
            String::from_str("start").concat("_container"),
            Anchor::Middle,
            Anchor::Middle,
            0,
            75,
            0,
            0,
            0,
        );
        Button::new("Start Game", "start").create(world, menu, start_placement);
        proof {
            lemma_idx_of_unique(world@, world.next_id, menu, n0);
        }

        let about_placement = UiTransform::new(
            String::from_str("about").concat("_container"),
            Anchor::Middle,
            Anchor::Middle,
            0,
            -85,
            0,
            0,
            0,
        );
        Button::new("About", "about").create(world, menu, about_placement);

        self.ui_root = Some(menu);
        proof {
            assert(world@ =~= es0 + Self::menu_created(old(world).next_id));
            lemma_idx_of_unique(world@, world.next_id, menu, n0);
        }
    }

    /// The lazy-resolve step: while either button handle is missing, look
    /// both up by id; once both are known, leave them alone.
    pub open spec fn resolve_step(m: MainMenu, es: Seq<EntityModel>) -> MainMenu {
        if m.button_start is None || m.button_about is None {
            MainMenu {
                ui_root: m.ui_root,
                button_start: spec_find(es, "start"@),
                button_about: spec_find(es, "about"@),
            }
        } else {
            m
        }
    }

    /// Law: the lazy-resolve step is idempotent — before the targets exist
    /// it keeps returning "unresolved" without any other change, and once
    /// they are resolved a further step changes nothing.
    pub proof fn lemma_resolve_idempotent(m: MainMenu, es: Seq<EntityModel>)
        ensures
            Self::resolve_step(Self::resolve_step(m, es), es) == Self::resolve_step(m, es),
    {
    }

    /// Re-query missing button handles; never touches the store.
    pub fn update(&mut self, world: &World) -> (t: Trans)
        ensures
            *final(self) == Self::resolve_step(*old(self), world@),
            t == Trans::Stay,
    {
        if self.button_start.is_none() || self.button_about.is_none() {
            self.button_start = world.find_by_id("start");
            self.button_about = world.find_by_id("about");
        }
        Trans::Stay
    }

    /// The transition the menu takes for one event: close request or Escape
    /// quits; a click on the resolved "about" button opens the about
    /// screen, one on the resolved "start" button starts the game.
    pub open spec fn menu_trans(m: MainMenu, event: StateEvent) -> Trans {
        match event {
            StateEvent::Window(w) => match w {
                WindowEvent::CloseRequested => Trans::Quit,
                WindowEvent::KeyDown(k) => if k == VirtualKeyCode::Escape {
                    Trans::Quit
                } else {
                    Trans::Stay
                },
                WindowEvent::MouseButtonDown(_) => Trans::Stay,
                WindowEvent::Other => Trans::Stay,
            },
            StateEvent::Ui(ev) => {
                if ev.event_type == UiEventType::Click {
                    if m.button_about == Some(ev.target) {
                        Trans::Switch(ScreenId::About)
                    } else if m.button_start == Some(ev.target) {
                        Trans::Switch(ScreenId::Game)
                    } else {
                        Trans::Stay
                    }
                } else {
                    Trans::Stay
                }
            },
        }
    }

    pub fn handle_event(&self, event: StateEvent) -> (t: Trans)
        ensures
            t == Self::menu_trans(*self, event),
    {
        match event {
            StateEvent::Window(w) => match w {
                WindowEvent::CloseRequested => Trans::Quit,
                WindowEvent::KeyDown(k) => if k == VirtualKeyCode::Escape {
                    Trans::Quit
                } else {
                    Trans::Stay
                },
                WindowEvent::MouseButtonDown(_) => Trans::Stay,
                WindowEvent::Other => Trans::Stay,
            },
            StateEvent::Ui(ev) => match ev.event_type {
                UiEventType::Click => {
                    let about_hit = match self.button_about {
                        Some(b) => b == ev.target,
                        None => false,
                    };
                    let start_hit = match self.button_start {
                        Some(b) => b == ev.target,
                        None => false,
                    };
                    if about_hit {
                        Trans::Switch(ScreenId::About)
                    } else if start_hit {
                        Trans::Switch(ScreenId::Game)
                    } else {
                        Trans::Stay
                    }
                },
                _ => Trans::Stay,
            },
        }
    }

    /// Tear down the menu subtree and invalidate all handles.
    pub fn on_stop(&mut self, world: &mut World)
        requires
            old(world).wf(),
            old(self).ui_root matches Some(r) ==> is_live_root(old(world)@, r),
        ensures
            final(self).ui_root is None,
            final(self).button_start is None,
            final(self).button_about is None,
            final(world).next_id == old(world).next_id,
            final(world).wf(),
            final(world)@ == (match old(self).ui_root {
                Some(r) => old(world)@.filter(|rec: EntityModel| rec.owner != r),
                None => old(world)@,
            }),
    {
        match self.ui_root {
            Some(root) => {
                world.delete_root(root);
            },
            None => {},
        }
        self.ui_root = None;
        self.button_start = None;
        self.button_about = None;
    }
}

} // verus!

