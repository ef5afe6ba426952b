use vstd::prelude::*;
use vstd::string::StringExecFns;

use crate::state::{MouseButton, ScreenId, StateEvent, Trans, VirtualKeyCode, WindowEvent};
use crate::world::{
    is_live_root, lemma_idx_of_unique, Anchor, EntityModel, UiTransform, UiTransformModel, World,
};

verus! {

/// How many fixed-update ticks the splash screen stays up without input:
/// at a 60 Hz fixed-update cadence, about one second.
pub const SPLASH_FRAMES: u32 = 60;

/// The opening screen: shows a splash image and waits for a timeout or a
/// dismissing input, then hands over to the main menu.
#[derive(Clone, Copy, Debug, PartialEq, Eq, Structural)]
pub struct SplashScreen {
    pub ui_handle: Option<u64>,
    pub frame_displayed: u32,
}

impl Default for SplashScreen {
    fn default() -> (r: Self)
        ensures
            r.ui_handle is None,
            r.frame_displayed == 0,
    {
        SplashScreen { ui_handle: None, frame_displayed: 0 }
    }
}

impl SplashScreen {
    /// The single entity the splash screen's UI template resolves to.
    pub open spec fn splash_created(n: u64) -> Seq<EntityModel> {
        seq![
            EntityModel {
                id: n,
                parent: None,
                owner: n,
                transform: UiTransformModel {
                    id: "splash"@,
                    anchor: Anchor::Middle,
                    pivot: Anchor::Middle,
                    x: 0,
                    y: 0,
                    z_tenths: 0,
                    width: 0,
                    height: 0,
                },
                tag: false,
                fill: None,
                text: None,
                font_size: None,
            },
        ]
    }

    /// Build the splash subtree and remember its root.
    pub fn on_start(&mut self, world: &mut World)
        requires
            old(world).wf(),
            old(world).next_id < u64::MAX,
        ensures
            final(world)@ == old(world)@ + Self::splash_created(old(world).next_id),
            final(world).next_id == old(world).next_id + 1,
            final(world).wf(),
            is_live_root(final(world)@, old(world).next_id),
            final(self).ui_handle == Some(old(world).next_id),
            final(self).frame_displayed == old(self).frame_displayed,
    {
        let ghost n0 = world@.len() as int;
        let transform = UiTransform::new(
            String::from_str("splash"),
            Anchor::Middle,
            Anchor::Middle,
            0,
            0,
            0,
            0,
            0,
        );
        let root = world.create_entity(None, transform, None, None, None, None);
        self.ui_handle = Some(root);
        proof {
            assert(world@ =~= old(world)@ + Self::splash_created(old(world).next_id));
            lemma_idx_of_unique(world@, world.next_id, root, n0);
        }
    }

    /// The transition one more elapsed tick asks for.
    pub open spec fn spec_tick_trans(frames_after: u32) -> Trans {
        if frames_after > SPLASH_FRAMES {
            Trans::Switch(ScreenId::MainMenu)
        } else {
            Trans::Stay
        }
    }

    /// Count one fixed-update tick; once the counter passes the threshold,
    /// ask to switch to the main menu.
    pub fn fixed_update(&mut self) -> (t: Trans)
        requires
            old(self).frame_displayed < u32::MAX,
        ensures
            final(self).frame_displayed == old(self).frame_displayed + 1,
            final(self).ui_handle == old(self).ui_handle,
            t == Self::spec_tick_trans(final(self).frame_displayed),
    {
        self.frame_displayed = self.frame_displayed + 1;
        if self.frame_displayed > SPLASH_FRAMES {
            Trans::Switch(ScreenId::MainMenu)
        } else {
            Trans::Stay
        }
    }

    /// The transition the splash screen takes for one event: close request
    /// or Escape quits, a left click dismisses to the main menu, anything
    /// else stays.
    pub open spec fn splash_trans(event: StateEvent) -> Trans {
        match event {
            StateEvent::Window(w) => match w {
                WindowEvent::CloseRequested => Trans::Quit,
                WindowEvent::KeyDown(k) => if k == VirtualKeyCode::Escape {
                    Trans::Quit
                } else {
                    Trans::Stay
                },
                WindowEvent::MouseButtonDown(b) => if b == MouseButton::Left {
                    Trans::Switch(ScreenId::MainMenu)
                } else {
                    Trans::Stay
                },
                WindowEvent::Other => Trans::Stay,
            },
            StateEvent::Ui(_) => Trans::Stay,
        }
    }

    pub fn handle_event(&self, event: StateEvent) -> (t: Trans)
        ensures
            t == Self::splash_trans(event),
    {
        match event {
            StateEvent::Window(w) => match w {
                WindowEvent::CloseRequested => Trans::Quit,
                WindowEvent::KeyDown(k) => if k == VirtualKeyCode::Escape {
                    Trans::Quit
                } else {
                    Trans::Stay
                },
                WindowEvent::MouseButtonDown(b) => if b == MouseButton::Left {
                    Trans::Switch(ScreenId::MainMenu)
                } else {
                    Trans::Stay
                },
                WindowEvent::Other => Trans::Stay,
            },
            StateEvent::Ui(_) => Trans::Stay,
        }
    }

    /// Tear down the splash subtree. The root must exist whenever
    /// `on_start` ran: a missing root is an ownership bug, not a state.
    pub fn on_stop(&mut self, world: &mut World)
        requires
            old(world).wf(),
            old(self).ui_handle matches Some(r) ==> is_live_root(old(world)@, r),
        ensures
            final(self).ui_handle is None,
            final(self).frame_displayed == old(self).frame_displayed,
            final(world).next_id == old(world).next_id,
            final(world).wf(),
            final(world)@ == (match old(self).ui_handle {
                Some(r) => old(world)@.filter(|rec: EntityModel| rec.owner != r),
                None => old(world)@,
            }),
    {
        match self.ui_handle {
            Some(root) => {
                world.delete_root(root);
            },
            None => {},
        }
        self.ui_handle = None;
    }
}

} // verus!
