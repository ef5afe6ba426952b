use vstd::prelude::*;
use vstd::string::StringExecFns;

use crate::color_scheme::Fill;
use crate::world::{
    lemma_idx_of_unique, live, owner_of, Anchor, EntityModel, UiTransform, UiTransformModel,
    World,
};

verus! {

/// Empty marker component: the event router recolors exactly the entities
/// that carry it.
#[derive(Clone, Copy, Debug, PartialEq, Eq, Structural)]
pub struct ButtonComp;

impl Default for ButtonComp {
    fn default() -> (r: Self)
        ensures
            r == ButtonComp,
    {
        ButtonComp
    }
}

/// Description of one interactive button: a logical id, a label, and the
/// outer size and border thickness of its visual parts.
pub struct Button {
    pub text: String,
    pub id: String,
    pub width: u32,
    pub height: u32,
    pub border: u32,
    pub font: Option<u64>,
}

impl Button {
    /// A button with the default menu geometry and no font handle.
    /// The seven entity records that building one button appends to the
    /// store, in creation order: the handle placed by `placement`, the
    /// border with its two corner overlays, the highlightable background,
    /// the label, and the topmost full-size catch region whose id equals
    /// the button's base id.
    pub open spec fn button_models(
        text: Seq<char>,
        id: Seq<char>,
        width: u32,
        height: u32,
        border: u32,
        parent: u64,
        owner: u64,
        placement: UiTransformModel,
        n: u64,
    ) -> Seq<EntityModel> {
        seq![
            EntityModel {
                id: n,
                parent: Some(parent),
                owner,
                transform: placement,
                tag: false,
                fill: None,
                text: None,
                font_size: None,
            },
            EntityModel {
                id: (n + 1) as u64,
                parent: Some(n),
                owner,
                transform: UiTransformModel {
                    id: id + "_border"@,
                    anchor: Anchor::Middle,
                    pivot: Anchor::Middle,
                    x: 0,
                    y: 0,
                    z_tenths: 0,
                    width,
                    height,
                },
                tag: false,
                fill: Some(Fill::Border),
                text: None,
                font_size: None,
            },
            EntityModel {
                id: (n + 2) as u64,
                parent: Some((n + 1) as u64),
                owner,
                transform: UiTransformModel {
                    id: id + "_border_overlay_1"@,
                    anchor: Anchor::BottomLeft,
                    pivot: Anchor::BottomLeft,
                    x: 0,
                    y: 0,
                    z_tenths: 2,
                    width: width / 5,
                    height: height / 5,
                },
                tag: false,
                fill: Some(Fill::Border),
                text: None,
                font_size: None,
            },
            EntityModel {
                id: (n + 3) as u64,
                parent: Some((n + 1) as u64),
                owner,
                transform: UiTransformModel {
                    id: id + "_border_overlay_2"@,
                    anchor: Anchor::TopRight,
                    pivot: Anchor::TopRight,
                    x: 0,
                    y: 0,
                    z_tenths: 2,
                    width: width / 5,
                    height: height / 5,
                },
                tag: false,
                fill: Some(Fill::Border),
                text: None,
                font_size: None,
            },
            EntityModel {
                id: (n + 4) as u64,
                parent: Some(n),
                owner,
                transform: UiTransformModel {
                    id: id + "_background"@,
                    anchor: Anchor::Middle,
                    pivot: Anchor::Middle,
                    x: 0,
                    y: 0,
                    z_tenths: 1,
                    width: (width - border) as u32,
                    height: (height - border) as u32,
                },
                tag: true,
                fill: Some(Fill::Background),
                text: None,
                font_size: None,
            },
            EntityModel {
                id: (n + 5) as u64,
                parent: Some(n),
                owner,
                transform: UiTransformModel {
                    id: id + "_text"@,
                    anchor: Anchor::Middle,
                    pivot: Anchor::Middle,
                    x: 0,
                    y: 0,
                    z_tenths: 2,
                    width: (width - border) as u32,
                    height: (height - border) as u32,
                },
                tag: false,
                fill: Some(Fill::TextLight),
                text: Some(text),
                font_size: Some(70),
            },
            EntityModel {
                id: (n + 6) as u64,
                parent: Some(n),
                owner,
                transform: UiTransformModel {
                    id: id,
                    anchor: Anchor::Middle,
                    pivot: Anchor::Middle,
                    x: 0,
                    y: 0,
                    z_tenths: 100,
                    width,
                    height,
                },
                tag: false,
                fill: None,
                text: None,
                font_size: None,
            },
        ]
    }

    pub fn new(text: &str, id: &str) -> (b: Button)
        ensures
            b.text@ == text@,
            b.id@ == id@,
            b.width == 800,
            b.height == 150,
            b.border == 5,
            b.font is None,
    {
        Button {
            text: text.to_owned(),
            id: id.to_owned(),
            width: 800,
            height: 150,
            border: 5,
            font: None,
        }
    }

    /// Build the button's entity subtree under `parent`. Creates exactly
    /// seven entities — handle, border, two border overlays, highlightable
    /// background, label and catch region — all owned by `parent`'s owner,
    /// and returns the handle entity.
    pub fn create(self, world: &mut World, parent: u64, transform: UiTransform) -> (handle: u64)
        requires
            old(world).wf(),
            live(old(world)@, parent),
            old(world).next_id + 7 <= u64::MAX,
            0 < self.border,
            self.border < self.width,
            self.border < self.height,
        ensures
            handle == old(world).next_id,
            final(world).next_id == old(world).next_id + 7,
            final(world)@ == old(world)@ + Button::button_models(
                self.text@,
                self.id@,
                self.width,
                self.height,
                self.border,
                parent,
                owner_of(old(world)@, parent),
                transform@,
                old(world).next_id,
            ),
            final(world).wf(),
    {
        let ghost es0 = world@;
        let ghost n0 = es0.len() as int;

        let handle = world.create_entity(Some(parent), transform, None, None, None, None);
        proof {
            lemma_idx_of_unique(world@, world.next_id, handle, n0);
        }

        let border_transform = UiTransform::new(
            self.id.clone().concat("_border"),
            Anchor::Middle,
            Anchor::Middle,
            0,
            0,
            0,
            self.width,
            self.height,
        );
        let border_entity = world.create_entity(
            Some(handle),
            border_transform,
            None,
            Some(Fill::Border),
            None,
            None,
        );
        proof {
            lemma_idx_of_unique(world@, world.next_id, border_entity, n0 + 1);
        }

        let overlay_1_transform = UiTransform::new(
            self.id.clone().concat("_border_overlay_1"),
            Anchor::BottomLeft,
            Anchor::BottomLeft,
            0,
            0,
            2,
            self.width / 5,
            self.height / 5,
        );
        world.create_entity(Some(border_entity), overlay_1_transform, None, Some(Fill::Border), None, None);
        proof {
            lemma_idx_of_unique(world@, world.next_id, border_entity, n0 + 1);
        }

        let overlay_2_transform = UiTransform::new(
            self.id.clone().concat("_border_overlay_2"),
            Anchor::TopRight,
            Anchor::TopRight,
            0,
            0,
            2,
            self.width / 5,
            self.height / 5,
        );
        world.create_entity(Some(border_entity), overlay_2_transform, None, Some(Fill::Border), None, None);
        proof {
            lemma_idx_of_unique(world@, world.next_id, handle, n0);
        }

        let background_transform = UiTransform::new(
            self.id.clone().concat("_background"),
            Anchor::Middle,
            Anchor::Middle,
            0,
            0,
            1,
            self.width - self.border,
            self.height - self.border,
        );
        world.create_entity(
            Some(handle),
            background_transform,
            Some(ButtonComp),
            Some(Fill::Background),
            None,
            None,
        );
        proof {
            lemma_idx_of_unique(world@, world.next_id, handle, n0);
        }

        let text_transform = UiTransform::new(
            self.id.clone().concat("_text"),
            Anchor::Middle,
            Anchor::Middle,
            0,
            0,
            2,
            self.width - self.border,
            self.height - self.border,
        );
        world.create_entity(
            Some(handle),
            text_transform,
            None,
            Some(Fill::TextLight),
            Some(self.text),
            Some(70),
        );
        proof {
            lemma_idx_of_unique(world@, world.next_id, handle, n0);
        }

        let catch_transform = UiTransform::new(
            self.id,
            Anchor::Middle,
            Anchor::Middle,
            0,
            0,
            100,
            self.width,
            self.height,
        );
        world.create_entity(Some(handle), catch_transform, None, None, None, None);
        proof {
            assert(world@ =~= es0 + Button::button_models(
                self.text@,
                self.id@,
                self.width,
                self.height,
                self.border,
                parent,
                owner_of(es0, parent),
                transform@,
                old(world).next_id,
            ));
        }
        handle
    }
}

} // verus!
