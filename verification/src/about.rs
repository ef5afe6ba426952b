use vstd::prelude::*;
use vstd::string::StringExecFns;

use crate::color_scheme::Fill;
use crate::events::UiEventType;
use crate::state::{HostRequest, ScreenId, StateEvent, Trans, VirtualKeyCode, WindowEvent};
use crate::world::{
    is_live_root, lemma_idx_of_unique, spec_find, text_view, Anchor, EntityModel, UiTransform,
    UiTransformModel, World,
};

verus! {

/// Text payload of a label widget: the displayed string, its size and its
/// palette color.
pub struct UiTextData {
    pub text: String,
    pub font_size: u32,
    pub color: Fill,
}

/// A declarative UI widget tree, as the host's UI loader consumes it: a
/// container with children, or a leaf label.
pub enum UiWidget {
    Container { transform: UiTransform, children: Vec<UiWidget> },
    Label { transform: UiTransform, text: UiTextData },
}

/// The mathematical value of a widget tree.
pub ghost enum UiWidgetModel {
    Container { transform: UiTransformModel, children: Seq<UiWidgetModel> },
    Label { transform: UiTransformModel, text: Seq<char>, font_size: u32, color: Fill },
}

pub open spec fn widget_view(w: UiWidget) -> UiWidgetModel
    decreases w,
{
    match w {
        UiWidget::Container { transform, children } => UiWidgetModel::Container {
            transform: transform@,
            children: widgets_view(children@),
        },
        UiWidget::Label { transform, text } => UiWidgetModel::Label {
            transform: transform@,
            text: text.text@,
            font_size: text.font_size,
            color: text.color,
        },
    }
}

pub open spec fn widgets_view(ws: Seq<UiWidget>) -> Seq<UiWidgetModel>
    decreases ws,
{
    if ws.len() == 0 {
        Seq::empty()
    } else {
        seq![widget_view(ws[0])] + widgets_view(ws.drop_first())
    }
}

/// The entity records the host's UI loader produces for one widget tree:
/// one entity per widget, ids assigned depth-first in document order
/// starting at `n`, every entity owned by `owner` (a root widget owns
/// itself). A label's palette color becomes its fill and its string its
/// text; no widget of the declarative path is highlightable.
pub open spec fn spawn_models(
    m: UiWidgetModel,
    parent: Option<u64>,
    owner: u64,
    n: u64,
) -> Seq<EntityModel>
    decreases m,
{
    match m {
        UiWidgetModel::Label { transform, text, font_size, color } => seq![
            EntityModel {
                id: n,
                parent,
                owner,
                transform,
                tag: false,
                fill: Some(color),
                text: Some(text),
                font_size: Some(font_size),
            },
        ],
        UiWidgetModel::Container { transform, children } => seq![
            EntityModel {
                id: n,
                parent,
                owner,
                transform,
                tag: false,
                fill: None,
                text: None,
                font_size: None,
            },
        ] + spawn_children(children, n, owner, (n + 1) as u64),
    }
}

/// The number of entities one widget tree resolves to.
pub open spec fn widget_count(m: UiWidgetModel) -> nat
    decreases m,
{
    match m {
        UiWidgetModel::Label { .. } => 1,
        UiWidgetModel::Container { transform, children } => 1 + widgets_count(children),
    }
}

pub open spec fn widgets_count(ms: Seq<UiWidgetModel>) -> nat
    decreases ms,
{
    if ms.len() == 0 {
        0
    } else {
        widget_count(ms[0]) + widgets_count(ms.drop_first())
    }
}

pub open spec fn spawn_children(
    ms: Seq<UiWidgetModel>,
    parent: u64,
    owner: u64,
    n: u64,
) -> Seq<EntityModel>
    decreases ms,
{
    if ms.len() == 0 {
        Seq::empty()
    } else {
        spawn_models(ms[0], Some(parent), owner, n) + spawn_children(
            ms.drop_first(),
            parent,
            owner,
            (n + widget_count(ms[0])) as u64,
        )
    }
}

/// The data the about screen's UI template is instantiated with.
#[derive(Clone, Debug)]
pub struct About {
    pub version: String,
}

/// The full text of the about banner: the application name and version on
/// their own line, then a blank line and the author credit, framed by
/// leading and trailing line breaks.
pub open spec fn about_banner_text(version: Seq<char>) -> Seq<char> {
    "\nCorylus "@ + version + "\n\nby Fran\u{221a}\u{df}ois Mockers\n"@
}

/// The version banner of the about panel.
pub open spec fn about_version_label(version: Seq<char>) -> UiWidgetModel {
    UiWidgetModel::Label {
        transform: UiTransformModel {
            id: Seq::empty(),
            anchor: Anchor::Middle,
            pivot: Anchor::Middle,
            x: 0,
            y: 0,
            z_tenths: 0,
            width: 480,
            height: 720,
        },
        text: about_banner_text(version),
        font_size: 60,
        color: Fill::Accent,
    }
}

/// The clickable link label, the one widget of the panel with an id.
pub open spec fn about_link_label() -> UiWidgetModel {
    UiWidgetModel::Label {
        transform: UiTransformModel {
            id: "twitter-link"@,
            anchor: Anchor::TopLeft,
            pivot: Anchor::TopLeft,
            x: 0,
            y: 0,
            z_tenths: 0,
            width: 600,
            height: 70,
        },
        text: "Find me on twitter: @FrancoisMockers"@,
        font_size: 40,
        color: Fill::TextLight,
    }
}

/// The bottom-right container holding the link label.
pub open spec fn about_link_container() -> UiWidgetModel {
    UiWidgetModel::Container {
        transform: UiTransformModel {
            id: Seq::empty(),
            anchor: Anchor::BottomRight,
            pivot: Anchor::BottomRight,
            x: 0,
            y: 0,
            z_tenths: 0,
            width: 700,
            height: 150,
        },
        children: seq![about_link_label()],
    }
}

/// The whole about panel: a full-screen container with the version banner
/// and the link container as children.
pub open spec fn about_widget_model(version: Seq<char>) -> UiWidgetModel {
    UiWidgetModel::Container {
        transform: UiTransformModel {
            id: Seq::empty(),
            anchor: Anchor::Middle,
            pivot: Anchor::Middle,
            x: 0,
            y: 0,
            z_tenths: 0,
            width: 20,
            height: 20,
        },
        children: seq![about_version_label(version), about_link_container()],
    }
}

impl About {
    /// Turn the template data into the declarative widget tree of the about
    /// panel: a container with a version banner and a clickable link label.
    pub fn to_native_widget(self) -> (w: UiWidget)
        ensures
            widget_view(w) == about_widget_model(self.version@),
    {
        let banner = UiWidget::Label {
            transform: UiTransform::new(
                String::new(),
                Anchor::Middle,
                Anchor::Middle,
                0,
                0,
                0,
                480,
                720,
            ),
            text: UiTextData {
                text: String::from_str("\nCorylus ").concat(self.version.as_str()).concat(
                    "\n\nby Fran\u{221a}\u{df}ois Mockers\n",
                ),
                font_size: 60,
                color: Fill::Accent,
            },
        };
        let link = UiWidget::Label {
            transform: UiTransform::new(
                String::from_str("twitter-link"),
                Anchor::TopLeft,
                Anchor::TopLeft,
                0,
                0,
                0,
                600,
                70,
            ),
            text: UiTextData {
                text: String::from_str("Find me on twitter: @FrancoisMockers"),
                font_size: 40,
                color: Fill::TextLight,
            },
        };
        let ghost link_g: UiWidget = link;
        let mut inner_children: Vec<UiWidget> = Vec::new();
        inner_children.push(link);
        proof {
            assert(inner_children@ =~= seq![link_g]);
        }
        let inner = UiWidget::Container {
            transform: UiTransform::new(
                String::new(),
                Anchor::BottomRight,
                Anchor::BottomRight,
                0,
                0,
                0,
                700,
                150,
            ),
            children: inner_children,
        };
        let ghost banner_g: UiWidget = banner;
        let ghost inner_g: UiWidget = inner;
        let mut children: Vec<UiWidget> = Vec::new();
        children.push(banner);
        children.push(inner);
        proof {
            assert(children@ =~= seq![banner_g, inner_g]);
        }
        let w = UiWidget::Container {
            transform: UiTransform::new(
                String::new(),
                Anchor::Middle,
                Anchor::Middle,
                0,
                0,
                0,
                20,
                20,
            ),
            children,
        };
        proof {
            lemma_widgets_view_two(banner_g, inner_g);
            lemma_widgets_view_one(link_g);
            assert(widget_view(banner_g) == about_version_label(self.version@));
            assert(widget_view(link_g) == about_link_label());
            assert(widget_view(inner_g) == about_link_container());
            assert(widget_view(w) == about_widget_model(self.version@));
        }
        w
    }
}

/// The view of a one-widget sequence.
proof fn lemma_widgets_view_one(a: UiWidget)
    ensures
        widgets_view(seq![a]) == seq![widget_view(a)],
{
    reveal_with_fuel(widgets_view, 3);
    assert(seq![a].drop_first() =~= Seq::<UiWidget>::empty());
    assert(widgets_view(seq![a].drop_first()) == Seq::<UiWidgetModel>::empty());
    assert(widgets_view(seq![a]) =~= seq![widget_view(a)]);
}

/// The view of a two-widget sequence.
proof fn lemma_widgets_view_two(a: UiWidget, b: UiWidget)
    ensures
        widgets_view(seq![a, b]) == seq![widget_view(a), widget_view(b)],
{
    reveal_with_fuel(widgets_view, 3);
    assert(seq![a, b].drop_first() =~= seq![b]);
    lemma_widgets_view_one(b);
    assert(widgets_view(seq![a, b].drop_first()) == seq![widget_view(b)]);
    assert(widgets_view(seq![a, b]) =~= seq![widget_view(a), widget_view(b)]);
}

/// The four entities the about panel resolves to, in depth-first document
/// order: the panel root, the version banner, the link container and the
/// link label.
pub open spec fn about_created(version: Seq<char>, n: u64) -> Seq<EntityModel> {
    seq![
        EntityModel {
            id: n,
            parent: None,
            owner: n,
            transform: UiTransformModel {
                id: Seq::empty(),
                anchor: Anchor::Middle,
                pivot: Anchor::Middle,
                x: 0,
                y: 0,
                z_tenths: 0,
                width: 20,
                height: 20,
            },
            tag: false,
            fill: None,
            text: None,
            font_size: None,
        },
        EntityModel {
            id: (n + 1) as u64,
            parent: Some(n),
            owner: n,
            transform: UiTransformModel {
                id: Seq::empty(),
                anchor: Anchor::Middle,
                pivot: Anchor::Middle,
                x: 0,
                y: 0,
                z_tenths: 0,
                width: 480,
                height: 720,
            },
            tag: false,
            fill: Some(Fill::Accent),
            text: Some(about_banner_text(version)),
            font_size: Some(60),
        },
        EntityModel {
            id: (n + 2) as u64,
            parent: Some(n),
            owner: n,
            transform: UiTransformModel {
                id: Seq::empty(),
                anchor: Anchor::BottomRight,
                pivot: Anchor::BottomRight,
                x: 0,
                y: 0,
                z_tenths: 0,
                width: 700,
                height: 150,
            },
            tag: false,
            fill: None,
            text: None,
            font_size: None,
        },
        EntityModel {
            id: (n + 3) as u64,
            parent: Some((n + 2) as u64),
            owner: n,
            transform: UiTransformModel {
                id: "twitter-link"@,
                anchor: Anchor::TopLeft,
                pivot: Anchor::TopLeft,
                x: 0,
                y: 0,
                z_tenths: 0,
                width: 600,
                height: 70,
            },
            tag: false,
            fill: Some(Fill::TextLight),
            text: Some("Find me on twitter: @FrancoisMockers"@),
            font_size: Some(40),
        },
    ]
}

/// Law: the about screen's hand-built entity subtree is exactly what the
/// host's UI loader would produce by resolving the declarative widget tree
/// of `About::to_native_widget`.
pub proof fn lemma_about_created_matches_template(version: Seq<char>, n: u64)
    requires
        n + 4 <= u64::MAX,
    ensures
        about_created(version, n) == spawn_models(about_widget_model(version), None, n, n),
{
    reveal_with_fuel(spawn_models, 4);
    reveal_with_fuel(spawn_children, 4);
    reveal_with_fuel(widget_count, 3);
    reveal_with_fuel(widgets_count, 3);
    let banner = about_version_label(version);
    let link = about_link_label();
    let inner = about_link_container();
    let top_children = seq![banner, inner];
    assert(top_children.drop_first() =~= seq![inner]);
    assert(seq![inner].drop_first() =~= Seq::<UiWidgetModel>::empty());
    assert(seq![link].drop_first() =~= Seq::<UiWidgetModel>::empty());
    assert(widgets_count(Seq::<UiWidgetModel>::empty()) == 0);
    assert(widget_count(banner) == 1);
    assert(spawn_children(Seq::<UiWidgetModel>::empty(), (n + 2) as u64, n, (n + 4) as u64)
        =~= Seq::<EntityModel>::empty());
    assert(spawn_children(seq![link], (n + 2) as u64, n, (n + 3) as u64) =~= spawn_models(
        link,
        Some((n + 2) as u64),
        n,
        (n + 3) as u64,
    ));
    assert(spawn_children(seq![inner], n, n, (n + 2) as u64) =~= spawn_models(
        inner,
        Some(n),
        n,
        (n + 2) as u64,
    ));
    assert(spawn_children(top_children, n, n, (n + 1) as u64) =~= spawn_models(
        banner,
        Some(n),
        n,
        (n + 1) as u64,
    ) + spawn_children(seq![inner], n, n, (n + 2) as u64));
    assert(about_created(version, n) =~= spawn_models(about_widget_model(version), None, n, n));
}

/// The about screen: a panel with version text and a clickable external
/// link, lazily resolved by its id.
#[derive(Clone, Copy, Debug, PartialEq, Eq, Structural)]
pub struct AboutScreen {
    pub ui_handle: Option<u64>,
    pub twitter_link: Option<u64>,
}

impl Default for AboutScreen {
    fn default() -> (r: Self)
        ensures
            r.ui_handle is None,
            r.twitter_link is None,
    {
        AboutScreen { ui_handle: None, twitter_link: None }
    }
}

/// The external link the about screen asks the host to open.
pub open spec fn twitter_url() -> Seq<char> {
    "https://twitter.com/FrancoisMockers"@
}

impl AboutScreen {
    /// Build the about panel subtree for the given version string and
    /// remember its root.
    pub fn on_start(&mut self, world: &mut World, version: &str)
        requires
            old(world).wf(),
            old(world).next_id + 4 <= u64::MAX,
        ensures
            final(world)@ == old(world)@ + about_created(version@, old(world).next_id),
            final(world).next_id == old(world).next_id + 4,
            final(world).wf(),
            is_live_root(final(world)@, old(world).next_id),
            final(self).ui_handle == Some(old(world).next_id),
            final(self).twitter_link == old(self).twitter_link,
    {
        let ghost es0 = world@;
        let ghost n0 = es0.len() as int;
        let root = world.create_entity(
            None,
            UiTransform::new(String::new(), Anchor::Middle, Anchor::Middle, 0, 0, 0, 20, 20),
            None,
            None,
            None,
            None,
        );
        proof {
            lemma_idx_of_unique(world@, world.next_id, root, n0);
        }
        world.create_entity(
            Some(root),
            UiTransform::new(String::new(), Anchor::Middle, Anchor::Middle, 0, 0, 0, 480, 720),
            None,
            Some(Fill::Accent),
            Some(
                String::from_str("\nCorylus ").concat(version).concat(
                    "\n\nby Fran\u{221a}\u{df}ois Mockers\n",
                ),
            ),
            Some(60),
        );
        proof {
            lemma_idx_of_unique(world@, world.next_id, root, n0);
        }
        let holder = world.create_entity(
            Some(root),
            UiTransform::new(
                String::new(),
                Anchor::BottomRight,
                Anchor::BottomRight,
                0,
                0,
                0,
                700,
                150,
            ),
            None,
            None,
            None,
            None,
        );
        proof {
            lemma_idx_of_unique(world@, world.next_id, holder, n0 + 2);
        }
        world.create_entity(
            Some(holder),
            UiTransform::new(
                String::from_str("twitter-link"),
                Anchor::TopLeft,
                Anchor::TopLeft,
                0,
                0,
                0,
                600,
                70,
            ),
            None,
            Some(Fill::TextLight),
            Some(String::from_str("Find me on twitter: @FrancoisMockers")),
            Some(40),
        );
        self.ui_handle = Some(root);
        proof {
            assert(world@ =~= es0 + about_created(version@, old(world).next_id));
            lemma_idx_of_unique(world@, world.next_id, root, n0);
        }
    }

    /// The lazy-resolve step for the link label.
    pub open spec fn resolve_step(a: AboutScreen, es: Seq<EntityModel>) -> AboutScreen {
        if a.twitter_link is None {
            AboutScreen { ui_handle: a.ui_handle, twitter_link: spec_find(es, "twitter-link"@) }
        } else {
            a
        }
    }

    /// Law: the about screen's lazy-resolve step is idempotent.
    pub proof fn lemma_resolve_idempotent(a: AboutScreen, es: Seq<EntityModel>)
        ensures
            Self::resolve_step(Self::resolve_step(a, es), es) == Self::resolve_step(a, es),
    {
    }

    /// Re-query the link handle while it is missing; never touches the
    /// store.
    pub fn update(&mut self, world: &World) -> (t: Trans)
        ensures
            *final(self) == Self::resolve_step(*old(self), world@),
            t == Trans::Stay,
    {
        if self.twitter_link.is_none() {
            self.twitter_link = world.find_by_id("twitter-link");
        }
        Trans::Stay
    }

    /// The transition the about screen takes for one event: a click on the
    /// resolved link stays here (the link is opened on the side), any other
    /// click goes back to the menu; a close request quits, Escape goes back
    /// to the menu.
    pub open spec fn about_trans(a: AboutScreen, event: StateEvent) -> Trans {
        match event {
            StateEvent::Ui(ev) => {
                if ev.event_type == UiEventType::Click {
                    if a.twitter_link == Some(ev.target) {
                        Trans::Stay
                    } else {
                        Trans::Switch(ScreenId::MainMenu)
                    }
                } else {
                    Trans::Stay
                }
            },
            StateEvent::Window(w) => match w {
                WindowEvent::CloseRequested => Trans::Quit,
                WindowEvent::KeyDown(k) => if k == VirtualKeyCode::Escape {
                    Trans::Switch(ScreenId::MainMenu)
                } else {
                    Trans::Stay
                },
                WindowEvent::MouseButtonDown(_) => Trans::Stay,
                WindowEvent::Other => Trans::Stay,
            },
        }
    }

    /// Whether the event is a click on the resolved link, which asks the
    /// host to open the external page.
    pub open spec fn wants_link(a: AboutScreen, event: StateEvent) -> bool {
        match event {
            StateEvent::Ui(ev) => ev.event_type == UiEventType::Click && a.twitter_link == Some(
                ev.target,
            ),
            StateEvent::Window(_) => false,
        }
    }

    /// Decide the transition for one event and, on a click of the resolved
    /// link, ask the host to open the external page. The request carries
    /// the URL; performing it — and logging its failure — is the host's
    /// business and never changes the screen.
    pub fn handle_event(&self, event: StateEvent) -> (r: (Trans, Option<HostRequest>))
        ensures
            r.0 == Self::about_trans(*self, event),
            r.1 matches Some(req) <==> Self::wants_link(*self, event),
            r.1 matches Some(req) ==> (req matches HostRequest::OpenUrl(u) && u@ == twitter_url()),
    {
        match event {
            StateEvent::Ui(ev) => match ev.event_type {
                UiEventType::Click => {
                    let link_hit = match self.twitter_link {
                        Some(l) => l == ev.target,
                        None => false,
                    };
                    if link_hit {
                        let url = String::from_str("https://twitter.com/FrancoisMockers");
                        (Trans::Stay, Some(HostRequest::OpenUrl(url)))
                    } else {
                        (Trans::Switch(ScreenId::MainMenu), None)
                    }
                },
                _ => (Trans::Stay, None),
            },
            StateEvent::Window(w) => match w {
                WindowEvent::CloseRequested => (Trans::Quit, None),
                WindowEvent::KeyDown(k) => if k == VirtualKeyCode::Escape {
                    (Trans::Switch(ScreenId::MainMenu), None)
                } else {
                    (Trans::Stay, None)
                },
                WindowEvent::MouseButtonDown(_) => (Trans::Stay, None),
                WindowEvent::Other => (Trans::Stay, None),
            },
        }
    }

    /// Tear down the about subtree and invalidate all handles.
    pub fn on_stop(&mut self, world: &mut World)
        requires
            old(world).wf(),
            old(self).ui_handle matches Some(r) ==> is_live_root(old(world)@, r),
        ensures
            final(self).ui_handle is None,
            final(self).twitter_link is None,
            final(world).next_id == old(world).next_id,
            final(world).wf(),
            final(world)@ == (match old(self).ui_handle {
                Some(r) => old(world)@.filter(|rec: EntityModel| rec.owner != r),
                None => old(world)@,
            }),
    {
        match self.ui_handle {
            Some(root) => {
                world.delete_root(root);
            },
            None => {},
        }
        self.ui_handle = None;
        self.twitter_link = None;
    }
}

} // verus!

