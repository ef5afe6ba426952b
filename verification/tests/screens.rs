use corylus::about::{About, UiWidget};
use corylus::color_scheme::{Color, Fill, SolidColor};
use corylus::events::{EventChannel, UiEvent, UiEventHandlerSystem, UiEventType};
use corylus::state::{
    Director, HostRequest, Screen, StateEvent, VirtualKeyCode, WindowEvent,
};
use corylus::ui_scheme::{Button, ButtonComp};
use corylus::world::{Anchor, UiTransform, World};

fn t(id: &str) -> UiTransform {
    UiTransform::new(id.to_string(), Anchor::Middle, Anchor::Middle, 0, 0, 0, 100, 100)
}

fn fill_of(world: &World, id: &str) -> Option<Fill> {
    world
        .entities
        .iter()
        .find(|e| e.transform.id == id)
        .expect("entity should exist")
        .fill
}

fn entity_by_id(world: &World, id: &str) -> u64 {
    world
        .entities
        .iter()
        .find(|e| e.transform.id == id)
        .expect("entity should exist")
        .id
}

fn entity_ids(world: &World) -> Vec<u64> {
    world.entities.iter().map(|e| e.id).collect()
}

fn click(target: u64) -> StateEvent {
    StateEvent::Ui(UiEvent { event_type: UiEventType::Click, target })
}

#[test]
fn prefix_match_is_exact_prefix_not_substring() {
    let mut world = World::new();
    let catch = world.create_entity(None, t("start"), None, None, None, None);
    world.create_entity(
        Some(catch),
        t("start_background"),
        Some(ButtonComp),
        Some(Fill::Background),
        None,
        None,
    );
    let other = world.create_entity(None, t("restart"), None, None, None, None);
    world.create_entity(
        Some(other),
        t("restart_background"),
        Some(ButtonComp),
        Some(Fill::Background),
        None,
        None,
    );

    let mut channel = EventChannel::new();
    let mut router = UiEventHandlerSystem::new(channel.register_reader());
    channel.single_write(UiEvent { event_type: UiEventType::HoverStart, target: catch });
    router.run(&channel, &mut world);

    assert_eq!(fill_of(&world, "start_background"), Some(Fill::BackgroundHighlighted));
    assert_eq!(fill_of(&world, "restart_background"), Some(Fill::Background));
}

#[test]
fn highlight_protocol_color_trace() {
    let mut world = World::new();
    let root = world.create_entity(None, t("menu"), None, None, None, None);
    Button::new("Start Game", "start").create(&mut world, root, t("start_container"));
    let catch = entity_by_id(&world, "start");

    let mut channel = EventChannel::new();
    let mut router = UiEventHandlerSystem::new(channel.register_reader());
    assert_eq!(fill_of(&world, "start_background"), Some(Fill::Background));

    let steps = [
        (UiEventType::HoverStart, Fill::BackgroundHighlighted),
        (UiEventType::HoverStop, Fill::Background),
        (UiEventType::ClickStart, Fill::Acting),
        (UiEventType::ClickStop, Fill::Background),
    ];
    for (event_type, expected) in steps {
        channel.single_write(UiEvent { event_type, target: catch });
        router.run(&channel, &mut world);
        assert_eq!(fill_of(&world, "start_background"), Some(expected));
    }
}

#[test]
fn router_ignores_vanished_target_and_click_events() {
    let mut world = World::new();
    let root = world.create_entity(None, t("menu"), None, None, None, None);
    Button::new("About", "about").create(&mut world, root, t("about_container"));
    let catch = entity_by_id(&world, "about");

    let mut channel = EventChannel::new();
    let mut router = UiEventHandlerSystem::new(channel.register_reader());
    // a target that no longer exists is silently skipped
    channel.single_write(UiEvent { event_type: UiEventType::HoverStart, target: 9999 });
    // a plain click is not a recoloring event
    channel.single_write(UiEvent { event_type: UiEventType::Click, target: catch });
    router.run(&channel, &mut world);
    assert_eq!(fill_of(&world, "about_background"), Some(Fill::Background));
    assert_eq!(router.reader_id.pos, 2);
}

#[test]
fn router_consumes_each_event_exactly_once() {
    let mut world = World::new();
    let root = world.create_entity(None, t("menu"), None, None, None, None);
    Button::new("Start Game", "start").create(&mut world, root, t("start_container"));
    let catch = entity_by_id(&world, "start");

    let mut channel = EventChannel::new();
    let mut router = UiEventHandlerSystem::new(channel.register_reader());
    channel.single_write(UiEvent { event_type: UiEventType::HoverStart, target: catch });
    channel.single_write(UiEvent { event_type: UiEventType::ClickStart, target: catch });
    router.run(&channel, &mut world);
    // both events were drained in order: the later one decides the color
    assert_eq!(fill_of(&world, "start_background"), Some(Fill::Acting));
    // a second run sees nothing new
    router.run(&channel, &mut world);
    assert_eq!(fill_of(&world, "start_background"), Some(Fill::Acting));
    assert_eq!(router.reader_id.pos, channel.events.len());
}

#[test]
fn splash_still_up_after_sixty_ticks() {
    let mut world = World::new();
    let mut d = Director::start(&mut world, "0.1.0");
    for _ in 0..60 {
        d.fixed_update(&mut world);
    }
    assert!(matches!(d.screen, Screen::Splash(_)));
    assert!(d.running);
}

#[test]
fn splash_times_out_into_menu_on_tick_sixty_one() {
    let mut world = World::new();
    let mut d = Director::start(&mut world, "0.1.0");
    for _ in 0..61 {
        d.fixed_update(&mut world);
    }
    assert!(matches!(d.screen, Screen::Menu(_)));
    assert!(d.running);
    // the splash subtree is gone, the menu subtree (15 entities) is there
    assert_eq!(world.entities.len(), 15);
    assert_eq!(fill_of(&world, "start_background"), Some(Fill::Background));
}

#[test]
fn splash_dismissed_by_left_click() {
    let mut world = World::new();
    let mut d = Director::start(&mut world, "0.1.0");
    d.handle_event(
        &mut world,
        StateEvent::Window(WindowEvent::MouseButtonDown(corylus::state::MouseButton::Left)),
    );
    assert!(matches!(d.screen, Screen::Menu(_)));
}

#[test]
fn splash_escape_quits() {
    let mut world = World::new();
    let mut d = Director::start(&mut world, "0.1.0");
    d.handle_event(
        &mut world,
        StateEvent::Window(WindowEvent::KeyDown(VirtualKeyCode::Escape)),
    );
    assert!(!d.running);
    assert!(matches!(d.screen, Screen::Splash(_)));
}

fn director_at_menu() -> (World, Director) {
    let mut world = World::new();
    let mut d = Director::start(&mut world, "0.1.0");
    for _ in 0..61 {
        d.fixed_update(&mut world);
    }
    assert!(matches!(d.screen, Screen::Menu(_)));
    d.update(&world);
    (world, d)
}

#[test]
fn menu_click_about_opens_about_screen() {
    let (mut world, mut d) = director_at_menu();
    let about_target = entity_by_id(&world, "about");
    let req = d.handle_event(&mut world, click(about_target));
    assert!(req.is_none());
    assert!(matches!(d.screen, Screen::About(_)));
    // about panel replaced the menu subtree
    assert_eq!(world.entities.len(), 4);
}

#[test]
fn menu_click_start_starts_game() {
    let (mut world, mut d) = director_at_menu();
    let start_target = entity_by_id(&world, "start");
    let req = d.handle_event(&mut world, click(start_target));
    assert!(req.is_none());
    assert!(matches!(d.screen, Screen::Game(_)));
    assert!(d.running);
}

#[test]
fn menu_escape_quits_without_switch() {
    let (mut world, mut d) = director_at_menu();
    d.handle_event(
        &mut world,
        StateEvent::Window(WindowEvent::KeyDown(VirtualKeyCode::Escape)),
    );
    assert!(!d.running);
    assert!(matches!(d.screen, Screen::Menu(_)));
}

#[test]
fn menu_close_request_quits_without_switch() {
    let (mut world, mut d) = director_at_menu();
    d.handle_event(&mut world, StateEvent::Window(WindowEvent::CloseRequested));
    assert!(!d.running);
    assert!(matches!(d.screen, Screen::Menu(_)));
}

#[test]
fn menu_click_on_unresolved_or_unknown_target_stays() {
    let (mut world, mut d) = director_at_menu();
    let menu_root = entity_by_id(&world, "menu");
    d.handle_event(&mut world, click(menu_root));
    assert!(matches!(d.screen, Screen::Menu(_)));
    assert!(d.running);
}

fn director_at_about() -> (World, Director) {
    let (mut world, mut d) = director_at_menu();
    let about_target = entity_by_id(&world, "about");
    d.handle_event(&mut world, click(about_target));
    assert!(matches!(d.screen, Screen::About(_)));
    d.update(&world);
    (world, d)
}

#[test]
fn about_click_link_opens_url_and_stays() {
    let (mut world, mut d) = director_at_about();
    let link_target = entity_by_id(&world, "twitter-link");
    let req = d.handle_event(&mut world, click(link_target));
    assert!(matches!(d.screen, Screen::About(_)));
    match req {
        Some(HostRequest::OpenUrl(url)) => {
            assert_eq!(url, "https://twitter.com/FrancoisMockers")
        },
        _ => panic!("expected an open-url request"),
    }
}

#[test]
fn about_click_elsewhere_returns_to_menu() {
    let (mut world, mut d) = director_at_about();
    let somewhere = world.entities[1].id;
    let req = d.handle_event(&mut world, click(somewhere));
    assert!(req.is_none());
    assert!(matches!(d.screen, Screen::Menu(_)));
}

#[test]
fn about_escape_returns_to_menu() {
    let (mut world, mut d) = director_at_about();
    d.handle_event(
        &mut world,
        StateEvent::Window(WindowEvent::KeyDown(VirtualKeyCode::Escape)),
    );
    assert!(matches!(d.screen, Screen::Menu(_)));
    assert!(d.running);
}

#[test]
fn about_close_request_quits() {
    let (mut world, mut d) = director_at_about();
    d.handle_event(&mut world, StateEvent::Window(WindowEvent::CloseRequested));
    assert!(!d.running);
}

#[test]
fn start_then_stop_leaks_no_entities() {
    let mut world = World::new();
    world.create_entity(None, t("preexisting"), None, None, None, None);
    let before = entity_ids(&world);

    let mut menu = corylus::menu::MainMenu::default();
    menu.on_start(&mut world);
    assert_eq!(world.entities.len(), 16);
    menu.on_stop(&mut world);
    assert_eq!(entity_ids(&world), before);

    let mut about = corylus::about::AboutScreen::default();
    about.on_start(&mut world, "0.1.0");
    about.on_stop(&mut world);
    assert_eq!(entity_ids(&world), before);

    let mut splash = corylus::splash::SplashScreen::default();
    splash.on_start(&mut world);
    splash.on_stop(&mut world);
    assert_eq!(entity_ids(&world), before);
}

#[test]
fn lazy_resolve_is_idempotent_and_touches_nothing() {
    let world = World::new();
    let mut menu = corylus::menu::MainMenu::default();
    menu.update(&world);
    assert_eq!(menu.button_start, None);
    assert_eq!(menu.button_about, None);
    menu.update(&world);
    assert_eq!(menu.button_start, None);
    assert_eq!(menu.button_about, None);
    assert_eq!(world.entities.len(), 0);

    let mut world = World::new();
    let mut menu = corylus::menu::MainMenu::default();
    menu.on_start(&mut world);
    menu.update(&world);
    let start = menu.button_start;
    let about = menu.button_about;
    assert!(start.is_some());
    assert!(about.is_some());
    menu.update(&world);
    assert_eq!(menu.button_start, start);
    assert_eq!(menu.button_about, about);
}

#[test]
fn button_create_builds_seven_owned_parts() {
    let mut world = World::new();
    let root = world.create_entity(None, t("menu"), None, None, None, None);
    let handle = Button::new("Start Game", "start").create(&mut world, root, t("start_container"));
    assert_eq!(world.entities.len(), 8);
    let ids: Vec<&str> = world.entities.iter().map(|e| e.transform.id.as_str()).collect();
    assert_eq!(
        ids,
        vec![
            "menu",
            "start_container",
            "start_border",
            "start_border_overlay_1",
            "start_border_overlay_2",
            "start_background",
            "start_text",
            "start"
        ]
    );
    // every part is owned by the screen root, so teardown cascades
    assert!(world.entities.iter().all(|e| e.owner == root));
    // only the background is highlightable
    let tagged: Vec<&str> = world
        .entities
        .iter()
        .filter(|e| e.tag.is_some())
        .map(|e| e.transform.id.as_str())
        .collect();
    assert_eq!(tagged, vec!["start_background"]);
    // the handle is the parent of the catch region
    let catch = world.entities.iter().find(|e| e.transform.id == "start").unwrap();
    assert_eq!(catch.parent, Some(handle));
    // the label carries its text in a 70-point font
    let label = world.entities.iter().find(|e| e.transform.id == "start_text").unwrap();
    assert_eq!(label.text.as_deref(), Some("Start Game"));
    assert_eq!(label.font_size, Some(70));
    assert_eq!(label.fill, Some(Fill::TextLight));
}

#[test]
fn about_template_has_version_banner_and_link() {
    let about = About { version: "3.1".to_string() };
    let w = about.to_native_widget();
    match w {
        UiWidget::Container { children, .. } => {
            assert_eq!(children.len(), 2);
            match &children[0] {
                UiWidget::Label { text, .. } => {
                    assert_eq!(text.text, "\nCorylus 3.1\n\nby Fran\u{221a}\u{df}ois Mockers\n");
                    assert_eq!(text.font_size, 60);
                    assert_eq!(text.color, Fill::Accent);
                },
                _ => panic!("expected the version banner"),
            }
            match &children[1] {
                UiWidget::Container { children: inner, .. } => match &inner[0] {
                    UiWidget::Label { transform, text, .. } => {
                        assert_eq!(transform.id, "twitter-link");
                        assert_eq!(text.text, "Find me on twitter: @FrancoisMockers");
                        assert_eq!(text.font_size, 40);
                        assert_eq!(text.color, Fill::TextLight);
                    },
                    _ => panic!("expected the link label"),
                },
                _ => panic!("expected the link container"),
            }
        },
        _ => panic!("expected the panel container"),
    }
}

#[test]
fn palette_roles_map_to_fixed_channels() {
    assert_eq!(
        Fill::Border.as_solid_color(),
        SolidColor { red: 780, green: 933, blue: 106, alpha: 1000 }
    );
    assert_eq!(
        Fill::Background.as_solid_color(),
        SolidColor { red: 196, green: 43, blue: 55, alpha: 1000 }
    );
    assert_eq!(
        Fill::BackgroundHighlighted.as_solid_color(),
        SolidColor { red: 329, green: 71, blue: 94, alpha: 1000 }
    );
    assert_eq!(
        Fill::Acting.as_solid_color(),
        SolidColor { red: 988, green: 624, blue: 357, alpha: 1000 }
    );
}

#[test]
fn starts_with_is_exact_prefix() {
    assert!(corylus::strutil::str_starts_with("start_background", "start"));
    assert!(!corylus::strutil::str_starts_with("restart_background", "start"));
    assert!(corylus::strutil::str_starts_with("start", "start"));
    assert!(!corylus::strutil::str_starts_with("star", "start"));
}
