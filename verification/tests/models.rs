use backend::array::Array;
use backend::bridge::{Input, InputEvent, InputKeyDownOptions, KeyKind};
use backend::detect::{DetectError, Detector};
use backend::geometry::{Point, Rect};
use backend::minimap::{Minimap, MinimapIdle};
use backend::models::keys::count_default;
use backend::models::{
    ActionKeyWith, Identifiable, KeyBinding, KeyBindingConfiguration, LinkKeyBinding,
    Localization, MobbingKey, NavigationPath, NavigationPaths, NavigationPoint,
    NavigationTransition, Seeds,
};

#[test]
fn link_key_binding_key() {
    assert_eq!(LinkKeyBinding::Unlinked.key(), None);
    assert_eq!(
        LinkKeyBinding::Before(KeyBinding::A).key(),
        Some(KeyBinding::A)
    );
    assert_eq!(
        LinkKeyBinding::AtTheSame(KeyBinding::F5).key(),
        Some(KeyBinding::F5)
    );
    assert_eq!(
        LinkKeyBinding::After(KeyBinding::Esc).key(),
        Some(KeyBinding::Esc)
    );
    assert_eq!(
        LinkKeyBinding::Along(KeyBinding::Nine).key(),
        Some(KeyBinding::Nine)
    );
}

#[test]
fn link_key_binding_with_key_keeps_the_kind() {
    assert_eq!(
        LinkKeyBinding::Unlinked.with_key(KeyBinding::B),
        LinkKeyBinding::Unlinked
    );
    assert_eq!(
        LinkKeyBinding::Before(KeyBinding::A).with_key(KeyBinding::B),
        LinkKeyBinding::Before(KeyBinding::B)
    );
    assert_eq!(
        LinkKeyBinding::AtTheSame(KeyBinding::A).with_key(KeyBinding::B),
        LinkKeyBinding::AtTheSame(KeyBinding::B)
    );
    assert_eq!(
        LinkKeyBinding::After(KeyBinding::A).with_key(KeyBinding::B),
        LinkKeyBinding::After(KeyBinding::B)
    );
    assert_eq!(
        LinkKeyBinding::Along(KeyBinding::A).with_key(KeyBinding::B),
        LinkKeyBinding::Along(KeyBinding::B)
    );
    assert_eq!(
        LinkKeyBinding::Along(KeyBinding::A)
            .with_key(KeyBinding::B)
            .with_key(KeyBinding::C),
        LinkKeyBinding::Along(KeyBinding::C)
    );
}

#[test]
fn defaults_of_the_key_records() {
    assert_eq!(KeyBinding::default(), KeyBinding::A);
    assert_eq!(LinkKeyBinding::default(), LinkKeyBinding::Unlinked);
    assert_eq!(
        KeyBindingConfiguration::default(),
        KeyBindingConfiguration {
            key: KeyBinding::A,
            enabled: false
        }
    );
    assert_eq!(count_default(), 1);
    let key = MobbingKey::default();
    assert_eq!(key.key, KeyBinding::A);
    assert_eq!(key.count, 1);
    assert_eq!(key.link_key, LinkKeyBinding::Unlinked);
    assert_eq!(key.with, ActionKeyWith::Any);
    assert_eq!(key.key_hold_millis, 0);
    assert_eq!(key.wait_before_millis, 0);
    assert_eq!(key.wait_before_millis_random_range, 0);
    assert_eq!(key.wait_after_millis, 0);
    assert_eq!(key.wait_after_millis_random_range, 0);
}

#[test]
fn seeds_default_is_not_stored_and_random() {
    let first = Seeds::default();
    let second = Seeds::default();
    assert_eq!(first.id, None);
    assert_eq!(first.id(), None);
    // Thirty-two random bytes and a random number agree by chance once in
    // many ages of the universe.
    assert!(first.rng_seed != second.rng_seed || first.perlin_seed != second.perlin_seed);
    assert_ne!(first.rng_seed, [0u8; 32]);
}

#[test]
fn seeds_new_and_set_id() {
    let mut seeds = Seeds::new([7u8; 32], 99);
    assert_eq!(seeds.id(), None);
    seeds.set_id(12);
    assert_eq!(seeds.id(), Some(12));
    assert_eq!(seeds.rng_seed, [7u8; 32]);
    assert_eq!(seeds.perlin_seed, 99);
    seeds.set_id(-3);
    assert_eq!(seeds.id(), Some(-3));
}

#[test]
fn navigation_defaults_and_ids() {
    let mut paths = NavigationPaths::default();
    assert_eq!(paths.id(), None);
    assert!(paths.name.is_empty());
    assert!(paths.paths.is_empty());
    paths.name = String::from("henesys");
    paths.paths.push(NavigationPath::default());
    paths.set_id(4);
    assert_eq!(paths.id(), Some(4));
    assert_eq!(paths.name, "henesys");
    assert_eq!(paths.paths.len(), 1);

    let path = NavigationPath::default();
    assert!(path.minimap_snapshot_base64.is_empty());
    assert!(!path.minimap_snapshot_grayscale);
    assert!(path.name_snapshot_base64.is_empty());
    assert_eq!(path.name_snapshot_width, 0);
    assert_eq!(path.name_snapshot_height, 0);
    assert!(path.points.is_empty());

    assert_eq!(
        NavigationPoint::default(),
        NavigationPoint {
            next_paths_id_index: None,
            x: 0,
            y: 0,
            transition: NavigationTransition::Portal
        }
    );
    assert_eq!(NavigationTransition::default(), NavigationTransition::Portal);
}

#[test]
fn localization_default_is_blank_and_keeps_templates() {
    let mut localization = Localization::default();
    assert_eq!(localization.id(), None);
    assert_eq!(localization.cash_shop_base64, None);
    assert_eq!(localization.hexa_max_button_base64, None);
    localization.timer_base64 = Some(String::from("abc"));
    localization.set_id(1);
    assert_eq!(localization.id(), Some(1));
    assert_eq!(localization.timer_base64.as_deref(), Some("abc"));
    assert_eq!(localization.popup_yes_base64, None);
}

#[test]
fn array_holds_at_most_its_capacity() {
    let mut array: Array<i32, 3> = Array::new();
    assert!(array.is_empty());
    array.push(1);
    array.push(2);
    assert_eq!(array.len(), 2);
    assert_eq!(array.get(0), Some(1));
    assert_eq!(array.get(1), Some(2));
    assert_eq!(array.get(2), None);
    array.push(3);
    array.push(4);
    assert_eq!(array.len(), 3);
    assert_eq!(array.get(2), Some(3));
    assert_eq!(array.get(3), None);

    let from: Array<i32, 3> = Array::from_slice(&[9, 8, 7, 6, 5]);
    assert_eq!(from.len(), 3);
    assert_eq!(from.get(2), Some(7));
    let short: Array<i32, 3> = Array::from_slice(&[9]);
    assert_eq!(short.len(), 1);
    assert_eq!(short.pushed(1).len(), 2);
    assert_eq!(short.len(), 1);
}

#[test]
fn input_keeps_the_order_of_events() {
    let mut input = Input::new();
    assert_eq!(input.len(), 0);
    input.send_key_down(KeyKind::Up);
    input.send_key(KeyKind::Space);
    input.send_key_down_with_options(KeyKind::C, InputKeyDownOptions::default().repeatable());
    input.send_key_up(KeyKind::Up);
    assert_eq!(input.len(), 4);
    assert_eq!(
        input.get(0),
        Some(InputEvent::KeyDown(
            KeyKind::Up,
            InputKeyDownOptions { repeatable: false }
        ))
    );
    assert_eq!(input.get(1), Some(InputEvent::Key(KeyKind::Space)));
    assert_eq!(
        input.get(2),
        Some(InputEvent::KeyDown(
            KeyKind::C,
            InputKeyDownOptions { repeatable: true }
        ))
    );
    assert_eq!(input.get(3), Some(InputEvent::KeyUp(KeyKind::Up)));
    assert_eq!(input.get(4), None);
    let events = input.flush();
    assert_eq!(events.len(), 4);
    assert_eq!(input.len(), 0);
    assert!(KeyKind::Left.is_directional());
    assert!(!KeyKind::Space.is_directional());
}

#[test]
fn detector_answers_from_the_snapshot() {
    let nothing = Detector::default();
    assert!(!nothing.detect_player_in_cash_shop());
    assert!(!nothing.detect_chat_menu_opened());
    assert!(!nothing.detect_change_channel_menu_opened());
    assert!(!nothing.detect_admin_visible());
    assert!(!nothing.detect_esc_settings());
    assert_eq!(
        nothing.detect_popup_confirm_button(),
        Err(DetectError::NotFound)
    );
    let seen = Detector {
        player_in_cash_shop: true,
        chat_menu_opened: true,
        change_channel_menu_opened: true,
        popup_confirm_button: Some(Rect::new(1, 2, 3, 4)),
        admin_visible: true,
        esc_settings: true,
    };
    assert!(seen.detect_player_in_cash_shop());
    assert!(seen.detect_chat_menu_opened());
    assert!(seen.detect_change_channel_menu_opened());
    assert!(seen.detect_admin_visible());
    assert!(seen.detect_esc_settings());
    assert_eq!(seen.detect_popup_confirm_button(), Ok(Rect::new(1, 2, 3, 4)));
}

#[test]
fn minimap_portals_and_players() {
    let mut idle = MinimapIdle::default();
    assert!(!idle.has_any_other_player());
    assert!(!idle.is_position_inside_portal(Point::new(0, 0)));
    idle.other_players = 1;
    idle.portals = Array::from_slice(&[Rect::new(10, 10, 4, 2)]);
    assert!(idle.has_any_other_player());
    assert!(idle.is_position_inside_portal(Point::new(10, 10)));
    assert!(idle.is_position_inside_portal(Point::new(13, 11)));
    assert!(!idle.is_position_inside_portal(Point::new(14, 11)));
    assert!(!idle.is_position_inside_portal(Point::new(13, 12)));
    assert!(!idle.is_position_inside_portal(Point::new(9, 10)));
    assert!(idle.is_in_range());
    assert!(Minimap::Idle(idle).is_in_range());
    assert!(Minimap::Detecting.is_in_range());
    idle.bbox = Rect::new(0, 0, -1, 5);
    assert!(!idle.is_in_range());
    assert!(Rect::new(0, 0, 2, 2).contains(Point::new(1, 1)));
    assert!(!Point::new(0, 1_000_000_001).is_in_range());
    assert!(Point::new(-1_000_000_000, 1_000_000_000).is_in_range());
}
