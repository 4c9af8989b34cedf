use card_battle::ui::{button_is_clicked, button_system, ButtonShade, CustomUiPlugin, Interaction};

#[test]
fn click_among_the_interactions_is_found() {
    assert!(button_is_clicked(&vec![Interaction::Hovered, Interaction::Clicked]));
    assert!(button_is_clicked(&vec![Interaction::Clicked]));
}

#[test]
fn no_click_without_a_clicked_button() {
    assert!(!button_is_clicked(&Vec::new()));
    assert!(!button_is_clicked(&vec![Interaction::Hovered, Interaction::Idle]));
}

#[test]
fn each_interaction_has_its_shade() {
    let plugin = CustomUiPlugin;
    assert_eq!(plugin.shade(Interaction::Clicked), ButtonShade::Pressed);
    assert_eq!(plugin.shade(Interaction::Hovered), ButtonShade::Hovered);
    assert_eq!(plugin.shade(Interaction::Idle), ButtonShade::Normal);
}

#[test]
fn button_system_shades_every_button_in_order() {
    let shades = button_system(&vec![
        Interaction::Idle,
        Interaction::Clicked,
        Interaction::Hovered,
        Interaction::Idle,
    ]);
    assert_eq!(
        shades,
        vec![
            ButtonShade::Normal,
            ButtonShade::Pressed,
            ButtonShade::Hovered,
            ButtonShade::Normal
        ]
    );
    assert_eq!(button_system(&Vec::new()), Vec::new());
}

#[test]
fn shades_have_their_colours() {
    assert_eq!(ButtonShade::Normal.rgb_percent(), (15, 15, 15));
    assert_eq!(ButtonShade::Hovered.rgb_percent(), (25, 25, 25));
    assert_eq!(ButtonShade::Pressed.rgb_percent(), (35, 75, 35));
}
