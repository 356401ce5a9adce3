use design_patterns::factory_method::{render, Button, CheckBox, GuiFactory, MacFactory};

#[test]
fn render_presses_and_switches_twice() {
    assert_eq!(
        render(MacFactory::new()),
        vec![
            "Press Button - MacOS".to_string(),
            "Press Button - MacOS".to_string(),
            "Switch CheckBox - MacOS".to_string(),
            "Switch CheckBox - MacOS".to_string(),
        ]
    );
}

#[test]
fn factory_makes_mac_elements() {
    let factory = MacFactory::new();
    assert_eq!(factory.create_button().press(), "Press Button - MacOS");
    assert_eq!(factory.create_checkbox().switch(), "Switch CheckBox - MacOS");
}
