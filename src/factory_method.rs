//! An abstract factory of GUI elements: a family of buttons and check boxes
//! that client code uses without naming their types.
use vstd::prelude::*;

verus! {

pub trait Button {
    /// What pressing this button reports.
    spec fn press_line(&self) -> Seq<char>;

    fn press(&self) -> (r: String)
        ensures
            r@ == self.press_line(),
    ;
}

pub trait CheckBox {
    /// What switching this check box reports.
    spec fn switch_line(&self) -> Seq<char>;

    fn switch(&self) -> (r: String)
        ensures
            r@ == self.switch_line(),
    ;
}

/// Abstract factory by generics.
pub trait GuiFactory {
    type B: Button;

    type C: CheckBox;

    /// What the buttons of this family report when pressed.
    spec fn button_line(&self) -> Seq<char>;

    /// What the check boxes of this family report when switched.
    spec fn checkbox_line(&self) -> Seq<char>;

    fn create_button(&self) -> (r: Self::B)
        ensures
            r.press_line() == self.button_line(),
    ;

    fn create_checkbox(&self) -> (r: Self::C)
        ensures
            r.switch_line() == self.checkbox_line(),
    ;
}

pub struct MacOSButton {}

impl MacOSButton {
    pub fn new() -> (r: Self) {
        MacOSButton {  }
    }
}

impl Button for MacOSButton {
    open spec fn press_line(&self) -> Seq<char> {
        "Press Button - MacOS"@
    }

    fn press(&self) -> (r: String) {
        "Press Button - MacOS".to_string()
    }
}

pub struct MacOSCheckBox {}

impl MacOSCheckBox {
    pub fn new() -> (r: Self) {
        MacOSCheckBox {  }
    }
}

impl CheckBox for MacOSCheckBox {
    open spec fn switch_line(&self) -> Seq<char> {
        "Switch CheckBox - MacOS"@
    }

    fn switch(&self) -> (r: String) {
        "Switch CheckBox - MacOS".to_string()
    }
}

pub struct MacFactory {}

impl MacFactory {
    pub fn new() -> (r: Self) {
        MacFactory {  }
    }
}

impl GuiFactory for MacFactory {
    type B = MacOSButton;

    type C = MacOSCheckBox;

    open spec fn button_line(&self) -> Seq<char> {
        "Press Button - MacOS"@
    }

    open spec fn checkbox_line(&self) -> Seq<char> {
        "Switch CheckBox - MacOS"@
    }

    fn create_button(&self) -> (r: MacOSButton) {
        MacOSButton::new()
    }

    fn create_checkbox(&self) -> (r: MacOSCheckBox) {
        MacOSCheckBox::new()
    }
}

/// Client code: makes two buttons and two check boxes with `factory`, then
/// presses and switches them. Returns what they report, in order.
pub fn render<F: GuiFactory>(factory: F) -> (r: Vec<String>)
    ensures
        r@.map_values(|s: String| s@) == seq![
            factory.button_line(),
            factory.button_line(),
            factory.checkbox_line(),
            factory.checkbox_line(),
        ],
{
    let button1 = factory.create_button();
    let button2 = factory.create_button();
    let checkbox1 = factory.create_checkbox();
    let checkbox2 = factory.create_checkbox();
    let mut out: Vec<String> = Vec::new();
    out.push(button1.press());
    out.push(button2.press());
    out.push(checkbox1.switch());
    out.push(checkbox2.switch());
    assert(out@.map_values(|s: String| s@) =~= seq![
        factory.button_line(),
        factory.button_line(),
        factory.checkbox_line(),
        factory.checkbox_line(),
    ]);
    out
}

} // verus!
