//! Buttons: their kind, border, content, and how interaction inverts their colors.

use vstd::prelude::*;

use crate::resource::ResourceHandle;

verus! {

/// Text shown by an element.
#[derive(Clone, PartialEq, Eq, Debug)]
pub struct TextValue(pub String);

/// Whether a button acts on press or toggles.
#[derive(Copy, Clone, PartialEq, Eq, Structural, Debug)]
pub enum ButtonType {
    Press,
    Toggle,
}

impl ButtonType {
    /// Whether the button shows inverted colors: a press button while an interaction is
    /// active on it, a toggle button while toggled or while an interaction is active.
    pub fn inverted(&self, active: bool, toggled: bool) -> (r: bool)
        ensures
            r == match *self {
                ButtonType::Press => active,
                ButtonType::Toggle => toggled || active,
            },
    {
        let mut inverted = false;
        match self {
            ButtonType::Press => {
                if active {
                    inverted = true;
                }
            },
            ButtonType::Toggle => {
                if toggled || active {
                    inverted = true;
                }
            },
        }
        inverted
    }
}

/// Whether a button draws a border.
#[derive(Copy, Clone, PartialEq, Eq, Structural, Debug)]
pub enum ButtonBorder {
    Border,
    Borderless,
}

/// Optional text of a button.
#[derive(Clone, Debug)]
pub struct ButtonText {
    pub desc: Option<TextValue>,
}

impl ButtonText {
    pub fn none() -> (r: ButtonText)
        ensures
            r.desc is None,
    {
        ButtonText { desc: None }
    }

    pub fn some(desc: TextValue) -> (r: ButtonText)
        ensures
            r.desc == Some(desc),
    {
        ButtonText { desc: Some(desc) }
    }
}

/// Optional icon of a button.
#[derive(Copy, Clone, PartialEq, Eq, Structural, Debug)]
pub struct ButtonIcon {
    pub desc: Option<ResourceHandle>,
}

impl ButtonIcon {
    pub fn none() -> (r: ButtonIcon)
        ensures
            r.desc is None,
    {
        ButtonIcon { desc: None }
    }

    pub fn some(desc: ResourceHandle) -> (r: ButtonIcon)
        ensures
            r.desc == Some(desc),
    {
        ButtonIcon { desc: Some(desc) }
    }
}

/// How the content of a button is laid out inside it.
#[derive(Copy, Clone, PartialEq, Eq, Structural, Debug)]
pub enum ButtonLayout {
    IconAndText,
    IconOnly,
    TextOnly,
    Empty,
}

impl ButtonLayout {
    /// The layout for a button that has an icon (`has_icon`) and text (`has_text`).
    pub fn of(has_icon: bool, has_text: bool) -> (r: ButtonLayout)
        ensures
            r == if has_icon && has_text {
                ButtonLayout::IconAndText
            } else if has_icon {
                ButtonLayout::IconOnly
            } else if has_text {
                ButtonLayout::TextOnly
            } else {
                ButtonLayout::Empty
            },
    {
        if has_icon && has_text {
            ButtonLayout::IconAndText
        } else if has_icon && !has_text {
            ButtonLayout::IconOnly
        } else if has_text && !has_icon {
            ButtonLayout::TextOnly
        } else {
            ButtonLayout::Empty
        }
    }
}

/// The entities (by id bits) spawned for a button's panel, icon and text, when spawned.
#[derive(Copy, Clone, PartialEq, Eq, Structural, Debug)]
pub struct ButtonParts {
    pub panel: Option<u64>,
    pub icon: Option<u64>,
    pub text: Option<u64>,
}

/// The entity of `part`, as a sequence of zero or one entity.
pub open spec fn present(part: Option<u64>) -> Seq<u64> {
    match part {
        Some(e) => seq![e],
        None => Seq::empty(),
    }
}

impl ButtonParts {
    /// The spawned parts in the order the button forwards despawning, disabling and
    /// enabling to them: panel, text, icon.
    pub fn secondary_entities(&self) -> (r: Vec<u64>)
        ensures
            r@ == present(self.panel) + present(self.text) + present(self.icon),
    {
        let mut r: Vec<u64> = Vec::new();
        match self.panel {
            Some(e) => r.push(e),
            None => {},
        }
        match self.text {
            Some(e) => r.push(e),
            None => {},
        }
        match self.icon {
            Some(e) => r.push(e),
            None => {},
        }
        proof {
            assert(r@ =~= present(self.panel) + present(self.text) + present(self.icon));
        }
        r
    }
}

/// The panel color and the color of the icon and text: swapped while the button is
/// inverted.
pub fn invert_colors<C: Copy>(inverted: bool, foreground: C, background: C) -> (r: (C, C))
    ensures
        r == if inverted {
            (foreground, background)
        } else {
            (background, foreground)
        },
{
    let panel = if inverted {
        foreground
    } else {
        background
    };
    let content = if inverted {
        background
    } else {
        foreground
    };
    (panel, content)
}

} // verus!
