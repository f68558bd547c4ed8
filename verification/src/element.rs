use vstd::prelude::*;

verus! {

/// An 8-bit sRGB colour.
#[derive(Clone, Copy, Debug, PartialEq, Eq, Structural)]
pub struct Srgb8 {
    pub r: u8,
    pub g: u8,
    pub b: u8,
}

impl Srgb8 {
    pub open spec fn rgb(r: u8, g: u8, b: u8) -> Srgb8 {
        Srgb8 { r, g, b }
    }
}

/// Element types of the spell system. Each element has a colour for visual
/// effects, a display name and a default spell texture.
#[derive(Clone, Copy, Debug, PartialEq, Eq, Hash, Structural)]
pub enum Element {
    Fire,
    Frost,
    Poison,
    Lightning,
    Light,
    Dark,
    Chaos,
    Psychic,
}

/// The elements in declaration order.
pub open spec fn all_elements() -> Seq<Element> {
    seq![
        Element::Fire,
        Element::Frost,
        Element::Poison,
        Element::Lightning,
        Element::Light,
        Element::Dark,
        Element::Chaos,
        Element::Psychic,
    ]
}

impl Element {
    pub open spec fn spec_color(self) -> Srgb8 {
        match self {
            Element::Fire => Srgb8::rgb(255, 128, 0),
            Element::Frost => Srgb8::rgb(135, 206, 235),
            Element::Poison => Srgb8::rgb(0, 255, 0),
            Element::Lightning => Srgb8::rgb(255, 255, 0),
            Element::Light => Srgb8::rgb(255, 255, 255),
            Element::Dark => Srgb8::rgb(128, 0, 128),
            Element::Chaos => Srgb8::rgb(255, 0, 255),
            Element::Psychic => Srgb8::rgb(255, 182, 193),
        }
    }

    pub open spec fn spec_name(self) -> Seq<char> {
        match self {
            Element::Fire => "Fire"@,
            Element::Frost => "Frost"@,
            Element::Poison => "Poison"@,
            Element::Lightning => "Lightning"@,
            Element::Light => "Light"@,
            Element::Dark => "Dark"@,
            Element::Chaos => "Chaos"@,
            Element::Psychic => "Psychic"@,
        }
    }

    pub open spec fn spec_texture_path(self) -> Seq<char> {
        match self {
            Element::Fire => "textures/spell-fire-default.png"@,
            Element::Frost => "textures/spell-frost-default.png"@,
            Element::Poison => "textures/spell-poison-default.png"@,
            Element::Lightning => "textures/spell-lightning-default.png"@,
            Element::Light => "textures/spell-light-default.png"@,
            Element::Dark => "textures/spell-dark-default.png"@,
            Element::Chaos => "textures/spell-chaos-default.png"@,
            Element::Psychic => "textures/spell-psychic-default.png"@,
        }
    }

    /// The visual colour associated with this element (orange fire, ice-blue
    /// frost, green poison, yellow lightning, white light, purple dark,
    /// magenta chaos, pink psychic).
    pub fn color(&self) -> (c: Srgb8)
        ensures
            c == self.spec_color(),
    {
        match self {
            Element::Fire => Srgb8 { r: 255, g: 128, b: 0 },
            Element::Frost => Srgb8 { r: 135, g: 206, b: 235 },
            Element::Poison => Srgb8 { r: 0, g: 255, b: 0 },
            Element::Lightning => Srgb8 { r: 255, g: 255, b: 0 },
            Element::Light => Srgb8 { r: 255, g: 255, b: 255 },
            Element::Dark => Srgb8 { r: 128, g: 0, b: 128 },
            Element::Chaos => Srgb8 { r: 255, g: 0, b: 255 },
            Element::Psychic => Srgb8 { r: 255, g: 182, b: 193 },
        }
    }

    /// The display name of this element.
    pub fn name(&self) -> (s: &'static str)
        ensures
            s@ == self.spec_name(),
    {
        match self {
            Element::Fire => "Fire",
            Element::Frost => "Frost",
            Element::Poison => "Poison",
            Element::Lightning => "Lightning",
            Element::Light => "Light",
            Element::Dark => "Dark",
            Element::Chaos => "Chaos",
            Element::Psychic => "Psychic",
        }
    }

    /// The path of the default spell texture of this element, used when a
    /// spell has no texture of its own.
    pub fn default_texture_path(&self) -> (s: &'static str)
        ensures
            s@ == self.spec_texture_path(),
    {
        match self {
            Element::Fire => "textures/spell-fire-default.png",
            Element::Frost => "textures/spell-frost-default.png",
            Element::Poison => "textures/spell-poison-default.png",
            Element::Lightning => "textures/spell-lightning-default.png",
            Element::Light => "textures/spell-light-default.png",
            Element::Dark => "textures/spell-dark-default.png",
            Element::Chaos => "textures/spell-chaos-default.png",
            Element::Psychic => "textures/spell-psychic-default.png",
        }
    }

    /// All element variants, in declaration order.
    pub fn all() -> (v: [Element; 8])
        ensures
            v@ == all_elements(),
    {
        [
            Element::Fire,
            Element::Frost,
            Element::Poison,
            Element::Lightning,
            Element::Light,
            Element::Dark,
            Element::Chaos,
            Element::Psychic,
        ]
    }

    /// Whether a damage instance of element `damage_element` (if it has one)
    /// is of element `element`.
    pub fn matches(damage_element: Option<Element>, element: Element) -> (b: bool)
        ensures
            b == (damage_element == Some(element)),
    {
        match damage_element {
            Some(e) => e == element,
            None => false,
        }
    }
}

impl Default for Element {
    fn default() -> (e: Element)
        ensures
            e == Element::Fire,
    {
        Element::Fire
    }
}

/// Every element occurs in the list of all elements, exactly once.
pub proof fn lemma_all_elements_complete_and_distinct(e: Element)
    ensures
        all_elements().contains(e),
        forall|i: int, j: int|
            0 <= i < 8 && 0 <= j < 8 && i != j ==> all_elements()[i] != all_elements()[j],
{
    let s = all_elements();
    match e {
        Element::Fire => assert(s[0] == e),
        Element::Frost => assert(s[1] == e),
        Element::Poison => assert(s[2] == e),
        Element::Lightning => assert(s[3] == e),
        Element::Light => assert(s[4] == e),
        Element::Dark => assert(s[5] == e),
        Element::Chaos => assert(s[6] == e),
        Element::Psychic => assert(s[7] == e),
    }
}

} // verus!
