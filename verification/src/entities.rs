//! What a map cell shows: the kind of entity drawn there and its style.
use vstd::prelude::*;

verus! {

/// The colours that cells of the map are drawn with.
#[derive(Clone, Copy, Debug, PartialEq, Eq, Structural)]
pub enum Color {
    Reset,
    Black,
    White,
    Gray,
    DarkGray,
    Red,
    LightRed,
    LightYellow,
    LightGreen,
    LightBlue,
    LightMagenta,
    LightCyan,
}

/// How a cell is drawn: an optional foreground colour and text modifiers.
#[derive(Clone, Copy, Debug, PartialEq, Eq, Structural)]
pub struct Style {
    pub fg: Option<Color>,
    pub bold: bool,
    pub italic: bool,
}

impl Style {
    /// The plain style: no colour, no modifier.
    pub fn new() -> (res: Style)
        ensures
            res == plain_style(),
    {
        Style { fg: None, bold: false, italic: false }
    }

    /// This style with the given foreground colour.
    pub fn fg(self, color: Color) -> (res: Style)
        ensures
            res == (Style { fg: Some(color), ..self }),
    {
        Style { fg: Some(color), ..self }
    }

    /// This style made bold.
    pub fn bold(self) -> (res: Style)
        ensures
            res == (Style { bold: true, ..self }),
    {
        Style { bold: true, ..self }
    }

    /// This style made italic.
    pub fn italic(self) -> (res: Style)
        ensures
            res == (Style { italic: true, ..self }),
    {
        Style { italic: true, ..self }
    }
}

/// The plain style.
pub open spec fn plain_style() -> Style {
    Style { fg: None, bold: false, italic: false }
}

/// The style of a hurt character or enemy: gray and italic.
pub open spec fn hurt_style() -> Style {
    Style { fg: Some(Color::Gray), bold: false, italic: true }
}

/// The entities that a map cell can show, each with its style.
#[derive(Clone, Copy, Debug, PartialEq, Eq, Structural)]
pub enum EntityCharacters {
    Background1(Style),
    Background2(Style),
    Character(Style),
    Enemy(Style),
    Empty(Style),
    AttackBlackout(Style),
    AttackMist(Style),
    AttackWeak(Style),
    Orb(Style),
}

/// The style that an entity carries.
pub open spec fn style_of(e: EntityCharacters) -> Style {
    match e {
        EntityCharacters::Background1(s) => s,
        EntityCharacters::Background2(s) => s,
        EntityCharacters::Character(s) => s,
        EntityCharacters::Enemy(s) => s,
        EntityCharacters::Empty(s) => s,
        EntityCharacters::AttackBlackout(s) => s,
        EntityCharacters::AttackMist(s) => s,
        EntityCharacters::AttackWeak(s) => s,
        EntityCharacters::Orb(s) => s,
    }
}

/// The same entity with another style.
pub open spec fn restyled(e: EntityCharacters, s: Style) -> EntityCharacters {
    match e {
        EntityCharacters::Background1(_) => EntityCharacters::Background1(s),
        EntityCharacters::Background2(_) => EntityCharacters::Background2(s),
        EntityCharacters::Character(_) => EntityCharacters::Character(s),
        EntityCharacters::Enemy(_) => EntityCharacters::Enemy(s),
        EntityCharacters::Empty(_) => EntityCharacters::Empty(s),
        EntityCharacters::AttackBlackout(_) => EntityCharacters::AttackBlackout(s),
        EntityCharacters::AttackMist(_) => EntityCharacters::AttackMist(s),
        EntityCharacters::AttackWeak(_) => EntityCharacters::AttackWeak(s),
        EntityCharacters::Orb(_) => EntityCharacters::Orb(s),
    }
}

impl EntityCharacters {
    /// The symbol drawn for this entity.
    pub fn glyph(&self) -> (res: char)
        ensures
            res == glyph_of(*self),
    {
        match self {
            EntityCharacters::Background1(_) => '.',
            EntityCharacters::Background2(_) => ',',
            EntityCharacters::Character(_) => '0',
            EntityCharacters::Enemy(_) => 'x',
            EntityCharacters::Empty(_) => ' ',
            EntityCharacters::AttackBlackout(_) => '\u{2588}',
            EntityCharacters::AttackMist(_) => '\u{2592}',
            EntityCharacters::AttackWeak(_) => '\u{2591}',
            EntityCharacters::Orb(_) => 'o',
        }
    }

    /// Replaces this entity with another.
    pub fn replace(&mut self, new_entity: EntityCharacters)
        ensures
            *final(self) == new_entity,
    {
        *self = new_entity;
    }

    /// The style this entity is drawn with.
    pub fn style(&self) -> (res: Style)
        ensures
            res == style_of(*self),
    {
        match self {
            EntityCharacters::Background1(s) => *s,
            EntityCharacters::Background2(s) => *s,
            EntityCharacters::Character(s) => *s,
            EntityCharacters::Enemy(s) => *s,
            EntityCharacters::Empty(s) => *s,
            EntityCharacters::AttackBlackout(s) => *s,
            EntityCharacters::AttackMist(s) => *s,
            EntityCharacters::AttackWeak(s) => *s,
            EntityCharacters::Orb(s) => *s,
        }
    }

    /// Gives this entity another style, keeping its kind.
    pub fn set_style(&mut self, style: Style)
        ensures
            *final(self) == restyled(*old(self), style),
    {
        *self = match *self {
            EntityCharacters::Background1(_) => EntityCharacters::Background1(style),
            EntityCharacters::Background2(_) => EntityCharacters::Background2(style),
            EntityCharacters::Character(_) => EntityCharacters::Character(style),
            EntityCharacters::Enemy(_) => EntityCharacters::Enemy(style),
            EntityCharacters::Empty(_) => EntityCharacters::Empty(style),
            EntityCharacters::AttackBlackout(_) => EntityCharacters::AttackBlackout(style),
            EntityCharacters::AttackMist(_) => EntityCharacters::AttackMist(style),
            EntityCharacters::AttackWeak(_) => EntityCharacters::AttackWeak(style),
            EntityCharacters::Orb(_) => EntityCharacters::Orb(style),
        };
    }

    /// Checks if the entity is a player character.
    pub fn is_char(&self) -> (res: bool)
        ensures
            res <==> (*self is Character),
    {
        match self {
            EntityCharacters::Character(_) => true,
            _ => false,
        }
    }
}

/// The symbol drawn for an entity.
pub open spec fn glyph_of(e: EntityCharacters) -> char {
    match e {
        EntityCharacters::Background1(_) => '.',
        EntityCharacters::Background2(_) => ',',
        EntityCharacters::Character(_) => '0',
        EntityCharacters::Enemy(_) => 'x',
        EntityCharacters::Empty(_) => ' ',
        EntityCharacters::AttackBlackout(_) => '\u{2588}',
        EntityCharacters::AttackMist(_) => '\u{2592}',
        EntityCharacters::AttackWeak(_) => '\u{2591}',
        EntityCharacters::Orb(_) => 'o',
    }
}

} // verus!
