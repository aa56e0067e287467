use vstd::prelude::*;

verus! {

/// How a card is printed; it decides which rendering strategy applies.
#[derive(Clone, Copy, Debug, PartialEq, Eq, Structural)]
pub enum Layout {
    Normal,
    Split,
    Flip,
    Transform,
    ModalDfc,
    Meld,
    Leveler,
    Class,
    Saga,
    Adventure,
    Planar,
    Scheme,
    Vanguard,
    Token,
    DoubleFacedToken,
    Emblem,
    Augment,
    Host,
    ArtSeries,
    ReversibleCard,
    Prototype,
    Mutate,
    Case,
    /// A layout tag this library does not know.
    Unknown,
}

/// One face of a multi-faced card.
#[derive(Clone, Debug)]
pub struct Face {
    pub name: String,
    pub mana_cost: String,
    pub type_line: Option<String>,
    pub oracle_text: Option<String>,
    pub flavor_text: Option<String>,
    pub power: Option<String>,
    pub toughness: Option<String>,
    pub loyalty: Option<String>,
    pub artist: Option<String>,
}

/// A card record. A single-faced card keeps its text on the card itself; a
/// multi-faced card keeps it on its faces.
#[derive(Clone, Debug)]
pub struct Card {
    pub name: String,
    pub mana_cost: Option<String>,
    pub type_line: Option<String>,
    pub oracle_text: Option<String>,
    pub flavor_text: Option<String>,
    pub power: Option<String>,
    pub toughness: Option<String>,
    pub loyalty: Option<String>,
    pub hand_modifier: Option<String>,
    pub life_modifier: Option<String>,
    pub artist: Option<String>,
    pub layout: Layout,
    pub card_faces: Option<Vec<Face>>,
    /// The oracle identifier as a 128-bit value.
    pub oracle_id: Option<u128>,
    pub content_warning: bool,
}

} // verus!
