use vstd::prelude::*;

use crate::card::Layout;

verus! {

/// The failures the library reports instead of panicking.
#[derive(Debug)]
pub enum Error {
    /// The card's layout tag is not one the renderer knows.
    UnknownCardLayout { layout: Layout },
    /// A multi-faced layout without any face.
    MissingCardFaces,
    /// A record to be rendered has no type line.
    MissingTypeLine,
    /// The reserved trailer material leaves no room for the text itself.
    BudgetExhausted,
    /// The card's layout has no known image to download.
    ImageNotFound,
    /// A configuration value that the requested channel needs is absent or
    /// could not be read; `key` names it.
    ReadConfiguration { key: String },
}

} // verus!
