use vstd::prelude::*;

use crate::card::{Card, Layout};
use crate::error::Error;
use crate::format::{classify_layout, layout_strategy, Strategy};
use crate::text::{contains, or_empty, str_contains};

verus! {

/// Which images a card needs and how to turn them.
#[derive(Clone, Copy, Debug, PartialEq, Eq, Structural)]
pub struct ImagePlan {
    /// One image per face, rather than the card's one image.
    pub per_face: bool,
    /// The first image is to be turned a quarter.
    pub rotate_first: bool,
}

/// The images of a card: one per face where its faces print separately, and
/// then the first turned for a siege; else the card's single image, turned
/// for planes and phenomena and for split cards other than aftermath cards.
pub open spec fn image_plan_of(card: Card) -> Result<ImagePlan, Error> {
    match layout_strategy(card.layout) {
        None => Err(Error::ImageNotFound),
        Some(Strategy::SeparateImages) => match card.type_line {
            Some(t) => Ok(ImagePlan { per_face: true, rotate_first: contains(t@, "Siege"@) }),
            None => Err(Error::MissingTypeLine),
        },
        Some(_) => if card.layout == Layout::Planar {
            Ok(ImagePlan { per_face: false, rotate_first: true })
        } else if card.layout == Layout::Split {
            match card.card_faces {
                Some(faces) if faces@.len() > 1 => Ok(
                    ImagePlan {
                        per_face: false,
                        rotate_first: !contains(or_empty(faces@[1].oracle_text), "Aftermath"@),
                    },
                ),
                _ => Err(Error::MissingCardFaces),
            }
        } else {
            Ok(ImagePlan { per_face: false, rotate_first: false })
        },
    }
}

/// Decides which images to download for a card and whether to turn the
/// first.
pub fn image_plan(card: &Card) -> (r: Result<ImagePlan, Error>)
    ensures
        r == image_plan_of(*card),
{
    match classify_layout(card.layout) {
        Err(_) => Err(Error::ImageNotFound),
        Ok(Strategy::SeparateImages) => match &card.type_line {
            Some(t) => Ok(ImagePlan { per_face: true, rotate_first: str_contains(t.as_str(), "Siege") }),
            None => Err(Error::MissingTypeLine),
        },
        Ok(_) => match card.layout {
            Layout::Planar => Ok(ImagePlan { per_face: false, rotate_first: true }),
            Layout::Split => match &card.card_faces {
                Some(faces) if faces.len() > 1 => {
                    let oracle = match &faces[1].oracle_text {
                        Some(o) => o.clone(),
                        None => String::new(),
                    };
                    let aftermath = str_contains(oracle.as_str(), "Aftermath");
                    Ok(ImagePlan { per_face: false, rotate_first: !aftermath })
                },
                _ => Err(Error::MissingCardFaces),
            },
            _ => Ok(ImagePlan { per_face: false, rotate_first: false }),
        },
    }
}

} // verus!
