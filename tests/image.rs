use daily_scry::card::{Card, Face, Layout};
use daily_scry::error::Error;
use daily_scry::image::{image_plan, ImagePlan};

fn card(layout: Layout, type_line: &str, faces: Option<Vec<Face>>) -> Card {
    Card {
        name: "x".to_owned(),
        mana_cost: None,
        type_line: Some(type_line.to_owned()),
        oracle_text: None,
        flavor_text: None,
        power: None,
        toughness: None,
        loyalty: None,
        hand_modifier: None,
        life_modifier: None,
        artist: None,
        layout,
        card_faces: faces,
        oracle_id: None,
        content_warning: false,
    }
}

fn face(oracle: &str) -> Face {
    Face {
        name: "f".to_owned(),
        mana_cost: String::new(),
        type_line: Some("Sorcery".to_owned()),
        oracle_text: Some(oracle.to_owned()),
        flavor_text: None,
        power: None,
        toughness: None,
        loyalty: None,
        artist: None,
    }
}

#[test]
fn single_images_and_their_rotation() {
    let plain = ImagePlan { per_face: false, rotate_first: false };
    let turned = ImagePlan { per_face: false, rotate_first: true };
    assert_eq!(image_plan(&card(Layout::Normal, "Creature", None)).unwrap(), plain);
    assert_eq!(image_plan(&card(Layout::Planar, "Plane", None)).unwrap(), turned);
    let split = card(Layout::Split, "Sorcery // Sorcery", Some(vec![face("a"), face("b")]));
    assert_eq!(image_plan(&split).unwrap(), turned);
    let aftermath = card(
        Layout::Split,
        "Sorcery // Sorcery",
        Some(vec![face("a"), face("Aftermath (Cast this spell only from your graveyard.)")]),
    );
    assert_eq!(image_plan(&aftermath).unwrap(), plain);
    assert!(matches!(
        image_plan(&card(Layout::Split, "Sorcery", Some(vec![face("a")]))),
        Err(Error::MissingCardFaces)
    ));
}

#[test]
fn per_face_images_turn_the_first_for_a_siege() {
    let faces = Some(vec![face("a"), face("b")]);
    assert_eq!(
        image_plan(&card(Layout::Transform, "Battle — Siege // Creature", faces.clone())).unwrap(),
        ImagePlan { per_face: true, rotate_first: true }
    );
    assert_eq!(
        image_plan(&card(Layout::ModalDfc, "Sorcery // Land", faces)).unwrap(),
        ImagePlan { per_face: true, rotate_first: false }
    );
    assert!(matches!(
        image_plan(&card(Layout::Unknown, "x", None)),
        Err(Error::ImageNotFound)
    ));
}
