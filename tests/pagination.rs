use daily_scry::error::Error;
use daily_scry::pagination::{split_text, Additional};

#[test]
fn test_limit_text_longer() {
    let text = "0123456789".to_owned();
    let result = split_text(text.clone(), 15, vec![]).unwrap();
    assert_eq!(result.len(), 1);
    assert_eq!(result[0], text);
}

#[test]
fn test_limit_text_shorter() {
    let text = "0123456789".to_owned();
    let result = split_text(text.clone(), 5, vec![]).unwrap();
    assert_eq!(result.len(), 3);
    assert_eq!(result[0], "0123…");
    assert_eq!(result[1], "4567…");
    assert_eq!(result[2], "89");
}

#[test]
fn test_limit_text_additional_only_text() {
    let text = "0123456789".to_owned();
    let result = split_text(
        text.clone(),
        10,
        vec![Additional::Text("a".into()), Additional::Text("bc".into())],
    )
    .unwrap();
    assert_eq!(result.len(), 2);
    assert_eq!(result[0], "012345…");
    assert_eq!(result[1], "6789");
}

#[test]
fn test_limit_text_additional_only_number() {
    let text = "0123456789".to_owned();
    let result = split_text(
        text.clone(),
        10,
        vec![Additional::Number(4), Additional::Number(3)],
    )
    .unwrap();
    assert_eq!(result.len(), 5);
    assert_eq!(result[0], "01…");
    assert_eq!(result[1], "23…");
    assert_eq!(result[2], "45…");
    assert_eq!(result[3], "67…");
    assert_eq!(result[4], "89");
}

#[test]
fn test_limit_text_additional_mixed() {
    let text = "0123456789".to_owned();
    let result = split_text(
        text.clone(),
        10,
        vec![Additional::Number(4), Additional::Text("a".into())],
    )
    .unwrap();
    assert_eq!(result.len(), 3);
    assert_eq!(result[0], "0123…");
    assert_eq!(result[1], "4567…");
    assert_eq!(result[2], "89");
}

#[test]
fn empty_text_gives_no_chunk() {
    let result = split_text(String::new(), 5, vec![]).unwrap();
    assert!(result.is_empty());
}

#[test]
fn text_of_exactly_the_limit_is_one_chunk() {
    let result = split_text("01234".to_owned(), 5, vec![]).unwrap();
    assert_eq!(result, vec!["01234".to_owned()]);
}

#[test]
fn reservations_equal_to_limit_exhaust_the_budget() {
    let result = split_text(
        "0123456789".to_owned(),
        10,
        vec![Additional::Number(7), Additional::Text("abc".into())],
    );
    assert!(matches!(result, Err(Error::BudgetExhausted)));
}

#[test]
fn reservations_beyond_limit_exhaust_the_budget_even_for_empty_text() {
    let result = split_text(String::new(), 3, vec![Additional::Number(usize::MAX)]);
    assert!(matches!(result, Err(Error::BudgetExhausted)));
}

#[test]
fn zero_limit_exhausts_the_budget() {
    assert!(matches!(
        split_text("a".to_owned(), 0, vec![]),
        Err(Error::BudgetExhausted)
    ));
}

#[test]
fn width_of_one_holds_one_character_but_cannot_cut() {
    assert_eq!(
        split_text("x".to_owned(), 1, vec![]).unwrap(),
        vec!["x".to_owned()]
    );
    assert!(matches!(
        split_text("xy".to_owned(), 1, vec![]),
        Err(Error::BudgetExhausted)
    ));
}

#[test]
fn width_of_two_takes_one_character_per_chunk() {
    let result = split_text("abcd".to_owned(), 2, vec![]).unwrap();
    assert_eq!(result, vec!["a…".to_owned(), "b…".to_owned(), "cd".to_owned()]);
}

#[test]
fn characters_are_counted_not_bytes() {
    let result = split_text("ééééé".to_owned(), 5, vec![]).unwrap();
    assert_eq!(result, vec!["ééééé".to_owned()]);
    let result = split_text("ééééééé".to_owned(), 4, vec![Additional::Text("ü".into())]).unwrap();
    assert_eq!(
        result,
        vec!["éé…".to_owned(), "éé…".to_owned(), "ééé".to_owned()]
    );
}

#[test]
fn every_chunk_fits_and_rejoins_to_the_text() {
    let text = "The quick brown fox jumps over the lazy dog".to_owned();
    let result = split_text(text.clone(), 12, vec![Additional::Number(2)]).unwrap();
    let mut rejoined = String::new();
    for (i, chunk) in result.iter().enumerate() {
        assert!(chunk.chars().count() <= 10);
        if i + 1 < result.len() {
            assert!(chunk.ends_with('…'));
            assert_eq!(chunk.chars().count(), 10);
            rejoined.push_str(&chunk[..chunk.len() - '…'.len_utf8()]);
        } else {
            rejoined.push_str(chunk);
        }
    }
    assert_eq!(rejoined, text);
}
