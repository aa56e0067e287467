use vstd::prelude::*;

use crate::error::Error;
use crate::pagination::{paginate, reserved, split_text, Additional};
use crate::text::{join, join_strings, or_empty, views};

verus! {

/// The characters a link takes in a microblog post, whatever its length.
pub const LINK_CHARACTERS: usize = 23;

/// Each chunk followed by the same trailer.
pub open spec fn with_trailer(cs: Seq<Seq<char>>, trailer: Seq<char>) -> Seq<Seq<char>> {
    cs.map_values(|c: Seq<char>| c + trailer)
}

/// The artist line of a microblog post.
pub open spec fn microblog_artist_line(artist: Option<String>) -> Seq<char> {
    "\n"@ + or_empty(artist)
}

/// The posts of a microblog thread for a card's texts: the texts joined by
/// newlines, paginated net of the artist line, the link and the hashtags, and
/// each chunk followed by those three.
pub open spec fn microblog_plan(
    card_texts: Seq<Seq<char>>,
    artist: Option<String>,
    link: Seq<char>,
    limit: int,
) -> Option<Seq<Seq<char>>> {
    let artist_line = microblog_artist_line(artist);
    let hashtags = "\n#MagicTheGathering #DailyScry"@;
    match paginate(
        join(card_texts, "\n"@),
        limit,
        hashtags.len() + artist_line.len() + LINK_CHARACTERS,
    ) {
        Some(cs) => Some(with_trailer(cs, artist_line + link + hashtags)),
        None => None,
    }
}

/// The messages for one card text on a messaging channel: the text
/// paginated net of the artist credit, each chunk followed by that credit.
pub open spec fn messenger_plan(text: Seq<char>, artist: Option<String>, limit: int) -> Option<
    Seq<Seq<char>>,
> {
    match paginate(text, limit, or_empty(artist).len() as int) {
        Some(cs) => Some(with_trailer(cs, or_empty(artist))),
        None => None,
    }
}

pub open spec fn plan_view(r: Result<Vec<String>, Error>) -> Option<Seq<Seq<char>>> {
    match r {
        Ok(v) => Some(views(v@)),
        Err(_) => None,
    }
}

fn append_trailer(chunks: Vec<String>, trailer: &str) -> (r: Vec<String>)
    ensures
        views(r@) == with_trailer(views(chunks@), trailer@),
{
    let mut out: Vec<String> = Vec::new();
    let mut i: usize = 0;
    while i < chunks.len()
        invariant
            i <= chunks.len(),
            views(out@) == with_trailer(views(chunks@), trailer@).take(i as int),
        decreases chunks.len() - i,
    {
        let mut body = chunks[i].clone();
        body.append(trailer);
        let ghost before = out@;
        out.push(body);
        i += 1;
        assert(views(out@) =~= views(before).push(chunks@[i - 1]@ + trailer@));
        assert(with_trailer(views(chunks@), trailer@).take(i as int) =~= with_trailer(
            views(chunks@),
            trailer@,
        ).take(i - 1).push(chunks@[i - 1]@ + trailer@));
    }
    assert(views(out@) =~= with_trailer(views(chunks@), trailer@));
    out
}

/// The bodies of the microblog thread for a card. Fails with
/// `BudgetExhausted` where the trailer leaves no room for the text.
pub fn microblog_statuses(
    card_texts: &Vec<String>,
    artist: &Option<String>,
    link: &str,
    character_limit: usize,
) -> (r: Result<Vec<String>, Error>)
    ensures
        plan_view(r) == microblog_plan(views(card_texts@), *artist, link@, character_limit as int),
        r matches Err(e) ==> e is BudgetExhausted,
{
    let text = join_strings(card_texts, "\n");
    let hashtags = "\n#MagicTheGathering #DailyScry";
    let mut artist_line = "\n".to_owned();
    match artist {
        Some(a) => artist_line.append(a.as_str()),
        None => {},
    }
    assert(artist_line@ == microblog_artist_line(*artist));
    let adds = vec![
        Additional::Text(hashtags.to_owned()),
        Additional::Text(artist_line.clone()),
        Additional::Number(LINK_CHARACTERS),
    ];
    proof {
        reveal_with_fuel(reserved, 4);
        assert(adds@.drop_last().drop_last().drop_last() =~= Seq::<Additional>::empty());
        assert(reserved(adds@) == hashtags@.len() + artist_line@.len() + LINK_CHARACTERS);
    }
    let chunks = split_text(text, character_limit, adds)?;
    let mut trailer = artist_line;
    trailer.append(link);
    trailer.append(hashtags);
    Ok(append_trailer(chunks, trailer.as_str()))
}

/// The messages for one card text on a messaging channel. Fails with
/// `BudgetExhausted` where the artist credit leaves no room for the text.
pub fn messenger_messages(text: &String, artist: &Option<String>, character_limit: usize) -> (r:
    Result<Vec<String>, Error>)
    ensures
        plan_view(r) == messenger_plan(text@, *artist, character_limit as int),
        r matches Err(e) ==> e is BudgetExhausted,
{
    let credit = match artist {
        Some(a) => a.clone(),
        None => String::new(),
    };
    let adds = vec![Additional::Text(credit.clone())];
    proof {
        reveal_with_fuel(reserved, 2);
        assert(adds@.drop_last() =~= Seq::<Additional>::empty());
        assert(reserved(adds@) == credit@.len());
    }
    let chunks = split_text(text.clone(), character_limit, adds)?;
    Ok(append_trailer(chunks, credit.as_str()))
}

} // verus!
