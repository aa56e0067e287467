use vstd::prelude::*;

use crate::error::Error;
use crate::text::views;

verus! {

/// Trailer material whose room must be kept free in every chunk.
pub enum Additional {
    /// A literal string: its length in characters is reserved.
    Text(String),
    /// A raw number of characters.
    Number(usize),
}

/// The marker that ends every chunk but the last.
pub const ELLIPSIS: char = '\u{2026}';

/// The characters one reservation takes.
pub open spec fn reservation(a: Additional) -> int {
    match a {
        Additional::Text(t) => t@.len() as int,
        Additional::Number(n) => n as int,
    }
}

/// The characters all reservations take together.
pub open spec fn reserved(adds: Seq<Additional>) -> int
    decreases adds.len(),
{
    if adds.len() == 0 {
        0
    } else {
        reserved(adds.drop_last()) + reservation(adds.last())
    }
}

/// `text` cut into chunks of at most `width` characters: each chunk but the
/// last holds `width - 1` characters of the text and the ellipsis.
pub open spec fn chunks(text: Seq<char>, width: nat) -> Seq<Seq<char>>
    decreases text.len(),
{
    if text.len() == 0 {
        Seq::empty()
    } else if text.len() <= width {
        seq![text]
    } else if width < 2 {
        Seq::empty()
    } else {
        seq![text.take(width - 1).push(ELLIPSIS)] + chunks(text.skip(width - 1), width)
    }
}

/// Whether a budget of `width` characters can hold `text`: a positive width,
/// and room for one character beside the ellipsis when the text must be cut.
pub open spec fn budget_suffices(text: Seq<char>, width: int) -> bool {
    width > 0 && !(width == 1 && text.len() > 1)
}

/// The chunks of `text` for a channel of `limit` characters of which
/// `reserved` are kept for the trailer; `None` where the budget cannot hold it.
pub open spec fn paginate(text: Seq<char>, limit: int, reserved: int) -> Option<Seq<Seq<char>>> {
    let width = limit - reserved;
    if budget_suffices(text, width) {
        Some(chunks(text, width as nat))
    } else {
        None
    }
}

/// The text a sequence of chunks was cut from: each chunk but the last
/// loses its final character, the ellipsis.
pub open spec fn rejoin(cs: Seq<Seq<char>>) -> Seq<char>
    decreases cs.len(),
{
    if cs.len() == 0 {
        Seq::empty()
    } else if cs.len() == 1 {
        cs[0]
    } else {
        cs[0].drop_last() + rejoin(cs.skip(1))
    }
}

/// Text that fits the channel's limit, with nothing reserved, comes back as
/// the one chunk it is, without an ellipsis.
pub proof fn lemma_short_text_is_one_chunk(text: Seq<char>, limit: int)
    requires
        0 < text.len() <= limit,
    ensures
        paginate(text, limit, reserved(Seq::<Additional>::empty())) == Some(seq![text]),
{
    assert(reserved(Seq::<Additional>::empty()) == 0);
}

/// Every chunk fits in the width, every chunk but the last is full and ends
/// with the ellipsis, there is at least one chunk exactly when the text is not
/// empty, and dropping the ellipses gives the text back.
pub proof fn lemma_chunks_fit(text: Seq<char>, width: int)
    requires
        budget_suffices(text, width),
    ensures
        ({
            let cs = chunks(text, width as nat);
            &&& (cs.len() == 0 <==> text.len() == 0)
            &&& forall|i: int| 0 <= i < cs.len() ==> #[trigger] cs[i].len() <= width
            &&& forall|i: int|
                0 <= i < cs.len() - 1 ==> #[trigger] cs[i].last() == ELLIPSIS && cs[i].len()
                    == width
            &&& rejoin(cs) == text
        }),
    decreases text.len(),
{
    let w = width as nat;
    let cs = chunks(text, w);
    if text.len() == 0 || text.len() <= w {
    } else {
        let head = text.take(width - 1).push(ELLIPSIS);
        let rest = text.skip(width - 1);
        lemma_chunks_fit(rest, width);
        let tail = chunks(rest, w);
        assert(cs == seq![head] + tail);
        assert(cs.skip(1) =~= tail);
        assert forall|i: int| 0 <= i < cs.len() implies #[trigger] cs[i].len() <= width by {
            if i > 0 {
                assert(cs[i] == tail[i - 1]);
            }
        }
        assert forall|i: int| 0 <= i < cs.len() - 1 implies #[trigger] cs[i].last() == ELLIPSIS
            && cs[i].len() == width by {
            if i > 0 {
                assert(cs[i] == tail[i - 1]);
            }
        }
        assert(head.drop_last() =~= text.take(width - 1));
        assert(text =~= text.take(width - 1) + rest);
    }
}

proof fn lemma_reserved_monotone(adds: Seq<Additional>, i: int)
    requires
        0 <= i <= adds.len(),
    ensures
        reserved(adds.take(i)) <= reserved(adds),
    decreases adds.len(),
{
    if i < adds.len() {
        assert(adds.drop_last().take(i) =~= adds.take(i));
        lemma_reserved_monotone(adds.drop_last(), i);
    } else {
        assert(adds.take(i) =~= adds);
    }
}

/// The characters the reservations take, or `None` once they reach `limit`.
fn reserved_below(adds: &Vec<Additional>, limit: usize) -> (r: Option<usize>)
    ensures
        match r {
            Some(used) => used == reserved(adds@) && used < limit,
            None => reserved(adds@) >= limit,
        },
{
    if limit == 0 {
        proof {
            lemma_reserved_monotone(adds@, 0);
            assert(adds@.take(0).len() == 0);
        }
        return None;
    }
    let mut used: usize = 0;
    let mut i: usize = 0;
    assert(adds@.take(0).len() == 0);
    while i < adds.len()
        invariant
            i <= adds.len(),
            used == reserved(adds@.take(i as int)),
            used < limit,
        decreases adds.len() - i,
    {
        let r: usize = match &adds[i] {
            Additional::Text(t) => t.as_str().unicode_len(),
            Additional::Number(n) => *n,
        };
        assert(adds@.take(i + 1).drop_last() =~= adds@.take(i as int));
        if r >= limit - used {
            proof {
                lemma_reserved_monotone(adds@, i + 1);
            }
            return None;
        }
        used = used + r;
        i += 1;
    }
    assert(adds@.take(i as int) =~= adds@);
    Some(used)
}

/// Splits `text` into chunks that each fit in `character_limit` characters
/// net of the room `additional_texts` reserve. Every chunk but the last ends
/// with an ellipsis, which counts as one character; empty text gives no
/// chunk. Fails with `BudgetExhausted` where the reservations leave no room.
pub fn split_text(text: String, character_limit: usize, additional_texts: Vec<Additional>) -> (r:
    Result<Vec<String>, Error>)
    ensures
        match r {
            Ok(v) => paginate(text@, character_limit as int, reserved(additional_texts@)) == Some(
                views(v@),
            ),
            Err(e) => e is BudgetExhausted && paginate(
                text@,
                character_limit as int,
                reserved(additional_texts@),
            ) is None,
        },
{
    let used = match reserved_below(&additional_texts, character_limit) {
        Some(used) => used,
        None => return Err(Error::BudgetExhausted),
    };
    let width: usize = character_limit - used;
    let s = text.as_str();
    let n = s.unicode_len();
    if width == 1 && n > 1 {
        return Err(Error::BudgetExhausted);
    }
    let ghost w = width as nat;
    let mut out: Vec<String> = Vec::new();
    let mut pos: usize = 0;
    assert(text@.skip(0) =~= text@);
    assert(views(out@) + chunks(text@, w) =~= chunks(text@, w));
    while pos < n
        invariant
            n == text@.len(),
            s@ == text@,
            pos <= n,
            w == width,
            width >= 1,
            width == 1 ==> n <= 1,
            views(out@) + chunks(text@.skip(pos as int), w) == chunks(text@, w),
        decreases n - pos,
    {
        let ghost rest = text@.skip(pos as int);
        let ghost before = out@;
        if n - pos <= width {
            let piece = s.substring_char(pos, n).to_owned();
            assert(piece@ =~= rest);
            out.push(piece);
            pos = n;
            assert(views(out@) =~= views(before).push(rest));
            assert(chunks(rest, w) == seq![rest]);
            assert(text@.skip(pos as int).len() == 0);
            assert(views(out@) + chunks(text@.skip(pos as int), w) =~= views(before) + seq![rest]);
        } else {
            let mut piece = s.substring_char(pos, pos + width - 1).to_owned();
            piece.append("\u{2026}");
            proof {
                reveal_strlit("\u{2026}");
            }
            assert(piece@ =~= rest.take(width - 1).push(ELLIPSIS));
            out.push(piece);
            pos = pos + width - 1;
            assert(rest.skip(width - 1) =~= text@.skip(pos as int));
            assert(views(out@) =~= views(before).push(rest.take(width - 1).push(ELLIPSIS)));
            assert(views(out@) + chunks(text@.skip(pos as int), w) =~= views(before) + chunks(
                rest,
                w,
            ));
        }
    }
    assert(text@.skip(pos as int).len() == 0);
    assert(views(out@) + chunks(text@.skip(pos as int), w) =~= views(out@));
    assert(text@.skip(0) =~= text@);
    Ok(out)
}

} // verus!
