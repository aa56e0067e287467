use vstd::prelude::*;

use crate::card::{Card, Face, Layout};
use crate::error::Error;
use crate::text::{contains, join, join_strings, opt_view, or_empty, str_contains, views};

verus! {

/// How the faces of a card are printed and rendered.
#[derive(Clone, Copy, Debug, PartialEq, Eq, Structural)]
pub enum Strategy {
    /// One printed object, rendered from the card's own fields.
    SingleFace,
    /// Several faces on one image: one combined text.
    SharedImage,
    /// Each face on its own image: one text per face.
    SeparateImages,
}

/// The strategy of each known layout.
pub open spec fn layout_strategy(layout: Layout) -> Option<Strategy> {
    match layout {
        Layout::Normal | Layout::Meld | Layout::Leveler | Layout::Class | Layout::Saga
        | Layout::Prototype | Layout::Host | Layout::Augment | Layout::Token | Layout::Emblem
        | Layout::Mutate | Layout::Planar | Layout::Scheme | Layout::Vanguard | Layout::Case => Some(
            Strategy::SingleFace,
        ),
        Layout::Split | Layout::Flip | Layout::Adventure => Some(Strategy::SharedImage),
        Layout::Transform | Layout::ModalDfc | Layout::ReversibleCard | Layout::DoubleFacedToken
        | Layout::ArtSeries => Some(Strategy::SeparateImages),
        Layout::Unknown => None,
    }
}

/// Maps a layout tag to its rendering strategy.
pub fn classify_layout(layout: Layout) -> (r: Result<Strategy, Error>)
    ensures
        match layout_strategy(layout) {
            Some(s) => r == Ok::<Strategy, Error>(s),
            None => r == Err::<Strategy, Error>(Error::UnknownCardLayout { layout }),
        },
{
    match layout {
        Layout::Normal | Layout::Meld | Layout::Leveler | Layout::Class | Layout::Saga
        | Layout::Prototype | Layout::Host | Layout::Augment | Layout::Token | Layout::Emblem
        | Layout::Mutate | Layout::Planar | Layout::Scheme | Layout::Vanguard | Layout::Case => Ok(
            Strategy::SingleFace,
        ),
        Layout::Split | Layout::Flip | Layout::Adventure => Ok(Strategy::SharedImage),
        Layout::Transform | Layout::ModalDfc | Layout::ReversibleCard | Layout::DoubleFacedToken
        | Layout::ArtSeries => Ok(Strategy::SeparateImages),
        Layout::Unknown => Err(Error::UnknownCardLayout { layout }),
    }
}

/// The kind of record a type line describes; it decides which sections are
/// rendered.
#[derive(Clone, Copy, Debug, PartialEq, Eq, Structural)]
pub enum TypeCategory {
    Creature,
    Planeswalker,
    Vanguard,
    /// Instants, sorceries, artifacts, enchantments, lands and the other
    /// non-creature types with rules text.
    Spell,
    Token,
    Other,
}

/// The type line names one of the non-creature types with rules text.
pub open spec fn names_spell_type(t: Seq<char>) -> bool {
    contains(t, "Instant"@) || contains(t, "Sorcery"@) || contains(t, "Artifact"@) || contains(
        t,
        "Enchantment"@,
    ) || contains(t, "Land"@) || contains(t, "Phenomenon"@) || contains(t, "Plane"@) || contains(
        t,
        "Scheme"@,
    ) || contains(t, "Emblem"@) || contains(t, "Battle"@)
}

/// The first category, in priority order, that the type line matches.
pub open spec fn type_category(t: Seq<char>) -> TypeCategory {
    if contains(t, "Creature"@) {
        TypeCategory::Creature
    } else if contains(t, "Planeswalker"@) {
        TypeCategory::Planeswalker
    } else if contains(t, "Vanguard"@) {
        TypeCategory::Vanguard
    } else if names_spell_type(t) {
        TypeCategory::Spell
    } else if t == "Token"@ {
        TypeCategory::Token
    } else {
        TypeCategory::Other
    }
}

fn is_spell_type_line(t: &str) -> (r: bool)
    ensures
        r == names_spell_type(t@),
{
    str_contains(t, "Instant") || str_contains(t, "Sorcery") || str_contains(t, "Artifact")
        || str_contains(t, "Enchantment") || str_contains(t, "Land") || str_contains(
        t,
        "Phenomenon",
    ) || str_contains(t, "Plane") || str_contains(t, "Scheme") || str_contains(t, "Emblem")
        || str_contains(t, "Battle")
}

/// Classifies a type line by substring tests in priority order.
pub fn classify_type_line(t: &str) -> (r: TypeCategory)
    ensures
        r == type_category(t@),
{
    if str_contains(t, "Creature") {
        TypeCategory::Creature
    } else if str_contains(t, "Planeswalker") {
        TypeCategory::Planeswalker
    } else if str_contains(t, "Vanguard") {
        TypeCategory::Vanguard
    } else if is_spell_type_line(t) {
        TypeCategory::Spell
    } else if t.to_owned().eq(&"Token".to_owned()) {
        TypeCategory::Token
    } else {
        TypeCategory::Other
    }
}

/// The fields of a card or of a face that the renderer reads, absent text
/// already replaced by the empty string where it is not optional.
pub struct RecordView {
    pub name: Seq<char>,
    pub mana_cost: Seq<char>,
    pub type_line: Seq<char>,
    pub oracle_text: Seq<char>,
    pub flavor_text: Option<Seq<char>>,
    pub power: Seq<char>,
    pub toughness: Seq<char>,
    pub loyalty: Option<Seq<char>>,
    pub hand_modifier: Option<Seq<char>>,
    pub life_modifier: Option<Seq<char>>,
}

/// What the renderer reads of a card's own fields.
pub open spec fn card_record(c: Card) -> RecordView {
    RecordView {
        name: c.name@,
        mana_cost: or_empty(c.mana_cost),
        type_line: or_empty(c.type_line),
        oracle_text: or_empty(c.oracle_text),
        flavor_text: opt_view(c.flavor_text),
        power: or_empty(c.power),
        toughness: or_empty(c.toughness),
        loyalty: opt_view(c.loyalty),
        hand_modifier: opt_view(c.hand_modifier),
        life_modifier: opt_view(c.life_modifier),
    }
}

/// What the renderer reads of a face; faces carry no vanguard stats.
pub open spec fn face_record(f: Face) -> RecordView {
    RecordView {
        name: f.name@,
        mana_cost: f.mana_cost@,
        type_line: or_empty(f.type_line),
        oracle_text: or_empty(f.oracle_text),
        flavor_text: opt_view(f.flavor_text),
        power: or_empty(f.power),
        toughness: or_empty(f.toughness),
        loyalty: opt_view(f.loyalty),
        hand_modifier: None,
        life_modifier: None,
    }
}

/// The name, then a tab and the mana cost where there is one.
pub open spec fn name_section(name: Seq<char>, mana_cost: Seq<char>) -> Seq<char> {
    if mana_cost.len() == 0 {
        name
    } else {
        name + "\t"@ + mana_cost
    }
}

pub open spec fn type_section(type_line: Seq<char>) -> Seq<char> {
    "\n"@ + type_line
}

pub open spec fn oracle_section(oracle_text: Seq<char>) -> Seq<char> {
    if oracle_text.len() == 0 {
        Seq::empty()
    } else {
        "\n"@ + oracle_text
    }
}

pub open spec fn flavor_section(flavor_text: Option<Seq<char>>) -> Seq<char> {
    match flavor_text {
        Some(f) => "\n\n"@ + f,
        None => Seq::empty(),
    }
}

pub open spec fn stats_section(power: Seq<char>, toughness: Seq<char>) -> Seq<char> {
    "\n\n"@ + power + "/"@ + toughness
}

pub open spec fn loyalty_section(loyalty: Option<Seq<char>>) -> Seq<char> {
    match loyalty {
        Some(l) => "\nLoyalty: "@ + l,
        None => Seq::empty(),
    }
}

pub open spec fn vanguard_section(hand: Option<Seq<char>>, life: Option<Seq<char>>) -> Seq<char> {
    match (hand, life) {
        (Some(h), Some(l)) => "\n\nHand Size: "@ + h + "\nStarting Life: "@ + l,
        _ => Seq::empty(),
    }
}

pub open spec fn artist_section(artist: Option<Seq<char>>) -> Seq<char> {
    match artist {
        Some(a) => "\n\nIllustrated by "@ + a,
        None => Seq::empty(),
    }
}

/// The text block of one record, its sections chosen by its type line.
pub open spec fn record_text(r: RecordView) -> Seq<char> {
    let head = name_section(r.name, r.mana_cost) + type_section(r.type_line);
    match type_category(r.type_line) {
        TypeCategory::Creature => head + oracle_section(r.oracle_text) + flavor_section(
            r.flavor_text,
        ) + stats_section(r.power, r.toughness),
        TypeCategory::Planeswalker => head + oracle_section(r.oracle_text) + loyalty_section(
            r.loyalty,
        ),
        TypeCategory::Vanguard => head + oracle_section(r.oracle_text) + vanguard_section(
            r.hand_modifier,
            r.life_modifier,
        ) + flavor_section(r.flavor_text),
        TypeCategory::Spell => head + oracle_section(r.oracle_text) + flavor_section(r.flavor_text),
        TypeCategory::Token | TypeCategory::Other => head,
    }
}

/// The text block of each face, in order.
pub open spec fn face_texts(faces: Seq<Face>) -> Seq<Seq<char>> {
    faces.map_values(|f: Face| record_text(face_record(f)))
}

pub open spec fn all_faces_typed(faces: Seq<Face>) -> bool {
    forall|i: int| 0 <= i < faces.len() ==> (#[trigger] faces[i]).type_line is Some
}

/// The display strings of a card, or the failure that rendering it meets.
pub open spec fn render(c: Card) -> Result<Seq<Seq<char>>, Error> {
    match layout_strategy(c.layout) {
        None => Err(Error::UnknownCardLayout { layout: c.layout }),
        Some(Strategy::SingleFace) => if c.type_line is None {
            Err(Error::MissingTypeLine)
        } else {
            Ok(seq![record_text(card_record(c)) + artist_section(opt_view(c.artist))])
        },
        Some(strategy) => match c.card_faces {
            Some(faces) if faces@.len() > 0 => if !all_faces_typed(faces@) {
                Err(Error::MissingTypeLine)
            } else if strategy == Strategy::SharedImage {
                Ok(seq![join(face_texts(faces@), "\n\n"@) + artist_section(opt_view(c.artist))])
            } else {
                Ok(face_texts(faces@))
            },
            _ => Err(Error::MissingCardFaces),
        },
    }
}

/// The artist credit that the caller attaches after the last chunk: only for
/// cards whose faces print as separate images, taken from the first face.
pub open spec fn separate_artist(c: Card) -> Result<Option<Seq<char>>, Error> {
    match layout_strategy(c.layout) {
        None => Err(Error::UnknownCardLayout { layout: c.layout }),
        Some(Strategy::SeparateImages) => match c.card_faces {
            Some(faces) if faces@.len() > 0 => Ok(Some(artist_section(opt_view(faces@[0].artist)))),
            _ => Err(Error::MissingCardFaces),
        },
        Some(_) => Ok(None),
    }
}

/// A single-faced card renders to exactly one string. It starts with the
/// name, followed at once by a tab and the mana cost where the card has a mana
/// cost, and by the newline before the type line where it has none.
pub proof fn lemma_single_face_heading(c: Card)
    requires
        layout_strategy(c.layout) == Some(Strategy::SingleFace),
        c.type_line is Some,
    ensures
        ({
            let name = c.name@;
            let mana = or_empty(c.mana_cost);
            &&& render(c) is Ok
            &&& render(c)->Ok_0.len() == 1
            &&& render(c)->Ok_0[0].take(name.len() as int) == name
            &&& mana.len() > 0 ==> render(c)->Ok_0[0].subrange(
                name.len() as int,
                (name.len() + 1 + mana.len()) as int,
            ) == seq!['\t'] + mana
            &&& mana.len() == 0 ==> render(c)->Ok_0[0][name.len() as int] == '\n'
        }),
{
    reveal_strlit("\t");
    reveal_strlit("\n");
    let r = card_record(c);
    let head = name_section(r.name, r.mana_cost);
    let tail = match type_category(r.type_line) {
        TypeCategory::Creature => oracle_section(r.oracle_text) + flavor_section(r.flavor_text)
            + stats_section(r.power, r.toughness),
        TypeCategory::Planeswalker => oracle_section(r.oracle_text) + loyalty_section(r.loyalty),
        TypeCategory::Vanguard => oracle_section(r.oracle_text) + vanguard_section(
            r.hand_modifier,
            r.life_modifier,
        ) + flavor_section(r.flavor_text),
        TypeCategory::Spell => oracle_section(r.oracle_text) + flavor_section(r.flavor_text),
        TypeCategory::Token | TypeCategory::Other => Seq::empty(),
    };
    assert(record_text(r) =~= head + type_section(r.type_line) + tail);
    let full = record_text(r) + artist_section(opt_view(c.artist));
    let after = type_section(r.type_line) + tail + artist_section(opt_view(c.artist));
    assert(full =~= head + after);
    assert(after[0] == '\n');
    if r.mana_cost.len() == 0 {
        assert(full.take(r.name.len() as int) =~= r.name);
        assert(full[r.name.len() as int] == after[0]);
    } else {
        assert(full.take(r.name.len() as int) =~= r.name);
        assert(full.subrange(r.name.len() as int, (r.name.len() + 1 + r.mana_cost.len()) as int)
            =~= seq!['\t'] + r.mana_cost);
    }
}

/// A card whose faces print as separate images renders to one string per
/// face, and its artist credit is built from the first face's artist alone.
pub proof fn lemma_separate_images_per_face(c: Card)
    requires
        layout_strategy(c.layout) == Some(Strategy::SeparateImages),
        c.card_faces is Some,
        c.card_faces->Some_0@.len() > 0,
        all_faces_typed(c.card_faces->Some_0@),
    ensures
        render(c) is Ok,
        render(c)->Ok_0.len() == c.card_faces->Some_0@.len(),
        separate_artist(c) == Ok::<Option<Seq<char>>, Error>(
            Some(artist_section(opt_view(c.card_faces->Some_0@[0].artist))),
        ),
{
}

/// Rendering has no hidden state: two renderings of one card agree.
pub proof fn lemma_render_repeatable(
    c: Card,
    first: Result<Vec<String>, Error>,
    second: Result<Vec<String>, Error>,
)
    requires
        texts_view(first) == render(c),
        texts_view(second) == render(c),
    ensures
        texts_view(first) == texts_view(second),
{
}

pub open spec fn texts_view(r: Result<Vec<String>, Error>) -> Result<Seq<Seq<char>>, Error> {
    match r {
        Ok(v) => Ok(views(v@)),
        Err(e) => Err(e),
    }
}

pub open spec fn artist_view(r: Result<Option<String>, Error>) -> Result<Option<Seq<char>>, Error> {
    match r {
        Ok(a) => Ok(opt_view(a)),
        Err(e) => Err(e),
    }
}

/// A card or face with its text fields resolved.
struct Record {
    name: String,
    mana_cost: String,
    type_line: String,
    oracle_text: String,
    flavor_text: Option<String>,
    power: String,
    toughness: String,
    loyalty: Option<String>,
    hand_modifier: Option<String>,
    life_modifier: Option<String>,
}

impl View for Record {
    type V = RecordView;

    closed spec fn view(&self) -> RecordView {
        RecordView {
            name: self.name@,
            mana_cost: self.mana_cost@,
            type_line: self.type_line@,
            oracle_text: self.oracle_text@,
            flavor_text: opt_view(self.flavor_text),
            power: self.power@,
            toughness: self.toughness@,
            loyalty: opt_view(self.loyalty),
            hand_modifier: opt_view(self.hand_modifier),
            life_modifier: opt_view(self.life_modifier),
        }
    }
}

fn clone_or_empty(o: &Option<String>) -> (r: String)
    ensures
        r@ == or_empty(*o),
{
    match o {
        Some(s) => s.clone(),
        None => String::new(),
    }
}

fn clone_opt(o: &Option<String>) -> (r: Option<String>)
    ensures
        opt_view(r) == opt_view(*o),
{
    match o {
        Some(s) => Some(s.clone()),
        None => None,
    }
}

fn card_fields(card: &Card) -> (r: Record)
    ensures
        r@ == card_record(*card),
{
    Record {
        name: card.name.clone(),
        mana_cost: clone_or_empty(&card.mana_cost),
        type_line: clone_or_empty(&card.type_line),
        oracle_text: clone_or_empty(&card.oracle_text),
        flavor_text: clone_opt(&card.flavor_text),
        power: clone_or_empty(&card.power),
        toughness: clone_or_empty(&card.toughness),
        loyalty: clone_opt(&card.loyalty),
        hand_modifier: clone_opt(&card.hand_modifier),
        life_modifier: clone_opt(&card.life_modifier),
    }
}

fn face_fields(face: &Face) -> (r: Record)
    ensures
        r@ == face_record(*face),
{
    Record {
        name: face.name.clone(),
        mana_cost: face.mana_cost.clone(),
        type_line: clone_or_empty(&face.type_line),
        oracle_text: clone_or_empty(&face.oracle_text),
        flavor_text: clone_opt(&face.flavor_text),
        power: clone_or_empty(&face.power),
        toughness: clone_or_empty(&face.toughness),
        loyalty: clone_opt(&face.loyalty),
        hand_modifier: None,
        life_modifier: None,
    }
}

fn name_and_mana_cost(name: &String, mana_cost: &String) -> (r: String)
    ensures
        r@ == name_section(name@, mana_cost@),
{
    let mut out = name.clone();
    if !mana_cost.as_str().is_empty() {
        out.append("\t");
        out.append(mana_cost.as_str());
    }
    out
}

fn type_line(t: &String) -> (r: String)
    ensures
        r@ == type_section(t@),
{
    let mut out = "\n".to_owned();
    out.append(t.as_str());
    out
}

fn oracle_text(o: &String) -> (r: String)
    ensures
        r@ == oracle_section(o@),
{
    if o.as_str().is_empty() {
        String::new()
    } else {
        let mut out = "\n".to_owned();
        out.append(o.as_str());
        out
    }
}

fn flavour_text(f: &Option<String>) -> (r: String)
    ensures
        r@ == flavor_section(opt_view(*f)),
{
    match f {
        Some(f) => {
            let mut out = "\n\n".to_owned();
            out.append(f.as_str());
            out
        },
        None => String::new(),
    }
}

fn power_and_toughness(power: &String, toughness: &String) -> (r: String)
    ensures
        r@ == stats_section(power@, toughness@),
{
    let mut out = "\n\n".to_owned();
    out.append(power.as_str());
    out.append("/");
    out.append(toughness.as_str());
    out
}

fn loyalty(l: &Option<String>) -> (r: String)
    ensures
        r@ == loyalty_section(opt_view(*l)),
{
    match l {
        Some(l) => {
            let mut out = "\nLoyalty: ".to_owned();
            out.append(l.as_str());
            out
        },
        None => String::new(),
    }
}

fn vanguard_stats(hand: &Option<String>, life: &Option<String>) -> (r: String)
    ensures
        r@ == vanguard_section(opt_view(*hand), opt_view(*life)),
{
    match (hand, life) {
        (Some(h), Some(l)) => {
            let mut out = "\n\nHand Size: ".to_owned();
            out.append(h.as_str());
            out.append("\nStarting Life: ");
            out.append(l.as_str());
            out
        },
        _ => String::new(),
    }
}

fn artist(a: &Option<String>) -> (r: String)
    ensures
        r@ == artist_section(opt_view(*a)),
{
    match a {
        Some(a) => {
            let mut out = "\n\nIllustrated by ".to_owned();
            out.append(a.as_str());
            out
        },
        None => String::new(),
    }
}

fn heading(r: &Record) -> (s: String)
    ensures
        s@ == name_section(r@.name, r@.mana_cost) + type_section(r@.type_line),
{
    let mut out = name_and_mana_cost(&r.name, &r.mana_cost);
    out.append(type_line(&r.type_line).as_str());
    out
}

fn format_creature(r: &Record) -> (s: String)
    ensures
        s@ == name_section(r@.name, r@.mana_cost) + type_section(r@.type_line) + oracle_section(
            r@.oracle_text,
        ) + flavor_section(r@.flavor_text) + stats_section(r@.power, r@.toughness),
{
    let mut out = heading(r);
    out.append(oracle_text(&r.oracle_text).as_str());
    out.append(flavour_text(&r.flavor_text).as_str());
    out.append(power_and_toughness(&r.power, &r.toughness).as_str());
    out
}

fn format_planeswalker(r: &Record) -> (s: String)
    ensures
        s@ == name_section(r@.name, r@.mana_cost) + type_section(r@.type_line) + oracle_section(
            r@.oracle_text,
        ) + loyalty_section(r@.loyalty),
{
    let mut out = heading(r);
    out.append(oracle_text(&r.oracle_text).as_str());
    out.append(loyalty(&r.loyalty).as_str());
    out
}

fn format_vanguard(r: &Record) -> (s: String)
    ensures
        s@ == name_section(r@.name, r@.mana_cost) + type_section(r@.type_line) + oracle_section(
            r@.oracle_text,
        ) + vanguard_section(r@.hand_modifier, r@.life_modifier) + flavor_section(r@.flavor_text),
{
    let mut out = heading(r);
    out.append(oracle_text(&r.oracle_text).as_str());
    out.append(vanguard_stats(&r.hand_modifier, &r.life_modifier).as_str());
    out.append(flavour_text(&r.flavor_text).as_str());
    out
}

fn format_non_creature(r: &Record) -> (s: String)
    ensures
        s@ == name_section(r@.name, r@.mana_cost) + type_section(r@.type_line) + oracle_section(
            r@.oracle_text,
        ) + flavor_section(r@.flavor_text),
{
    let mut out = heading(r);
    out.append(oracle_text(&r.oracle_text).as_str());
    out.append(flavour_text(&r.flavor_text).as_str());
    out
}

fn format_record(r: &Record) -> (s: String)
    ensures
        s@ == record_text(r@),
{
    match classify_type_line(r.type_line.as_str()) {
        TypeCategory::Creature => format_creature(r),
        TypeCategory::Planeswalker => format_planeswalker(r),
        TypeCategory::Vanguard => format_vanguard(r),
        TypeCategory::Spell => format_non_creature(r),
        TypeCategory::Token | TypeCategory::Other => heading(r),
    }
}

fn format_normal_layout(card: &Card) -> (r: Result<Vec<String>, Error>)
    requires
        layout_strategy(card.layout) == Some(Strategy::SingleFace),
    ensures
        texts_view(r) == render(*card),
{
    if card.type_line.is_none() {
        return Err(Error::MissingTypeLine);
    }
    let mut text = format_record(&card_fields(card));
    text.append(artist(&card.artist).as_str());
    let out = vec![text];
    assert(views(out@) =~= seq![record_text(card_record(*card)) + artist_section(opt_view(card.artist))]);
    Ok(out)
}

/// The text of each face, or `None` where a face lacks its type line.
fn format_faces(faces: &Vec<Face>) -> (r: Option<Vec<String>>)
    ensures
        match r {
            Some(v) => all_faces_typed(faces@) && views(v@) == face_texts(faces@),
            None => !all_faces_typed(faces@),
        },
{
    let mut out: Vec<String> = Vec::new();
    let mut i: usize = 0;
    while i < faces.len()
        invariant
            i <= faces.len(),
            all_faces_typed(faces@.take(i as int)),
            views(out@) == face_texts(faces@.take(i as int)),
        decreases faces.len() - i,
    {
        let face = &faces[i];
        if face.type_line.is_none() {
            assert(!all_faces_typed(faces@)) by {
                assert(faces@[i as int].type_line is None);
            }
            return None;
        }
        let ghost before = out@;
        out.push(format_record(&face_fields(face)));
        i += 1;
        proof {
            assert(faces@.take(i as int) =~= faces@.take(i - 1).push(faces@[i - 1]));
            assert(views(out@) =~= views(before).push(record_text(face_record(faces@[i - 1]))));
            assert(face_texts(faces@.take(i as int)) =~= face_texts(faces@.take(i - 1)).push(
                record_text(face_record(faces@[i - 1])),
            ));
            assert forall|k: int| 0 <= k < i implies (#[trigger] faces@.take(i as int)[k]).type_line is Some by {
                if k < i - 1 {
                    assert(faces@.take(i as int)[k] == faces@.take(i - 1)[k]);
                }
            }
        }
    }
    assert(faces@.take(i as int) =~= faces@);
    Some(out)
}

fn format_multiple_faces_layout(card: &Card) -> (r: Result<Vec<String>, Error>)
    requires
        layout_strategy(card.layout) == Some(Strategy::SeparateImages),
    ensures
        texts_view(r) == render(*card),
{
    match &card.card_faces {
        Some(faces) if faces.len() > 0 => match format_faces(faces) {
            Some(texts) => Ok(texts),
            None => Err(Error::MissingTypeLine),
        },
        _ => Err(Error::MissingCardFaces),
    }
}

fn format_single_image_multiple_faces_layout(card: &Card) -> (r: Result<Vec<String>, Error>)
    requires
        layout_strategy(card.layout) == Some(Strategy::SharedImage),
    ensures
        texts_view(r) == render(*card),
{
    match &card.card_faces {
        Some(faces) if faces.len() > 0 => match format_faces(faces) {
            Some(texts) => {
                let mut text = join_strings(&texts, "\n\n");
                text.append(artist(&card.artist).as_str());
                let out = vec![text];
                assert(views(out@) =~= seq![
                    join(face_texts(faces@), "\n\n"@) + artist_section(opt_view(card.artist)),
                ]);
                Ok(out)
            },
            None => Err(Error::MissingTypeLine),
        },
        _ => Err(Error::MissingCardFaces),
    }
}

/// Renders a card into its display strings: one for a single-faced card or
/// for faces sharing one image, one per face for faces printed separately.
pub fn format_card(card: &Card) -> (r: Result<Vec<String>, Error>)
    ensures
        texts_view(r) == render(*card),
{
    match classify_layout(card.layout) {
        Ok(Strategy::SingleFace) => format_normal_layout(card),
        Ok(Strategy::SharedImage) => format_single_image_multiple_faces_layout(card),
        Ok(Strategy::SeparateImages) => format_multiple_faces_layout(card),
        Err(e) => Err(e),
    }
}

/// The artist credit to attach after the last chunk, for cards whose faces
/// print as separate images; `None` for the other layouts, whose text holds
/// the credit already.
pub fn get_artist(card: &Card) -> (r: Result<Option<String>, Error>)
    ensures
        artist_view(r) == separate_artist(*card),
{
    match classify_layout(card.layout) {
        Ok(Strategy::SeparateImages) => match &card.card_faces {
            Some(faces) if faces.len() > 0 => Ok(Some(artist(&faces[0].artist))),
            _ => Err(Error::MissingCardFaces),
        },
        Ok(_) => Ok(None),
        Err(e) => Err(e),
    }
}

} // verus!
