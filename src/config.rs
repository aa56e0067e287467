use vstd::prelude::*;

use crate::error::Error;
use crate::text::{chars_of, opt_view, views};

verus! {

/// The runtime settings, read from environment values.
pub struct DailyScryConfig {
    pub mastodon_url: Option<String>,
    pub mastodon_access_token: Option<String>,
    pub mastodon_character_limit: Option<usize>,
    pub telegram_token: Option<String>,
    pub telegram_chat_id: Option<String>,
    pub telegram_character_limit: Option<usize>,
    pub image_path: String,
    /// `None` where the list was given but could not be read.
    pub ignored_oracle_ids: Option<Vec<u128>>,
    pub version: String,
}

/// The value of the first variable named `key`.
pub open spec fn lookup(vars: Seq<(String, String)>, key: Seq<char>) -> Option<Seq<char>>
    decreases vars.len(),
{
    if vars.len() == 0 {
        None
    } else if vars[0].0@ == key {
        Some(vars[0].1@)
    } else {
        lookup(vars.skip(1), key)
    }
}

pub open spec fn or_default(o: Option<Seq<char>>, default: Seq<char>) -> Seq<char> {
    match o {
        Some(v) => v,
        None => default,
    }
}

pub open spec fn is_digit(c: char) -> bool {
    '0' <= c && c <= '9'
}

/// The number that a string of decimal digits spells.
pub open spec fn digits_value(s: Seq<char>) -> nat
    decreases s.len(),
{
    if s.len() == 0 {
        0
    } else {
        digits_value(s.drop_last()) * 10 + (s.last() as nat - '0' as nat) as nat
    }
}

/// The digits of a decimal numeral, after an optional plus sign.
pub open spec fn unsigned_digits(s: Seq<char>) -> Seq<char> {
    if s.len() > 0 && s[0] == '+' {
        s.skip(1)
    } else {
        s
    }
}

/// What parsing `s` as a `usize` gives: an optional plus sign and at least
/// one decimal digit, with a value that fits.
pub open spec fn parse_usize_spec(s: Seq<char>) -> Option<usize> {
    let d = unsigned_digits(s);
    if d.len() > 0 && (forall|i: int| 0 <= i < d.len() ==> is_digit(#[trigger] d[i]))
        && digits_value(d) <= usize::MAX {
        Some(digits_value(d) as usize)
    } else {
        None
    }
}

/// `s` cut at every occurrence of `sep`; an empty string gives one empty
/// piece.
pub open spec fn split_on(s: Seq<char>, sep: char) -> Seq<Seq<char>>
    decreases s.len(),
{
    if s.len() == 0 {
        seq![Seq::empty()]
    } else {
        let prev = split_on(s.drop_last(), sep);
        if s.last() == sep {
            prev.push(Seq::empty())
        } else {
            prev.update(prev.len() - 1, prev.last().push(s.last()))
        }
    }
}

/// The 128-bit value of the identifier a string spells, or `None` where it
/// spells none.
pub uninterp spec fn uuid_value(s: Seq<char>) -> Option<u128>;

/// Every value, where all are present.
pub open spec fn all_present(parsed: Seq<Option<u128>>) -> Option<Seq<u128>>
    decreases parsed.len(),
{
    if parsed.len() == 0 {
        Some(Seq::empty())
    } else {
        match (all_present(parsed.drop_last()), parsed.last()) {
            (Some(ids), Some(id)) => Some(ids.push(id)),
            _ => None,
        }
    }
}

/// The identifiers of a comma-separated list: none for an empty list, and
/// `None` where a piece is no identifier.
pub open spec fn oracle_ids_spec(s: Seq<char>) -> Option<Seq<u128>> {
    if s.len() == 0 {
        Some(Seq::empty())
    } else {
        all_present(split_on(s, ',').map_values(|p: Seq<char>| uuid_value(p)))
    }
}

pub open spec fn ids_view(o: Option<Vec<u128>>) -> Option<Seq<u128>> {
    match o {
        Some(v) => Some(v@),
        None => None,
    }
}

/// The configuration that the variables `vars` describe.
pub open spec fn config_from(c: DailyScryConfig, vars: Seq<(String, String)>, version: Seq<char>) -> bool {
    &&& opt_view(c.mastodon_url) == lookup(vars, "DAILY_SCRY_MASTODON_URL"@)
    &&& opt_view(c.mastodon_access_token) == lookup(vars, "DAILY_SCRY_MASTODON_ACCESS_TOKEN"@)
    &&& c.mastodon_character_limit == parse_usize_spec(
        or_default(lookup(vars, "DAILY_SCRY_MASTODON_CHARCTER_LIMIT"@), "500"@),
    )
    &&& opt_view(c.telegram_token) == lookup(vars, "DAILY_SCRY_TELEGRAM_TOKEN"@)
    &&& opt_view(c.telegram_chat_id) == lookup(vars, "DAILY_SCRY_TELEGRAM_CHAT_ID"@)
    &&& c.telegram_character_limit == parse_usize_spec(
        or_default(lookup(vars, "DAILY_SCRY_TELEGRAM_CHARCTER_LIMIT"@), "4096"@),
    )
    &&& ids_view(c.ignored_oracle_ids) == oracle_ids_spec(
        or_default(lookup(vars, "DAILY_SCRY_IGNORED_ORACLE_IDS"@), Seq::empty()),
    )
    &&& c.image_path@ == "/tmp"@
    &&& c.version@ == version
}

/// `r` reports the configuration value `key` as missing.
pub open spec fn missing_key(r: Result<(), Error>, key: Seq<char>) -> bool {
    r matches Err(Error::ReadConfiguration { key: k }) && k@ == key
}

/// The value of the first variable named `key`.
pub fn lookup_var(vars: &Vec<(String, String)>, key: &str) -> (r: Option<String>)
    ensures
        opt_view(r) == lookup(vars@, key@),
{
    let wanted = key.to_owned();
    let mut i: usize = 0;
    assert(vars@.skip(0) =~= vars@);
    while i < vars.len()
        invariant
            i <= vars.len(),
            wanted@ == key@,
            lookup(vars@.skip(i as int), key@) == lookup(vars@, key@),
        decreases vars.len() - i,
    {
        let ghost rest = vars@.skip(i as int);
        assert(rest[0] == vars@[i as int]);
        let (name, value) = &vars[i];
        if name.eq(&wanted) {
            assert(rest[0].0@ == key@);
            assert(lookup(rest, key@) == Some(rest[0].1@));
            let found = value.clone();
            assert(found@ == rest[0].1@);
            return Some(found);
        }
        assert(vars@.skip(i as int).skip(1) =~= vars@.skip(i + 1));
        i += 1;
    }
    None
}

proof fn lemma_digits_prefix(d: Seq<char>, i: int)
    requires
        0 <= i <= d.len(),
        forall|k: int| 0 <= k < d.len() ==> is_digit(#[trigger] d[k]),
    ensures
        digits_value(d.take(i)) <= digits_value(d),
    decreases d.len(),
{
    if i < d.len() {
        assert(d.drop_last().take(i) =~= d.take(i));
        lemma_digits_prefix(d.drop_last(), i);
    } else {
        assert(d.take(i) =~= d);
    }
}

/// Parses a decimal `usize`: an optional plus sign, then digits.
pub fn parse_usize(s: &str) -> (r: Option<usize>)
    ensures
        r == parse_usize_spec(s@),
{
    let cs = chars_of(s);
    let start: usize = if cs.len() > 0 && cs[0] == '+' {
        1
    } else {
        0
    };
    let ghost d = unsigned_digits(s@);
    assert(d =~= s@.skip(start as int));
    if start == cs.len() {
        return None;
    }
    let mut value: usize = 0;
    let mut i: usize = start;
    assert(d.take(0).len() == 0);
    while i < cs.len()
        invariant
            cs@ == s@,
            d == s@.skip(start as int),
            d == unsigned_digits(s@),
            start <= i <= cs.len(),
            forall|k: int| 0 <= k < i - start ==> is_digit(#[trigger] d[k]),
            value == digits_value(d.take(i - start)),
        decreases cs.len() - i,
    {
        let c = cs[i];
        if c < '0' || c > '9' {
            assert(!is_digit(d[i - start]));
            return None;
        }
        let digit = (c as u32 - '0' as u32) as usize;
        assert(digit == (c as nat - '0' as nat) as nat);
        assert(d.take(i - start + 1).drop_last() =~= d.take(i - start));
        assert(d.take(i - start + 1).last() == c);
        let next = match value.checked_mul(10) {
            Some(v) => v.checked_add(digit),
            None => None,
        };
        match next {
            Some(v) => {
                value = v;
            },
            None => {
                proof {
                    let j = i - start + 1;
                    assert(digits_value(d.take(j)) > usize::MAX);
                    if forall|k: int| 0 <= k < d.len() ==> is_digit(#[trigger] d[k]) {
                        lemma_digits_prefix(d, j);
                    }
                }
                return None;
            },
        }
        i += 1;
    }
    assert(d.take(i - start) =~= d);
    Some(value)
}

/// Relies on `uuid::Uuid::parse_str`: the identifier a string spells, as its
/// 128-bit value, or `None` where the string is no identifier.
#[verifier::external_body]
fn parse_uuid(s: &str) -> (r: Option<u128>)
    ensures
        r == uuid_value(s@),
{
    match uuid::Uuid::parse_str(s) {
        Ok(id) => Some(id.as_u128()),
        Err(_) => None,
    }
}

/// Cuts `s` at every comma.
pub fn split_commas(s: &str) -> (r: Vec<String>)
    ensures
        views(r@) == split_on(s@, ','),
{
    let cs = chars_of(s);
    let mut pieces: Vec<String> = Vec::new();
    let mut current = String::new();
    let mut i: usize = 0;
    assert(s@.take(0) =~= Seq::<char>::empty());
    while i < cs.len()
        invariant
            cs@ == s@,
            i <= cs.len(),
            views(pieces@).push(current@) == split_on(s@.take(i as int), ','),
        decreases cs.len() - i,
    {
        let c = cs[i];
        let ghost prev = split_on(s@.take(i as int), ',');
        assert(s@.take(i + 1).drop_last() =~= s@.take(i as int));
        assert(s@.take(i + 1).last() == c);
        if c == ',' {
            let ghost before = pieces@;
            pieces.push(current);
            current = String::new();
            assert(views(pieces@) =~= views(before).push(prev.last()));
            assert(views(pieces@).push(current@) =~= prev.push(Seq::empty()));
        } else {
            let ghost before = current@;
            assert(prev == views(pieces@).push(before));
            let mut one = String::new();
            one.append(s.substring_char(i, i + 1));
            assert(one@ =~= seq![c]);
            current.append(one.as_str());
            assert(current@ =~= before.push(c));
            assert(views(pieces@).push(current@) =~= prev.update(
                prev.len() - 1,
                prev.last().push(c),
            ));
        }
        i += 1;
    }
    assert(s@.take(i as int) =~= s@);
    let ghost before = pieces@;
    pieces.push(current);
    assert(views(pieces@) =~= views(before).push(current@));
    pieces
}

/// Every identifier, in order, where every piece held one; `None` otherwise.
pub fn collect_ids(parsed: Vec<Option<u128>>) -> (r: Option<Vec<u128>>)
    ensures
        ids_view(r) == all_present(parsed@),
{
    let mut ids: Vec<u128> = Vec::new();
    let mut i: usize = 0;
    assert(parsed@.take(0) =~= Seq::<Option<u128>>::empty());
    while i < parsed.len()
        invariant
            i <= parsed.len(),
            all_present(parsed@.take(i as int)) == Some(ids@),
        decreases parsed.len() - i,
    {
        assert(parsed@.take(i + 1).drop_last() =~= parsed@.take(i as int));
        match parsed[i] {
            Some(id) => ids.push(id),
            None => {
                proof {
                    lemma_all_present_prefix(parsed@, i + 1);
                }
                return None;
            },
        }
        i += 1;
    }
    assert(parsed@.take(i as int) =~= parsed@);
    Some(ids)
}

proof fn lemma_all_present_prefix(parsed: Seq<Option<u128>>, i: int)
    requires
        0 <= i <= parsed.len(),
        all_present(parsed.take(i)) is None,
    ensures
        all_present(parsed) is None,
    decreases parsed.len(),
{
    if i < parsed.len() {
        assert(parsed.drop_last().take(i) =~= parsed.take(i));
        lemma_all_present_prefix(parsed.drop_last(), i);
    } else {
        assert(parsed.take(i) =~= parsed);
    }
}

/// The identifiers of a comma-separated list of oracle identifiers.
pub fn parse_oracle_ids(s: &str) -> (r: Option<Vec<u128>>)
    ensures
        ids_view(r) == oracle_ids_spec(s@),
{
    if s.unicode_len() == 0 {
        return Some(Vec::new());
    }
    let pieces = split_commas(s);
    let mut parsed: Vec<Option<u128>> = Vec::new();
    let mut i: usize = 0;
    while i < pieces.len()
        invariant
            i <= pieces.len(),
            parsed@ == views(pieces@).take(i as int).map_values(|p: Seq<char>| uuid_value(p)),
        decreases pieces.len() - i,
    {
        parsed.push(parse_uuid(pieces[i].as_str()));
        i += 1;
        assert(parsed@ =~= views(pieces@).take(i as int).map_values(|p: Seq<char>| uuid_value(p)));
    }
    assert(views(pieces@).take(i as int) =~= views(pieces@));
    collect_ids(parsed)
}

impl DailyScryConfig {
    /// Reads the settings from the variables `vars` (name, value), with the
    /// defaults for what is absent: limits of 500 and 4096 characters and an
    /// empty list of ignored identifiers.
    pub fn load_config(vars: &Vec<(String, String)>, version: &str) -> (r: Result<
        DailyScryConfig,
        Error,
    >)
        ensures
            r matches Ok(c) && config_from(c, vars@, version@),
    {
        let mastodon_limit = match lookup_var(vars, "DAILY_SCRY_MASTODON_CHARCTER_LIMIT") {
            Some(v) => parse_usize(v.as_str()),
            None => parse_usize("500"),
        };
        let telegram_limit = match lookup_var(vars, "DAILY_SCRY_TELEGRAM_CHARCTER_LIMIT") {
            Some(v) => parse_usize(v.as_str()),
            None => parse_usize("4096"),
        };
        let ignored = match lookup_var(vars, "DAILY_SCRY_IGNORED_ORACLE_IDS") {
            Some(v) => parse_oracle_ids(v.as_str()),
            None => Some(Vec::new()),
        };
        Ok(DailyScryConfig {
            mastodon_url: lookup_var(vars, "DAILY_SCRY_MASTODON_URL"),
            mastodon_access_token: lookup_var(vars, "DAILY_SCRY_MASTODON_ACCESS_TOKEN"),
            mastodon_character_limit: mastodon_limit,
            telegram_token: lookup_var(vars, "DAILY_SCRY_TELEGRAM_TOKEN"),
            telegram_chat_id: lookup_var(vars, "DAILY_SCRY_TELEGRAM_CHAT_ID"),
            telegram_character_limit: telegram_limit,
            image_path: "/tmp".to_owned(),
            ignored_oracle_ids: ignored,
            version: version.to_owned(),
        })
    }

    /// Fails where the list of ignored identifiers could not be read.
    pub fn validate(&self) -> (r: Result<(), Error>)
        ensures
            self.ignored_oracle_ids is None ==> missing_key(r, "DAILY_SCRY_IGNORED_ORACLE_IDS"@),
            self.ignored_oracle_ids is Some ==> r is Ok,
    {
        self.check_oracle_ids()
    }

    fn check_oracle_ids(&self) -> (r: Result<(), Error>)
        ensures
            self.ignored_oracle_ids is None ==> missing_key(r, "DAILY_SCRY_IGNORED_ORACLE_IDS"@),
            self.ignored_oracle_ids is Some ==> r is Ok,
    {
        if self.ignored_oracle_ids.is_none() {
            return Err(Error::ReadConfiguration { key: "DAILY_SCRY_IGNORED_ORACLE_IDS".to_owned() });
        }
        Ok(())
    }

    /// Fails, naming the first missing setting, unless the microblog URL,
    /// access token and character limit are all present.
    pub fn check_mastodon_config(&self) -> (r: Result<(), Error>)
        ensures
            if self.mastodon_url is None {
                missing_key(r, "DAILY_SCRY_MASTODON_URL"@)
            } else if self.mastodon_access_token is None {
                missing_key(r, "DAILY_SCRY_MASTODON_ACCESS_TOKEN"@)
            } else if self.mastodon_character_limit is None {
                missing_key(r, "DAILY_SCRY_MASTODON_CHARCTER_LIMIT"@)
            } else {
                r is Ok
            },
    {
        if self.mastodon_url.is_none() {
            return Err(Error::ReadConfiguration { key: "DAILY_SCRY_MASTODON_URL".to_owned() });
        }
        if self.mastodon_access_token.is_none() {
            return Err(
                Error::ReadConfiguration { key: "DAILY_SCRY_MASTODON_ACCESS_TOKEN".to_owned() },
            );
        }
        if self.mastodon_character_limit.is_none() {
            return Err(
                Error::ReadConfiguration { key: "DAILY_SCRY_MASTODON_CHARCTER_LIMIT".to_owned() },
            );
        }
        Ok(())
    }

    /// Fails, naming the first missing setting, unless the messenger token,
    /// chat identifier and character limit are all present.
    pub fn check_telegram_config(&self) -> (r: Result<(), Error>)
        ensures
            if self.telegram_token is None {
                missing_key(r, "DAILY_SCRY_TELEGRAM_TOKEN"@)
            } else if self.telegram_chat_id is None {
                missing_key(r, "DAILY_SCRY_TELEGRAM_CHAT_ID"@)
            } else if self.telegram_character_limit is None {
                missing_key(r, "DAILY_SCRY_TELEGRAM_CHARCTER_LIMIT"@)
            } else {
                r is Ok
            },
    {
        if self.telegram_token.is_none() {
            return Err(Error::ReadConfiguration { key: "DAILY_SCRY_TELEGRAM_TOKEN".to_owned() });
        }
        if self.telegram_chat_id.is_none() {
            return Err(Error::ReadConfiguration { key: "DAILY_SCRY_TELEGRAM_CHAT_ID".to_owned() });
        }
        if self.telegram_character_limit.is_none() {
            return Err(
                Error::ReadConfiguration { key: "DAILY_SCRY_TELEGRAM_CHARCTER_LIMIT".to_owned() },
            );
        }
        Ok(())
    }
}

} // verus!
