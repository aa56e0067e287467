use vstd::prelude::*;

use crate::card::Card;
use crate::config::DailyScryConfig;

verus! {

/// A rule that decides whether a drawn card may be published.
pub trait CardFilter {
    /// Whether the rule lets `card` through under `config`.
    spec fn accepts(&self, config: DailyScryConfig, card: Card) -> bool;

    /// The rule's name, for reporting.
    spec fn filter_name(&self) -> Seq<char>;

    fn name(&self) -> (r: &'static str)
        ensures
            r@ == self.filter_name(),
    ;

    fn filter(&self, config: &DailyScryConfig, card: &Card) -> (r: bool)
        ensures
            r == self.accepts(*config, *card),
    ;
}

/// Lets through every card whose oracle identifier is not on the configured
/// ignore list; a card without an identifier, or a configuration without a
/// list, passes.
#[derive(Clone, Copy, Debug)]
pub struct IgnoredOracleIdFilter {}

/// Lets through every card without a content warning.
#[derive(Clone, Copy, Debug)]
pub struct ContentWarningFilter {}

pub open spec fn not_ignored(config: DailyScryConfig, card: Card) -> bool {
    match (card.oracle_id, config.ignored_oracle_ids) {
        (Some(id), Some(ids)) => !ids@.contains(id),
        _ => true,
    }
}

fn contains_id(ids: &Vec<u128>, id: u128) -> (r: bool)
    ensures
        r == ids@.contains(id),
{
    let mut i: usize = 0;
    while i < ids.len()
        invariant
            i <= ids.len(),
            forall|k: int| 0 <= k < i ==> ids@[k] != id,
        decreases ids.len() - i,
    {
        if ids[i] == id {
            assert(ids@[i as int] == id);
            return true;
        }
        i += 1;
    }
    false
}

impl CardFilter for IgnoredOracleIdFilter {
    open spec fn accepts(&self, config: DailyScryConfig, card: Card) -> bool {
        not_ignored(config, card)
    }

    open spec fn filter_name(&self) -> Seq<char> {
        "IgnoredOracleIdFilter"@
    }

    fn name(&self) -> (r: &'static str) {
        "IgnoredOracleIdFilter"
    }

    fn filter(&self, config: &DailyScryConfig, card: &Card) -> (r: bool) {
        match (card.oracle_id, &config.ignored_oracle_ids) {
            (Some(id), Some(ids)) => !contains_id(ids, id),
            _ => true,
        }
    }
}

impl CardFilter for ContentWarningFilter {
    open spec fn accepts(&self, config: DailyScryConfig, card: Card) -> bool {
        !card.content_warning
    }

    open spec fn filter_name(&self) -> Seq<char> {
        "ContentWarningFilter"@
    }

    fn name(&self) -> (r: &'static str) {
        "ContentWarningFilter"
    }

    fn filter(&self, config: &DailyScryConfig, card: &Card) -> (r: bool) {
        !card.content_warning
    }
}

/// The name of the first filter, in order, that turns the drawn card away,
/// or `None` where every filter lets it through and it may be published.
pub fn rejecting_filter(config: &DailyScryConfig, card: &Card) -> (r: Option<&'static str>)
    ensures
        r is None <==> not_ignored(*config, *card) && !card.content_warning,
        !not_ignored(*config, *card) ==> (r matches Some(n) && n@ == "IgnoredOracleIdFilter"@),
        not_ignored(*config, *card) && card.content_warning ==> (r matches Some(n) && n@
            == "ContentWarningFilter"@),
{
    let ignored = IgnoredOracleIdFilter {};
    if !ignored.filter(config, card) {
        return Some(ignored.name());
    }
    let warning = ContentWarningFilter {};
    if !warning.filter(config, card) {
        return Some(warning.name());
    }
    None
}

} // verus!
