//! The controller's one configuration option: the revert delay.

use crate::text::{decimal_u64, parse_decimal_u64, same_text};
use vstd::prelude::*;

verus! {

/// The revert delay used when none is configured, in milliseconds.
pub const DEFAULT_TIMEOUT_MS: u64 = 3000;

/// The name of the option that sets the revert delay.
pub const TIMEOUT_OPTION: &'static str = "timeout_ms";

/// The value of the first entry named `name`, if there is one.
pub open spec fn option_value(entries: Seq<(Seq<char>, Seq<char>)>, name: Seq<char>) -> Option<
    Seq<char>,
>
    decreases entries.len(),
{
    if entries.len() == 0 {
        None
    } else if entries[0].0 == name {
        Some(entries[0].1)
    } else {
        option_value(entries.drop_first(), name)
    }
}

/// The delay that a raw option value stands for: its number of milliseconds
/// where it is an unsigned decimal number, the default where it is absent or
/// anything else.
pub open spec fn timeout_of(raw: Option<Seq<char>>) -> u64 {
    match raw {
        Some(text) => match decimal_u64(text) {
            Some(ms) => ms,
            None => DEFAULT_TIMEOUT_MS,
        },
        None => DEFAULT_TIMEOUT_MS,
    }
}

/// The revert delay that a list of options configures.
pub open spec fn configured_timeout(entries: Seq<(Seq<char>, Seq<char>)>) -> u64 {
    timeout_of(option_value(entries, TIMEOUT_OPTION@))
}

/// Looks up the value of the first entry named `name`.
pub fn find_option<'a>(entries: &'a Vec<(String, String)>, name: &str) -> (value: Option<&'a str>)
    ensures
        match value {
            Some(text) => option_value(entries.deep_view(), name@) == Some(text@),
            None => option_value(entries.deep_view(), name@) is None,
        },
{
    let ghost all = entries.deep_view();
    let mut i: usize = 0;
    assert(all.skip(0) =~= all);
    while i < entries.len()
        invariant
            i <= entries.len(),
            all == entries.deep_view(),
            option_value(all, name@) == option_value(all.skip(i as int), name@),
        decreases entries.len() - i,
    {
        let entry = &entries[i];
        proof {
            assert(all.skip(i as int).drop_first() =~= all.skip(i + 1));
            assert(all.skip(i as int)[0] == (entry.0@, entry.1@));
        }
        if same_text(entry.0.as_str(), name) {
            return Some(entry.1.as_str());
        }
        i += 1;
    }
    None
}

/// Reads the revert delay from a list of options.
///
/// A missing or malformed value is no error: the default takes its place.
pub fn timeout_from_config(entries: &Vec<(String, String)>) -> (ms: u64)
    ensures
        ms == configured_timeout(entries.deep_view()),
{
    match find_option(entries, TIMEOUT_OPTION) {
        Some(text) => match parse_decimal_u64(text) {
            Some(ms) => ms,
            None => DEFAULT_TIMEOUT_MS,
        },
        None => DEFAULT_TIMEOUT_MS,
    }
}

/// Whether no name occurs twice in the list, as in a mapping from names to
/// values.
pub open spec fn distinct_names(entries: Seq<(Seq<char>, Seq<char>)>) -> bool {
    forall|j: int, k: int|
        0 <= j < k < entries.len() ==> #[trigger] entries[j].0 != #[trigger] entries[k].0
}

/// In a list whose names are all different, every entry is the one that a
/// lookup of its name finds, wherever it stands.
pub proof fn lemma_distinct_names_lookup(entries: Seq<(Seq<char>, Seq<char>)>, i: int)
    requires
        0 <= i < entries.len(),
        distinct_names(entries),
    ensures
        option_value(entries, entries[i].0) == Some(entries[i].1),
    decreases entries.len(),
{
    if i > 0 {
        let rest = entries.drop_first();
        assert(distinct_names(rest)) by {
            assert forall|j: int, k: int| 0 <= j < k < rest.len() implies #[trigger] rest[j].0
                != #[trigger] rest[k].0 by {
                assert(rest[j] == entries[j + 1]);
                assert(rest[k] == entries[k + 1]);
            }
        }
        assert(rest[i - 1] == entries[i]);
        lemma_distinct_names_lookup(rest, i - 1);
    }
}

} // verus!
