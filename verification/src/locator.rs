//! Choosing the player to track among those visible on the bus, by name
//! filters given as regular expressions.

use vstd::prelude::*;
use crate::text::{option_text, texts_of};

verus! {

#[verifier::external_type_specification]
#[verifier::external_body]
pub struct ExRegex(regex::Regex);

/// Whether `regex::Regex::new` accepts the pattern.
pub uninterp spec fn pattern_compiles(pattern: Seq<char>) -> bool;

/// Whether the expression that `regex::Regex::new` builds from the pattern
/// finds a match anywhere in the text (`regex::Regex::is_match`).
pub uninterp spec fn pattern_matches(pattern: Seq<char>, text: Seq<char>) -> bool;

/// A name filter: a pattern together with the expression compiled from it.
/// The fields are private and `new` is the only constructor, so the
/// compiled expression always comes from the pattern beside it.
pub struct NameFilter {
    pattern: String,
    compiled: regex::Regex,
}

impl View for NameFilter {
    type V = Seq<char>;

    closed spec fn view(&self) -> Seq<char> {
        self.pattern@
    }
}

/// Calls `regex::Regex::new`, which compiles a pattern with the default
/// options; it fails on a pattern that is invalid or too large. The
/// contract only names whether it succeeds.
#[verifier::external_body]
fn compile(pattern: &str) -> (r: Option<regex::Regex>)
    ensures
        r is Some == pattern_compiles(pattern@),
{
    regex::Regex::new(pattern).ok()
}

/// Calls `regex::Regex::is_match` on the filter's compiled expression. The
/// contract names the answer as a function of the pattern the expression
/// was compiled from and of the text.
#[verifier::external_body]
fn compiled_matches(filter: &NameFilter, text: &str) -> (r: bool)
    ensures
        r == pattern_matches(filter@, text@),
{
    filter.compiled.is_match(text)
}

impl NameFilter {
    /// Compiles a filter, or returns nothing where the pattern is refused.
    pub fn new(pattern: &str) -> (r: Option<NameFilter>)
        ensures
            r is Some == pattern_compiles(pattern@),
            r is Some ==> r.unwrap()@ == pattern@,
    {
        match compile(pattern) {
            Some(compiled) => Some(NameFilter { pattern: pattern.to_owned(), compiled }),
            None => None,
        }
    }

    /// The pattern the filter was compiled from.
    pub fn pattern(&self) -> (r: &str)
        ensures
            r@ == self@,
    {
        self.pattern.as_str()
    }

    /// Whether the filter matches anywhere in the name.
    pub fn is_match(&self, name: &str) -> (r: bool)
        ensures
            r == pattern_matches(self@, name@),
    {
        compiled_matches(self, name)
    }
}

/// The patterns of a list of filters, in order.
pub open spec fn patterns_of(filters: Seq<NameFilter>) -> Seq<Seq<char>> {
    Seq::new(filters.len(), |i: int| filters[i]@)
}

/// The patterns that compile, in their given order.
pub open spec fn accepted_patterns(patterns: Seq<Seq<char>>) -> Seq<Seq<char>>
    decreases patterns.len(),
{
    if patterns.len() == 0 {
        Seq::empty()
    } else if pattern_compiles(patterns.last()) {
        accepted_patterns(patterns.drop_last()).push(patterns.last())
    } else {
        accepted_patterns(patterns.drop_last())
    }
}

/// The positions of the patterns that do not compile, in order.
pub open spec fn refused_positions(patterns: Seq<Seq<char>>) -> Seq<usize>
    decreases patterns.len(),
{
    if patterns.len() == 0 {
        Seq::empty()
    } else if pattern_compiles(patterns.last()) {
        refused_positions(patterns.drop_last())
    } else {
        refused_positions(patterns.drop_last()).push((patterns.len() - 1) as usize)
    }
}

/// Compiles the configured patterns. A pattern that is refused is skipped;
/// its position is reported in the second list.
pub fn compile_filters(patterns: &Vec<String>) -> (r: (Vec<NameFilter>, Vec<usize>))
    ensures
        patterns_of(r.0@) == accepted_patterns(texts_of(patterns@)),
        r.1@ == refused_positions(texts_of(patterns@)),
{
    let mut filters: Vec<NameFilter> = Vec::new();
    let mut refused: Vec<usize> = Vec::new();
    let ghost texts = texts_of(patterns@);
    let mut i: usize = 0;
    while i < patterns.len()
        invariant
            i <= patterns.len(),
            texts == texts_of(patterns@),
            patterns_of(filters@) == accepted_patterns(texts.take(i as int)),
            refused@ == refused_positions(texts.take(i as int)),
        decreases patterns.len() - i,
    {
        proof {
            assert(texts.take(i + 1).drop_last() =~= texts.take(i as int));
            assert(texts.take(i + 1).last() == patterns@[i as int]@);
        }
        let ghost before = filters@;
        match NameFilter::new(patterns[i].as_str()) {
            Some(filter) => {
                filters.push(filter);
                assert(patterns_of(filters@) =~= patterns_of(before).push(patterns@[i as int]@));
            },
            None => {
                refused.push(i);
            },
        }
        i += 1;
    }
    assert(texts.take(patterns.len() as int) =~= texts);
    (filters, refused)
}

/// `at` is the first name that the pattern matches.
pub open spec fn is_first_match(pattern: Seq<char>, names: Seq<Seq<char>>, at: int) -> bool {
    &&& 0 <= at < names.len()
    &&& pattern_matches(pattern, names[at])
    &&& forall|k: int| 0 <= k < at ==> !pattern_matches(pattern, #[trigger] names[k])
}

/// The pattern matches none of the names.
pub open spec fn matches_none(pattern: Seq<char>, names: Seq<Seq<char>>) -> bool {
    forall|k: int| 0 <= k < names.len() ==> !pattern_matches(pattern, #[trigger] names[k])
}

/// `at` is the selected player: the first name matched by the first
/// pattern that matches any name at all.
pub open spec fn is_selected(patterns: Seq<Seq<char>>, names: Seq<Seq<char>>, at: int) -> bool {
    exists|i: int|
        {
            &&& 0 <= i < patterns.len()
            &&& is_first_match(#[trigger] patterns[i], names, at)
            &&& forall|j: int| 0 <= j < i ==> matches_none(#[trigger] patterns[j], names)
        }
}

/// No pattern matches any name.
pub open spec fn nothing_selected(patterns: Seq<Seq<char>>, names: Seq<Seq<char>>) -> bool {
    forall|i: int| 0 <= i < patterns.len() ==> matches_none(#[trigger] patterns[i], names)
}

/// The first name that the filter matches, if any.
pub fn first_match(filter: &NameFilter, names: &Vec<String>) -> (r: Option<usize>)
    ensures
        match r {
            Some(at) => is_first_match(filter@, texts_of(names@), at as int),
            None => matches_none(filter@, texts_of(names@)),
        },
{
    let mut k: usize = 0;
    while k < names.len()
        invariant
            k <= names.len(),
            forall|m: int| 0 <= m < k ==> !pattern_matches(filter@, #[trigger] texts_of(names@)[m]),
        decreases names.len() - k,
    {
        if filter.is_match(names[k].as_str()) {
            return Some(k);
        }
        k += 1;
    }
    None
}

/// Selects a player among the visible ones, given by their bus identities
/// in enumeration order: the filters are tried in their order, and the
/// first filter that matches any player selects the first player it
/// matches.
pub fn select_player(filters: &Vec<NameFilter>, names: &Vec<String>) -> (r: Option<usize>)
    ensures
        match r {
            Some(at) => is_selected(patterns_of(filters@), texts_of(names@), at as int),
            None => nothing_selected(patterns_of(filters@), texts_of(names@)),
        },
{
    let mut i: usize = 0;
    while i < filters.len()
        invariant
            i <= filters.len(),
            forall|j: int|
                0 <= j < i ==> matches_none(
                    #[trigger] patterns_of(filters@)[j],
                    texts_of(names@),
                ),
        decreases filters.len() - i,
    {
        if let Some(at) = first_match(&filters[i], names) {
            assert(is_first_match(patterns_of(filters@)[i as int], texts_of(names@), at as int));
            return Some(at);
        }
        i += 1;
    }
    None
}

/// Whether the player to track is the one that the bus reports as active:
/// so it is when no filter is configured.
pub fn uses_active_player(filters: &Vec<NameFilter>) -> (r: bool)
    ensures
        r == (filters@.len() == 0),
{
    filters.len() == 0
}

/// The identity that a search resolves to. With no filter configured it is
/// the active player's, as the bus reported it; otherwise it is that of the
/// player selected among the visible ones, and the active player is not
/// looked at.
pub fn resolve(
    filters: &Vec<NameFilter>,
    active: Option<String>,
    visible: &Vec<String>,
) -> (r: Option<String>)
    ensures
        filters@.len() == 0 ==> option_text(r) == option_text(active),
        filters@.len() > 0 ==> match r {
            Some(identity) => exists|at: int|
                is_selected(patterns_of(filters@), texts_of(visible@), at) && texts_of(
                    visible@,
                )[at] == identity@,
            None => nothing_selected(patterns_of(filters@), texts_of(visible@)),
        },
{
    if uses_active_player(filters) {
        return active;
    }
    match select_player(filters, visible) {
        Some(at) => {
            let identity = visible[at].clone();
            Some(identity)
        },
        None => None,
    }
}

/// At most one player is selected, and one is selected exactly when some
/// pattern matches some name.
pub proof fn lemma_selection_unique(
    patterns: Seq<Seq<char>>,
    names: Seq<Seq<char>>,
    a: int,
    b: int,
)
    requires
        is_selected(patterns, names, a),
        is_selected(patterns, names, b),
    ensures
        a == b,
        !nothing_selected(patterns, names),
{
    let i = choose|i: int|
        {
            &&& 0 <= i < patterns.len()
            &&& is_first_match(#[trigger] patterns[i], names, a)
            &&& forall|j: int| 0 <= j < i ==> matches_none(#[trigger] patterns[j], names)
        };
    let k = choose|k: int|
        {
            &&& 0 <= k < patterns.len()
            &&& is_first_match(#[trigger] patterns[k], names, b)
            &&& forall|j: int| 0 <= j < k ==> matches_none(#[trigger] patterns[j], names)
        };
    if i < k {
        assert(matches_none(patterns[i], names));
        assert(!pattern_matches(patterns[i], names[a]));
    } else if k < i {
        assert(matches_none(patterns[k], names));
        assert(!pattern_matches(patterns[k], names[b]));
    } else {
        if a < b {
            assert(!pattern_matches(patterns[i], names[a]));
        } else if b < a {
            assert(!pattern_matches(patterns[i], names[b]));
        }
    }
    if nothing_selected(patterns, names) {
        assert(matches_none(patterns[i], names));
        assert(!pattern_matches(patterns[i], names[a]));
    }
}

} // verus!
