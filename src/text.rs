use vstd::prelude::*;

verus! {

/// What `str::to_uppercase` makes of a string: the Unicode upper-case
/// mapping of each character, concatenated.
pub uninterp spec fn upper_of(s: Seq<char>) -> Seq<char>;

/// Relies on `str::to_uppercase`, whose result depends on the characters of
/// its argument alone.
#[verifier::external_body]
fn to_upper(s: &str) -> (r: String)
    ensures
        r@ == upper_of(s@),
{
    s.to_uppercase()
}

/// Whether `needle` stands in `s` at character position `i`.
pub open spec fn occurs_at(s: Seq<char>, needle: Seq<char>, i: int) -> bool {
    0 <= i && i + needle.len() <= s.len() && s.subrange(i, i + needle.len()) == needle
}

/// The first position at or after `i` where `needle` stands in `s`.
pub open spec fn find_from(s: Seq<char>, needle: Seq<char>, i: int) -> Option<int>
    decreases s.len() + 1 - i,
{
    if i < 0 || i + needle.len() > s.len() {
        None
    } else if occurs_at(s, needle, i) {
        Some(i)
    } else {
        find_from(s, needle, i + 1)
    }
}

/// The first position where `needle` stands in `s`, if it stands there at all.
pub open spec fn find_first(s: Seq<char>, needle: Seq<char>) -> Option<int> {
    find_from(s, needle, 0)
}

/// Relies on `str::split_once`: it splits `s` around the first occurrence of
/// `needle`, and returns `None` when there is none.
#[verifier::external_body]
fn split_once<'a>(s: &'a str, needle: &str) -> (r: Option<(&'a str, &'a str)>)
    ensures
        match find_first(s@, needle@) {
            Some(i) => r matches Some((a, b)) && a@ == s@.subrange(0, i) && b@ == s@.subrange(
                i + needle@.len(),
                s@.len() as int,
            ),
            None => r is None,
        },
{
    s.split_once(needle)
}

/// The callsign as all lookups use it: upper case.
pub fn normalize_callsign(raw: &str) -> (r: String)
    ensures
        r@ == upper_of(raw@),
{
    to_upper(raw)
}

/// The part of `page` that follows the first occurrence of `marker`, or the
/// whole page where the marker does not occur.
pub open spec fn after_marker(page: Seq<char>, marker: Seq<char>) -> Seq<char> {
    match find_first(page, marker) {
        Some(i) => page.subrange(i + marker.len(), page.len() as int),
        None => page,
    }
}

/// Keeps what follows the first occurrence of `marker` in `page`; keeps the
/// whole page where the marker does not occur.
pub fn text_after_marker(page: &str, marker: &str) -> (r: String)
    ensures
        r@ == after_marker(page@, marker@),
{
    match split_once(page, marker) {
        Some((_, rest)) => rest.to_owned(),
        None => page.to_owned(),
    }
}

/// The part of a page that follows a marker is a suffix of it.
pub proof fn lemma_after_marker_is_suffix(page: Seq<char>, marker: Seq<char>)
    ensures
        exists|k: int|
            0 <= k <= page.len() && #[trigger] page.subrange(k, page.len() as int) == after_marker(
                page,
                marker,
            ),
{
    match find_first(page, marker) {
        Some(i) => {
            lemma_find_from_bounds(page, marker, 0);
            assert(page.subrange(i + marker.len(), page.len() as int) == after_marker(page, marker));
        },
        None => {
            assert(page.subrange(0, page.len() as int) =~= page);
        },
    }
}

proof fn lemma_find_from_bounds(s: Seq<char>, needle: Seq<char>, i: int)
    ensures
        find_from(s, needle, i) matches Some(k) ==> i <= k && occurs_at(s, needle, k),
    decreases s.len() + 1 - i,
{
    if i < 0 || i + needle.len() > s.len() {
    } else if occurs_at(s, needle, i) {
    } else {
        lemma_find_from_bounds(s, needle, i + 1);
    }
}

} // verus!
