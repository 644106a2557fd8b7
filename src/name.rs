use vstd::prelude::*;

use crate::text::{after_marker, normalize_callsign, text_after_marker, upper_of};

verus! {

/// The pattern that picks the operator's name out of a callbook page: the
/// text between a `>` and the next `</s` (the start of `</strong>`,
/// `</span>`, ...).
pub const NAME_PATTERN: &'static str = ">(.*?[\\w ]+)</s";

/// What the first capture group of `pattern` holds at its leftmost match in
/// `hay`, as the `regex` crate finds it; `None` where the pattern does not
/// match (or does not compile).
pub uninterp spec fn first_group_of(pattern: Seq<char>, hay: Seq<char>) -> Option<Seq<char>>;

/// Whether `g` stands in `s` at `i` between a `>` and a `</s`.
pub open spec fn tag_span_at(s: Seq<char>, g: Seq<char>, i: int) -> bool {
    &&& 0 <= i
    &&& i + g.len() + 4 <= s.len()
    &&& s[i] == '>'
    &&& s.subrange(i + 1, i + 1 + g.len()) == g
    &&& s[i + 1 + g.len()] == '<'
    &&& s[i + 2 + g.len()] == '/'
    &&& s[i + 3 + g.len()] == 's'
}

/// Whether `s` holds a `>` followed, further on, by `</s`.
pub open spec fn has_tag_span(s: Seq<char>) -> bool {
    exists|i: int, j: int|
        #![trigger s[i], s[j]]
        0 <= i < j && j + 3 <= s.len() && s[i] == '>' && s[j] == '<' && s[j + 1] == '/' && s[j
            + 2] == 's'
}

/// Relies on `regex::Regex::new`, `Regex::captures` and `Captures::get`:
/// the text of the first group at the leftmost match. A match of the name
/// pattern is a `>`, the group, and `</s`, so the group stands between them.
#[verifier::external_body]
fn capture_first_group(pattern: &str, hay: &str) -> (r: Option<String>)
    ensures
        r matches Some(g) ==> first_group_of(pattern@, hay@) == Some(g@),
        r is None ==> first_group_of(pattern@, hay@) is None,
        pattern@ == NAME_PATTERN@ ==> (r matches Some(g) ==> exists|i: int| tag_span_at(hay@, g@, i)),
{
    match regex::Regex::new(pattern) {
        Ok(re) => re.captures(hay).and_then(|c| c.get(1)).map(|m| m.as_str().to_string()),
        Err(_) => None,
    }
}

/// The captured text, or the empty string where nothing was captured.
pub open spec fn captured_or_empty(c: Option<Seq<char>>) -> Seq<char> {
    match c {
        Some(g) => g,
        None => Seq::empty(),
    }
}

/// The name that a callbook page gives for `callsign`: the name pattern is
/// applied to what follows the first occurrence of the upper-cased callsign,
/// or to the whole page where the callsign does not occur.
pub open spec fn name_in_page(page: Seq<char>, callsign: Seq<char>) -> Seq<char> {
    captured_or_empty(first_group_of(NAME_PATTERN@, after_marker(page, upper_of(callsign))))
}

/// Turns a capture into a name: no capture gives the empty name.
pub fn name_from_capture(capture: Option<String>) -> (r: String)
    ensures
        r@ == captured_or_empty(
            match capture {
                Some(g) => Some(g@),
                None => None,
            },
        ),
{
    match capture {
        Some(g) => g,
        None => String::new(),
    }
}

/// Cuts the operator's name for `callsign` out of a callbook page. A page
/// without any `>` ... `</s` gives the empty name.
pub fn extract_name(page: &str, callsign: &str) -> (r: String)
    ensures
        r@ == name_in_page(page@, callsign@),
        !has_tag_span(page@) ==> r@ == Seq::<char>::empty(),
{
    let marker = normalize_callsign(callsign);
    let scope = text_after_marker(page, marker.as_str());
    let capture = capture_first_group(NAME_PATTERN, scope.as_str());
    proof {
        if let Some(g) = &capture {
            let i = choose|i: int| tag_span_at(scope@, g@, i);
            crate::text::lemma_after_marker_is_suffix(page@, marker@);
            let k = choose|k: int|
                0 <= k <= page@.len() && #[trigger] page@.subrange(k, page@.len() as int)
                    == after_marker(page@, marker@);
            let j = i + 1 + g@.len();
            assert(page@[k + i] == scope@[i]);
            assert(page@[k + j] == scope@[j]);
            assert(page@[k + j + 1] == scope@[j + 1]);
            assert(page@[k + j + 2] == scope@[j + 2]);
            assert(has_tag_span(page@));
        }
    }
    name_from_capture(capture)
}

} // verus!
