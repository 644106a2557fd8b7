use vstd::prelude::*;

use crate::decimal::{decimal_digits, push_decimal};
use crate::dmr::{empty_dmr, DmrView};
use crate::lookup::{lookup_of, LookupResult, LookupView};
use crate::image::ImageReply;

verus! {

/// The content type of every page the service serves.
pub const HTML_CONTENT_TYPE: &'static str = "text/html; charset=UTF-8";

/// The callsign entry form, with the script that goes to `/{callsign}` on
/// submit. It is the whole index page and closes every result page.
pub const ENTRY_FORM: &'static str = "<form action=\"/\" id=\"sign_form\"><input type=\"text\" autofocus id=\"callsign\"><input type=\"submit\" id=\"sub\" value=\"Ara\"></form>
<script>
window.sign_form.onsubmit = function(e) {
    e.preventDefault();
    var sign = window.callsign.value;
    if (sign) {
        window.location.href = \"/\" + sign;
    }
};
</script>
";

/// Style and header row of the result table, up to the data row.
pub const TABLE_HEAD: &'static str = "
<style>
table, th, td {
    border: 1px solid black;
    border-collapse: collapse;
}
table {
    width: 100%;
    text-align: center;
    margin: auto auto;
}
</style>
<table>
<thead>
<tr>
<th>çağrı işareti</th>
<th>resim(callbook)</th>
<th>isim(callbook)</th>
<th>isim(dmr)</th>
<th>şehir</th>
<th>ülke</th>
<th>dmrid</th>
<th>bölge</th>
</tr>
</thead>
<tbody>
";

/// Closes the result table.
pub const TABLE_TAIL: &'static str = "
</tbody>
</table>
";

/// A table cell holding `text`.
pub open spec fn cell(text: Seq<char>) -> Seq<char> {
    "\n<td>"@ + text + "</td>"@
}

/// The table cell that shows the image at `src`.
pub open spec fn image_cell(src: Seq<char>) -> Seq<char> {
    "\n<td><img src=\""@ + src + "\"></td>"@
}

/// The cells of a DMR record: full name, city, country, id, region.
pub open spec fn dmr_cells(d: DmrView) -> Seq<char> {
    cell(d.fname + " "@ + d.surname) + cell(d.city) + cell(d.country) + cell(
        decimal_digits(d.id),
    ) + cell(d.state)
}

/// The data row of a lookup: callsign, image, callbook name, then the DMR cells.
pub open spec fn row_of(v: LookupView) -> Seq<char> {
    "<tr>"@ + cell(v.callsign) + image_cell(v.image) + cell(v.name) + dmr_cells(v.dmr)
        + "\n</tr>"@
}

/// The result page of a lookup.
pub open spec fn page_of(v: LookupView) -> Seq<char> {
    TABLE_HEAD@ + row_of(v) + TABLE_TAIL@ + ENTRY_FORM@
}

/// The index page: the entry form alone.
pub fn entry_form() -> (r: String)
    ensures
        r@ == ENTRY_FORM@,
{
    String::from_str(ENTRY_FORM)
}

fn push_cell(out: &mut String, text: &str)
    ensures
        final(out)@ == old(out)@ + cell(text@),
{
    out.append("\n<td>");
    out.append(text);
    out.append("</td>");
    assert(out@ =~= old(out)@ + cell(text@));
}

fn push_dmr_cells(out: &mut String, d: &crate::dmr::DmrRecord)
    ensures
        final(out)@ == old(out)@ + dmr_cells(d@),
{
    out.append("\n<td>");
    out.append(d.fname.as_str());
    out.append(" ");
    out.append(d.surname.as_str());
    out.append("</td>");
    assert(out@ =~= old(out)@ + cell(d.fname@ + " "@ + d.surname@));
    push_cell(out, d.city.as_str());
    push_cell(out, d.country.as_str());
    let ghost before_id = out@;
    out.append("\n<td>");
    push_decimal(out, d.id);
    out.append("</td>");
    assert(out@ =~= before_id + cell(decimal_digits(d.id as nat)));
    push_cell(out, d.state.as_str());
    assert(out@ =~= old(out)@ + dmr_cells(d@));
}

/// Renders the result page of a lookup: one table row, then the entry form.
pub fn render(result: &LookupResult) -> (r: String)
    ensures
        r@ == page_of(result@),
{
    let mut out = String::from_str(TABLE_HEAD);
    out.append("<tr>");
    push_cell(&mut out, result.callsign.as_str());
    out.append("\n<td><img src=\"");
    out.append(result.image.as_str());
    out.append("\"></td>");
    push_cell(&mut out, result.name.as_str());
    push_dmr_cells(&mut out, &result.dmr);
    out.append("\n</tr>");
    out.append(TABLE_TAIL);
    out.append(ENTRY_FORM);
    assert(out@ =~= page_of(result@));
    out
}

/// The page depends on the lookup result alone: equal results render to
/// the same text.
pub proof fn lemma_render_deterministic(a: LookupView, b: LookupView)
    requires
        a == b,
    ensures
        page_of(a) == page_of(b),
{
}

/// Where the image source failed, the page still holds the complete row,
/// whose image cell is empty, right after the callsign cell.
pub proof fn lemma_failed_image_empty_cell(
    callsign: Seq<char>,
    name_page: Option<Seq<char>>,
    dmr_results: Option<Seq<crate::dmr::DmrRecord>>,
)
    ensures
        lookup_of(callsign, name_page, dmr_results, None::<ImageReply>).image == Seq::<char>::empty(),
        page_of(lookup_of(callsign, name_page, dmr_results, None::<ImageReply>)) == TABLE_HEAD@
            + "<tr>"@ + cell(callsign) + image_cell(Seq::empty()) + cell(
            lookup_of(callsign, name_page, dmr_results, None::<ImageReply>).name,
        ) + dmr_cells(lookup_of(callsign, name_page, dmr_results, None::<ImageReply>).dmr)
            + "\n</tr>"@ + TABLE_TAIL@ + ENTRY_FORM@,
{
}

/// The empty DMR record shows as a blank name, empty city, country and
/// region, and the id `0`.
pub proof fn lemma_empty_dmr_cells()
    ensures
        dmr_cells(empty_dmr()) == cell(seq![' ']) + cell(Seq::empty()) + cell(Seq::empty())
            + cell(seq!['0']) + cell(Seq::empty()),
{
    reveal_strlit(" ");
    assert(Seq::<char>::empty() + " "@ + Seq::<char>::empty() =~= seq![' ']);
    assert(decimal_digits(0) =~= seq!['0']);
}

} // verus!
