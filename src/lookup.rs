use vstd::prelude::*;

use crate::dmr::{empty_dmr, first_entry, first_result, DmrRecord, DmrView};
use crate::image::{image_data_uri, image_uri_of, ImageReply};
use crate::name::{extract_name, name_in_page};

verus! {

/// Everything that is known of one callsign once all sources have answered
/// or failed. A source that failed leaves its empty value behind.
pub struct LookupResult {
    pub callsign: String,
    pub name: String,
    pub image: String,
    pub dmr: DmrRecord,
}

/// A lookup result as values.
pub struct LookupView {
    pub callsign: Seq<char>,
    pub name: Seq<char>,
    pub image: Seq<char>,
    pub dmr: DmrView,
}

impl View for LookupResult {
    type V = LookupView;

    open spec fn view(&self) -> LookupView {
        LookupView {
            callsign: self.callsign@,
            name: self.name@,
            image: self.image@,
            dmr: self.dmr@,
        }
    }
}

/// The name found in the callbook page; empty where the page could not be had.
pub open spec fn name_of(callsign: Seq<char>, name_page: Option<Seq<char>>) -> Seq<char> {
    match name_page {
        Some(page) => name_in_page(page, callsign),
        None => Seq::empty(),
    }
}

/// The DMR record kept; the empty record where the directory could not be
/// asked or had no entry.
pub open spec fn dmr_of(results: Option<Seq<DmrRecord>>) -> DmrView {
    match results {
        Some(rs) => match first_entry(rs) {
            Some(d) => d,
            None => empty_dmr(),
        },
        None => empty_dmr(),
    }
}

/// The image as a data URI; empty where the image could not be had.
pub open spec fn image_of(image: Option<ImageReply>) -> Seq<char> {
    match image {
        Some(reply) => image_uri_of(reply),
        None => Seq::empty(),
    }
}

/// The merged result of one lookup of `callsign` (already normalised), from
/// what each source gave: the callbook page, the DMR directory's entries, and
/// the image reply, each `None` where that source failed.
pub open spec fn lookup_of(
    callsign: Seq<char>,
    name_page: Option<Seq<char>>,
    dmr_results: Option<Seq<DmrRecord>>,
    image: Option<ImageReply>,
) -> LookupView {
    LookupView {
        callsign: callsign,
        name: name_of(callsign, name_page),
        image: image_of(image),
        dmr: dmr_of(dmr_results),
    }
}

/// Merges what the three sources gave for `callsign` into one result. It
/// never fails: a source that failed contributes its empty value.
pub fn assemble(
    callsign: String,
    name_page: Option<String>,
    dmr_results: Option<Vec<DmrRecord>>,
    image: Option<ImageReply>,
) -> (r: LookupResult)
    requires
        image matches Some(reply) ==> reply.body@.len() <= usize::MAX / 4,
    ensures
        r@ == lookup_of(
            callsign@,
            match name_page {
                Some(p) => Some(p@),
                None => None,
            },
            match dmr_results {
                Some(v) => Some(v@),
                None => None,
            },
            image,
        ),
{
    let name = match &name_page {
        Some(page) => extract_name(page.as_str(), callsign.as_str()),
        None => String::new(),
    };
    let image_uri = match &image {
        Some(reply) => image_data_uri(reply),
        None => String::new(),
    };
    let dmr = match dmr_results {
        Some(results) => match first_result(results) {
            Some(d) => d,
            None => DmrRecord::default(),
        },
        None => DmrRecord::default(),
    };
    LookupResult { callsign, name, image: image_uri, dmr }
}

/// Even when every source fails, a lookup yields a complete result: the
/// callsign, an empty name, no image and the empty DMR record.
pub proof fn lemma_all_sources_failed(callsign: Seq<char>)
    ensures
        lookup_of(callsign, None, None, None) == (LookupView {
            callsign: callsign,
            name: Seq::empty(),
            image: Seq::empty(),
            dmr: empty_dmr(),
        }),
{
}

/// A DMR directory answer without entries leaves the empty DMR record.
pub proof fn lemma_no_dmr_entries(
    callsign: Seq<char>,
    name_page: Option<Seq<char>>,
    image: Option<ImageReply>,
)
    ensures
        lookup_of(callsign, name_page, Some(Seq::empty()), image).dmr == empty_dmr(),
{
}

} // verus!
