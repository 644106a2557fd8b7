use callbook_lookup::{
    assemble, data_uri, entry_form, extract_name, first_result, image_data_uri,
    name_from_capture, normalize_callsign, push_decimal, render, text_after_marker, DmrRecord,
    ImageReply, LookupResult, DEFAULT_IMAGE_TYPE, ENTRY_FORM, HTML_CONTENT_TYPE, NAME_PATTERN,
};

fn record(fname: &str, surname: &str, city: &str, country: &str, id: usize, state: &str) -> DmrRecord {
    DmrRecord {
        fname: fname.to_string(),
        surname: surname.to_string(),
        city: city.to_string(),
        country: country.to_string(),
        id,
        state: state.to_string(),
    }
}

fn decimal(n: usize) -> String {
    let mut s = String::new();
    push_decimal(&mut s, n);
    s
}

#[test]
fn normalize_uppercases() {
    assert_eq!(normalize_callsign("ta3krt"), "TA3KRT");
    assert_eq!(normalize_callsign("Ta3Krt"), "TA3KRT");
    assert_eq!(normalize_callsign(""), "");
}

#[test]
fn text_after_first_marker() {
    assert_eq!(text_after_marker("a TA1 b TA1 c", "TA1"), " b TA1 c");
    assert_eq!(text_after_marker("nothing here", "TA1"), "nothing here");
    assert_eq!(text_after_marker("TA1", "TA1"), "");
    assert_eq!(text_after_marker("abc", ""), "abc");
}

#[test]
fn decimal_notation() {
    assert_eq!(decimal(0), "0");
    assert_eq!(decimal(7), "7");
    assert_eq!(decimal(10), "10");
    assert_eq!(decimal(123456), "123456");
    assert_eq!(decimal(usize::MAX), usize::MAX.to_string());
    let mut s = String::from("id=");
    push_decimal(&mut s, 42);
    assert_eq!(s, "id=42");
}

#[test]
fn name_after_callsign() {
    let page = "<b>TA1AA</b> <strong>Wrong Person</strong> TA3KRT <strong>Ahmet Yilmaz</strong>";
    assert_eq!(extract_name(page, "ta3krt"), "Ahmet Yilmaz");
}

#[test]
fn name_in_span() {
    let page = "<td>TA3KRT<span>Ali Veli</span></td>";
    assert_eq!(extract_name(page, "TA3KRT"), "Ali Veli");
    // The match starts at the first `>` after the callsign, so markup in
    // between is taken into the name.
    let page = "<td>TA3KRT</td><td><span>Ali Veli</span></td>";
    assert_eq!(extract_name(page, "TA3KRT"), "<td><span>Ali Veli");
}

#[test]
fn name_falls_back_to_whole_page() {
    let page = "<p>Mehmet Kaya</strong></p>";
    assert_eq!(extract_name(page, "TA9ZZZ"), "Mehmet Kaya");
    let page = "<p><strong>Mehmet Kaya</strong></p>";
    assert_eq!(extract_name(page, "TA9ZZZ"), "<strong>Mehmet Kaya");
}

#[test]
fn name_empty_without_tag_span() {
    assert_eq!(extract_name("TA3KRT no markup at all", "TA3KRT"), "");
    assert_eq!(extract_name("", "TA3KRT"), "");
    assert_eq!(extract_name("</strong> before >", "TA3KRT"), "");
}

#[test]
fn name_pattern_text() {
    assert_eq!(NAME_PATTERN, r">(.*?[\w ]+)</s");
}

#[test]
fn capture_to_name() {
    assert_eq!(name_from_capture(Some("Ali".to_string())), "Ali");
    assert_eq!(name_from_capture(None), "");
}

#[test]
fn data_uri_with_and_without_type() {
    assert_eq!(data_uri(&None, "abc"), "data:image/jpg;base64,abc");
    assert_eq!(data_uri(&Some("image/png".to_string()), "abc"), "data:image/png;base64,abc");
    assert_eq!(DEFAULT_IMAGE_TYPE, "image/jpg");
}

#[test]
fn image_reply_encoded() {
    let reply = ImageReply { content_type: Some("image/png".to_string()), body: vec![0xff] };
    assert_eq!(image_data_uri(&reply), "data:image/png;base64,/w==");
    let reply = ImageReply { content_type: None, body: b"hello".to_vec() };
    assert_eq!(image_data_uri(&reply), "data:image/jpg;base64,aGVsbG8=");
    let reply = ImageReply { content_type: None, body: vec![] };
    assert_eq!(image_data_uri(&reply), "data:image/jpg;base64,");
}

#[test]
fn first_result_keeps_first() {
    assert!(first_result(vec![]).is_none());
    let d = first_result(vec![record("Ali", "Veli", "Ankara", "Turkey", 1, "TR"), record("X", "Y", "Z", "W", 2, "V")])
        .unwrap();
    assert_eq!(d.fname, "Ali");
    assert_eq!(d.id, 1);
}

#[test]
fn default_dmr_record_is_empty() {
    let d = DmrRecord::default();
    assert_eq!(d.fname, "");
    assert_eq!(d.surname, "");
    assert_eq!(d.city, "");
    assert_eq!(d.country, "");
    assert_eq!(d.id, 0);
    assert_eq!(d.state, "");
}

#[test]
fn all_sources_failed_gives_complete_result() {
    let r = assemble("TA3KRT".to_string(), None, None, None);
    assert_eq!(r.callsign, "TA3KRT");
    assert_eq!(r.name, "");
    assert_eq!(r.image, "");
    assert_eq!(r.dmr.fname, "");
    assert_eq!(r.dmr.id, 0);
    let page = render(&r);
    assert!(page.contains("<tr>\n<td>TA3KRT</td>\n<td><img src=\"\"></td>\n<td></td>\n<td> </td>"));
}

#[test]
fn no_dmr_entries_gives_default_record() {
    let r = assemble("TA3KRT".to_string(), None, Some(vec![]), None);
    assert_eq!(r.dmr.fname, "");
    assert_eq!(r.dmr.surname, "");
    assert_eq!(r.dmr.city, "");
    assert_eq!(r.dmr.country, "");
    assert_eq!(r.dmr.id, 0);
    assert_eq!(r.dmr.state, "");
}

#[test]
fn failed_image_renders_empty_cell() {
    let r = assemble(
        "TA3KRT".to_string(),
        Some("TA3KRT <strong>Ahmet</strong>".to_string()),
        Some(vec![record("Ali", "Veli", "Ankara", "Turkey", 123456, "TR")]),
        None,
    );
    assert_eq!(r.image, "");
    let page = render(&r);
    assert!(page.contains("<td>TA3KRT</td>\n<td><img src=\"\"></td>\n<td>Ahmet</td>"));
    assert!(page.contains("<td>TR</td>\n</tr>"));
}

#[test]
fn image_goes_into_cell() {
    let reply = ImageReply { content_type: Some("image/gif".to_string()), body: b"hi".to_vec() };
    let r = assemble("TA3KRT".to_string(), None, None, Some(reply));
    assert_eq!(r.image, "data:image/gif;base64,aGk=");
    assert!(render(&r).contains("<td><img src=\"data:image/gif;base64,aGk=\"></td>"));
}

#[test]
fn render_is_deterministic() {
    let make = || LookupResult {
        callsign: "TA3KRT".to_string(),
        name: "Ahmet".to_string(),
        image: "data:image/jpg;base64,AA==".to_string(),
        dmr: record("Ali", "Veli", "Ankara", "Turkey", 123456, "TR"),
    };
    assert_eq!(render(&make()), render(&make()));
}

#[test]
fn scenario_lowercase_request() {
    let callsign = normalize_callsign("ta3krt");
    assert_eq!(callsign, "TA3KRT");
    let r = assemble(callsign, None, None, None);
    let page = render(&r);
    assert!(page.contains("<table>"));
    assert!(page.contains("<tr>\n<td>TA3KRT</td>"));
    assert!(page.ends_with(ENTRY_FORM));
    assert_eq!(HTML_CONTENT_TYPE, "text/html; charset=UTF-8");
}

#[test]
fn scenario_dmr_entry_rendered() {
    let results = vec![record("Ali", "Veli", "Ankara", "Turkey", 123456, "TR")];
    let r = assemble("TA3KRT".to_string(), None, Some(results), None);
    let page = render(&r);
    assert!(page.contains("<td>Ali Veli</td>\n<td>Ankara</td>\n<td>Turkey</td>\n<td>123456</td>\n<td>TR</td>"));
}

#[test]
fn scenario_dmr_no_results_rendered() {
    let r = assemble("TA3KRT".to_string(), None, Some(vec![]), None);
    let page = render(&r);
    assert!(page.contains("<td> </td>\n<td></td>\n<td></td>\n<td>0</td>\n<td></td>\n</tr>"));
}

#[test]
fn index_page_is_entry_form() {
    assert_eq!(entry_form(), ENTRY_FORM);
    assert!(ENTRY_FORM.contains("window.location.href = \"/\" + sign;"));
}
