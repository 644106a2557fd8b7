use vstd::prelude::*;

verus! {

/// The media type assumed for an image whose reply declares none.
pub const DEFAULT_IMAGE_TYPE: &'static str = "image/jpg";

/// What the image source answered: the declared content type, if the reply
/// carried a readable one, and the raw bytes of the body.
pub struct ImageReply {
    pub content_type: Option<String>,
    pub body: Vec<u8>,
}

/// The standard (padded) base64 text of `bytes`, as `base64_simd` writes it.
pub uninterp spec fn base64_of(bytes: Seq<u8>) -> Seq<char>;

/// Relies on `base64_simd::STANDARD.encode_to_string`: the standard base64
/// text of the bytes. It panics only where the encoded length would exceed
/// half the address space, which `requires` leaves out.
#[verifier::external_body]
fn encode_base64(bytes: &[u8]) -> (r: String)
    requires
        bytes@.len() <= usize::MAX / 4,
    ensures
        r@ == base64_of(bytes@),
{
    base64_simd::STANDARD.encode_to_string(bytes)
}

/// The media type of an image reply: the declared one, else the default.
pub open spec fn media_type(content_type: Option<Seq<char>>) -> Seq<char> {
    match content_type {
        Some(t) => t,
        None => DEFAULT_IMAGE_TYPE@,
    }
}

/// `data:{media type};base64,{payload}`.
pub open spec fn data_uri_of(content_type: Option<Seq<char>>, payload: Seq<char>) -> Seq<char> {
    "data:"@ + media_type(content_type) + ";base64,"@ + payload
}

/// The view of an optional string.
pub open spec fn opt_view(s: Option<String>) -> Option<Seq<char>> {
    match s {
        Some(t) => Some(t@),
        None => None,
    }
}

/// Writes a data URI around a base64 payload.
pub fn data_uri(content_type: &Option<String>, payload: &str) -> (r: String)
    ensures
        r@ == data_uri_of(opt_view(*content_type), payload@),
{
    let mut r = String::from_str("data:");
    match content_type {
        Some(t) => r.append(t.as_str()),
        None => r.append(DEFAULT_IMAGE_TYPE),
    }
    r.append(";base64,");
    r.append(payload);
    r
}

/// The data URI that shows an image reply inline.
pub open spec fn image_uri_of(reply: ImageReply) -> Seq<char> {
    data_uri_of(opt_view(reply.content_type), base64_of(reply.body@))
}

/// Encodes the body of an image reply as a data URI.
pub fn image_data_uri(reply: &ImageReply) -> (r: String)
    requires
        reply.body@.len() <= usize::MAX / 4,
    ensures
        r@ == image_uri_of(*reply),
{
    let payload = encode_base64(reply.body.as_slice());
    data_uri(&reply.content_type, payload.as_str())
}

} // verus!
