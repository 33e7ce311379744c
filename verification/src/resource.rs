//! Classifying a finished fetch: text, image or opaque, by content type.

use crate::headers::Headers;
use crate::pixels::{decoded_pixels, PixelBuffer, Pixels};
use crate::response::{FetchOutcome, RawResponse};
use crate::text::{ascii_lowercase, lower, starts_with};
use vstd::prelude::*;

verus! {

/// What the content type says about a body, before anything is decoded.
#[derive(Clone, Copy, Debug, PartialEq, Eq, Structural)]
pub enum BodyClass {
    /// The content type begins with `image/`, in any letter case.
    Image,
    /// There is a content type and it names no image.
    Text,
    /// There is no content type.
    Opaque,
}

/// The class of a body under a header table: opaque without a
/// `content-type`, image where its lower-cased value begins with `image/`,
/// text otherwise.
pub open spec fn body_class_of(headers: Map<Seq<char>, Seq<char>>) -> BodyClass {
    if !headers.contains_key("content-type"@) {
        BodyClass::Opaque
    } else if "image/"@.is_prefix_of(lower(headers["content-type"@])) {
        BodyClass::Image
    } else {
        BodyClass::Text
    }
}

/// The class of a body under `headers`.
pub fn body_class(headers: &Headers) -> (class: BodyClass)
    ensures
        class == body_class_of(headers@),
{
    match headers.get("content-type") {
        None => BodyClass::Opaque,
        Some(value) => {
            let lowered = ascii_lowercase(value.as_str());
            if starts_with(lowered.as_str(), "image/") {
                BodyClass::Image
            } else {
                BodyClass::Text
            }
        },
    }
}

/// The text that `bytes` read as when every malformed UTF-8 sequence in them
/// is replaced by U+FFFD. It stands for `String::from_utf8_lossy`.
pub uninterp spec fn lossy_utf8(bytes: Seq<u8>) -> Seq<char>;

/// `String::from_utf8_lossy` of std, made an owned `String`. The result
/// depends on the bytes alone and is named `lossy_utf8(bytes)`. Its
/// documentation says that valid UTF-8 comes back as the string it encodes,
/// with nothing replaced; the second clause states that.
#[verifier::external_body]
fn decode_lossy(bytes: &[u8]) -> (text: String)
    ensures
        text@ == lossy_utf8(bytes@),
        vstd::utf8::valid_utf8(bytes@) ==> text@ == vstd::utf8::decode_utf8(bytes@),
{
    String::from_utf8_lossy(bytes).into_owned()
}

/// The classified body of a response.
pub enum Kind {
    /// A decoded image.
    Image(PixelBuffer),
    /// The body read as text.
    Text(String),
    /// Nothing to show: no content type, or an image that did not decode.
    Opaque,
}

/// A `Kind` as a mathematical value.
pub enum KindView {
    Image(Pixels),
    Text(Seq<char>),
    Opaque,
}

impl View for Kind {
    type V = KindView;

    open spec fn view(&self) -> KindView {
        match self {
            Kind::Image(buffer) => KindView::Image(buffer@),
            Kind::Text(text) => KindView::Text(text@),
            Kind::Opaque => KindView::Opaque,
        }
    }
}

/// The kind of a body of `bytes` under `headers`. An image body that does
/// not decode is opaque; a text body is read lossily and always yields text.
pub open spec fn kind_of(headers: Map<Seq<char>, Seq<char>>, bytes: Seq<u8>) -> KindView {
    match body_class_of(headers) {
        BodyClass::Image => match decoded_pixels(bytes) {
            Some(pixels) => KindView::Image(pixels),
            None => KindView::Opaque,
        },
        BodyClass::Text => KindView::Text(lossy_utf8(bytes)),
        BodyClass::Opaque => KindView::Opaque,
    }
}

impl Kind {
    /// The kind of an image body, given what decoding it gave.
    pub fn from_decoded(decoded: Option<PixelBuffer>) -> (kind: Kind)
        ensures
            kind == match decoded {
                Some(buffer) => Kind::Image(buffer),
                None => Kind::Opaque,
            },
    {
        match decoded {
            Some(buffer) => Kind::Image(buffer),
            None => Kind::Opaque,
        }
    }
}

/// What is known of the lossy reading of `bytes` once they were read: valid
/// UTF-8 reads as the text that it encodes.
pub open spec fn lossy_reads_valid(bytes: Seq<u8>) -> bool {
    vstd::utf8::valid_utf8(bytes) ==> lossy_utf8(bytes) == vstd::utf8::decode_utf8(bytes)
}

/// `result` is what classifying `outcome` gives: for a transport failure the
/// error with its message, for a delivered response of any status the
/// resource that carries it, with the body classified by `kind_of`.
pub open spec fn classified(outcome: FetchOutcome, result: Result<Resource, String>) -> bool {
    match outcome {
        Ok(raw) => {
            &&& result matches Ok(resource)
            &&& resource.carries(raw)
            &&& resource.kind@ == kind_of(raw.headers@, raw.bytes@)
            &&& body_class_of(raw.headers@) == BodyClass::Text ==> lossy_reads_valid(raw.bytes@)
        },
        Err(error) => result matches Err(message) && message@ == error.message_text(),
    }
}

/// A delivered response is never a failure, whatever its status: it
/// classifies as a resource with that status. A text body of valid UTF-8 is
/// the text that the bytes encode.
pub proof fn lemma_status_is_no_failure(raw: RawResponse, result: Result<Resource, String>)
    requires
        classified(Ok(raw), result),
    ensures
        result matches Ok(resource) && resource.status == raw.status && resource.url == raw.url,
        body_class_of(raw.headers@) == BodyClass::Text && vstd::utf8::valid_utf8(raw.bytes@)
            ==> result->Ok_0.kind@ == KindView::Text(vstd::utf8::decode_utf8(raw.bytes@)),
{
}

/// Under a content type that names an image, the body is the decoded image
/// with the decoder's dimensions, or opaque where it does not decode; it is
/// never a failure and never text.
pub proof fn lemma_image_or_opaque(raw: RawResponse, result: Result<Resource, String>)
    requires
        classified(Ok(raw), result),
        body_class_of(raw.headers@) == BodyClass::Image,
    ensures
        result matches Ok(resource) && resource.kind@ == match decoded_pixels(raw.bytes@) {
            Some(pixels) => KindView::Image(pixels),
            None => KindView::Opaque,
        },
{
}

/// `image/png` names an image and `text/plain` names text.
pub proof fn lemma_common_content_types(headers: Map<Seq<char>, Seq<char>>)
    requires
        headers.contains_key("content-type"@),
    ensures
        headers["content-type"@] == "image/png"@ ==> body_class_of(headers) == BodyClass::Image,
        headers["content-type"@] == "text/plain"@ ==> body_class_of(headers) == BodyClass::Text,
{
    reveal_strlit("image/");
    reveal_strlit("image/png");
    reveal_strlit("text/plain");
    let png = "image/png"@;
    let plain = "text/plain"@;
    assert(lower(png) =~= png);
    assert(lower(plain) =~= plain);
    assert("image/"@ =~= png.subrange(0, 6));
    assert(plain.subrange(0, 6)[0] != "image/"@[0]);
}

/// A response made ready for display: what the transport delivered, and the
/// body classified.
pub struct Resource {
    /// The URL the response came from, after redirects.
    pub url: String,
    /// Status code, such as 404.
    pub status: u16,
    /// Status text, such as "Not Found".
    pub status_text: String,
    /// The raw body.
    pub bytes: Vec<u8>,
    /// The headers, names in lower case.
    pub headers: Headers,
    /// The body, classified.
    pub kind: Kind,
}

impl Resource {
    /// This resource holds every field of `raw` as it was delivered.
    pub open spec fn carries(&self, raw: RawResponse) -> bool {
        &&& self.url == raw.url
        &&& self.status == raw.status
        &&& self.status_text == raw.status_text
        &&& self.bytes == raw.bytes
        &&& self.headers == raw.headers
    }

    /// The resource for `raw` with its body classified as `kind`.
    pub fn with_kind(raw: RawResponse, kind: Kind) -> (resource: Resource)
        ensures
            resource.carries(raw),
            resource.kind == kind,
    {
        Resource {
            url: raw.url,
            status: raw.status,
            status_text: raw.status_text,
            bytes: raw.bytes,
            headers: raw.headers,
            kind,
        }
    }

    /// Classifies a finished fetch. A transport failure gives its message as
    /// the error. Every delivered response gives a resource, whatever its
    /// status.
    pub fn from_response(outcome: FetchOutcome) -> (result: Result<Resource, String>)
        ensures
            classified(outcome, result),
    {
        match outcome {
            Err(error) => Err(error.message()),
            Ok(raw) => {
                let kind = match body_class(&raw.headers) {
                    BodyClass::Image => Kind::from_decoded(PixelBuffer::decode(raw.bytes.as_slice())),
                    BodyClass::Text => Kind::Text(decode_lossy(raw.bytes.as_slice())),
                    BodyClass::Opaque => Kind::Opaque,
                };
                Ok(Resource::with_kind(raw, kind))
            },
        }
    }

    /// The value of the `content-type` header, if the response had one.
    pub fn content_type(&self) -> (value: Option<&String>)
        ensures
            match value {
                Some(v) => self.headers@.contains_key("content-type"@)
                    && self.headers@["content-type"@] == v@,
                None => !self.headers@.contains_key("content-type"@),
            },
    {
        self.headers.get("content-type")
    }

    /// The body as text, where it was classified as text.
    pub fn text(&self) -> (text: Option<&String>)
        ensures
            match text {
                Some(t) => self.kind == Kind::Text(*t),
                None => !(self.kind is Text),
            },
    {
        match &self.kind {
            Kind::Text(text) => Some(text),
            _ => None,
        }
    }

    /// The decoded image, where the body was classified as one.
    pub fn image(&self) -> (image: Option<&PixelBuffer>)
        ensures
            match image {
                Some(buffer) => self.kind == Kind::Image(*buffer),
                None => !(self.kind is Image),
            },
    {
        match &self.kind {
            Kind::Image(buffer) => Some(buffer),
            _ => None,
        }
    }

    /// Length of the raw body in bytes.
    pub fn byte_len(&self) -> (len: usize)
        ensures
            len == self.bytes@.len(),
    {
        self.bytes.len()
    }
}

} // verus!
