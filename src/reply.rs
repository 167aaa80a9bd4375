//! What each route answers, decided from plain values: the host header, the
//! outcome of the font fetch and the outcome of encoding the image.
use vstd::prelude::*;
use crate::host::{host_subdomain, parse_host};
use crate::label::{convert_punycode, label_text};
use crate::page::{create_html, page_text, render_page, select_page_text};

verus! {

/// Declares `image::DynamicImage`, which is carried through unopened.
#[verifier::external_type_specification]
#[verifier::external_body]
pub struct ExDynamicImage(image::DynamicImage);

/// The status of a successful answer.
pub const STATUS_OK: u16 = 200;

/// The status of a request that failed on the server's side.
pub const STATUS_SERVER_ERROR: u16 = 500;

/// The message when the font cannot be fetched.
pub const FONT_MISSING: &'static str = "Internal server error: cant find font";

/// The message when the image cannot be encoded.
pub const ENCODING_FAILED: &'static str = "Internal server error: cant create image";

/// An answer to a request.
#[derive(Debug)]
pub enum Reply {
    /// An HTML page.
    Html(String),
    /// Plain text.
    Text(String),
    /// An encoded image, with the format it is encoded in.
    Image(ImageFormat, Vec<u8>),
    /// A failure, with its status and message.
    Failure(u16, String),
}

impl Reply {
    /// The HTTP status of the answer.
    pub fn status(&self) -> (r: u16)
        ensures
            r == match self {
                Reply::Failure(s, _) => *s,
                _ => STATUS_OK,
            },
    {
        match self {
            Reply::Failure(s, _) => *s,
            _ => STATUS_OK,
        }
    }
}

/// The encodings the image is served in.
#[derive(Clone, Copy, Debug, PartialEq, Eq, Structural)]
pub enum ImageFormat {
    /// An icon, for the favicon route.
    Ico,
    /// A PNG image.
    Png,
}

/// The media type of an image format.
pub open spec fn media_type(format: ImageFormat) -> Seq<char> {
    match format {
        ImageFormat::Ico => "image/x-icon"@,
        ImageFormat::Png => "image/png"@,
    }
}

impl ImageFormat {
    /// The media type served with an image in this format.
    pub fn content_type(&self) -> (r: &'static str)
        ensures
            r@ == media_type(*self),
    {
        match self {
            ImageFormat::Ico => "image/x-icon",
            ImageFormat::Png => "image/png",
        }
    }
}

/// What encoding `img` in `format` gives: the bytes, or nothing when the
/// encoder fails. It depends on the image and the format alone.
pub uninterp spec fn image_encoding(img: image::DynamicImage, format: ImageFormat) -> Option<
    Seq<u8>,
>;

/// The label text a host header leads to: none without a header, else the
/// decoded subdomain label of the host.
pub open spec fn request_label_text(host: Option<Seq<char>>) -> Seq<char> {
    match host {
        Some(h) => label_text(host_subdomain(h)),
        None => Seq::empty(),
    }
}

/// The page for a host: the title and message of its label, rendered with
/// the host as the domain.
pub open spec fn index_page(h: Seq<char>) -> Seq<char> {
    let text = page_text(label_text(host_subdomain(h)));
    render_page(text.0, text.1, h)
}

/// The label text for a request's host header, as `request_label_text` states.
pub fn request_label(host: Option<String>) -> (r: String)
    ensures
        r@ == request_label_text(
            match host {
                Some(h) => Some(h@),
                None => None,
            },
        ),
{
    match host {
        Some(h) => {
            let (subdomain, _) = parse_host(h);
            convert_punycode(subdomain)
        },
        None => String::new(),
    }
}

/// The answer to the landing page route: without a host header an empty
/// text, else the page of the host's label.
pub fn index_reply(host: Option<String>) -> (r: Reply)
    ensures
        host is None ==> (r matches Reply::Text(b) && b@ == Seq::<char>::empty()),
        host is Some ==> (r matches Reply::Html(b) && b@ == index_page(host->0@)),
{
    match host {
        Some(h) => {
            let (subdomain, domain) = parse_host(h);
            let label = convert_punycode(subdomain);
            let (title, message) = select_page_text(&label);
            Reply::Html(create_html(title, message, domain))
        },
        None => Reply::Text(String::new()),
    }
}

/// The outcome of the font fetch: the font's bytes, or the failure that
/// answers the request when there are none.
pub fn font_or_failure(font: Option<Vec<u8>>) -> (r: Result<Vec<u8>, Reply>)
    ensures
        font is Some ==> r == Ok::<Vec<u8>, Reply>(font->0),
        font is None ==> (r matches Err(Reply::Failure(s, m)) && s == STATUS_SERVER_ERROR && m@
            == FONT_MISSING@),
{
    match font {
        Some(bytes) => Ok(bytes),
        None => Err(Reply::Failure(STATUS_SERVER_ERROR, String::from_str(FONT_MISSING))),
    }
}

/// The answer to an image route once encoding was attempted: the image in
/// `format`, or a failure when encoding gave no bytes.
pub fn encoded_image_reply(format: ImageFormat, encoded: Option<Vec<u8>>) -> (r: Reply)
    ensures
        encoded is Some ==> r == Reply::Image(format, encoded->0),
        encoded is None ==> (r matches Reply::Failure(s, m) && s == STATUS_SERVER_ERROR && m@
            == ENCODING_FAILED@),
{
    match encoded {
        Some(bytes) => Reply::Image(format, bytes),
        None => Reply::Failure(STATUS_SERVER_ERROR, String::from_str(ENCODING_FAILED)),
    }
}

/// Relies on `image::DynamicImage::write_to`: encodes the image into an
/// in-memory buffer in the given format, so the outcome depends on the image
/// and the format alone; any error is reported as `None`.
#[verifier::external_body]
fn write_image(img: &image::DynamicImage, format: ImageFormat) -> (r: Option<Vec<u8>>)
    ensures
        r is Some <==> image_encoding(*img, format) is Some,
        r is Some ==> r->0@ == image_encoding(*img, format)->0,
{
    let target = match format {
        ImageFormat::Ico => image::ImageOutputFormat::Ico,
        ImageFormat::Png => image::ImageOutputFormat::Png,
    };
    let mut buf = std::io::Cursor::new(Vec::new());
    match img.write_to(&mut buf, target) {
        Ok(()) => Some(buf.into_inner()),
        Err(_) => None,
    }
}

/// The answer to an image route for a drawn image: its encoding in
/// `format`, tagged with that format, or the encoding failure.
pub fn image_reply(img: &image::DynamicImage, format: ImageFormat) -> (r: Reply)
    ensures
        image_encoding(*img, format) is Some ==> (r matches Reply::Image(f, b) && f == format
            && b@ == image_encoding(*img, format)->0),
        image_encoding(*img, format) is None ==> (r matches Reply::Failure(s, m) && s
            == STATUS_SERVER_ERROR && m@ == ENCODING_FAILED@),
{
    let encoded = write_image(img, format);
    encoded_image_reply(format, encoded)
}

} // verus!
