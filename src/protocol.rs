//! Custom URI schemes: the MIME type a response is served with, and the
//! `https://custom-protocol-<name>` form under which WebView2, which only
//! intercepts standard schemes, sees a custom scheme `<name>://`.
use url::Url;
use vstd::prelude::*;
use vstd::string::*;

use crate::chars::{chars_of, find_char, first_index_of, replace_all, replace_str};
use crate::error::Error;

verus! {

#[verifier::external_type_specification]
#[verifier::external_body]
pub struct ExUrl(Url);

/// The MIME type that `infer` recognises from the leading bytes of `buf`.
pub uninterp spec fn sniffed_mime(buf: Seq<u8>) -> Option<Seq<char>>;

/// Whether `buf` holds `pat` at position `off`.
pub open spec fn bytes_at(buf: Seq<u8>, off: int, pat: Seq<u8>) -> bool {
    off + pat.len() <= buf.len() && buf.subrange(off, off + pat.len()) == pat
}

/// The little-endian `u32` held at bytes `off` to `off + 4` of `buf`.
pub open spec fn le_u32_at(buf: Seq<u8>, off: int) -> int {
    buf[off] + 256 * buf[off + 1] + 65536 * buf[off + 2] + 16777216 * buf[off + 3]
}

/// The start of a ZIP local file header.
pub open spec fn zip_signature() -> Seq<u8> {
    seq![0x50u8, 0x4B, 0x03, 0x04]
}

/// `[Content_Types].xml`, `_rels/.rels` and `docProps`: the first entries of
/// an Office Open XML archive.
pub open spec fn ooxml_entry_names() -> Seq<Seq<u8>> {
    seq![seq![0x5B, 0x43, 0x6F, 0x6E, 0x74, 0x65, 0x6E, 0x74, 0x5F, 0x54, 0x79, 0x70, 0x65, 0x73, 0x5D, 0x2E, 0x78, 0x6D, 0x6C], seq![0x5F, 0x72, 0x65, 0x6C, 0x73, 0x2F, 0x2E, 0x72, 0x65, 0x6C, 0x73], seq![0x64, 0x6F, 0x63, 0x50, 0x72, 0x6F, 0x70, 0x73]]
}

/// The buffers on which `infer`'s Office Open XML matcher overflows: a ZIP
/// header whose first entry is one of the Office Open XML names, and whose
/// compressed size (the `u32` at byte 18) leaves no room either for the 49
/// the matcher adds to it as a `u32`, or for the 6049 it then adds to it as
/// a `usize` (the end of the range it searches for the next header).
pub open spec fn sniffing_overflows(buf: Seq<u8>) -> bool {
    &&& bytes_at(buf, 0, zip_signature())
    &&& exists|j: int| 0 <= j < 3 && bytes_at(buf, 30, #[trigger] ooxml_entry_names()[j])
    &&& (le_u32_at(buf, 18) + 49 > u32::MAX || le_u32_at(buf, 18) + 49 + 6000 > usize::MAX)
}

/// Relies on `infer::get`, which picks the file type whose signature the
/// leading bytes match, and on the MIME string of that type
/// (`infer::Type::mime_type`). Which type matches depends on the bytes alone.
/// Its Office Open XML matcher adds 49 to a `u32` read from the buffer, and
/// then 6000 to that as a `usize`; either addition overflows on the buffers
/// that `sniffing_overflows` describes.
#[verifier::external_body]
fn sniff_mime(buf: &[u8]) -> (r: Option<&'static str>)
    requires
        !sniffing_overflows(buf@),
    ensures
        match r {
            Some(m) => sniffed_mime(buf@) == Some(m@),
            None => sniffed_mime(buf@) is None,
        },
{
    infer::get(buf).map(|t| t.mime_type())
}

fn holds_at(buf: &[u8], off: usize, pat: &Vec<u8>) -> (r: bool)
    ensures
        r == bytes_at(buf@, off as int, pat@),
{
    if off > buf.len() || pat.len() > buf.len() - off {
        return false;
    }
    let total = buf.len();
    let mut j: usize = 0;
    while j < pat.len()
        invariant
            total == buf@.len(),
            off + pat@.len() <= buf@.len(),
            j <= pat@.len(),
            buf@.subrange(off as int, off + j) == pat@.subrange(0, j as int),
        decreases pat@.len() - j,
    {
        if buf[off + j] != pat[j] {
            assert(buf@.subrange(off as int, off + pat@.len())[j as int] != pat@[j as int]);
            return false;
        }
        assert(buf@.subrange(off as int, off + j + 1) =~= pat@.subrange(0, j + 1));
        j = j + 1;
    }
    assert(pat@.subrange(0, j as int) =~= pat@);
    true
}

/// Whether sniffing the MIME type of `buf` would overflow, so that
/// `mime_type_of` must not be called on it.
pub fn sniffing_would_overflow(buf: &[u8]) -> (r: bool)
    ensures
        r == sniffing_overflows(buf@),
{
    let zip: Vec<u8> = vec![0x50u8, 0x4B, 0x03, 0x04];
    let content_types: Vec<u8> = vec![0x5B, 0x43, 0x6F, 0x6E, 0x74, 0x65, 0x6E, 0x74, 0x5F, 0x54, 0x79, 0x70, 0x65, 0x73, 0x5D, 0x2E, 0x78, 0x6D, 0x6C];
    let rels: Vec<u8> = vec![0x5F, 0x72, 0x65, 0x6C, 0x73, 0x2F, 0x2E, 0x72, 0x65, 0x6C, 0x73];
    let doc_props: Vec<u8> = vec![0x64, 0x6F, 0x63, 0x50, 0x72, 0x6F, 0x70, 0x73];
    assert(zip@ =~= zip_signature());
    assert(content_types@ =~= ooxml_entry_names()[0]);
    assert(rels@ =~= ooxml_entry_names()[1]);
    assert(doc_props@ =~= ooxml_entry_names()[2]);
    if !holds_at(buf, 0, &zip) {
        return false;
    }
    let named = holds_at(buf, 30, &content_types) || holds_at(buf, 30, &rels) || holds_at(
        buf,
        30,
        &doc_props,
    );
    if !named {
        return false;
    }
    let size: u64 = buf[18] as u64 + 256 * (buf[19] as u64) + 65536 * (buf[20] as u64) + 16777216 * (
    buf[21] as u64);
    size + 49 > 4294967295u64 || size + 6049 > usize::MAX as u64
}

/// The MIME type served when the content's type is not recognised.
pub open spec fn fallback_mime() -> Seq<char> {
    "text/plain"@
}

/// The MIME type to serve: the recognised one, else `text/plain`.
pub fn mime_or_plain(sniffed: Option<&str>) -> (r: String)
    ensures
        r@ == match sniffed {
            Some(m) => m@,
            None => fallback_mime(),
        },
{
    match sniffed {
        Some(m) => m.to_owned(),
        None => String::from_str("text/plain"),
    }
}

/// The MIME type that content `buffer` is served with.
pub open spec fn served_mime(buffer: Seq<u8>) -> Seq<char> {
    match sniffed_mime(buffer) {
        Some(m) => m,
        None => fallback_mime(),
    }
}

/// The MIME type that a custom-protocol response with content `buffer` is
/// served with.
pub fn mime_type_of(buffer: &[u8]) -> (r: String)
    requires
        !sniffing_overflows(buffer@),
    ensures
        r@ == served_mime(buffer@),
{
    mime_or_plain(sniff_mime(buffer))
}

/// The `Content-Type` header line of a response of type `mime`.
pub fn content_type_header(mime: &str) -> (r: String)
    ensures
        r@ == "Content-Type: "@ + mime@,
{
    String::from_str("Content-Type: ").concat(mime)
}

/// The standard-scheme prefix that stands for `<name>://` on WebView2.
pub open spec fn stand_in_prefix(name: Seq<char>) -> Seq<char> {
    "https://custom-protocol-"@ + name
}

/// `<name>://`, the start of a URL of the custom scheme `name`.
pub open spec fn scheme_prefix(name: Seq<char>) -> Seq<char> {
    name + "://"@
}

fn stand_in_prefix_of(name: &str) -> (r: String)
    ensures
        r@ == stand_in_prefix(name@),
{
    String::from_str("https://custom-protocol-").concat(name)
}

fn scheme_prefix_of(name: &str) -> (r: String)
    ensures
        r@ == scheme_prefix(name@),
{
    String::from_str(name).concat("://")
}

/// The filter under which WebView2 hands the requests of the custom scheme
/// `name` to the host: every URL that starts with its stand-in prefix.
pub fn resource_filter(name: &str) -> (r: String)
    ensures
        r@ == stand_in_prefix(name@) + "*"@,
{
    stand_in_prefix_of(name).concat("*")
}

/// The URL that the custom-protocol handler of `name` is given for a request
/// that WebView2 made to `uri`: each stand-in prefix turned back into
/// `<name>://`.
pub fn request_path(uri: &str, name: &str) -> (r: String)
    ensures
        r@ == replace_all(uri@, stand_in_prefix(name@), scheme_prefix(name@)),
{
    let from = stand_in_prefix_of(name);
    let to = scheme_prefix_of(name);
    replace_str(uri, from.as_str(), to.as_str())
}


/// A page URL as the navigation logic reads it: its serialization, its
/// scheme, and whether it is a cannot-be-a-base URL (such as a `data:` URL).
pub struct PageUrl {
    pub text: String,
    pub scheme: String,
    pub cannot_be_a_base: bool,
}

/// How the three parts of a URL's reading relate: the serialization starts
/// with the scheme and a `:`, and the URL cannot be a base exactly when no `/`
/// follows that `:`.
pub open spec fn url_parts_agree(text: Seq<char>, scheme: Seq<char>, cannot_be_a_base: bool) -> bool {
    &&& scheme.len() < text.len()
    &&& text.subrange(0, scheme.len() as int) == scheme
    &&& text[scheme.len() as int] == ':'
    &&& cannot_be_a_base == !(scheme.len() + 1 < text.len() && text[scheme.len() + 1int] == '/')
}

/// Relies on `url::Url::as_str` (the serialization), `url::Url::scheme` (the
/// part of it before the `:` that ends the scheme) and
/// `url::Url::cannot_be_a_base` (whether no `/` follows that `:`).
#[verifier::external_body]
fn url_parts(url: &Url) -> (r: (String, String, bool))
    ensures
        url_parts_agree(r.0@, r.1@, r.2),
{
    (url.as_str().to_string(), url.scheme().to_string(), url.cannot_be_a_base())
}

impl PageUrl {
    /// Reads `url`.
    pub fn from_url(url: &Url) -> (r: PageUrl)
        ensures
            url_parts_agree(r.text@, r.scheme@, r.cannot_be_a_base),
    {
        let (text, scheme, cannot_be_a_base) = url_parts(url);
        PageUrl { text, scheme, cannot_be_a_base }
    }
}

/// What WebView2 is told to show for a page URL.
pub enum Navigation {
    /// Navigate to this URL.
    Url(String),
    /// Show this content, taken from a cannot-be-a-base URL such as a `data:`
    /// URL: what follows its first `,`.
    Content(String),
    /// Nothing to show: a cannot-be-a-base URL without a `,`.
    Nothing,
}

/// Whether `name` is one of `names`.
pub open spec fn names_contain(names: Seq<String>, name: Seq<char>) -> bool {
    exists|j: int| 0 <= j < names.len() && (#[trigger] names[j])@ == name
}

fn contains_name(names: &Vec<String>, name: &str) -> (r: bool)
    ensures
        r == names_contain(names@, name@),
{
    let target = name.to_owned();
    let mut j: usize = 0;
    while j < names.len()
        invariant
            j <= names@.len(),
            target@ == name@,
            forall|k: int| 0 <= k < j ==> (#[trigger] names@[k])@ != name@,
        decreases names@.len() - j,
    {
        if names[j] == target {
            return true;
        }
        j = j + 1;
    }
    false
}

/// The URL navigated to for a URL that can be a base: `text` itself, or,
/// when `scheme` is one of the custom protocols, `text` with `<scheme>://`
/// replaced by the stand-in prefix.
pub open spec fn navigation_url(text: Seq<char>, scheme: Seq<char>, names: Seq<String>) -> Seq<char> {
    if names_contain(names, scheme) {
        replace_all(text, scheme_prefix(scheme), stand_in_prefix(scheme))
    } else {
        text
    }
}

/// Where WebView2 navigates for `url`, given the names of the custom
/// protocols that the webview registered.
///
/// A cannot-be-a-base URL shows what follows its first `,`, and nothing when
/// it has none. Any other URL is navigated to, with its scheme prefix
/// `<scheme>://` replaced by the stand-in prefix when its scheme is one of the
/// custom protocols.
pub fn navigation_for(url: &PageUrl, custom_protocol_names: &Vec<String>) -> (r: Navigation)
    ensures
        url.cannot_be_a_base ==> match first_index_of(url.text@, ',') {
            Some(i) => (r matches Navigation::Content(c) && c@ == url.text@.subrange(
                i + 1,
                url.text@.len() as int,
            )),
            None => r is Nothing,
        },
        !url.cannot_be_a_base ==> (r matches Navigation::Url(u) && u@ == navigation_url(
            url.text@,
            url.scheme@,
            custom_protocol_names@,
        )),
{
    if url.cannot_be_a_base {
        let chars = chars_of(url.text.as_str());
        match find_char(&chars, ',') {
            Some(i) => {
                proof {
                    lemma_first_index_in_bounds(chars@, ',');
                }
                let n = url.text.as_str().unicode_len();
                Navigation::Content(url.text.as_str().substring_char(i + 1, n).to_owned())
            },
            None => Navigation::Nothing,
        }
    } else if contains_name(custom_protocol_names, url.scheme.as_str()) {
        let from = scheme_prefix_of(url.scheme.as_str());
        let to = stand_in_prefix_of(url.scheme.as_str());
        Navigation::Url(replace_str(url.text.as_str(), from.as_str(), to.as_str()))
    } else {
        Navigation::Url(url.text.clone())
    }
}

proof fn lemma_first_index_in_bounds(s: Seq<char>, c: char)
    ensures
        first_index_of(s, c) matches Some(i) ==> 0 <= i < s.len() && s[i] == c,
    decreases s.len(),
{
    if s.len() > 0 && s[0] != c {
        lemma_first_index_in_bounds(s.drop_first(), c);
    }
}


/// A custom URI scheme and the function that answers its requests.
pub struct CustomProtocol<F> {
    pub name: String,
    pub handler: F,
}

/// The scheme names of `protocols`, in order.
pub fn protocol_names<F>(protocols: &Vec<CustomProtocol<F>>) -> (r: Vec<String>)
    ensures
        r@.len() == protocols@.len(),
        forall|i: int| 0 <= i < r@.len() ==> (#[trigger] r@[i])@ == protocols@[i].name@,
{
    let mut r: Vec<String> = Vec::new();
    let mut i: usize = 0;
    while i < protocols.len()
        invariant
            i <= protocols@.len(),
            r@.len() == i,
            forall|k: int| 0 <= k < i ==> (#[trigger] r@[k])@ == protocols@[k].name@,
        decreases protocols@.len() - i,
    {
        r.push(protocols[i].name.clone());
        i = i + 1;
    }
    r
}


/// How a webview's request to a custom scheme is answered.
pub enum ProtocolResponse {
    /// The resource, with the MIME type it is served with.
    Resource { mime: String, content: Vec<u8> },
    /// A failure, with its message.
    Failure(String),
}

/// The answer to a request whose URI could not be read.
pub fn missing_uri_response() -> (r: ProtocolResponse)
    ensures
        r matches ProtocolResponse::Failure(m) && m@ == "Could not get uri."@,
{
    ProtocolResponse::Failure(String::from_str("Could not get uri."))
}

/// The answer to a request, given what the scheme's handler returned: its
/// content, served with the MIME type recognised in it, or a failure.
pub fn protocol_response(answer: Result<Vec<u8>, Error>) -> (r: ProtocolResponse)
    requires
        answer matches Ok(b) ==> !sniffing_overflows(b@),
    ensures
        match answer {
            Ok(b) => (r matches ProtocolResponse::Resource { mime, content } && content@ == b@
                && mime@ == served_mime(b@)),
            Err(_) => (r matches ProtocolResponse::Failure(m) && m@
                == "Could not get requested file."@),
        },
{
    match answer {
        Ok(content) => {
            let mime = mime_type_of(content.as_slice());
            ProtocolResponse::Resource { mime, content }
        },
        Err(_) => ProtocolResponse::Failure(String::from_str("Could not get requested file.")),
    }
}

} // verus!
