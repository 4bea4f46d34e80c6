//! The fixed pages and the images. The caller reads the files; what is
//! sent for them is decided here.

use crate::http::{plain, Body, BodyView, Header, HeaderView, Response, ResponseView, Status};
use vstd::prelude::*;
use vstd::string::StringExecFns;
use vstd::utf8::encode_utf8;

verus! {

/// Where the front page is read from.
pub const INDEX_HTML: &'static str = "src/html/index.html";

/// Where the stylesheet is read from.
pub const INDEX_CSS: &'static str = "src/css/index.css";

/// Where the script is read from.
pub const INDEX_JS: &'static str = "src/js/index.js";

/// The decimal digit for a number below ten.
pub open spec fn digit(n: nat) -> char
    recommends
        n < 10,
{
    (n + '0' as nat) as u8 as char
}

/// `n` in decimal, without leading zeros.
pub open spec fn decimal(n: nat) -> Seq<char>
    decreases n,
{
    if n < 10 {
        seq![digit(n)]
    } else {
        decimal(n / 10).push(digit(n % 10))
    }
}

/// A page of text: its type, its length in bytes, `nosniff`, and the text.
pub open spec fn page(content_type: Seq<char>, content: Seq<char>) -> ResponseView {
    ResponseView {
        status: Status::Okay,
        headers: seq![
            HeaderView { name: "Content-Type"@, value: content_type },
            HeaderView { name: "Content-Length"@, value: decimal(encode_utf8(content).len()) },
            HeaderView { name: "X-Content-Type-Options"@, value: "nosniff"@ },
        ],
        body: BodyView::Text(content),
    }
}

/// A permanent redirect to `location`, with an empty body.
pub open spec fn moved(location: Seq<char>) -> ResponseView {
    ResponseView {
        status: Status::MovedPermanently,
        headers: seq![HeaderView { name: "Location"@, value: location }],
        body: BodyView::Text(Seq::empty()),
    }
}

/// What is sent for an image: its bytes as a JPEG, or that there is none.
pub open spec fn image(file: Option<Seq<u8>>) -> ResponseView {
    match file {
        Some(bytes) => ResponseView {
            status: Status::Okay,
            headers: seq![HeaderView { name: "Content-Type"@, value: "image/jpeg"@ }],
            body: BodyView::Bytes(bytes),
        },
        None => plain(Status::NotFound, "IMAGE NOT FOUND"@),
    }
}

fn digit_text(d: usize) -> (r: &'static str)
    requires
        d < 10,
    ensures
        r@ == seq![digit(d as nat)],
{
    proof {
        reveal_strlit("0");
        reveal_strlit("1");
        reveal_strlit("2");
        reveal_strlit("3");
        reveal_strlit("4");
        reveal_strlit("5");
        reveal_strlit("6");
        reveal_strlit("7");
        reveal_strlit("8");
        reveal_strlit("9");
    }
    let r = if d == 0 {
        "0"
    } else if d == 1 {
        "1"
    } else if d == 2 {
        "2"
    } else if d == 3 {
        "3"
    } else if d == 4 {
        "4"
    } else if d == 5 {
        "5"
    } else if d == 6 {
        "6"
    } else if d == 7 {
        "7"
    } else if d == 8 {
        "8"
    } else {
        "9"
    };
    assert(r@ =~= seq![digit(d as nat)]);
    r
}

/// Writes `n` in decimal.
pub fn decimal_text(n: usize) -> (r: String)
    ensures
        r@ == decimal(n as nat),
    decreases n,
{
    if n < 10 {
        String::from_str(digit_text(n))
    } else {
        let mut out = decimal_text(n / 10);
        out.append(digit_text(n % 10));
        out
    }
}

fn header(name: &str, value: &str) -> (r: Header)
    ensures
        r@ == (HeaderView { name: name@, value: value@ }),
{
    Header { name: String::from_str(name), value: String::from_str(value) }
}

fn text_page(content_type: &str, content: String) -> (r: Response)
    ensures
        r@ == page(content_type@, content@),
{
    let length = decimal_text(content.as_str().as_bytes().len());
    let mut headers: Vec<Header> = Vec::new();
    headers.push(header("Content-Type", content_type));
    headers.push(header("Content-Length", length.as_str()));
    headers.push(header("X-Content-Type-Options", "nosniff"));
    let r = Response { status: Status::Okay, headers, body: Body::Text(content) };
    assert(r@.headers =~= page(content_type@, content@).headers);
    r
}

/// The front page, from the text of [`INDEX_HTML`].
pub fn root(content: String) -> (r: Response)
    ensures
        r@ == page("text/html; charset=utf-8"@, content@),
{
    text_page("text/html; charset=utf-8", content)
}

/// The stylesheet, from the text of [`INDEX_CSS`].
pub fn get_styles(content: String) -> (r: Response)
    ensures
        r@ == page("text/css; charset=utf-8"@, content@),
{
    text_page("text/css; charset=utf-8", content)
}

/// The script, from the text of [`INDEX_JS`].
pub fn get_js(content: String) -> (r: Response)
    ensures
        r@ == page("application/javascript; charset=utf-8"@, content@),
{
    text_page("application/javascript; charset=utf-8", content)
}

/// The greeting: five bytes of plain text.
pub fn get_hello() -> (r: Response)
    ensures
        r@ == page("text/plain; charset=utf-8"@, "hello"@),
        r@.headers[1].value == "5"@,
{
    let r = text_page("text/plain; charset=utf-8", String::from_str("hello"));
    proof {
        reveal_strlit("hello");
        reveal_strlit("5");
        vstd::utf8::is_ascii_chars_encode_utf8("hello"@);
        assert(decimal(5) =~= "5"@);
    }
    r
}

/// The old address of the greeting: moved for good to `/hello`.
pub fn hello_redirect() -> (r: Response)
    ensures
        r@ == moved("/hello"@),
{
    let mut headers: Vec<Header> = Vec::new();
    headers.push(header("Location", "/hello"));
    let r = Response { status: Status::MovedPermanently, headers, body: Body::Text(String::new()) };
    assert(r@.headers =~= moved("/hello"@).headers);
    r
}

/// Where the image called `image_name` is read from.
pub fn image_path(image_name: &str) -> (r: String)
    ensures
        r@ == "src/image/"@ + image_name@,
{
    let mut path = String::from_str("src/image/");
    path.append(image_name);
    path
}

/// What is sent for an image: `file` holds its bytes, or `None` where the
/// file could not be opened.
pub fn get_image(file: Option<Vec<u8>>) -> (r: Response)
    ensures
        r@ == image(
            match file {
                Some(bytes) => Some(bytes@),
                None => None,
            },
        ),
{
    match file {
        Some(bytes) => {
            let mut headers: Vec<Header> = Vec::new();
            headers.push(header("Content-Type", "image/jpeg"));
            let r = Response { status: Status::Okay, headers, body: Body::Bytes(bytes) };
            assert(r@.headers =~= image(Some(bytes@)).headers);
            r
        },
        None => Response::text(Status::NotFound, "IMAGE NOT FOUND"),
    }
}

} // verus!
