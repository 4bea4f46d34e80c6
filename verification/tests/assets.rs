use users_api::assets::{
    decimal_text, get_hello, get_image, get_js, get_styles, hello_redirect, image_path, root,
    INDEX_CSS, INDEX_HTML, INDEX_JS,
};
use users_api::http::{Body, Header, Response, Status};

fn header(name: &str, value: &str) -> Header {
    Header { name: name.to_string(), value: value.to_string() }
}

fn page(content_type: &str, length: &str, content: &str) -> Response {
    Response {
        status: Status::Okay,
        headers: vec![
            header("Content-Type", content_type),
            header("Content-Length", length),
            header("X-Content-Type-Options", "nosniff"),
        ],
        body: Body::Text(content.to_string()),
    }
}

#[test]
fn status_codes() {
    assert_eq!(Status::Okay.code(), 200);
    assert_eq!(Status::Created.code(), 201);
    assert_eq!(Status::NoContent.code(), 204);
    assert_eq!(Status::MovedPermanently.code(), 301);
    assert_eq!(Status::NotFound.code(), 404);
    assert_eq!(Status::InternalServerError.code(), 500);
}

#[test]
fn text_response_has_no_headers() {
    assert_eq!(
        Response::text(Status::NotFound, "gone"),
        Response { status: Status::NotFound, headers: vec![], body: Body::Text("gone".to_string()) }
    );
}

#[test]
fn decimal_text_of_small_and_large_numbers() {
    assert_eq!(decimal_text(0), "0");
    assert_eq!(decimal_text(7), "7");
    assert_eq!(decimal_text(9), "9");
    assert_eq!(decimal_text(10), "10");
    assert_eq!(decimal_text(42), "42");
    assert_eq!(decimal_text(100), "100");
    assert_eq!(decimal_text(1009), "1009");
    assert_eq!(decimal_text(1234567890), "1234567890");
    assert_eq!(decimal_text(usize::MAX), usize::MAX.to_string());
}

#[test]
fn decimal_text_agrees_with_std() {
    for n in 0..2000usize {
        assert_eq!(decimal_text(n), n.to_string());
    }
}

#[test]
fn asset_paths() {
    assert_eq!(INDEX_HTML, "src/html/index.html");
    assert_eq!(INDEX_CSS, "src/css/index.css");
    assert_eq!(INDEX_JS, "src/js/index.js");
}

#[test]
fn root_serves_html() {
    let content = "<!doctype html><title>t</title>";
    assert_eq!(root(content.to_string()), page("text/html; charset=utf-8", "31", content));
}

#[test]
fn root_of_an_empty_file() {
    assert_eq!(root(String::new()), page("text/html; charset=utf-8", "0", ""));
}

#[test]
fn get_styles_serves_css() {
    let content = "body { margin: 0 }";
    assert_eq!(get_styles(content.to_string()), page("text/css; charset=utf-8", "18", content));
}

#[test]
fn get_js_serves_javascript() {
    let content = "console.log(1)";
    assert_eq!(
        get_js(content.to_string()),
        page("application/javascript; charset=utf-8", "14", content)
    );
}

#[test]
fn content_length_counts_bytes() {
    // five characters, six bytes
    let response = get_styles("caf\u{e9}s".to_string());
    assert_eq!(response.headers[1], header("Content-Length", "6"));
    // one character, four bytes
    let response = root("\u{1f600}".to_string());
    assert_eq!(response.headers[1], header("Content-Length", "4"));
}

#[test]
fn get_hello_says_hello() {
    assert_eq!(get_hello(), page("text/plain; charset=utf-8", "5", "hello"));
}

#[test]
fn hi_moves_to_hello_and_hello_answers() {
    let moved = hello_redirect();
    assert_eq!(moved.status.code(), 301);
    assert_eq!(moved.headers, vec![header("Location", "/hello")]);
    assert_eq!(moved.body, Body::Text(String::new()));
    // following the redirect
    let followed = get_hello();
    assert_eq!(followed.status.code(), 200);
    assert_eq!(followed.body, Body::Text("hello".to_string()));
}

#[test]
fn image_path_is_under_the_image_directory() {
    assert_eq!(image_path("cat.jpg"), "src/image/cat.jpg");
    assert_eq!(image_path("doesnotexist.jpg"), "src/image/doesnotexist.jpg");
    assert_eq!(image_path(""), "src/image/");
}

#[test]
fn missing_image_is_not_found() {
    // what the caller hands over for /image/doesnotexist.jpg
    let response = get_image(None);
    assert_eq!(response.status.code(), 404);
    assert_eq!(response, Response::text(Status::NotFound, "IMAGE NOT FOUND"));
}

#[test]
fn image_is_served_as_jpeg() {
    let bytes = vec![0xff, 0xd8, 0xff, 0xe0, 0x00, 0x10, 0x80, 0xfe];
    assert_eq!(
        get_image(Some(bytes.clone())),
        Response {
            status: Status::Okay,
            headers: vec![header("Content-Type", "image/jpeg")],
            body: Body::Bytes(bytes),
        }
    );
}

#[test]
fn empty_image_is_served() {
    assert_eq!(
        get_image(Some(vec![])),
        Response {
            status: Status::Okay,
            headers: vec![header("Content-Type", "image/jpeg")],
            body: Body::Bytes(vec![]),
        }
    );
}
