use session_auth::error::{customize_error, Error};
use session_auth::handlers::{footer, home_page};
use session_auth::models::User;
use session_auth::response::{Page, Response};
use session_auth::secret::random_key;
use session_auth::statics::{static_file, StaticFile};
use session_auth::text::same_text;

fn error_page(code: u16, text: &str) -> Response {
    Response {
        status: code,
        location: None,
        set_cookie: None,
        content_type: "text/html; charset=utf-8".to_string(),
        page: Page::Failure { code, text: text.to_string() },
    }
}

fn bundle() -> Vec<StaticFile> {
    vec![
        StaticFile {
            name: "style-a1b2c3d4.css".to_string(),
            mime: "text/css".to_string(),
            content: b"body { margin: 0 }".to_vec(),
        },
        StaticFile {
            name: "logo-e5f6a7b8.png".to_string(),
            mime: "image/png".to_string(),
            content: vec![0x89, 0x50, 0x4e, 0x47],
        },
        StaticFile {
            name: "style-a1b2c3d4.css".to_string(),
            mime: "text/plain".to_string(),
            content: b"shadowed".to_vec(),
        },
    ]
}

#[test]
fn not_found_page() {
    assert_eq!(Error::NotFound.status_code(), 404);
    assert_eq!(Error::NotFound.message(), "The resource you requested could not be located.");
    assert_eq!(
        Error::NotFound.into_response(),
        error_page(404, "The resource you requested could not be located.")
    );
}

#[test]
fn internal_error_page() {
    assert_eq!(Error::InternalError.status_code(), 500);
    assert_eq!(Error::InternalError.message(), "Something went wrong.");
    assert_eq!(Error::InternalError.into_response(), error_page(500, "Something went wrong."));
}

#[test]
fn rejections_become_error_pages() {
    assert_eq!(Error::of_rejection(true), Error::NotFound);
    assert_eq!(Error::of_rejection(false), Error::InternalError);
    assert_eq!(
        customize_error(true),
        error_page(404, "The resource you requested could not be located.")
    );
    assert_eq!(customize_error(false), error_page(500, "Something went wrong."));
}

#[test]
fn bundled_file_is_served_with_its_content_type() {
    let expected = Response {
        status: 200,
        location: None,
        set_cookie: None,
        content_type: "image/png".to_string(),
        page: Page::Asset { content: vec![0x89, 0x50, 0x4e, 0x47] },
    };
    assert_eq!(static_file(&bundle(), "logo-e5f6a7b8.png"), Ok(expected));
}

#[test]
fn first_file_of_a_name_is_served() {
    let files = bundle();
    let found = StaticFile::get(&files, "style-a1b2c3d4.css").unwrap();
    assert_eq!(found.mime, "text/css");
    let response = static_file(&files, "style-a1b2c3d4.css").unwrap();
    assert_eq!(response.status, 200);
    assert_eq!(response.content_type, "text/css");
    assert_eq!(response.page, Page::Asset { content: b"body { margin: 0 }".to_vec() });
}

#[test]
fn unknown_file_is_not_found() {
    let files = bundle();
    assert_eq!(static_file(&files, "logo.png"), Err(Error::NotFound));
    assert_eq!(static_file(&files, "LOGO-E5F6A7B8.PNG"), Err(Error::NotFound));
    assert_eq!(static_file(&files, "logo-e5f6a7b8.png "), Err(Error::NotFound));
    assert_eq!(static_file(&files, ""), Err(Error::NotFound));
    assert_eq!(StaticFile::get(&files, "missing"), None);
    assert_eq!(static_file(&Vec::new(), "logo-e5f6a7b8.png"), Err(Error::NotFound));
}

#[test]
fn home_page_has_its_paragraphs() {
    let expected = Response {
        status: 200,
        location: None,
        set_cookie: None,
        content_type: "text/html; charset=utf-8".to_string(),
        page: Page::Home { paras: vec![("first".to_string(), 3), ("second".to_string(), 7)] },
    };
    assert_eq!(home_page(), expected);
}

#[test]
fn footer_links_to_the_frameworks() {
    assert_eq!(
        footer(),
        vec![
            ("warp", "https://crates.io/crates/warp"),
            ("diesel", "https://diesel.rs/"),
            ("ructe", "https://crates.io/crates/ructe"),
        ]
    );
}

#[test]
fn user_markup_is_escaped() {
    let user = User {
        id: 3,
        username: "o'hara".to_string(),
        realname: "Scarlett <\"Katie\"> O'Hara & Co".to_string(),
    };
    assert_eq!(
        user.to_html(),
        "<span data-user=\"o&#39;hara\">Scarlett &lt;&quot;Katie&quot;&gt; O&#39;Hara &amp; Co</span>"
    );
}

#[test]
fn user_markup_keeps_other_characters() {
    let user = User { id: 4, username: "zo\u{e9}".to_string(), realname: "Zo\u{e9} \u{20ac}".to_string() };
    assert_eq!(user.to_html(), "<span data-user=\"zo\u{e9}\">Zo\u{e9} \u{20ac}</span>");
    let nobody = User { id: 5, username: String::new(), realname: String::new() };
    assert_eq!(nobody.to_html(), "<span data-user=\"\"></span>");
}

#[test]
fn user_copy_is_equal() {
    let user = User { id: 3, username: "carol".to_string(), realname: "Carol".to_string() };
    assert_eq!(user.clone(), user);
}

#[test]
fn random_keys_have_the_length_asked_for() {
    assert_eq!(random_key(0), "");
    for len in [1usize, 2, 48, 200] {
        let key = random_key(len);
        assert_eq!(key.len(), len);
        assert!(key.chars().all(|c| c.is_ascii_alphanumeric()));
    }
}

#[test]
fn random_keys_differ() {
    assert_ne!(random_key(48), random_key(48));
}

#[test]
fn same_text_compares_characters() {
    assert!(same_text("", ""));
    assert!(same_text("abc", "abc"));
    assert!(!same_text("abc", "abd"));
    assert!(!same_text("abc", "ab"));
}
