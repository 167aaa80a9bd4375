use owariya::host::parse_host;
use owariya::label::{convert_punycode, text_from_decoded};
use owariya::layout::{owariya_layout, Color, CANVAS_SIZE};
use owariya::page::{create_html, select_page_text};
use owariya::reply::{
    encoded_image_reply, font_or_failure, image_reply, index_reply, request_label, ImageFormat,
    Reply,
};
use owariya::text::{contains_exec, replace_all_exec};

fn s(x: &str) -> String {
    x.to_string()
}

#[test]
fn subdomain_of_parent_host() {
    let (sub, host) = parse_host(s("jinsei.owari.shop"));
    assert_eq!(sub, "jinsei");
    assert_eq!(host, "jinsei.owari.shop");
}

#[test]
fn nested_subdomain_of_parent_host() {
    let (sub, _) = parse_host(s("a.b.owari.shop"));
    assert_eq!(sub, "a.b");
}

#[test]
fn bare_parent_host_has_empty_subdomain() {
    let (sub, host) = parse_host(s("owari.shop"));
    assert_eq!(sub, "");
    assert_eq!(host, "owari.shop");
}

#[test]
fn foreign_host_has_empty_subdomain() {
    let (sub, host) = parse_host(s("example.com"));
    assert_eq!(sub, "");
    assert_eq!(host, "example.com");
    let (sub, host) = parse_host(s("jinsei.owari.shop.example.com"));
    assert_eq!(sub, "");
    assert_eq!(host, "jinsei.owari.shop.example.com");
}

#[test]
fn plain_label_is_unchanged() {
    assert_eq!(convert_punycode(s("jinsei")), "jinsei");
    assert_eq!(convert_punycode(s("")), "");
    assert_eq!(convert_punycode(s("xn-")), "xn-");
}

#[test]
fn punycode_label_is_decoded() {
    assert_eq!(convert_punycode(s("xn--acadmie-franaise-npb1a")), "académie-française");
    assert_eq!(convert_punycode(s("xn--wgv71a119e")), "日本語");
}

#[test]
fn invalid_punycode_label_gives_empty_text() {
    assert_eq!(convert_punycode(s("xn--a!")), "");
    assert_eq!(convert_punycode(s("xn--ü")), "");
}

#[test]
fn decode_outcome_resolves_to_text() {
    assert_eq!(text_from_decoded(Some(s("日本語"))), "日本語");
    assert_eq!(text_from_decoded(None), "");
}

#[test]
fn special_label_pages() {
    assert_eq!(select_page_text(&s("jinsei")), (s("人生おわりや"), s("もうだめ")));
    assert_eq!(select_page_text(&s("konnendomo")), (s("今年度もおわりや"), s("おめでとうございます")));
    assert_eq!(
        select_page_text(&s("kotoshimo")),
        (s("今年もおわりや"), s("あけましておめでとうございます"))
    );
    assert_eq!(select_page_text(&s("kyoumo")), (s("今日もおわりや"), s("一日お疲れ様でした")));
}

#[test]
fn empty_label_page() {
    assert_eq!(select_page_text(&s("")), (s("おわりや"), s("おわりが売ってる")));
}

#[test]
fn default_label_page() {
    assert_eq!(select_page_text(&s("foo")), (s("fooおわりや"), s("fooおわりが売ってる")));
    assert_eq!(select_page_text(&s("Jinsei")), (s("Jinseiおわりや"), s("Jinseiおわりが売ってる")));
}

#[test]
fn html_has_every_slot_filled() {
    let html = create_html(s("T1"), s("M2"), s("d.example"));
    assert!(html.contains("<title>T1</title>"));
    assert!(html.contains("<p>M2</p>"));
    assert!(html.contains("https://d.example/owariya.png"));
    assert!(!html.contains("{{"));
}

#[test]
fn html_values_are_inserted_raw() {
    let html = create_html(s("<b>"), s("a&b"), s("x"));
    assert!(html.contains("<title><b></title>"));
    assert!(html.contains("<p>a&b</p>"));
}

#[test]
fn index_page_for_special_host() {
    let r = index_reply(Some(s("jinsei.owari.shop")));
    assert_eq!(r.status(), 200);
    match r {
        Reply::Html(body) => {
            assert!(body.contains("人生おわりや"));
            assert!(body.contains("もうだめ"));
            assert!(body.contains("jinsei.owari.shop"));
        }
        other => panic!("expected a page, got {:?}", other),
    }
}

#[test]
fn index_page_for_punycode_host() {
    match index_reply(Some(s("xn--wgv71a119e.owari.shop"))) {
        Reply::Html(body) => {
            assert!(body.contains("日本語おわりや"));
            assert!(body.contains("日本語おわりが売ってる"));
        }
        other => panic!("expected a page, got {:?}", other),
    }
}

#[test]
fn index_without_host_is_empty_text() {
    let r = index_reply(None);
    assert_eq!(r.status(), 200);
    match r {
        Reply::Text(body) => assert_eq!(body, ""),
        other => panic!("expected text, got {:?}", other),
    }
}

#[test]
fn missing_font_is_server_error() {
    match font_or_failure(None) {
        Err(r) => {
            assert_eq!(r.status(), 500);
            match r {
                Reply::Failure(_, m) => assert!(m.contains("cant find font")),
                other => panic!("expected a failure, got {:?}", other),
            }
        }
        Ok(_) => panic!("expected a failure"),
    }
}

#[test]
fn fetched_font_is_passed_on() {
    match font_or_failure(Some(vec![1u8, 2, 3])) {
        Ok(b) => assert_eq!(b, vec![1u8, 2, 3]),
        Err(r) => panic!("expected the font, got {:?}", r),
    }
}

#[test]
fn failed_encoding_is_server_error() {
    let r = encoded_image_reply(ImageFormat::Ico, None);
    assert_eq!(r.status(), 500);
    match r {
        Reply::Failure(_, m) => assert_eq!(m, "Internal server error: cant create image"),
        other => panic!("expected a failure, got {:?}", other),
    }
    match encoded_image_reply(ImageFormat::Png, Some(vec![7u8])) {
        Reply::Image(f, b) => {
            assert_eq!(f, ImageFormat::Png);
            assert_eq!(b, vec![7u8]);
        }
        other => panic!("expected bytes, got {:?}", other),
    }
}

#[test]
fn image_is_encoded_as_png_and_ico() {
    let img = image::DynamicImage::new_rgba8(CANVAS_SIZE, CANVAS_SIZE);
    let mut expected = std::io::Cursor::new(Vec::new());
    img.write_to(&mut expected, image::ImageOutputFormat::Png).unwrap();
    match image_reply(&img, ImageFormat::Png) {
        Reply::Image(f, b) => {
            assert_eq!(f, ImageFormat::Png);
            assert_eq!(&b[0..8], &[0x89u8, b'P', b'N', b'G', 0x0d, 0x0a, 0x1a, 0x0a]);
            assert_eq!(b, expected.into_inner());
        }
        other => panic!("expected bytes, got {:?}", other),
    }
    match image_reply(&img, ImageFormat::Ico) {
        Reply::Image(f, b) => {
            assert_eq!(f, ImageFormat::Ico);
            assert_eq!(&b[0..4], &[0u8, 0, 1, 0]);
        }
        other => panic!("expected bytes, got {:?}", other),
    }
}

#[test]
fn layout_for_empty_label() {
    let l = owariya_layout(s(""));
    assert_eq!((l.width, l.height), (256, 256));
    assert_eq!(l.background, Color { r: 192, g: 192, b: 192, a: 255 });
    assert_eq!(l.ink, Color { r: 0, g: 0, b: 0, a: 255 });
    assert_eq!(l.lines.len(), 2);
    assert_eq!(l.lines[0].text, "おわ");
    assert_eq!((l.lines[0].x, l.lines[0].y, l.lines[0].band_height), (0, 0, 128));
    assert_eq!(l.lines[1].text, "りや");
    assert_eq!((l.lines[1].x, l.lines[1].y, l.lines[1].band_height), (0, 128, 128));
}

#[test]
fn layout_for_label() {
    let l = owariya_layout(s("人生"));
    assert_eq!(l.lines[0].text, "人生");
    assert_eq!(l.lines[1].text, "おわりや");
    assert_eq!(l.lines[1].y, 128);
}

#[test]
fn layout_is_square_for_any_label() {
    let long = "あ".repeat(500);
    for label in [s(""), s("a"), long] {
        let l = owariya_layout(label);
        assert_eq!((l.width, l.height), (256, 256));
    }
}

#[test]
fn request_label_from_header() {
    assert_eq!(request_label(None), "");
    assert_eq!(request_label(Some(s("kyoumo.owari.shop"))), "kyoumo");
    assert_eq!(request_label(Some(s("xn--wgv71a119e.owari.shop"))), "日本語");
    assert_eq!(request_label(Some(s("owari.shop"))), "");
}

#[test]
fn text_search_and_replace() {
    assert!(contains_exec("abcxn--d", "xn--"));
    assert!(!contains_exec("abcxn-d", "xn--"));
    assert!(contains_exec("abc", ""));
    assert_eq!(replace_all_exec("xn--abxn--c", "xn--", ""), "abc");
    assert_eq!(replace_all_exec("aaa", "aa", "b"), "ba");
    assert_eq!(replace_all_exec("abc", "", "z"), "abc");
}

#[test]
fn image_formats_have_media_types() {
    assert_eq!(ImageFormat::Ico.content_type(), "image/x-icon");
    assert_eq!(ImageFormat::Png.content_type(), "image/png");
}

#[test]
fn marker_and_encoded_text_decode_back() {
    for u in ["日本語", "人生", "académie-française"] {
        let p = punycode::encode(u).unwrap();
        assert!(!p.contains("xn--"));
        assert_eq!(convert_punycode(format!("xn--{}", p)), u);
    }
}
