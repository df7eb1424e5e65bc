use pastescrape::access::{safe_attr_content, safe_selector, safe_text_content};
use pastescrape::dom::{Document, Sel};
use pastescrape::error::{Error, ErrorSource};
use pastescrape::scalar::{normalize_date, parse_date, parse_size, safe_parse_date, safe_parse_number, DateError};
use pastescrape::text::replace_str;
use pastescrape::user::rewrite_icon;
use pastescrape::paste::{category_of, parent_id_of, size_text_of};
use pastescrape::archive::format_filter_of;

#[test]
fn test_parse_date() {
    let result = parse_date("Thursday 2nd of May 2024 10:05:29 AM CDT");
    assert!(result.is_ok());
    assert_eq!(result.unwrap(), 1714662329);
}

#[test]
fn parse_date_is_repeatable() {
    let s = "Thursday 2nd of May 2024 10:05:29 AM CDT";
    assert_eq!(parse_date(s), parse_date(s));
    assert_eq!(parse_date("bad"), parse_date("bad"));
}

#[test]
fn parse_date_errors() {
    assert_eq!(parse_date("Thursday 2 May 2024"), Err(DateError::MissingMarker));
    assert_eq!(parse_date("x of May"), Err(DateError::NoOrdinal));
    assert_eq!(parse_date("Thursday 2nd of Mayember 2024 10:05:29 AM CDT"), Err(DateError::Unparsable));
    assert_eq!(safe_parse_date("nonsense"), 0);
    assert_eq!(safe_parse_date("Friday 3rd of May 2024 10:05:29 AM CDT"), 1714748729);
    assert!(!DateError::Unparsable.message().is_empty());
}

#[test]
fn byte_sizes() {
    assert_eq!(parse_size("1.5 KB"), 1500);
    assert_eq!(parse_size("2 KiB"), 2048);
    assert_eq!(parse_size("10"), 10);
    assert_eq!(parse_size("3 MB"), 3_000_000);
    assert_eq!(parse_size("lots"), 0);
    assert_eq!(parse_size(""), 0);
}

#[test]
fn lenient_numbers() {
    assert_eq!(safe_parse_number("1,234"), 1234);
    assert_eq!(safe_parse_number("  42 \n"), 42);
    assert_eq!(safe_parse_number("+7"), 7);
    assert_eq!(safe_parse_number("4294967295"), 4294967295);
    assert_eq!(safe_parse_number("4294967296"), 0);
    assert_eq!(safe_parse_number("abc"), 0);
    assert_eq!(safe_parse_number(""), 0);
    assert_eq!(safe_parse_number("-1"), 0);
}

#[test]
fn replacing_text() {
    assert_eq!(replace_str("/a/b/", "/", ""), "ab");
    assert_eq!(replace_str("aaa", "aa", "b"), "ba");
    assert_eq!(replace_str("abc", "", "x"), "abc");
    assert_eq!(rewrite_icon("/themes/pastebin/img/guest.png"), "/imgs/guest.png");
    assert_eq!(rewrite_icon("/cache/img/1/2.jpg"), "/imgs/1/2.jpg");
}

#[test]
fn accessors_turn_absence_into_empty_text() {
    let dom = Document::parse(r#"<p class="x" data-k="v">  hi  </p>"#);
    let root = dom.root();
    let p = root.select_first(&Sel::new(".x").unwrap());
    assert_eq!(safe_text_content(p), "hi");
    assert_eq!(safe_attr_content(p, "data-k"), "v");
    assert_eq!(safe_attr_content(p, "missing"), "");
    assert_eq!(safe_text_content(None), "");
    assert_eq!(safe_attr_content(None, "data-k"), "");
    assert_eq!(p.unwrap().text(), "  hi  ");
    assert_eq!(root.select_all(&Sel::new("p").unwrap()).len(), 1);
}

#[test]
fn invalid_selector_is_refused() {
    assert!(Sel::new("a[").is_none());
    assert!(Sel::new("a").is_some());
    assert!(safe_selector("::::").is_err());
    assert!(safe_selector("div > a").is_ok());
}

#[test]
fn error_new_has_no_details() {
    let e = Error::new(404, "Page not found".to_string(), ErrorSource::Internal);
    assert_eq!(e.status, 404);
    assert_eq!(e.message, "Page not found");
    assert_eq!(e.details, None);
    assert_eq!(e.stack_trace, None);
    assert_eq!(e.source, ErrorSource::Internal);
}

#[test]
fn date_normalisation() {
    assert_eq!(
        normalize_date("Thursday 2nd of May 2024 10:05:29 AM CDT"),
        Ok("Thursday 2 May 2024 10:05:29 AM -0500".to_string())
    );
    assert_eq!(
        normalize_date("Monday 21st of June 2021 01:00:00 PM UTC+0"),
        Ok("Monday 21 June 2021 01:00:00 PM UTC+0".to_string())
    );
    assert_eq!(normalize_date("no marker"), Err(DateError::MissingMarker));
    assert_eq!(normalize_date(" of"), Err(DateError::NoOrdinal));
}

#[test]
fn label_heuristics() {
    assert_eq!(category_of("  1 Cooking  "), Some("Cooking".to_string()));
    assert_eq!(category_of("Cooking"), None);
    assert_eq!(size_text_of(" text 1.5 KB\n | 0.00 secs "), Some("1.5 KB".to_string()));
    assert_eq!(size_text_of("text 1.5 KB"), None);
    assert_eq!(parent_id_of("/XyZ987#c1"), Some("XyZ987".to_string()));
    assert_eq!(parent_id_of("/XyZ987"), None);
    assert_eq!(format_filter_of("https://pastebin.com/archive/python"), Some("python".to_string()));
    assert_eq!(format_filter_of("https://pastebin.com/archive"), None);
    assert_eq!(format_filter_of("https://pastebin.com/archive/"), None);
}
