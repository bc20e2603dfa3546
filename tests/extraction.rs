use profscrape::name::parse_name;
use profscrape::outcome::{ScrapError, ScrappedProfessor};
use profscrape::page::SelectorSet;
use profscrape::photo::{pick_picture, same_text, starts_with};
use profscrape::text::{decimal_string, trim};

fn selectors() -> SelectorSet {
    SelectorSet::new().expect("the built-in selectors compile")
}

fn page(name_html: &str, images: &str) -> String {
    format!(
        "<html><head><title>Ficha</title></head><body>{name_html}<div>{images}</div></body></html>"
    )
}

#[test]
fn name_is_reordered() {
    assert_eq!(parse_name("Pérez García, Juan").unwrap(), "Juan Pérez García");
}

#[test]
fn name_surrounding_whitespace_is_trimmed() {
    assert_eq!(parse_name("  Doe ,\t John \n").unwrap(), "John Doe");
    assert_eq!(parse_name("\u{3000}Doe,\u{a0}John\u{2003}").unwrap(), "John Doe");
}

#[test]
fn name_splits_on_first_comma_only() {
    assert_eq!(parse_name("Doe, John, Jr.").unwrap(), "John, Jr. Doe");
}

#[test]
fn name_with_empty_parts() {
    assert_eq!(parse_name(" , ").unwrap(), " ");
}

#[test]
fn name_without_comma_is_refused_unmodified() {
    let text = "  John Doe  ";
    assert_eq!(parse_name(text), Err(ScrapError::ParseName(text.to_string())));
    assert_eq!(parse_name(""), Err(ScrapError::ParseName(String::new())));
}

#[test]
fn trim_removes_unicode_whitespace() {
    assert_eq!(trim(" \t a b \r\n"), "a b");
    assert_eq!(trim("\u{2028}x\u{85}"), "x");
    assert_eq!(trim("   "), "");
    assert_eq!(trim(""), "");
}

#[test]
fn decimal_digits() {
    assert_eq!(decimal_string(0), "0");
    assert_eq!(decimal_string(42), "42");
    assert_eq!(decimal_string(100), "100");
    assert_eq!(decimal_string(u32::MAX), "4294967295");
}

#[test]
fn prefix_and_equality() {
    assert!(starts_with("fotos/042.jpg", "fotos"));
    assert!(!starts_with("img/fotos.jpg", "fotos"));
    assert!(!starts_with("fot", "fotos"));
    assert!(starts_with("abc", ""));
    assert!(same_text("fotos/logo.gif", "fotos/logo.gif"));
    assert!(!same_text("fotos/logo.gif", "fotos/logo.gi"));
    assert!(!same_text("fotos/logo.gif", "fotos/logo.png"));
}

#[test]
fn picture_skips_placeholder_and_other_directories() {
    let srcs = vec![
        None,
        Some("img/banner.png".to_string()),
        Some("fotos/logo.gif".to_string()),
        Some("fotos/042.jpg".to_string()),
        Some("fotos/043.jpg".to_string()),
    ];
    assert_eq!(
        pick_picture(&srcs, "fotos", "fotos/logo.gif"),
        Some("fotos/042.jpg".to_string())
    );
    let none = vec![Some("fotos/logo.gif".to_string()), None];
    assert_eq!(pick_picture(&none, "fotos", "fotos/logo.gif"), None);
    assert_eq!(pick_picture(&vec![], "fotos", "fotos/logo.gif"), None);
}

#[test]
fn from_fields_outcomes() {
    let srcs = vec![Some("fotos/7.jpg".to_string())];
    assert_eq!(
        ScrappedProfessor::from_fields(Some("Doe, John".to_string()), &srcs),
        Ok(ScrappedProfessor {
            name: "John Doe".to_string(),
            picture: Some("fotos/7.jpg".to_string())
        })
    );
    assert_eq!(
        ScrappedProfessor::from_fields(None, &srcs),
        Err(ScrapError::NameNotPresent)
    );
    assert_eq!(
        ScrappedProfessor::from_fields(Some("John Doe".to_string()), &srcs),
        Err(ScrapError::ParseName("John Doe".to_string()))
    );
}

#[test]
fn markup_two_images_picks_photo_not_placeholder() {
    let html = page(
        "<span class=\"texto\">Santana Pérez, Ana</span>",
        "<img src=\"fotos/logo.gif\"><img src=\"fotos/042.jpg\">",
    );
    let r = ScrappedProfessor::from_markup(&html, &selectors()).unwrap();
    assert_eq!(r.name, "Ana Santana Pérez");
    assert_eq!(r.picture, Some("fotos/042.jpg".to_string()));
}

#[test]
fn markup_without_images_has_no_picture() {
    let html = page("<span class=\"texto\"> Doe , John </span>", "");
    let r = ScrappedProfessor::from_markup(&html, &selectors()).unwrap();
    assert_eq!(r.name, "John Doe");
    assert_eq!(r.picture, None);
}

#[test]
fn markup_first_name_element_is_used() {
    let html = page(
        "<span class=\"other\">Not, This</span><span class=\"texto\">Roe, Jane</span><span class=\"texto\">Doe, John</span>",
        "<img src=\"banner.png\"><img alt=\"x\">",
    );
    let r = ScrappedProfessor::from_markup(&html, &selectors()).unwrap();
    assert_eq!(r.name, "Jane Roe");
    assert_eq!(r.picture, None);
}

#[test]
fn markup_without_name_element() {
    let html = page("<span class=\"other\">Doe, John</span>", "<img src=\"fotos/1.jpg\">");
    assert_eq!(
        ScrappedProfessor::from_markup(&html, &selectors()),
        Err(ScrapError::NameNotPresent)
    );
}

#[test]
fn markup_name_without_comma() {
    let html = page("<span class=\"texto\">John Doe</span>", "");
    assert_eq!(
        ScrappedProfessor::from_markup(&html, &selectors()),
        Err(ScrapError::ParseName("John Doe".to_string()))
    );
}

#[test]
fn markup_name_is_text_content() {
    let html = page(
        "<span class=\"texto\">Gonz&aacute;lez &amp; <b>Hijos</b>,&nbsp;Ana</span>",
        "<img src=\"fotos/5.jpg\">",
    );
    let r = ScrappedProfessor::from_markup(&html, &selectors()).unwrap();
    assert_eq!(r.name, "Ana González & Hijos");
    assert_eq!(r.picture, Some("fotos/5.jpg".to_string()));
}

#[test]
fn markup_images_without_source_are_passed_over() {
    let html = page(
        "<span class=\"texto\">Doe, John</span>",
        "<img alt=\"none\"><img src=\"logos/fotos.png\"><img src=\"fotos/logo.gif\"><img src=\"fotos/11.jpg\">",
    );
    let r = ScrappedProfessor::from_markup(&html, &selectors()).unwrap();
    assert_eq!(r.picture, Some("fotos/11.jpg".to_string()));
}
