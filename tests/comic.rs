use garfield_bot::comic::{
    garfield_from_page, page_url, previous_garfield_url, todays_garfield_next,
    todays_garfield_start, ResolveStep,
};

#[test]
fn page_url_for_today() {
    let u = page_url(737_425, 0).unwrap();
    assert_eq!(u, "https://www.gocomics.com/garfield/2020/01/01");
}

#[test]
fn page_url_for_yesterday_crosses_a_month() {
    let u = page_url(738_946, 1).unwrap();
    assert_eq!(u, "https://www.gocomics.com/garfield/2024/02/29");
}

#[test]
fn page_url_out_of_range_is_absent() {
    assert_eq!(page_url(0, i64::MAX), None);
    assert_eq!(page_url(i32::MIN, 1), None);
}

#[test]
fn current_page_url_has_the_prefix() {
    let u = previous_garfield_url(1).unwrap();
    assert!(u.starts_with("https://www.gocomics.com/garfield/"));
    assert_eq!(u.len(), "https://www.gocomics.com/garfield/".len() + 10);
    assert!(previous_garfield_url(0).is_some());
    assert!(previous_garfield_url(365_000).is_some());
}

#[test]
fn image_found_under_marker() {
    let html = "<html><body><div class=\"item-comic-image\"><img src=\"https://img.example/strip.gif\"></div></body></html>";
    assert_eq!(
        garfield_from_page(Some(html.to_owned())),
        Some("https://img.example/strip.gif".to_owned())
    );
}

#[test]
fn image_is_first_child_element_past_whitespace() {
    let html = "<html><body><div class=\"item-comic-image\">\n  <img src=\"https://img.example/b.gif\"></div></body></html>";
    assert_eq!(
        garfield_from_page(Some(html.to_owned())),
        Some("https://img.example/b.gif".to_owned())
    );
}

#[test]
fn page_with_too_many_tags_gives_no_image() {
    let mut html = String::from("<html><body><div class=\"item-comic-image\"><img src=\"https://img.example/c.gif\"></div>");
    for _ in 0..17_000 {
        html.push_str("<br>");
    }
    html.push_str("</body></html>");
    assert_eq!(garfield_from_page(Some(html)), None);
}

#[test]
fn page_just_under_the_tag_bound_is_parsed() {
    let mut html = String::from("<div class=\"item-comic-image\"><img src=\"https://img.example/d.gif\"></div>");
    for _ in 0..16_000 {
        html.push_str("<br>");
    }
    assert_eq!(garfield_from_page(Some(html)), Some("https://img.example/d.gif".to_owned()));
}

#[test]
fn failed_fetch_gives_no_image() {
    assert_eq!(garfield_from_page(None), None);
}

#[test]
fn empty_body_gives_no_image() {
    assert_eq!(garfield_from_page(Some(String::new())), None);
}

#[test]
fn missing_marker_gives_no_image() {
    let html = "<html><body><div class=\"other\"><img src=\"https://img.example/a.gif\"></div></body></html>";
    assert_eq!(garfield_from_page(Some(html.to_owned())), None);
}

#[test]
fn missing_child_gives_no_image() {
    let html = "<html><body><div class=\"item-comic-image\"></div></body></html>";
    assert_eq!(garfield_from_page(Some(html.to_owned())), None);
}

#[test]
fn missing_src_gives_no_image() {
    let html = "<html><body><div class=\"item-comic-image\"><img alt=\"x\"></div></body></html>";
    assert_eq!(garfield_from_page(Some(html.to_owned())), None);
}

fn done(step: ResolveStep) -> Option<String> {
    match step {
        ResolveStep::Done(r) => r,
        ResolveStep::Fetch(n) => panic!("unexpected fetch of {}", n),
    }
}

#[test]
fn search_starts_with_today() {
    assert!(matches!(todays_garfield_start(), ResolveStep::Fetch(0)));
}

#[test]
fn today_found_ends_search() {
    let r = done(todays_garfield_next(0, Some("t".to_owned())));
    assert_eq!(r, Some("t".to_owned()));
}

#[test]
fn today_missing_falls_back_to_yesterday() {
    assert!(matches!(todays_garfield_next(0, None), ResolveStep::Fetch(1)));
    let r = done(todays_garfield_next(1, Some("y".to_owned())));
    assert_eq!(r, Some("y".to_owned()));
}

#[test]
fn both_missing_is_absent() {
    assert!(matches!(todays_garfield_next(0, None), ResolveStep::Fetch(1)));
    assert_eq!(done(todays_garfield_next(1, None)), None);
}
