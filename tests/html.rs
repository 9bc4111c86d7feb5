use citation_station::html::WebsiteTitle;

#[test]
fn missing_title_tag_gives_no_title() {
    let title = WebsiteTitle::from_title_tags(&vec![]);
    assert_eq!(title.from_title_tag, None);
}

#[test]
fn first_of_two_title_tags_counts() {
    let title = WebsiteTitle::from_title_tags(&vec!["First".to_string(), "Second".to_string()]);
    assert_eq!(title.from_title_tag, Some("First".to_string()));
}

#[test]
fn single_title_tag() {
    let title = WebsiteTitle::from_title_tags(&vec!["Document".to_string()]);
    assert_eq!(title.from_title_tag, Some("Document".to_string()));
}
