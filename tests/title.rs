use citation_station::api::title::{
    BookChapterTitle, BookTitle, ParseBookChapterTitleError, ParseBookTitleError, SourceComponent,
    SourceName,
};

#[test]
fn titles_must_not_be_empty() {
    assert_eq!("".parse::<BookTitle>().err(), Some(ParseBookTitleError));
    assert_eq!(
        "".parse::<BookChapterTitle>().err(),
        Some(ParseBookChapterTitleError)
    );
    assert_eq!("Dune".parse::<BookTitle>().unwrap().title(), "Dune");
    assert_eq!("Part I".parse::<BookChapterTitle>().unwrap().title(), "Part I");
}

#[test]
fn titles_are_quoted() {
    let name = SourceName::BookTitle("Dune".parse().unwrap());
    assert_eq!(name.as_asciidoc_string(), "\u{201C}Dune\u{201D}");
    assert_eq!(name.as_markdown_string(), "\u{201C}Dune\u{201D}");
    let part = SourceComponent::BookChapterTitle("Part I".parse().unwrap());
    assert_eq!(part.as_asciidoc_string(), "\u{201C}Part I\u{201D}");
    assert_eq!(part.as_markdown_string(), "\u{201C}Part I\u{201D}");
}
