use citation_station::api::author::{GenericAuthor, PersonName};
use citation_station::api::citation::Citation;
use citation_station::api::date::{Month, PublishDate};
use citation_station::api::errors::CitationError;
use citation_station::api::media::book::Book;
use citation_station::api::media::common::CommonCitationData;
use citation_station::Bibliography;

fn dated(id: &str, published: Option<PublishDate>) -> Citation {
    Citation::Book(Book {
        common_data: CommonCitationData {
            id: id.to_string(),
            published,
        },
        author: GenericAuthor::Persons {
            persons: vec![PersonName::from_last("Doe").unwrap()],
        },
        title: format!("Title {}", id),
        doi: None,
        pages: None,
        chapter: None,
        version: None,
    })
}

fn ids(bib: &Bibliography) -> Vec<String> {
    bib.citations().iter().map(|c| c.id()).collect()
}

#[test]
fn citation_test_citation_creation() {
    let citation = Citation::Book(Book {
        common_data: CommonCitationData {
            id: "cv_algo_practice".to_string(),
            published: None,
        },
        author: GenericAuthor::Persons {
            persons: vec![
                PersonName::from_first_middle_last("Colin", "James", "VanDervoort").unwrap(),
            ],
        },
        title: "algo_practice".to_string(),
        doi: None,
        pages: None,
        chapter: None,
        version: None,
    });

    assert_eq!(citation.id(), "cv_algo_practice");
    assert_eq!(citation.title(), "algo_practice");
}

#[test]
fn lib_test_citation_creation() {
    let citation = Citation::Book(Book {
        common_data: CommonCitationData {
            id: "cv_algo_practice".to_string(),
            published: None,
        },
        author: GenericAuthor::Persons {
            persons: vec![
                PersonName::from_first_middle_last("Colin", "James", "VanDervoort").unwrap(),
            ],
        },
        title: "algo_practice".to_string(),
        doi: None,
        pages: None,
        chapter: None,
        version: None,
    });

    assert_eq!(citation.id(), "cv_algo_practice");
    assert_eq!(citation.title(), "algo_practice");
    assert!(citation.authors().is_some());
}

#[test]
fn test_bibliography() {
    let mut bib = Bibliography::new();

    let citation = Citation::Book(Book {
        common_data: CommonCitationData {
            id: "test".to_string(),
            published: None,
        },
        author: GenericAuthor::Persons {
            persons: vec![PersonName::from_first_last("Test", "Author").unwrap()],
        },
        title: "Test Title".to_string(),
        doi: None,
        pages: None,
        chapter: None,
        version: None,
    });

    assert!(bib.add_citation(citation).is_ok());
    assert_eq!(bib.citations().len(), 1);

    let found = bib.get_citation("test");
    assert!(found.is_some());
    assert_eq!(found.unwrap().title(), "Test Title");
}

#[test]
fn duplicate_id_is_rejected() {
    let mut bib = Bibliography::new();
    assert!(bib.add_citation(dated("a", None)).is_ok());
    assert_eq!(bib.citations().len(), 1);
    let second = bib.add_citation(dated("a", Some(PublishDate::from_year(2000))));
    assert_eq!(second, Err(CitationError::DuplicateCitationId("a".to_string())));
    assert_eq!(bib.citations().len(), 1);
    assert_eq!(bib.citations()[0].published(), None);
    assert!(bib.add_citation(dated("b", None)).is_ok());
    assert_eq!(ids(&bib), vec!["a", "b"]);
}

#[test]
fn get_missing_id_is_absent() {
    let mut bib = Bibliography::new();
    assert!(bib.add_citation(dated("a", None)).is_ok());
    assert!(bib.get_citation("b").is_none());
    assert!(bib.get_citation("").is_none());
    assert_eq!(bib.get_citation("a").unwrap().id(), "a");
}

#[test]
fn sort_is_newest_first_and_stable() {
    let mut bib = Bibliography::new();
    let entries = vec![
        dated("none1", None),
        dated("y2020a", Some(PublishDate::from_year(2020))),
        dated("feb2021", Some(PublishDate::from_year_month(2021, Month::February))),
        dated("none2", None),
        dated("y2020b", Some(PublishDate::from_year(2020))),
        dated(
            "feb1st2021",
            Some(PublishDate::from_year_month_day(2021, Month::February, 1).unwrap()),
        ),
        dated("y2021", Some(PublishDate::from_year(2021))),
        dated("y1999", Some(PublishDate::from_year(1999))),
        dated("y0", Some(PublishDate::from_year(0))),
    ];
    for e in entries {
        assert!(bib.add_citation(e).is_ok());
    }
    bib.sort_by_publish_date();
    assert_eq!(
        ids(&bib),
        vec![
            "feb1st2021",
            "feb2021",
            "y2021",
            "y2020a",
            "y2020b",
            "y1999",
            "y0",
            "none1",
            "none2"
        ]
    );
}

#[test]
fn sort_of_empty_bibliography() {
    let mut bib = Bibliography::new();
    bib.sort_by_publish_date();
    assert!(bib.citations().is_empty());
}
