use citation_station::api::author::{
    apa_with_initial, apa_with_initials, ieee_with_initial, ieee_with_initials, AcademicAuthor,
    GenericAuthor, PersonName,
};
use citation_station::api::errors::NameError;

#[test]
fn test_format_person_academic_author_ieee_last_name_only() {
    let author = AcademicAuthor::Persons {
        persons: vec![PersonName::from_last("Doe").unwrap()],
    };

    assert_eq!(author.as_ieee_string(), Some("Doe,".to_string()))
}

#[test]
fn test_format_person_academic_author_ieee_first_last() {
    let author = AcademicAuthor::Persons {
        persons: vec![PersonName::from_first_last("Jane", "Doe").unwrap()],
    };

    assert_eq!(author.as_ieee_string(), Some("J. Doe,".to_string()))
}

#[test]
fn test_format_person_academic_author_ieee_first_middle_last() {
    let author = AcademicAuthor::Persons {
        persons: vec![PersonName::from_first_middle_last("Jane", "Dilly", "Doe").unwrap()],
    };

    assert_eq!(author.as_ieee_string(), Some("J. D. Doe,".to_string()))
}

#[test]
fn test_format_org_academic_author_ieee() {
    let org_name = "The Corporation";
    let author = AcademicAuthor::Organization {
        name: org_name.to_string(),
    };

    assert_eq!(
        author.as_ieee_string(),
        Some(format!("{},", org_name.to_string()))
    )
}

#[test]
fn test_format_person_academic_author_apa_last_name_only() {
    let author = AcademicAuthor::Persons {
        persons: vec![PersonName::from_last("Doe").unwrap()],
    };

    assert_eq!(author.as_apa_string(), Some("Doe".to_string()))
}

#[test]
fn test_format_person_academic_author_apa_first_last() {
    let author = AcademicAuthor::Persons {
        persons: vec![PersonName::from_first_last("Jane", "Doe").unwrap()],
    };

    assert_eq!(author.as_apa_string(), Some("Doe, J.".to_string()))
}

#[test]
fn test_format_person_academic_author_apa_first_middle_last() {
    let author = AcademicAuthor::Persons {
        persons: vec![PersonName::from_first_middle_last("Jane", "Dilly", "Doe").unwrap()],
    };

    assert_eq!(author.as_apa_string(), Some("Doe, J. D.".to_string()))
}

#[test]
fn test_format_org_academic_author_apa() {
    let org_name = "The Corporation";
    let author = AcademicAuthor::Organization {
        name: org_name.to_string(),
    };

    assert_eq!(author.as_apa_string(), Some(org_name.to_string()))
}

fn persons(names: &[(&str, &str)]) -> Vec<PersonName> {
    names
        .iter()
        .map(|(first, last)| PersonName::from_first_last(first, last).unwrap())
        .collect()
}

#[test]
fn empty_components_are_rejected() {
    assert_eq!(PersonName::from_last(""), Err(NameError::EmptyString));
    assert_eq!(PersonName::from_first_last("", "Doe"), Err(NameError::EmptyString));
    assert_eq!(PersonName::from_first_last("Jane", ""), Err(NameError::EmptyString));
    assert_eq!(
        PersonName::from_first_middle_last("Jane", "", "Doe"),
        Err(NameError::EmptyString)
    );
    assert_eq!(
        PersonName::from_first_middle_last("", "Dilly", "Doe"),
        Err(NameError::EmptyString)
    );
}

#[test]
fn ieee_first_middle_last_uses_first_graphemes() {
    let name = PersonName::from_first_middle_last("Colin", "James", "VanDervoort").unwrap();
    assert_eq!(name.as_ieee_string(), "C. J. VanDervoort");
    assert_eq!(name.as_apa_string(), "VanDervoort, C. J.");
}

#[test]
fn initials_are_whole_grapheme_clusters() {
    // "E" followed by a combining acute accent is one user-perceived character.
    let name = PersonName::from_first_last("E\u{301}mile", "Zola").unwrap();
    assert_eq!(name.as_ieee_string(), "E\u{301}. Zola");
    assert_eq!(name.as_apa_string(), "Zola, E\u{301}.");
    let name = PersonName::from_first_middle_last("\u{00C5}sa", "\u{00D8}ri", "Berg").unwrap();
    assert_eq!(name.as_ieee_string(), "\u{00C5}. \u{00D8}. Berg");
}

#[test]
fn initial_helpers_write_exact_forms() {
    assert_eq!(ieee_with_initial("J", "Smith"), "J. Smith");
    assert_eq!(ieee_with_initials("J", "D", "Doe"), "J. D. Doe");
    assert_eq!(apa_with_initial("Smith", "J"), "Smith, J.");
    assert_eq!(apa_with_initials("Doe", "J", "D"), "Doe, J. D.");
}

#[test]
fn empty_author_list_is_absent() {
    let author = GenericAuthor::Persons { persons: vec![] };
    assert_eq!(author.as_ieee_string(), None);
    assert_eq!(author.as_apa_string(), None);
    let academic = AcademicAuthor::Persons { persons: vec![] };
    assert_eq!(academic.as_ieee_string(), None);
    assert_eq!(academic.as_apa_string(), None);
}

#[test]
fn two_persons_are_joined_by_conjunction() {
    let author = GenericAuthor::Persons {
        persons: persons(&[("J", "Smith"), ("Humberto", "Fuentes")]),
    };
    assert_eq!(author.as_ieee_string(), Some("J. Smith and H. Fuentes".to_string()));
    assert_eq!(author.as_apa_string(), Some("Smith, J. & Fuentes, H.".to_string()));
}

#[test]
fn ieee_lists_up_to_six_persons() {
    let author = GenericAuthor::Persons {
        persons: persons(&[
            ("Ann", "A"),
            ("Ben", "B"),
            ("Cy", "C"),
            ("Dee", "D"),
            ("Eve", "E"),
            ("Flo", "F"),
        ]),
    };
    assert_eq!(
        author.as_ieee_string(),
        Some("A. A, B. B, C. C, D. D, E. E, and F. F".to_string())
    );
    assert_eq!(author.as_apa_string(), Some("A, A. et al.".to_string()));
}

#[test]
fn ieee_truncates_beyond_six_persons() {
    let author = GenericAuthor::Persons {
        persons: persons(&[
            ("Ann", "A"),
            ("Ben", "B"),
            ("Cy", "C"),
            ("Dee", "D"),
            ("Eve", "E"),
            ("Flo", "F"),
            ("Gus", "G"),
        ]),
    };
    assert_eq!(author.as_ieee_string(), Some("A. A et al.".to_string()));
    let academic = AcademicAuthor::Persons {
        persons: persons(&[
            ("Ann", "A"),
            ("Ben", "B"),
            ("Cy", "C"),
            ("Dee", "D"),
            ("Eve", "E"),
            ("Flo", "F"),
            ("Gus", "G"),
        ]),
    };
    assert_eq!(academic.as_ieee_string(), Some("A. A et al.,".to_string()));
}

#[test]
fn three_persons_ieee_and_apa() {
    let author = GenericAuthor::Persons {
        persons: persons(&[("J", "Smith"), ("Humberto", "Fuentes"), ("Isabel", "Popov")]),
    };
    assert_eq!(
        author.as_ieee_string(),
        Some("J. Smith, H. Fuentes, and I. Popov".to_string())
    );
    assert_eq!(author.as_apa_string(), Some("Smith, J. et al.".to_string()));
}

#[test]
fn organization_name_is_unmodified() {
    let author = GenericAuthor::Organization {
        name: "The Corporation".to_string(),
    };
    assert_eq!(author.as_ieee_string(), Some("The Corporation".to_string()));
    assert_eq!(author.as_apa_string(), Some("The Corporation".to_string()));
}

#[test]
fn well_formedness_checks() {
    assert!(PersonName::from_last("Doe").unwrap().is_wf());
    let bad = PersonName::SurnameAndFirstName {
        surname: "Doe".to_string(),
        first_name: String::new(),
    };
    assert!(!bad.is_wf());
    let author = GenericAuthor::Persons { persons: vec![bad] };
    assert!(!author.is_wf());
}
