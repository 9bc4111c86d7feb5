//! Person names and author lists.
use crate::api::errors::NameError;
use crate::unicode::{first_grapheme, first_grapheme_of};
use vstd::prelude::*;
use vstd::string::*;

verus! {

/// Above this many persons an IEEE author list keeps only the first one.
pub const IEEE_ACADEMIC_ET_AL_CUTOFF: usize = 6;

/// Above this many persons an APA author list keeps only the first one.
pub const APA_ET_AL_CUTOFF: usize = 2;

/// The view of an optional string.
pub open spec fn opt_view(o: Option<String>) -> Option<Seq<char>> {
    match o {
        Some(s) => Some(s@),
        None => None,
    }
}

/// IEEE form of a person with one initial: `"<initial>. <surname>"`.
pub open spec fn ieee_one_initial(initial: Seq<char>, surname: Seq<char>) -> Seq<char> {
    initial + ". "@ + surname
}

/// IEEE form of a person with two initials: `"<first>. <middle>. <surname>"`.
pub open spec fn ieee_two_initials(
    first: Seq<char>,
    middle: Seq<char>,
    surname: Seq<char>,
) -> Seq<char> {
    first + ". "@ + middle + ". "@ + surname
}

/// APA form of a person with one initial: `"<surname>, <initial>."`.
pub open spec fn apa_one_initial(surname: Seq<char>, initial: Seq<char>) -> Seq<char> {
    surname + ", "@ + initial + "."@
}

/// APA form of a person with two initials: `"<surname>, <first>. <middle>."`.
pub open spec fn apa_two_initials(
    surname: Seq<char>,
    first: Seq<char>,
    middle: Seq<char>,
) -> Seq<char> {
    surname + ", "@ + first + ". "@ + middle + "."@
}

/// Writes `"<initial>. <surname>"`.
pub fn ieee_with_initial(initial: &str, surname: &str) -> (r: String)
    ensures
        r@ == ieee_one_initial(initial@, surname@),
{
    let mut s = String::from_str(initial);
    s.append(". ");
    s.append(surname);
    s
}

/// Writes `"<first>. <middle>. <surname>"`.
pub fn ieee_with_initials(first: &str, middle: &str, surname: &str) -> (r: String)
    ensures
        r@ == ieee_two_initials(first@, middle@, surname@),
{
    let mut s = String::from_str(first);
    s.append(". ");
    s.append(middle);
    s.append(". ");
    s.append(surname);
    s
}

/// Writes `"<surname>, <initial>."`.
pub fn apa_with_initial(surname: &str, initial: &str) -> (r: String)
    ensures
        r@ == apa_one_initial(surname@, initial@),
{
    let mut s = String::from_str(surname);
    s.append(", ");
    s.append(initial);
    s.append(".");
    s
}

/// Writes `"<surname>, <first>. <middle>."`.
pub fn apa_with_initials(surname: &str, first: &str, middle: &str) -> (r: String)
    ensures
        r@ == apa_two_initials(surname@, first@, middle@),
{
    let mut s = String::from_str(surname);
    s.append(", ");
    s.append(first);
    s.append(". ");
    s.append(middle);
    s.append(".");
    s
}

/// A person's name: a surname, optionally with a first name and a middle name.
#[derive(Debug, Clone, PartialEq)]
pub enum PersonName {
    SurnameOnly { surname: String },
    SurnameAndFirstName { surname: String, first_name: String },
    SurnameAndFirstNameAndMiddleName { surname: String, first_name: String, middle_name: String },
}

impl PersonName {
    /// Every component that is present is non-empty.
    pub open spec fn wf(&self) -> bool {
        match self {
            PersonName::SurnameOnly { surname } => surname@.len() > 0,
            PersonName::SurnameAndFirstName { surname, first_name } => {
                surname@.len() > 0 && first_name@.len() > 0
            },
            PersonName::SurnameAndFirstNameAndMiddleName { surname, first_name, middle_name } => {
                surname@.len() > 0 && first_name@.len() > 0 && middle_name@.len() > 0
            },
        }
    }

    /// The IEEE form: initials of the given names, then the surname.
    pub open spec fn ieee_spec(&self) -> Seq<char> {
        match self {
            PersonName::SurnameOnly { surname } => surname@,
            PersonName::SurnameAndFirstName { surname, first_name } => {
                ieee_one_initial(first_grapheme_of(first_name@), surname@)
            },
            PersonName::SurnameAndFirstNameAndMiddleName { surname, first_name, middle_name } => {
                ieee_two_initials(
                    first_grapheme_of(first_name@),
                    first_grapheme_of(middle_name@),
                    surname@,
                )
            },
        }
    }

    /// The APA form: the surname, then the initials of the given names.
    pub open spec fn apa_spec(&self) -> Seq<char> {
        match self {
            PersonName::SurnameOnly { surname } => surname@,
            PersonName::SurnameAndFirstName { surname, first_name } => {
                apa_one_initial(surname@, first_grapheme_of(first_name@))
            },
            PersonName::SurnameAndFirstNameAndMiddleName { surname, first_name, middle_name } => {
                apa_two_initials(
                    surname@,
                    first_grapheme_of(first_name@),
                    first_grapheme_of(middle_name@),
                )
            },
        }
    }

    /// Whether every present component is non-empty.
    pub fn is_wf(&self) -> (r: bool)
        ensures
            r == self.wf(),
    {
        match self {
            PersonName::SurnameOnly { surname } => !surname.as_str().is_empty(),
            PersonName::SurnameAndFirstName { surname, first_name } => {
                !surname.as_str().is_empty() && !first_name.as_str().is_empty()
            },
            PersonName::SurnameAndFirstNameAndMiddleName { surname, first_name, middle_name } => {
                !surname.as_str().is_empty() && !first_name.as_str().is_empty()
                    && !middle_name.as_str().is_empty()
            },
        }
    }

    /// A name of first, middle and last name; none may be empty.
    pub fn from_first_middle_last(first: &str, middle: &str, last: &str) -> (r: Result<
        PersonName,
        NameError,
    >)
        ensures
            r is Ok <==> (first@.len() > 0 && middle@.len() > 0 && last@.len() > 0),
            r matches Err(e) ==> e == NameError::EmptyString,
            r matches Ok(p) ==> p.wf() && (p matches PersonName::SurnameAndFirstNameAndMiddleName {
                surname,
                first_name,
                middle_name,
            } && surname@ == last@ && first_name@ == first@ && middle_name@ == middle@),
    {
        if first.is_empty() || middle.is_empty() || last.is_empty() {
            return Err(NameError::EmptyString);
        }
        Ok(
            PersonName::SurnameAndFirstNameAndMiddleName {
                first_name: String::from_str(first),
                middle_name: String::from_str(middle),
                surname: String::from_str(last),
            },
        )
    }

    /// A name of first and last name; neither may be empty.
    pub fn from_first_last(first: &str, last: &str) -> (r: Result<PersonName, NameError>)
        ensures
            r is Ok <==> (first@.len() > 0 && last@.len() > 0),
            r matches Err(e) ==> e == NameError::EmptyString,
            r matches Ok(p) ==> p.wf() && (p matches PersonName::SurnameAndFirstName {
                surname,
                first_name,
            } && surname@ == last@ && first_name@ == first@),
    {
        if first.is_empty() || last.is_empty() {
            return Err(NameError::EmptyString);
        }
        Ok(
            PersonName::SurnameAndFirstName {
                first_name: String::from_str(first),
                surname: String::from_str(last),
            },
        )
    }

    /// A name of a surname alone, which may not be empty.
    pub fn from_last(last: &str) -> (r: Result<PersonName, NameError>)
        ensures
            r is Ok <==> last@.len() > 0,
            r matches Err(e) ==> e == NameError::EmptyString,
            r matches Ok(p) ==> p.wf() && (p matches PersonName::SurnameOnly { surname }
                && surname@ == last@),
    {
        if last.is_empty() {
            return Err(NameError::EmptyString);
        }
        Ok(PersonName::SurnameOnly { surname: String::from_str(last) })
    }

    /// Renders in IEEE style.
    pub fn as_ieee_string(&self) -> (r: String)
        requires
            self.wf(),
        ensures
            r@ == self.ieee_spec(),
    {
        match self {
            PersonName::SurnameOnly { surname } => surname.clone(),
            PersonName::SurnameAndFirstName { surname, first_name } => {
                match first_grapheme(first_name.as_str()) {
                    Some(initial) => ieee_with_initial(initial.as_str(), surname.as_str()),
                    None => surname.clone(),
                }
            },
            PersonName::SurnameAndFirstNameAndMiddleName { surname, first_name, middle_name } => {
                match (first_grapheme(first_name.as_str()), first_grapheme(middle_name.as_str())) {
                    (Some(first), Some(middle)) => ieee_with_initials(
                        first.as_str(),
                        middle.as_str(),
                        surname.as_str(),
                    ),
                    _ => surname.clone(),
                }
            },
        }
    }

    /// Renders in APA style.
    pub fn as_apa_string(&self) -> (r: String)
        requires
            self.wf(),
        ensures
            r@ == self.apa_spec(),
    {
        match self {
            PersonName::SurnameOnly { surname } => surname.clone(),
            PersonName::SurnameAndFirstName { surname, first_name } => {
                match first_grapheme(first_name.as_str()) {
                    Some(initial) => apa_with_initial(surname.as_str(), initial.as_str()),
                    None => surname.clone(),
                }
            },
            PersonName::SurnameAndFirstNameAndMiddleName { surname, first_name, middle_name } => {
                match (first_grapheme(first_name.as_str()), first_grapheme(middle_name.as_str())) {
                    (Some(first), Some(middle)) => apa_with_initials(
                        surname.as_str(),
                        first.as_str(),
                        middle.as_str(),
                    ),
                    _ => surname.clone(),
                }
            },
        }
    }
}

/// Parts joined with `", "`.
pub open spec fn comma_joined(parts: Seq<Seq<char>>) -> Seq<char>
    decreases parts.len(),
{
    if parts.len() == 0 {
        Seq::empty()
    } else if parts.len() == 1 {
        parts[0]
    } else {
        comma_joined(parts.drop_last()) + ", "@ + parts.last()
    }
}

/// Every person of the list is well formed.
pub open spec fn all_wf(persons: Seq<PersonName>) -> bool {
    forall|i: int| 0 <= i < persons.len() ==> #[trigger] persons[i].wf()
}

/// The IEEE forms of the persons, in order.
pub open spec fn ieee_names(persons: Seq<PersonName>) -> Seq<Seq<char>> {
    persons.map_values(|p: PersonName| p.ieee_spec())
}

/// IEEE author list: absent when empty; one name; `"A and B"`; up to the
/// cutoff all names, comma-joined with `", and "` before the last; beyond it
/// the first name followed by `" et al."`.
pub open spec fn persons_ieee(persons: Seq<PersonName>) -> Option<Seq<char>> {
    let names = ieee_names(persons);
    let n = names.len();
    if n == 0 {
        None
    } else if n == 1 {
        Some(names[0])
    } else if n == 2 {
        Some(names[0] + " and "@ + names[1])
    } else if n <= IEEE_ACADEMIC_ET_AL_CUTOFF {
        Some(comma_joined(names.drop_last()) + ", and "@ + names[n - 1])
    } else {
        Some(names[0] + " et al."@)
    }
}

/// APA author list: absent when empty; one name; `"A & B"`; beyond the
/// cutoff the first name followed by `" et al."`.
pub open spec fn persons_apa(persons: Seq<PersonName>) -> Option<Seq<char>> {
    let n = persons.len();
    if n == 0 {
        None
    } else if n == 1 {
        Some(persons[0].apa_spec())
    } else if n <= APA_ET_AL_CUTOFF {
        Some(persons[0].apa_spec() + " & "@ + persons[1].apa_spec())
    } else {
        Some(persons[0].apa_spec() + " et al."@)
    }
}

fn persons_wf(persons: &Vec<PersonName>) -> (r: bool)
    ensures
        r == all_wf(persons@),
{
    let mut i: usize = 0;
    while i < persons.len()
        invariant
            i <= persons@.len(),
            forall|j: int| 0 <= j < i ==> #[trigger] persons@[j].wf(),
        decreases persons@.len() - i,
    {
        if !persons[i].is_wf() {
            return false;
        }
        i += 1;
    }
    true
}

fn persons_ieee_string(persons: &Vec<PersonName>) -> (r: Option<String>)
    requires
        all_wf(persons@),
    ensures
        opt_view(r) == persons_ieee(persons@),
{
    let n = persons.len();
    let ghost names = ieee_names(persons@);
    if n == 0 {
        return None;
    }
    let mut s = persons[0].as_ieee_string();
    if n == 1 {
        return Some(s);
    }
    if n == 2 {
        s.append(" and ");
        let second = persons[1].as_ieee_string();
        s.append(second.as_str());
        return Some(s);
    }
    if n > IEEE_ACADEMIC_ET_AL_CUTOFF {
        s.append(" et al.");
        return Some(s);
    }
    proof {
        assert(names.take(1).drop_last() =~= Seq::<Seq<char>>::empty());
        assert(comma_joined(names.take(1)) == names[0]);
    }
    let mut i: usize = 1;
    while i < n - 1
        invariant
            1 <= i <= n - 1,
            n == persons@.len(),
            3 <= n <= IEEE_ACADEMIC_ET_AL_CUTOFF,
            all_wf(persons@),
            names == ieee_names(persons@),
            s@ == comma_joined(names.take(i as int)),
        decreases n - 1 - i,
    {
        s.append(", ");
        let next = persons[i].as_ieee_string();
        s.append(next.as_str());
        proof {
            assert(names.take(i + 1).drop_last() =~= names.take(i as int));
        }
        i += 1;
    }
    proof {
        assert(names.drop_last() =~= names.take(n - 1));
    }
    s.append(", and ");
    let last = persons[n - 1].as_ieee_string();
    s.append(last.as_str());
    Some(s)
}

fn persons_apa_string(persons: &Vec<PersonName>) -> (r: Option<String>)
    requires
        all_wf(persons@),
    ensures
        opt_view(r) == persons_apa(persons@),
{
    let n = persons.len();
    if n == 0 {
        return None;
    }
    let mut s = persons[0].as_apa_string();
    if n == 1 {
        return Some(s);
    }
    if n <= APA_ET_AL_CUTOFF {
        s.append(" & ");
        let second = persons[1].as_apa_string();
        s.append(second.as_str());
        return Some(s);
    }
    s.append(" et al.");
    Some(s)
}

/// The author of an academic work. Its IEEE form carries the comma that
/// separates it from the next field.
#[derive(Debug, Clone, PartialEq)]
pub enum AcademicAuthor {
    Persons { persons: Vec<PersonName> },
    Organization { name: String },
}

impl AcademicAuthor {
    pub open spec fn wf(&self) -> bool {
        match self {
            AcademicAuthor::Persons { persons } => all_wf(persons@),
            AcademicAuthor::Organization { .. } => true,
        }
    }

    /// The IEEE list followed by `","`; absent for an empty list.
    pub open spec fn ieee_spec(&self) -> Option<Seq<char>> {
        match self {
            AcademicAuthor::Persons { persons } => match persons_ieee(persons@) {
                Some(list) => Some(list + ","@),
                None => None,
            },
            AcademicAuthor::Organization { name } => Some(name@ + ","@),
        }
    }

    pub open spec fn apa_spec(&self) -> Option<Seq<char>> {
        match self {
            AcademicAuthor::Persons { persons } => persons_apa(persons@),
            AcademicAuthor::Organization { name } => Some(name@),
        }
    }

    /// Whether every person's name is well formed.
    pub fn is_wf(&self) -> (r: bool)
        ensures
            r == self.wf(),
    {
        match self {
            AcademicAuthor::Persons { persons } => persons_wf(persons),
            AcademicAuthor::Organization { .. } => true,
        }
    }

    /// Renders in IEEE style.
    pub fn as_ieee_string(&self) -> (r: Option<String>)
        requires
            self.wf(),
        ensures
            opt_view(r) == self.ieee_spec(),
    {
        match self {
            AcademicAuthor::Persons { persons } => match persons_ieee_string(persons) {
                Some(list) => Some(list.concat(",")),
                None => None,
            },
            AcademicAuthor::Organization { name } => Some(name.clone().concat(",")),
        }
    }

    /// Renders in APA style.
    pub fn as_apa_string(&self) -> (r: Option<String>)
        requires
            self.wf(),
        ensures
            opt_view(r) == self.apa_spec(),
    {
        match self {
            AcademicAuthor::Persons { persons } => persons_apa_string(persons),
            AcademicAuthor::Organization { name } => Some(name.clone()),
        }
    }
}

/// The author of a work: a list of persons in contribution order, or an
/// organization, whose name is used unmodified.
#[derive(Debug, Clone, PartialEq)]
pub enum GenericAuthor {
    Persons { persons: Vec<PersonName> },
    Organization { name: String },
}

impl GenericAuthor {
    pub open spec fn wf(&self) -> bool {
        match self {
            GenericAuthor::Persons { persons } => all_wf(persons@),
            GenericAuthor::Organization { .. } => true,
        }
    }

    pub open spec fn ieee_spec(&self) -> Option<Seq<char>> {
        match self {
            GenericAuthor::Persons { persons } => persons_ieee(persons@),
            GenericAuthor::Organization { name } => Some(name@),
        }
    }

    pub open spec fn apa_spec(&self) -> Option<Seq<char>> {
        match self {
            GenericAuthor::Persons { persons } => persons_apa(persons@),
            GenericAuthor::Organization { name } => Some(name@),
        }
    }

    /// Whether every person's name is well formed.
    pub fn is_wf(&self) -> (r: bool)
        ensures
            r == self.wf(),
    {
        match self {
            GenericAuthor::Persons { persons } => persons_wf(persons),
            GenericAuthor::Organization { .. } => true,
        }
    }

    /// Renders in IEEE style.
    pub fn as_ieee_string(&self) -> (r: Option<String>)
        requires
            self.wf(),
        ensures
            opt_view(r) == self.ieee_spec(),
    {
        match self {
            GenericAuthor::Persons { persons } => persons_ieee_string(persons),
            GenericAuthor::Organization { name } => Some(name.clone()),
        }
    }

    /// Renders in APA style.
    pub fn as_apa_string(&self) -> (r: Option<String>)
        requires
            self.wf(),
        ensures
            opt_view(r) == self.apa_spec(),
    {
        match self {
            GenericAuthor::Persons { persons } => persons_apa_string(persons),
            GenericAuthor::Organization { name } => Some(name.clone()),
        }
    }
}

/// The editors of a work.
#[derive(Debug, Clone)]
pub struct Editors {
    persons: Vec<PersonName>,
}

/// A name built from a first, a middle and a last name renders in IEEE
/// style as the first grapheme of the first name, `". "`, the first
/// grapheme of the middle name, `". "`, and the last name.
pub proof fn lemma_ieee_first_middle_last(name: PersonName)
    requires
        name is SurnameAndFirstNameAndMiddleName,
        name.wf(),
    ensures
        name matches PersonName::SurnameAndFirstNameAndMiddleName {
            surname,
            first_name,
            middle_name,
        } && name.ieee_spec() == first_grapheme_of(first_name@) + ". "@ + first_grapheme_of(
            middle_name@,
        ) + ". "@ + surname@,
{
}

/// Two persons A and B render as `"A and B"` in IEEE style and as
/// `"A & B"` in APA style, each in that style's form of a single name.
pub proof fn lemma_two_persons(author: GenericAuthor)
    requires
        author matches GenericAuthor::Persons { persons } && persons@.len() == 2,
    ensures
        author matches GenericAuthor::Persons { persons } && {
            &&& author.ieee_spec() == Some(
                persons@[0].ieee_spec() + " and "@ + persons@[1].ieee_spec(),
            )
            &&& author.apa_spec() == Some(persons@[0].apa_spec() + " & "@ + persons@[1].apa_spec())
        },
{
}

/// More than six persons render in IEEE style as the first person's name
/// followed by `" et al."`.
pub proof fn lemma_ieee_more_than_six(author: GenericAuthor)
    requires
        author matches GenericAuthor::Persons { persons } && persons@.len() > 6,
    ensures
        author matches GenericAuthor::Persons { persons } && author.ieee_spec() == Some(
            persons@[0].ieee_spec() + " et al."@,
        ),
{
}

} // verus!
