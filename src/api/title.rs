//! Titles of books and of their chapters.
use crate::unicode::{LEFT_QUOTE, RIGHT_QUOTE};
use vstd::prelude::*;
use vstd::string::*;

verus! {

/// The title of a book; never empty.
#[derive(Debug)]
pub struct BookTitle {
    title: String,
}

impl View for BookTitle {
    type V = Seq<char>;

    closed spec fn view(&self) -> Seq<char> {
        self.title@
    }
}

impl BookTitle {
    pub fn title(&self) -> (r: String)
        ensures
            r@ == self@,
    {
        self.title.clone()
    }
}

/// An empty string is no book title.
#[derive(Debug, PartialEq, Eq, Structural)]
pub struct ParseBookTitleError;

impl std::str::FromStr for BookTitle {
    type Err = ParseBookTitleError;

    fn from_str(s: &str) -> (r: Result<Self, Self::Err>)
        ensures
            r is Ok <==> s@.len() > 0,
            r matches Ok(t) ==> t@ == s@,
    {
        if !s.is_empty() {
            Ok(BookTitle { title: <String as StringExecFns>::from_str(s) })
        } else {
            Err(ParseBookTitleError)
        }
    }
}

/// The title of a chapter of a book; never empty.
#[derive(Debug)]
pub struct BookChapterTitle {
    title: String,
}

impl View for BookChapterTitle {
    type V = Seq<char>;

    closed spec fn view(&self) -> Seq<char> {
        self.title@
    }
}

impl BookChapterTitle {
    pub fn title(&self) -> (r: String)
        ensures
            r@ == self@,
    {
        self.title.clone()
    }
}

/// An empty string is no chapter title.
#[derive(Debug, PartialEq, Eq, Structural)]
pub struct ParseBookChapterTitleError;

impl std::str::FromStr for BookChapterTitle {
    type Err = ParseBookChapterTitleError;

    fn from_str(s: &str) -> (r: Result<Self, Self::Err>)
        ensures
            r is Ok <==> s@.len() > 0,
            r matches Ok(t) ==> t@ == s@,
    {
        if !s.is_empty() {
            Ok(BookChapterTitle { title: <String as StringExecFns>::from_str(s) })
        } else {
            Err(ParseBookChapterTitleError)
        }
    }
}

/// A title between typographic double quotation marks.
pub open spec fn quoted(title: Seq<char>) -> Seq<char> {
    LEFT_QUOTE@ + title + RIGHT_QUOTE@
}

fn quote(title: &str) -> (r: String)
    ensures
        r@ == quoted(title@),
{
    let mut s = String::from_str(LEFT_QUOTE);
    s.append(title);
    s.append(RIGHT_QUOTE);
    s
}

/// The work that a cited part belongs to.
pub enum SourceName {
    BookTitle(BookTitle),
    ConferenceName,
}

impl SourceName {
    /// The quoted title, for a book.
    pub fn as_asciidoc_string(&self) -> (r: String)
        requires
            self is BookTitle,
        ensures
            self matches SourceName::BookTitle(t) && r@ == quoted(t@),
    {
        match self {
            SourceName::BookTitle(book_title) => quote(book_title.title.as_str()),
            SourceName::ConferenceName => String::new(),
        }
    }

    /// The quoted title, for a book.
    pub fn as_markdown_string(&self) -> (r: String)
        requires
            self is BookTitle,
        ensures
            self matches SourceName::BookTitle(t) && r@ == quoted(t@),
    {
        match self {
            SourceName::BookTitle(book_title) => quote(book_title.title.as_str()),
            SourceName::ConferenceName => String::new(),
        }
    }
}

/// The cited part of a work.
pub enum SourceComponent {
    BookChapterTitle(BookChapterTitle),
    ConferencePaperTitle,
}

impl SourceComponent {
    /// The quoted title, for a book chapter.
    pub fn as_asciidoc_string(&self) -> (r: String)
        requires
            self is BookChapterTitle,
        ensures
            self matches SourceComponent::BookChapterTitle(t) && r@ == quoted(t@),
    {
        match self {
            SourceComponent::BookChapterTitle(chapter) => quote(chapter.title.as_str()),
            SourceComponent::ConferencePaperTitle => String::new(),
        }
    }

    /// The quoted title, for a book chapter.
    pub fn as_markdown_string(&self) -> (r: String)
        requires
            self is BookChapterTitle,
        ensures
            self matches SourceComponent::BookChapterTitle(t) && r@ == quoted(t@),
    {
        match self {
            SourceComponent::BookChapterTitle(chapter) => quote(chapter.title.as_str()),
            SourceComponent::ConferencePaperTitle => String::new(),
        }
    }
}

} // verus!
