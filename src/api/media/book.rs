//! Books and chapters of books.
use crate::api::author::GenericAuthor;
use crate::api::citation::renders;
use crate::api::errors::CitationError;
use crate::api::media::common::CommonCitationData;
use crate::api::media::version::GenericMediaVersion;
use crate::api::page_range::PageRange;
use crate::api::title::quoted;
use crate::numerals::{int_decimal, signed_decimal};
use crate::unicode::{LEFT_QUOTE, RIGHT_QUOTE};
use vstd::prelude::*;
use vstd::string::*;

verus! {

#[derive(Debug, Clone, PartialEq)]
pub struct Book {
    pub common_data: CommonCitationData,
    /// Author
    pub author: GenericAuthor,
    /// Book title
    pub title: String,
    /// Chapter
    pub chapter: Option<String>,
    /// Edition
    pub version: Option<GenericMediaVersion>,
    /// DOI (Digital Object Identifier)
    pub doi: Option<String>,
    /// Page range
    pub pages: Option<PageRange>,
}

impl Book {
    pub open spec fn wf(&self) -> bool {
        self.author.wf()
    }

    /// IEEE title field: the title, or the quoted chapter (with its comma
    /// inside the quotes) followed by `"in <title>"`, then the edition.
    pub open spec fn ieee_title_spec(&self) -> Seq<char> {
        match (self.chapter, self.version) {
            (None, None) => self.title@ + "."@,
            (None, Some(version)) => self.title@ + ", "@ + version.ieee_spec(),
            (Some(chapter), None) => quoted(chapter@ + ","@) + " in "@ + self.title@ + "."@,
            (Some(chapter), Some(version)) => quoted(chapter@ + ","@) + " in "@ + self.title@
                + ", "@ + version.ieee_spec() + "."@,
        }
    }

    /// IEEE: `"<authors>, <title field> <date>."`, absent parts left out.
    pub open spec fn ieee_spec(&self) -> Seq<char> {
        let authors = match self.author.ieee_spec() {
            Some(a) => a + ", "@,
            None => Seq::empty(),
        };
        let date = match self.common_data.published {
            Some(d) => " "@ + d.ieee_spec() + "."@,
            None => Seq::empty(),
        };
        authors + self.ieee_title_spec() + date
    }

    /// APA: `"<authors> (<year>). <title>. <edition>."`, absent parts left
    /// out.
    pub open spec fn apa_spec(&self) -> Seq<char> {
        let authors = match self.author.apa_spec() {
            Some(a) => a + " "@,
            None => Seq::empty(),
        };
        let rest = match (self.common_data.published, self.version) {
            (None, None) => self.title@ + "."@,
            (None, Some(version)) => self.title@ + " "@ + version.apa_spec() + "."@,
            (Some(d), None) => "("@ + int_decimal(d.year_spec() as int) + "). "@ + self.title@
                + "."@,
            (Some(d), Some(version)) => "("@ + int_decimal(d.year_spec() as int) + "). "@
                + self.title@ + ". "@ + version.apa_spec() + "."@,
        };
        authors + rest
    }

    fn ieee_title_string(&self) -> (r: String)
        ensures
            r@ == self.ieee_title_spec(),
    {
        match (&self.chapter, &self.version) {
            (None, None) => self.title.clone().concat("."),
            (None, Some(version)) => {
                let v = version.as_ieee_string();
                self.title.clone().concat(", ").concat(v.as_str())
            },
            (Some(chapter), None) => {
                let mut s = String::from_str(LEFT_QUOTE);
                s.append(chapter.as_str());
                s.append(",");
                s.append(RIGHT_QUOTE);
                s.append(" in ");
                s.append(self.title.as_str());
                s.append(".");
                s
            },
            (Some(chapter), Some(version)) => {
                let mut s = String::from_str(LEFT_QUOTE);
                s.append(chapter.as_str());
                s.append(",");
                s.append(RIGHT_QUOTE);
                s.append(" in ");
                s.append(self.title.as_str());
                s.append(", ");
                let v = version.as_ieee_string();
                s.append(v.as_str());
                s.append(".");
                s
            },
        }
    }
}

impl crate::api::citation::IeeeFormatting for Book {
    fn citation_string(&self) -> (r: Result<String, CitationError>)
        ensures
            renders(r, self.wf(), Some(self.ieee_spec())),
    {
        if !self.author.is_wf() {
            return Err(CitationError::EmptyNameComponent);
        }
        let mut s = match self.author.as_ieee_string() {
            Some(authors) => authors.concat(", "),
            None => String::new(),
        };
        let title = self.ieee_title_string();
        s.append(title.as_str());
        if let Some(published) = &self.common_data.published {
            s.append(" ");
            let d = published.fmt_for_ieee_citation();
            s.append(d.as_str());
            s.append(".");
        }
        assert(s@ =~= self.ieee_spec());
        Ok(s)
    }
}

impl crate::api::citation::ApaFormatting for Book {
    fn citation_string(&self) -> (r: Result<String, CitationError>)
        ensures
            renders(r, self.wf(), Some(self.apa_spec())),
    {
        if !self.author.is_wf() {
            return Err(CitationError::EmptyNameComponent);
        }
        let mut s = match self.author.as_apa_string() {
            Some(authors) => authors.concat(" "),
            None => String::new(),
        };
        match (&self.common_data.published, &self.version) {
            (None, None) => {
                s.append(self.title.as_str());
                s.append(".");
            },
            (None, Some(version)) => {
                s.append(self.title.as_str());
                s.append(" ");
                let v = version.as_apa_string();
                s.append(v.as_str());
                s.append(".");
            },
            (Some(published), None) => {
                s.append("(");
                let y = signed_decimal(published.year());
                s.append(y.as_str());
                s.append("). ");
                s.append(self.title.as_str());
                s.append(".");
            },
            (Some(published), Some(version)) => {
                s.append("(");
                let y = signed_decimal(published.year());
                s.append(y.as_str());
                s.append("). ");
                s.append(self.title.as_str());
                s.append(". ");
                let v = version.as_apa_string();
                s.append(v.as_str());
                s.append(".");
            },
        }
        assert(s@ =~= self.apa_spec());
        Ok(s)
    }
}

} // verus!
