//! Manuals read online.
use crate::api::author::GenericAuthor;
use crate::api::citation::renders;
use crate::api::date::AccessDate;
use crate::api::errors::CitationError;
use crate::api::media::common::CommonCitationData;
use crate::api::media::version::GenericMediaVersion;
use vstd::prelude::*;
use vstd::string::*;

verus! {

/// Where an online manual can be found.
#[derive(Debug, Clone, PartialEq)]
pub enum OnlineManualAvailability {
    NotAvailable,
    DOI(String),
    URL(String),
    LibraryDatabaseProvider(String),
}

impl Default for OnlineManualAvailability {
    fn default() -> (r: Self)
        ensures
            r == OnlineManualAvailability::NotAvailable,
    {
        OnlineManualAvailability::NotAvailable
    }
}

/// A manual that was accessed via the internet.
///
/// IEEE formatting rules taken from:
/// * https://journals.ieeeauthorcenter.ieee.org/wp-content/uploads/sites/7/IEEE_Reference_Guide.pdf
///
/// APA does not explicitly define formatting for online manuals citations.
#[derive(Debug, Clone, PartialEq)]
pub struct OnlineManual {
    /// Universal data shared between different media types
    pub common_data: CommonCitationData,
    /// Author
    pub author: GenericAuthor,
    /// Title
    pub title: String,
    /// Version
    pub version: Option<GenericMediaVersion>,
    /// DOI, library database provider, or URL
    pub available_at: OnlineManualAvailability,
    /// When the resource was viewed
    pub accessed: AccessDate,
}

impl OnlineManual {
    pub open spec fn wf(&self) -> bool {
        self.author.wf()
    }

    /// IEEE: `"<authors>. <title> <version>. (<date>). Accessed: <date>.
    /// [Online]. Available: <url>"`, absent parts left out; no rendering
    /// for a manual found by DOI or library database.
    pub open spec fn ieee_spec(&self) -> Option<Seq<char>> {
        let head = self.ieee_head_spec();
        match self.available_at {
            OnlineManualAvailability::NotAvailable => Some(head),
            OnlineManualAvailability::URL(url) => Some(head + " Available: "@ + url@),
            _ => None,
        }
    }

    /// The IEEE form up to the availability.
    pub open spec fn ieee_head_spec(&self) -> Seq<char> {
        let authors = match self.author.ieee_spec() {
            Some(a) => a + ". "@,
            None => Seq::empty(),
        };
        let title = match self.version {
            Some(v) => self.title@ + " "@ + v.ieee_spec() + "."@,
            None => self.title@ + "."@,
        };
        let date = match self.common_data.published {
            Some(d) => " ("@ + d.apa_spec() + ")."@,
            None => Seq::empty(),
        };
        let accessed = " Accessed: "@ + self.accessed.ieee_spec() + ". [Online]."@;
        authors + title + date + accessed
    }

    fn ieee_head(&self) -> (r: String)
        requires
            self.wf(),
        ensures
            r@ == self.ieee_head_spec(),
    {
        let mut s = match self.author.as_ieee_string() {
            Some(authors) => authors.concat(". "),
            None => String::new(),
        };
        s.append(self.title.as_str());
        if let Some(version) = &self.version {
            s.append(" ");
            let v = version.as_ieee_string();
            s.append(v.as_str());
        }
        s.append(".");
        if let Some(published) = &self.common_data.published {
            s.append(" (");
            let d = published.fmt_for_apa_citation();
            s.append(d.as_str());
            s.append(").");
        }
        s.append(" Accessed: ");
        let accessed = self.accessed.fmt_for_ieee_citation();
        s.append(accessed.as_str());
        s.append(". [Online].");
        assert(s@ =~= self.ieee_head_spec());
        s
    }

    /// APA: `"<authors>. (<date>). <title>. <url>"`, absent parts left out;
    /// no rendering for a manual found by DOI or library database.
    pub open spec fn apa_spec(&self) -> Option<Seq<char>> {
        let authors = match self.author.apa_spec() {
            Some(a) => a + ". "@,
            None => Seq::empty(),
        };
        let date = match self.common_data.published {
            Some(d) => "("@ + d.apa_spec() + "). "@,
            None => Seq::empty(),
        };
        let head = authors + date + self.title@ + "."@;
        match self.available_at {
            OnlineManualAvailability::NotAvailable => Some(head),
            OnlineManualAvailability::URL(url) => Some(head + " "@ + url@),
            _ => None,
        }
    }
}

impl crate::api::citation::IeeeFormatting for OnlineManual {
    fn citation_string(&self) -> (r: Result<String, CitationError>)
        ensures
            renders(r, self.wf(), self.ieee_spec()),
    {
        if !self.author.is_wf() {
            return Err(CitationError::EmptyNameComponent);
        }
        let mut s = self.ieee_head();
        match &self.available_at {
            OnlineManualAvailability::NotAvailable => {},
            OnlineManualAvailability::URL(url) => {
                s.append(" Available: ");
                s.append(url.as_str());
            },
            _ => {
                return Err(CitationError::UnsupportedStyleForMediaKind);
            },
        }
        assert(Some(s@) =~= self.ieee_spec());
        Ok(s)
    }
}

impl crate::api::citation::ApaFormatting for OnlineManual {
    fn citation_string(&self) -> (r: Result<String, CitationError>)
        ensures
            renders(r, self.wf(), self.apa_spec()),
    {
        if !self.author.is_wf() {
            return Err(CitationError::EmptyNameComponent);
        }
        let mut s = match self.author.as_apa_string() {
            Some(authors) => authors.concat(". "),
            None => String::new(),
        };
        if let Some(published) = &self.common_data.published {
            s.append("(");
            let d = published.fmt_for_apa_citation();
            s.append(d.as_str());
            s.append("). ");
        }
        s.append(self.title.as_str());
        s.append(".");
        match &self.available_at {
            OnlineManualAvailability::NotAvailable => {},
            OnlineManualAvailability::URL(url) => {
                s.append(" ");
                s.append(url.as_str());
            },
            _ => {
                return Err(CitationError::UnsupportedStyleForMediaKind);
            },
        }
        assert(Some(s@) =~= self.apa_spec());
        Ok(s)
    }
}

} // verus!
