//! Citations of any kind of media, and their rendering in each style.
use crate::api::author::GenericAuthor;
use crate::api::date::PublishDate;
use crate::api::errors::CitationError;
use crate::api::media::book::Book;
use crate::api::media::common::CommonCitationData;
use crate::api::media::conference_paper::{ConferencePaperOnline, ConferenceProceedingsOnline};
use crate::api::media::online_manual::OnlineManual;
use crate::api::media::online_video::OnlineVideo;
use vstd::prelude::*;

verus! {

/// Rendering in IEEE style.
pub trait IeeeFormatting {
    fn citation_string(&self) -> Result<String, CitationError>;
}

/// Rendering in APA style.
pub trait ApaFormatting {
    fn citation_string(&self) -> Result<String, CitationError>;
}

/// Outcome of rendering a citation: a name with an empty component is
/// reported; otherwise `r` is the rendering `expected` when there is one,
/// and else the report that the style has none for this kind of media.
pub open spec fn renders(
    r: Result<String, CitationError>,
    names_wf: bool,
    expected: Option<Seq<char>>,
) -> bool {
    if !names_wf {
        r == Err::<String, CitationError>(CitationError::EmptyNameComponent)
    } else {
        match r {
            Ok(s) => expected == Some(s@),
            Err(e) => expected is None && e == CitationError::UnsupportedStyleForMediaKind,
        }
    }
}


/// A bibliographic entry representing a citable work
#[derive(Debug, Clone, PartialEq)]
pub enum Citation {
    Book(Book),
    ConferencePaperOnline(ConferencePaperOnline),
    ConferenceProceedingsOnline(ConferenceProceedingsOnline),
    OnlineManual(OnlineManual),
    OnlineVideo(OnlineVideo),
}

impl Citation {
    pub open spec fn common_spec(&self) -> CommonCitationData {
        match self {
            Citation::Book(book) => book.common_data,
            Citation::ConferencePaperOnline(paper) => paper.common_data,
            Citation::ConferenceProceedingsOnline(proceedings) => proceedings.common_data,
            Citation::OnlineManual(manual) => manual.common_data,
            Citation::OnlineVideo(video) => match video {
                OnlineVideo::Generic { common_data, .. } => *common_data,
                OnlineVideo::YouTube { common_data, .. } => *common_data,
            },
        }
    }

    pub open spec fn id_spec(&self) -> Seq<char> {
        self.common_spec().id@
    }

    pub open spec fn published_spec(&self) -> Option<PublishDate> {
        self.common_spec().published
    }

    pub open spec fn title_spec(&self) -> Seq<char> {
        match self {
            Citation::Book(book) => book.title@,
            Citation::ConferencePaperOnline(paper) => paper.title@,
            Citation::ConferenceProceedingsOnline(proceedings) => proceedings.title@,
            Citation::OnlineManual(manual) => manual.title@,
            Citation::OnlineVideo(video) => match video {
                OnlineVideo::Generic { title, .. } => title@,
                OnlineVideo::YouTube { title, .. } => title@,
            },
        }
    }

    /// Every author name that the citation holds is well formed.
    pub open spec fn wf(&self) -> bool {
        match self {
            Citation::Book(book) => book.wf(),
            Citation::OnlineManual(manual) => manual.wf(),
            _ => true,
        }
    }

    /// The IEEE rendering, where the media kind has one.
    pub open spec fn ieee_spec(&self) -> Option<Seq<char>> {
        match self {
            Citation::Book(book) => Some(book.ieee_spec()),
            Citation::OnlineManual(manual) => manual.ieee_spec(),
            Citation::OnlineVideo(video) => video.ieee_spec(),
            _ => None,
        }
    }

    /// The APA rendering, where the media kind has one.
    pub open spec fn apa_spec(&self) -> Option<Seq<char>> {
        match self {
            Citation::Book(book) => Some(book.apa_spec()),
            Citation::OnlineManual(manual) => manual.apa_spec(),
            Citation::OnlineVideo(video) => video.apa_spec(),
            _ => None,
        }
    }

    fn common_data(&self) -> (r: &CommonCitationData)
        ensures
            *r == self.common_spec(),
    {
        match self {
            Citation::Book(book) => &book.common_data,
            Citation::ConferencePaperOnline(paper) => &paper.common_data,
            Citation::ConferenceProceedingsOnline(proceedings) => &proceedings.common_data,
            Citation::OnlineManual(manual) => &manual.common_data,
            Citation::OnlineVideo(video) => match video {
                OnlineVideo::Generic { common_data, .. } => common_data,
                OnlineVideo::YouTube { common_data, .. } => common_data,
            },
        }
    }

    pub fn id(&self) -> (r: String)
        ensures
            r@ == self.id_spec(),
    {
        self.common_data().id.clone()
    }

    pub fn title(&self) -> (r: String)
        ensures
            r@ == self.title_spec(),
    {
        match self {
            Citation::Book(book) => book.title.clone(),
            Citation::ConferencePaperOnline(paper) => paper.title.clone(),
            Citation::ConferenceProceedingsOnline(proceedings) => proceedings.title.clone(),
            Citation::OnlineManual(manual) => manual.title.clone(),
            Citation::OnlineVideo(video) => match video {
                OnlineVideo::Generic { title, .. } => title.clone(),
                OnlineVideo::YouTube { title, .. } => title.clone(),
            },
        }
    }

    pub fn published(&self) -> (r: Option<PublishDate>)
        ensures
            r == self.published_spec(),
    {
        self.common_data().published
    }

    /// The author, for the kinds of media that name one.
    pub fn authors(&self) -> (r: Option<&GenericAuthor>)
        ensures
            r == (match self {
                Citation::Book(book) => Some(&book.author),
                Citation::OnlineManual(manual) => Some(&manual.author),
                _ => None,
            }),
    {
        match self {
            Citation::Book(book) => Some(&book.author),
            Citation::OnlineManual(manual) => Some(&manual.author),
            _ => None,
        }
    }

    /// Format the citation in APA style
    pub fn format_apa(&self) -> (r: Result<String, CitationError>)
        ensures
            renders(r, self.wf(), self.apa_spec()),
    {
        match self {
            Citation::Book(book) => ApaFormatting::citation_string(book),
            Citation::OnlineManual(manual) => ApaFormatting::citation_string(manual),
            Citation::OnlineVideo(video) => ApaFormatting::citation_string(video),
            _ => Err(CitationError::UnsupportedStyleForMediaKind),
        }
    }

    /// Format the citation in IEEE style
    pub fn format_ieee(&self) -> (r: Result<String, CitationError>)
        ensures
            renders(r, self.wf(), self.ieee_spec()),
    {
        match self {
            Citation::Book(book) => IeeeFormatting::citation_string(book),
            Citation::OnlineManual(manual) => IeeeFormatting::citation_string(manual),
            Citation::OnlineVideo(video) => IeeeFormatting::citation_string(video),
            _ => Err(CitationError::UnsupportedStyleForMediaKind),
        }
    }
}

} // verus!
