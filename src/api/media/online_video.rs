//! Videos watched online.
use crate::api::citation::renders;
use crate::api::date::AccessDate;
use crate::api::errors::CitationError;
use crate::api::media::common::CommonCitationData;
use crate::numerals::{int_decimal, nat_decimal, signed_decimal, unsigned_decimal};
use vstd::prelude::*;
use vstd::string::*;

verus! {

/// A video that was accessed via the internet.
///
/// IEEE formatting rules taken from:
/// * https://journals.ieeeauthorcenter.ieee.org/wp-content/uploads/sites/7/IEEE_Reference_Guide.pdf
///
/// APA formatting rules taken from:
/// * https://apastyle.apa.org/style-grammar-guidelines/references/examples/youtube-references
#[derive(Debug, Clone, PartialEq)]
pub enum OnlineVideo {
    Generic {
        common_data: CommonCitationData,
        title: String,
        url: Option<String>,
        accessed: AccessDate,
    },
    YouTube {
        common_data: CommonCitationData,
        title: String,
        url: Option<String>,
        channel: String,
        accessed: AccessDate,
    },
}

/// `"<Month> <day>, <year>"`, the date of a retrieval stamp.
pub open spec fn retrieved_on_spec(accessed: AccessDate) -> Seq<char> {
    accessed.month.name_spec() + " "@ + nat_decimal(accessed.day as nat) + ", "@ + int_decimal(
        accessed.year as int,
    )
}

fn retrieved_on(accessed: &AccessDate) -> (r: String)
    ensures
        r@ == retrieved_on_spec(*accessed),
{
    let mut s = accessed.month().name();
    s.append(" ");
    let d = unsigned_decimal(accessed.day() as u64);
    s.append(d.as_str());
    s.append(", ");
    let y = signed_decimal(accessed.year());
    s.append(y.as_str());
    s
}

impl OnlineVideo {
    /// IEEE, for a YouTube video: `"<channel>. <title>. (<date>). Accessed:
    /// <date>. [Online Video]. Available: <url>"`, absent parts left out; no
    /// rendering for other videos.
    pub open spec fn ieee_spec(&self) -> Option<Seq<char>> {
        match self {
            OnlineVideo::Generic { .. } => None,
            OnlineVideo::YouTube { common_data, title, url, channel, accessed } => {
                let date = match common_data.published {
                    Some(d) => " ("@ + d.ieee_spec() + ")."@,
                    None => Seq::empty(),
                };
                let available = match url {
                    Some(u) => " Available: "@ + u@,
                    None => Seq::empty(),
                };
                Some(
                    channel@ + ". "@ + title@ + "."@ + date + " Accessed: "@ + accessed.ieee_spec()
                        + ". [Online Video]."@ + available,
                )
            },
        }
    }

    /// APA, for a YouTube video: `"<channel>. (<date>). <title> [Video].
    /// YouTube. Retrieved <date>, from <url>"` (ending `"Retrieved <date>."`
    /// without a URL), absent parts left out; no rendering for other videos.
    pub open spec fn apa_spec(&self) -> Option<Seq<char>> {
        match self {
            OnlineVideo::Generic { .. } => None,
            OnlineVideo::YouTube { common_data, title, url, channel, accessed } => {
                let date = match common_data.published {
                    Some(d) => " ("@ + d.apa_spec() + ")."@,
                    None => Seq::empty(),
                };
                let retrieved = match url {
                    Some(u) => " Retrieved "@ + retrieved_on_spec(*accessed) + ", from "@ + u@,
                    None => " Retrieved "@ + retrieved_on_spec(*accessed) + "."@,
                };
                Some(channel@ + "."@ + date + " "@ + title@ + " [Video]. YouTube."@ + retrieved)
            },
        }
    }
}

impl crate::api::citation::IeeeFormatting for OnlineVideo {
    fn citation_string(&self) -> (r: Result<String, CitationError>)
        ensures
            renders(r, true, self.ieee_spec()),
    {
        match self {
            OnlineVideo::Generic { .. } => Err(CitationError::UnsupportedStyleForMediaKind),
            OnlineVideo::YouTube { common_data, title, url, channel, accessed } => {
                let mut s = channel.clone().concat(". ");
                s.append(title.as_str());
                s.append(".");
                if let Some(published) = &common_data.published {
                    s.append(" (");
                    let d = published.fmt_for_ieee_citation();
                    s.append(d.as_str());
                    s.append(").");
                }
                s.append(" Accessed: ");
                let a = accessed.fmt_for_ieee_citation();
                s.append(a.as_str());
                s.append(". [Online Video].");
                if let Some(u) = url {
                    s.append(" Available: ");
                    s.append(u.as_str());
                }
                assert(Some(s@) =~= self.ieee_spec());
                Ok(s)
            },
        }
    }
}

impl crate::api::citation::ApaFormatting for OnlineVideo {
    fn citation_string(&self) -> (r: Result<String, CitationError>)
        ensures
            renders(r, true, self.apa_spec()),
    {
        match self {
            OnlineVideo::Generic { .. } => Err(CitationError::UnsupportedStyleForMediaKind),
            OnlineVideo::YouTube { common_data, title, url, channel, accessed } => {
                let mut s = channel.clone().concat(".");
                if let Some(published) = &common_data.published {
                    s.append(" (");
                    let d = published.fmt_for_apa_citation();
                    s.append(d.as_str());
                    s.append(").");
                }
                s.append(" ");
                s.append(title.as_str());
                s.append(" [Video]. YouTube.");
                s.append(" Retrieved ");
                let on = retrieved_on(accessed);
                s.append(on.as_str());
                match url {
                    Some(u) => {
                        s.append(", from ");
                        s.append(u.as_str());
                    },
                    None => {
                        s.append(".");
                    },
                }
                assert(Some(s@) =~= self.apa_spec());
                Ok(s)
            },
        }
    }
}

} // verus!
