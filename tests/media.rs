use citation_station::api::author::{GenericAuthor, PersonName};
use citation_station::api::citation::{ApaFormatting, Citation, IeeeFormatting};
use citation_station::api::date::{AccessDate, Month, PublishDate};
use citation_station::api::errors::CitationError;
use citation_station::api::media::common::CommonCitationData;
use citation_station::api::media::conference_paper::{
    ConferencePaperOnline, ConferenceProceedingsOnline,
};
use citation_station::api::media::online_manual::{OnlineManual, OnlineManualAvailability};
use citation_station::api::media::online_video::OnlineVideo;
use citation_station::api::media::version::{GenericMediaVersion, SemVer};

fn manual(available_at: OnlineManualAvailability) -> OnlineManual {
    OnlineManual {
        common_data: CommonCitationData {
            id: "foo".to_string(),
            published: Some(PublishDate::from_year(2003)),
        },
        author: GenericAuthor::Persons {
            persons: vec![PersonName::from_first_last("L", "Breimann").unwrap()],
        },
        title: "Manual on Setting Up, Using, and Understanding Random Forests".to_string(),
        version: Some(GenericMediaVersion::SemVer(SemVer::from_major_minor(4, 0))),
        available_at,
        accessed: AccessDate::from_ymd(2014, Month::April, 16).unwrap(),
    }
}

fn youtube(url: Option<String>) -> OnlineVideo {
    OnlineVideo::YouTube {
        common_data: CommonCitationData {
            id: "foo".to_string(),
            published: Some(PublishDate::from_year_month_day(2009, Month::April, 4).unwrap()),
        },
        title: "Tribute to anomalocaris".to_string(),
        url,
        channel: "scorpiopede".to_string(),
        accessed: AccessDate::from_ymd(2025, Month::October, 1).unwrap(),
    }
}

#[test]
fn test_format_online_manual_ieee() {
    let manual = manual(OnlineManualAvailability::URL(
        "http://oz.berkeley.edu/users/breiman/Using_random_forests_v4.0.pdf".to_string(),
    ));

    let expect = "L. Breimann. Manual on Setting Up, Using, and Understanding Random Forests \
                                v4.0. (2003). Accessed: Apr. 16, 2014. [Online]. Available: \
                                http://oz.berkeley.edu/users/breiman/Using_random_forests_v4.0.pdf";

    assert_eq!(IeeeFormatting::citation_string(&manual).unwrap(), expect)
}

#[test]
fn online_manual_apa_and_unavailable() {
    let m = manual(OnlineManualAvailability::NotAvailable);
    assert_eq!(
        ApaFormatting::citation_string(&m).unwrap(),
        "Breimann, L.. (2003). Manual on Setting Up, Using, and Understanding Random Forests."
    );
    assert_eq!(
        IeeeFormatting::citation_string(&m).unwrap(),
        "L. Breimann. Manual on Setting Up, Using, and Understanding Random Forests v4.0. \
         (2003). Accessed: Apr. 16, 2014. [Online]."
    );
    let m = manual(OnlineManualAvailability::URL("http://x.org".to_string()));
    assert_eq!(
        Citation::OnlineManual(m).format_apa().unwrap(),
        "Breimann, L.. (2003). Manual on Setting Up, Using, and Understanding Random Forests. \
         http://x.org"
    );
}

#[test]
fn online_manual_by_doi_has_no_rendering() {
    let m = manual(OnlineManualAvailability::DOI("10.1000/1".to_string()));
    assert_eq!(
        IeeeFormatting::citation_string(&m),
        Err(CitationError::UnsupportedStyleForMediaKind)
    );
    let m = manual(OnlineManualAvailability::LibraryDatabaseProvider("JSTOR".to_string()));
    assert_eq!(
        ApaFormatting::citation_string(&m),
        Err(CitationError::UnsupportedStyleForMediaKind)
    );
}

#[test]
fn test_youtube_video_ieee_formatting() {
    let video = youtube(Some("https://www.youtube.com/watch?v=6YsNRnZRgg8".to_string()));

    assert_eq!(
        IeeeFormatting::citation_string(&video).unwrap(),
        "scorpiopede. Tribute to anomalocaris. (Apr. 4, 2009). Accessed: Oct. 1, 2025. [Online Video]. Available: https://www.youtube.com/watch?v=6YsNRnZRgg8"
    )
}

#[test]
fn test_youtube_video_apa_formatting() {
    let video = youtube(Some("https://www.youtube.com/watch?v=6YsNRnZRgg8".to_string()));

    assert_eq!(
        ApaFormatting::citation_string(&video).unwrap(),
        "scorpiopede. (2009, April 4). Tribute to anomalocaris [Video]. YouTube. Retrieved October 1, 2025, from https://www.youtube.com/watch?v=6YsNRnZRgg8"
    )
}

#[test]
fn youtube_video_without_url() {
    let video = youtube(None);
    assert_eq!(
        Citation::OnlineVideo(video.clone()).format_apa().unwrap(),
        "scorpiopede. (2009, April 4). Tribute to anomalocaris [Video]. YouTube. Retrieved October 1, 2025."
    );
    assert_eq!(
        Citation::OnlineVideo(video).format_ieee().unwrap(),
        "scorpiopede. Tribute to anomalocaris. (Apr. 4, 2009). Accessed: Oct. 1, 2025. [Online Video]."
    );
}

#[test]
fn generic_video_has_no_rendering() {
    let video = OnlineVideo::Generic {
        common_data: CommonCitationData {
            id: "v".to_string(),
            published: None,
        },
        title: "Clip".to_string(),
        url: None,
        accessed: AccessDate::from_ymd(2020, Month::March, 3).unwrap(),
    };
    let citation = Citation::OnlineVideo(video);
    assert_eq!(citation.format_ieee(), Err(CitationError::UnsupportedStyleForMediaKind));
    assert_eq!(citation.format_apa(), Err(CitationError::UnsupportedStyleForMediaKind));
    assert_eq!(citation.title(), "Clip");
    assert!(citation.authors().is_none());
}

#[test]
fn conference_kinds_have_no_rendering() {
    let date = AccessDate::from_ymd_hms(2019, Month::June, 10, 9, 30, 0).unwrap();
    let paper = Citation::ConferencePaperOnline(ConferencePaperOnline {
        common_data: CommonCitationData {
            id: "p".to_string(),
            published: Some(PublishDate::from_year(2019)),
        },
        title: "Paper".to_string(),
        venue: None,
        volume: None,
        number: None,
        conference_name: "Conf".to_string(),
        conference_date: date,
    });
    assert_eq!(paper.format_apa(), Err(CitationError::UnsupportedStyleForMediaKind));
    assert_eq!(paper.format_ieee(), Err(CitationError::UnsupportedStyleForMediaKind));
    assert_eq!(paper.id(), "p");
    assert_eq!(paper.published(), Some(PublishDate::from_year(2019)));
    let proceedings = Citation::ConferenceProceedingsOnline(ConferenceProceedingsOnline {
        common_data: CommonCitationData {
            id: "q".to_string(),
            published: None,
        },
        title: "Proceedings".to_string(),
        venue: Some("Venue".to_string()),
        volume: None,
        number: None,
        conference_name: "Conf".to_string(),
        conference_date: date,
    });
    assert_eq!(proceedings.format_ieee(), Err(CitationError::UnsupportedStyleForMediaKind));
    assert_eq!(proceedings.title(), "Proceedings");
}
