//! Papers and proceedings of conferences, published online.
use crate::api::date::AccessDate;
use crate::api::media::common::CommonCitationData;
use vstd::prelude::*;

verus! {

#[derive(Debug, Clone, PartialEq)]
pub struct ConferencePaperOnline {
    pub common_data: CommonCitationData,
    pub title: String,
    /// Journal or venue name
    pub venue: Option<String>,
    /// Volume number
    pub volume: Option<String>,
    /// Issue or number
    pub number: Option<String>,
    pub conference_name: String,
    /// When the conference took place (UTC)
    pub conference_date: AccessDate,
}

#[derive(Debug, Clone, PartialEq)]
pub struct ConferenceProceedingsOnline {
    pub common_data: CommonCitationData,
    pub title: String,
    /// Journal or venue name
    pub venue: Option<String>,
    /// Volume number
    pub volume: Option<String>,
    /// Issue or number
    pub number: Option<String>,
    pub conference_name: String,
    /// When the conference took place (UTC)
    pub conference_date: AccessDate,
}

} // verus!
