//! The feed-side data model: one threat record with its indicators.

use vstd::prelude::*;

verus! {

/// One observable artifact inside a record, with its activity flag and an
/// optional expiration timestamp string.
#[derive(Debug, Clone)]
pub struct OTXIndicator {
    pub id: u128,
    pub indicator: String,
    pub type_: String,
    pub created: String,
    pub content: String,
    pub title: String,
    pub description: String,
    pub expiration: Option<String>,
    pub is_active: u8,
    pub role: Option<String>,
}

/// One threat record of a pulse: free-text fields, tags, targeted
/// countries, and its indicators.
#[derive(Debug, Clone)]
pub struct OTXRecord {
    pub id: String,
    pub name: String,
    pub description: String,
    pub author_name: String,
    pub modified: String,
    pub created: String,
    pub revision: u64,
    pub tlp: String,
    pub public: u64,
    pub adversary: String,
    pub indicators: Vec<OTXIndicator>,
    pub tags: Vec<String>,
    pub targeted_countries: Vec<String>,
    pub malware_families: Vec<String>,
    pub attack_ids: Vec<String>,
    pub references: Vec<String>,
    pub industries: Vec<String>,
    pub extract_source: Vec<String>,
    pub more_indicators: bool,
}

/// The characters of an indicator's role, or the empty text when absent.
pub open spec fn role_text(ind: OTXIndicator) -> Seq<char> {
    match ind.role {
        Some(r) => r@,
        None => Seq::empty(),
    }
}

} // verus!
