//! The personality record type and its mathematical model.

use vstd::prelude::*;

verus! {

/// Mathematical model of one personality record: each field as a plain
/// sequence value, so that contracts can speak of records without reference
/// to the executable representation.
pub struct RecordModel {
    pub name: Seq<char>,
    pub programmer: Seq<char>,
    pub description: Seq<char>,
    pub philosophy: Option<Seq<char>>,
    pub tools: Seq<Seq<char>>,
    pub tags: Seq<Seq<char>>,
    pub environment: Option<Seq<(Seq<char>, Seq<char>)>>,
}

/// One named personality profile: an attributed persona with its associated
/// tool list, tags, and optional philosophy text and environment overrides.
///
/// The `environment` field is a list of key/value pairs with pairwise
/// distinct keys, in the order the source document first introduced each key.
#[derive(Debug, Clone, PartialEq)]
pub struct Personality {
    pub name: String,
    pub programmer: String,
    pub description: String,
    pub philosophy: Option<String>,
    pub tools: Vec<String>,
    pub tags: Vec<String>,
    pub environment: Option<Vec<(String, String)>>,
}

impl View for Personality {
    type V = RecordModel;

    open spec fn view(&self) -> RecordModel {
        RecordModel {
            name: self.name@,
            programmer: self.programmer@,
            description: self.description@,
            philosophy: self.philosophy.deep_view(),
            tools: self.tools.deep_view(),
            tags: self.tags.deep_view(),
            environment: self.environment.deep_view(),
        }
    }
}

impl DeepView for Personality {
    type V = RecordModel;

    open spec fn deep_view(&self) -> RecordModel {
        self.view()
    }
}

} // verus!
