//! The raw response model: a direct mirror of the classification service's
//! document, as permissive as the document itself. Which optional parts are
//! filled in depends on the response code; `models::interpret` decides that.
use vstd::prelude::*;

verus! {

/// The identifier that the service echoes back, with its type tag.
#[derive(Debug, Clone, PartialEq, Eq, Default)]
pub struct Input {
    pub input_type: String,
    pub value: String,
}

/// A list of candidate works.
#[derive(Debug, Clone, PartialEq, Eq, Default)]
pub struct Works {
    pub works: Vec<Work>,
}

/// One bibliographic work. Numeric-looking fields stay text: nothing here
/// computes with them.
#[derive(Debug, Clone, PartialEq, Eq, PartialOrd, Ord, Hash, Default)]
pub struct Work {
    pub author: String,
    pub editions: String,
    pub format: String,
    pub holdings: String,
    pub hyr: Option<String>,
    pub itemtype: String,
    pub lyr: Option<String>,
    pub owi: String,
    pub schemes: Option<String>,
    pub title: String,
    pub wi: Option<String>,
}

/// The response code, which selects the shape of the rest of the document.
#[derive(Debug, Clone, PartialEq, Eq, Default)]
pub struct Response {
    pub code: i64,
}

/// A whole response document.
#[derive(Debug, Clone, PartialEq, Eq, Default)]
pub struct Classify {
    pub input: Input,
    pub response: Response,
    pub work_count: Option<i64>,
    pub work: Option<Work>,
    pub works: Option<Works>,
    pub recommendations: Option<Recommendations>,
}

/// Why a classification number is recommended.
#[derive(Debug, Clone, Copy, PartialEq, Eq)]
pub enum RecommendationKind {
    MostPopular,
    MostRecent,
    LatestEdition,
}

/// One recommendation, tagged by its kind.
#[derive(Debug, Clone, PartialEq, Eq, Hash)]
pub enum RecommendationData {
    MostPopular(RecommendationStat),
    MostRecent(RecommendationStat),
    LatestEdition(RecommendationStat),
}

impl RecommendationData {
    pub open spec fn kind(self) -> RecommendationKind {
        match self {
            RecommendationData::MostPopular(_) => RecommendationKind::MostPopular,
            RecommendationData::MostRecent(_) => RecommendationKind::MostRecent,
            RecommendationData::LatestEdition(_) => RecommendationKind::LatestEdition,
        }
    }

    pub open spec fn stat(self) -> RecommendationStat {
        match self {
            RecommendationData::MostPopular(s) => s,
            RecommendationData::MostRecent(s) => s,
            RecommendationData::LatestEdition(s) => s,
        }
    }
}

/// The recommendations of one classification scheme, in document order.
#[derive(Debug, Clone, PartialEq, Eq, Default)]
pub struct RecommendationDataHolder {
    pub recommendations: Vec<RecommendationData>,
}

/// The recommendation block: Dewey Decimal and Library of Congress.
#[derive(Debug, Clone, PartialEq, Eq, Default)]
pub struct Recommendations {
    pub ddc: RecommendationDataHolder,
    pub lcc: RecommendationDataHolder,
}

/// Holdings count and the alternate filing forms of one classification number.
#[derive(Debug, Clone, PartialEq, Eq, Hash, Default)]
pub struct RecommendationStat {
    pub holdings: String,
    pub nsfa: Option<String>,
    pub sfa: Option<String>,
    pub sf2: Option<String>,
}

/// The value held by an option, as a sequence of zero or one element.
pub open spec fn present<A>(o: Option<A>) -> Seq<A> {
    match o {
        Some(x) => seq![x],
        None => seq![],
    }
}

impl RecommendationStat {
    /// The filing forms offered as candidates: the normalized alphabetic one,
    /// then the alphabetic one, each where present.
    pub open spec fn candidates(self) -> Seq<String> {
        present(self.nsfa) + present(self.sfa)
    }
}

/// The candidates of every recommendation of `kind` in `data`, in order.
pub open spec fn candidates_of(data: Seq<RecommendationData>, kind: RecommendationKind) -> Seq<
    String,
>
    decreases data.len(),
{
    if data.len() == 0 {
        seq![]
    } else {
        let last = data.last();
        candidates_of(data.drop_last(), kind) + if last.kind() == kind {
            last.stat().candidates()
        } else {
            seq![]
        }
    }
}

} // verus!
