//! The normalized, code-independent outcome of a lookup, and the functions
//! that build it from the raw response model.
use crate::api_models::{
    candidates_of, Classify, RecommendationData, RecommendationDataHolder, RecommendationKind, Work,
};
use vstd::prelude::*;

verus! {

/// The document could not be decoded; relies on serde-xml-rs's error type,
/// carried through unchanged.
#[verifier::external_type_specification]
#[verifier::external_body]
pub struct ExXmlError(serde_xml_rs::Error);

/// The request could not be made; relies on reqwest's error type, carried
/// through unchanged.
#[verifier::external_type_specification]
#[verifier::external_body]
pub struct ExHttpError(reqwest::Error);

/// A lookup that produced no outcome.
#[derive(Debug)]
pub enum ClassifyError {
    /// The service was given no identifier.
    NoInput,
    /// The service rejected the identifier's syntax.
    InvalidInput,
    /// The response lacks a part that its code requires.
    UnexpectedError,
    /// The response carries a code that this library does not know.
    UnexpectedResponseCode(i64),
    /// The response document could not be decoded.
    XmlParsingError(serde_xml_rs::Error),
    /// The request failed in transport.
    IoError(reqwest::Error),
}

/// The candidate classification numbers of one scheme, by kind, best first.
#[derive(Debug, Clone, PartialEq, Eq, Default)]
pub struct ClassificationRecommendation {
    pub most_popular: Vec<String>,
    pub most_recent: Vec<String>,
    pub latest_edition: Vec<String>,
}

/// The candidates of one scheme as sequences.
pub struct SchemeCandidates {
    pub most_popular: Seq<String>,
    pub most_recent: Seq<String>,
    pub latest_edition: Seq<String>,
}

impl View for ClassificationRecommendation {
    type V = SchemeCandidates;

    open spec fn view(&self) -> SchemeCandidates {
        SchemeCandidates {
            most_popular: self.most_popular@,
            most_recent: self.most_recent@,
            latest_edition: self.latest_edition@,
        }
    }
}

/// What the recommendations of one scheme normalize to: for each kind, the
/// present filing forms of its recommendations, in document order.
pub open spec fn scheme_candidates(h: RecommendationDataHolder) -> SchemeCandidates {
    SchemeCandidates {
        most_popular: candidates_of(h.recommendations@, RecommendationKind::MostPopular),
        most_recent: candidates_of(h.recommendations@, RecommendationKind::MostRecent),
        latest_edition: candidates_of(h.recommendations@, RecommendationKind::LatestEdition),
    }
}

/// The values held by the options of `s` that are present, in order.
pub open spec fn flatten<A>(s: Seq<Option<A>>) -> Seq<A>
    decreases s.len(),
{
    if s.len() == 0 {
        seq![]
    } else {
        flatten(s.drop_last()) + crate::api_models::present(s.last())
    }
}

/// Appends to `c` the value of each option of `opts` that holds one.
pub fn push_if_some<A>(c: &mut Vec<A>, opts: Vec<Option<A>>)
    ensures
        final(c)@ == old(c)@ + flatten(opts@),
{
    let ghost start = c@;
    let ghost all = opts@;
    for opt in it: opts.into_iter()
        invariant
            it.seq() == all,
            c@ == start + flatten(all.take(it.index() as int)),
    {
        proof {
            assert(all.take(it.index() + 1).drop_last() == all.take(it.index() as int));
        }
        match opt {
            Some(x) => c.push(x),
            None => {},
        }
    }
    proof {
        assert(all.take(all.len() as int) == all);
    }
}

impl From<RecommendationDataHolder> for ClassificationRecommendation {
    fn from(recommendations: RecommendationDataHolder) -> (r: Self)
        ensures
            r@ == scheme_candidates(recommendations),
    {
        let ghost data = recommendations.recommendations@;
        let mut most_popular: Vec<String> = Vec::new();
        let mut most_recent: Vec<String> = Vec::new();
        let mut latest_edition: Vec<String> = Vec::new();
        for recommendation in it: recommendations.recommendations.into_iter()
            invariant
                it.seq() == data,
                most_popular@ == candidates_of(
                    data.take(it.index() as int),
                    RecommendationKind::MostPopular,
                ),
                most_recent@ == candidates_of(
                    data.take(it.index() as int),
                    RecommendationKind::MostRecent,
                ),
                latest_edition@ == candidates_of(
                    data.take(it.index() as int),
                    RecommendationKind::LatestEdition,
                ),
        {
            proof {
                let next = data.take(it.index() + 1);
                assert(next.drop_last() == data.take(it.index() as int));
                assert(next.last() == recommendation);
            }
            match recommendation {
                RecommendationData::MostPopular(stat) => {
                    proof {
                        lemma_flatten_pair(stat.nsfa, stat.sfa);
                    }
                    push_if_some(&mut most_popular, vec![stat.nsfa, stat.sfa]);
                },
                RecommendationData::MostRecent(stat) => {
                    proof {
                        lemma_flatten_pair(stat.nsfa, stat.sfa);
                    }
                    push_if_some(&mut most_recent, vec![stat.nsfa, stat.sfa]);
                },
                RecommendationData::LatestEdition(stat) => {
                    proof {
                        lemma_flatten_pair(stat.nsfa, stat.sfa);
                    }
                    push_if_some(&mut latest_edition, vec![stat.nsfa, stat.sfa]);
                },
            }
        }
        proof {
            assert(data.take(data.len() as int) == data);
        }
        ClassificationRecommendation { most_popular, most_recent, latest_edition }
    }
}

// The result holds vectors, which no spec value can spell out: `from` states
// it over the view instead, in its own `ensures`.
impl vstd::std_specs::convert::FromSpecImpl<RecommendationDataHolder> for ClassificationRecommendation {
    open spec fn obeys_from_spec() -> bool {
        false
    }

    open spec fn from_spec(v: RecommendationDataHolder) -> Self {
        arbitrary()
    }
}

/// Recommendations for both schemes.
#[derive(Debug, Clone, PartialEq, Eq)]
pub struct Recommendations {
    pub dewey_decimal: ClassificationRecommendation,
    pub library_of_congress: ClassificationRecommendation,
}

/// The candidates of both schemes as sequences.
pub struct RecommendationCandidates {
    pub dewey_decimal: SchemeCandidates,
    pub library_of_congress: SchemeCandidates,
}

impl View for Recommendations {
    type V = RecommendationCandidates;

    open spec fn view(&self) -> RecommendationCandidates {
        RecommendationCandidates {
            dewey_decimal: self.dewey_decimal@,
            library_of_congress: self.library_of_congress@,
        }
    }
}

/// What a recommendation block normalizes to: each scheme on its own.
pub open spec fn normalized(raw: crate::api_models::Recommendations) -> RecommendationCandidates {
    RecommendationCandidates {
        dewey_decimal: scheme_candidates(raw.ddc),
        library_of_congress: scheme_candidates(raw.lcc),
    }
}

impl From<crate::api_models::Recommendations> for Recommendations {
    fn from(recommendations: crate::api_models::Recommendations) -> (r: Self)
        ensures
            r@ == normalized(recommendations),
    {
        Recommendations {
            dewey_decimal: ClassificationRecommendation::from(recommendations.ddc),
            library_of_congress: ClassificationRecommendation::from(recommendations.lcc),
        }
    }
}

// As above: the result is stated over the view in `from`'s `ensures`.
impl vstd::std_specs::convert::FromSpecImpl<crate::api_models::Recommendations> for Recommendations {
    open spec fn obeys_from_spec() -> bool {
        false
    }

    open spec fn from_spec(v: crate::api_models::Recommendations) -> Self {
        arbitrary()
    }
}

/// Turns a recommendation block into candidate lists: for each scheme and
/// each kind, the present filing forms in document order, repeats kept. A
/// kind that the block lacks gets an empty list.
pub fn normalize(raw: crate::api_models::Recommendations) -> (r: Recommendations)
    ensures
        r@ == normalized(raw),
{
    Recommendations::from(raw)
}

/// The one work that an identifier names, with its classification guidance.
#[derive(Debug, Clone, PartialEq, Eq)]
pub struct SingleWorkSummary {
    pub work: Work,
    pub recommendations: Recommendations,
}

/// The candidate works that an identifier may name.
#[derive(Debug, Clone, PartialEq, Eq)]
pub struct MultiWork {
    pub works: Vec<Work>,
}

/// The outcome of a lookup that found something.
#[derive(Debug, Clone, PartialEq, Eq)]
pub enum ClassifyResult {
    SingleWorkSummary(Box<SingleWorkSummary>),
    MultiWork(MultiWork),
}

/// The content of a `ClassifyResult`.
pub enum Outcome {
    SingleWork { work: Work, recommendations: RecommendationCandidates },
    MultiWork { works: Seq<Work> },
}

impl View for ClassifyResult {
    type V = Outcome;

    open spec fn view(&self) -> Outcome {
        match self {
            ClassifyResult::SingleWorkSummary(s) => Outcome::SingleWork {
                work: s.work,
                recommendations: s.recommendations@,
            },
            ClassifyResult::MultiWork(m) => Outcome::MultiWork { works: m.works@ },
        }
    }
}

/// The content of what `interpret` returns.
pub open spec fn result_view(r: Result<Option<ClassifyResult>, ClassifyError>) -> Result<
    Option<Outcome>,
    ClassifyError,
> {
    match r {
        Ok(Some(c)) => Ok(Some(c@)),
        Ok(None) => Ok(None),
        Err(e) => Err(e),
    }
}

/// The codes that select a known shape of response.
pub open spec fn is_known_code(code: i64) -> bool {
    code == 0 || code == 4 || code == 100 || code == 101 || code == 102
}

/// What a response means, by its code: 100 and 101 reject the input, 102
/// finds nothing, 0 finds one work with recommendations, 4 finds a list of
/// candidate works; a part that the code needs and the response lacks is an
/// unexpected error, and any other code is reported as it came.
pub open spec fn interpretation(raw: Classify) -> Result<Option<Outcome>, ClassifyError> {
    let code = raw.response.code;
    if code == 100 {
        Err(ClassifyError::NoInput)
    } else if code == 101 {
        Err(ClassifyError::InvalidInput)
    } else if code == 102 {
        Ok(None)
    } else if code == 0 {
        if raw.work is Some && raw.recommendations is Some {
            Ok(
                Some(
                    Outcome::SingleWork {
                        work: raw.work->Some_0,
                        recommendations: normalized(raw.recommendations->Some_0),
                    },
                ),
            )
        } else {
            Err(ClassifyError::UnexpectedError)
        }
    } else if code == 4 {
        if raw.works is Some {
            Ok(Some(Outcome::MultiWork { works: raw.works->Some_0.works@ }))
        } else {
            Err(ClassifyError::UnexpectedError)
        }
    } else {
        Err(ClassifyError::UnexpectedResponseCode(code))
    }
}

/// Converts a raw response into the outcome that its code calls for.
pub fn interpret(raw: Classify) -> (r: Result<Option<ClassifyResult>, ClassifyError>)
    ensures
        result_view(r) == interpretation(raw),
        raw.response.code == 100 ==> r matches Err(ClassifyError::NoInput),
        raw.response.code == 101 ==> r matches Err(ClassifyError::InvalidInput),
        raw.response.code == 102 ==> r matches Ok(None),
        raw.response.code == 0 && raw.work is None ==> r matches Err(
            ClassifyError::UnexpectedError,
        ),
        !is_known_code(raw.response.code) ==> (r matches Err(
            ClassifyError::UnexpectedResponseCode(c),
        ) && c == raw.response.code),
{
    let Classify { response, work, works, recommendations, .. } = raw;
    let code = response.code;
    if code == 100 {
        Err(ClassifyError::NoInput)
    } else if code == 101 {
        Err(ClassifyError::InvalidInput)
    } else if code == 102 {
        Ok(None)
    } else if code == 0 {
        match (work, recommendations) {
            (Some(work), Some(recommendations)) => {
                let summary = SingleWorkSummary {
                    work,
                    recommendations: Recommendations::from(recommendations),
                };
                Ok(Some(ClassifyResult::SingleWorkSummary(Box::new(summary))))
            },
            _ => Err(ClassifyError::UnexpectedError),
        }
    } else if code == 4 {
        match works {
            Some(works) => Ok(Some(ClassifyResult::MultiWork(MultiWork { works: works.works }))),
            None => Err(ClassifyError::UnexpectedError),
        }
    } else {
        Err(ClassifyError::UnexpectedResponseCode(code))
    }
}

/// Finishes a lookup from what decoding the response document gave: a
/// decoding failure is reported as such, a decoded response is interpreted.
pub fn interpret_parsed(parsed: Result<Classify, serde_xml_rs::Error>) -> (r: Result<
    Option<ClassifyResult>,
    ClassifyError,
>)
    ensures
        match parsed {
            Ok(raw) => result_view(r) == interpretation(raw),
            Err(e) => r == Err::<Option<ClassifyResult>, ClassifyError>(
                ClassifyError::XmlParsingError(e),
            ),
        },
{
    match parsed {
        Ok(raw) => interpret(raw),
        Err(e) => Err(ClassifyError::XmlParsingError(e)),
    }
}

/// Normalizing depends on the block alone: two normalizations of one block
/// give the same candidate lists, kind by kind and scheme by scheme.
pub proof fn lemma_normalize_deterministic(
    raw: crate::api_models::Recommendations,
    first: Recommendations,
    second: Recommendations,
)
    requires
        first@ == normalized(raw),
        second@ == normalized(raw),
    ensures
        first@ == second@,
        first.dewey_decimal.most_popular@ == second.dewey_decimal.most_popular@,
        first.dewey_decimal.most_recent@ == second.dewey_decimal.most_recent@,
        first.dewey_decimal.latest_edition@ == second.dewey_decimal.latest_edition@,
        first.library_of_congress.most_popular@ == second.library_of_congress.most_popular@,
        first.library_of_congress.most_recent@ == second.library_of_congress.most_recent@,
        first.library_of_congress.latest_edition@ == second.library_of_congress.latest_edition@,
{
}

/// Interpreting keeps every work as the response gave it: an optional field
/// that the response leaves absent stays absent, and one that it fills keeps
/// its value, in the single-work outcome and in each work of a list.
pub proof fn lemma_interpret_keeps_works(raw: Classify)
    ensures
        raw.response.code == 0 && raw.work is Some && raw.recommendations is Some ==> ({
            let given = raw.work->Some_0;
            interpretation(raw) matches Ok(Some(Outcome::SingleWork { work, .. })) && work
                == given && work.hyr == given.hyr && work.lyr == given.lyr && work.schemes
                == given.schemes && work.wi == given.wi
        }),
        raw.response.code == 4 && raw.works is Some ==> (interpretation(raw) matches Ok(
            Some(Outcome::MultiWork { works }),
        ) && works == raw.works->Some_0.works@),
{
}

proof fn lemma_flatten_pair<A>(a: Option<A>, b: Option<A>)
    ensures
        flatten(seq![a, b]) == crate::api_models::present(a) + crate::api_models::present(b),
{
    let s = seq![a, b];
    assert(s.drop_last() == seq![a]);
    assert(s.drop_last().drop_last() == Seq::<Option<A>>::empty());
    let one = seq![a];
    assert(one.drop_last() == Seq::<Option<A>>::empty());
    assert(one.last() == a);
    assert(flatten(Seq::<Option<A>>::empty()) == Seq::<A>::empty());
    assert(flatten(one) == flatten(one.drop_last()) + crate::api_models::present(one.last()));
    assert(flatten(one) =~= crate::api_models::present(a));
}

} // verus!
