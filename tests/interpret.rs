use oclc_classify::api_models::{
    Classify, Input, RecommendationData, RecommendationDataHolder, RecommendationStat,
    Recommendations, Response, Work, Works,
};
use oclc_classify::models::{interpret, interpret_parsed, ClassifyError, ClassifyResult};

fn s(v: &str) -> String {
    v.to_string()
}

fn response(code: i64) -> Classify {
    Classify {
        input: Input {
            input_type: s("isbn"),
            value: s("foo"),
        },
        response: Response { code },
        ..Classify::default()
    }
}

fn foobar_work() -> Work {
    Work {
        author: s("foo"),
        editions: s("28"),
        format: s("Book"),
        holdings: s("2183"),
        hyr: None,
        itemtype: s("itemtype-book"),
        lyr: None,
        owi: s("47289247"),
        schemes: None,
        title: s("FooBar"),
        wi: None,
    }
}

fn zen_work() -> Work {
    Work {
        author: s("Dibdin, Michael"),
        editions: s("66"),
        format: s("Book"),
        holdings: s("1278"),
        hyr: Some(s("2020")),
        itemtype: s("itemtype-book"),
        lyr: Some(s("1996")),
        owi: s("570898"),
        schemes: Some(s("DDC LCC")),
        title: s("Così fan tutti : an Aurelio Zen mystery"),
        wi: Some(s("570898")),
    }
}

fn stat(holdings: &str, nsfa: Option<&str>, sfa: Option<&str>, sf2: Option<&str>) -> RecommendationStat {
    RecommendationStat {
        holdings: s(holdings),
        nsfa: nsfa.map(s),
        sfa: sfa.map(s),
        sf2: sf2.map(s),
    }
}

fn code_0_recommendations() -> Recommendations {
    Recommendations {
        ddc: RecommendationDataHolder {
            recommendations: vec![
                RecommendationData::MostPopular(stat("2260", Some("306.20973"), Some("306.20973"), None)),
                RecommendationData::MostRecent(stat("2", None, Some("304.60973"), None)),
                RecommendationData::LatestEdition(stat("2257", None, Some("306.20973"), Some("23"))),
            ],
        },
        lcc: RecommendationDataHolder {
            recommendations: vec![
                RecommendationData::MostPopular(stat("2342", Some("JC599.U5"), Some("JC599.U5"), None)),
                RecommendationData::MostRecent(stat("2342", None, Some("JC599.U5"), None)),
            ],
        },
    }
}

#[test]
fn interpret_code_100_is_no_input() {
    assert!(matches!(interpret(response(100)), Err(ClassifyError::NoInput)));
}

#[test]
fn interpret_code_101_is_invalid_input() {
    assert!(matches!(interpret(response(101)), Err(ClassifyError::InvalidInput)));
}

#[test]
fn interpret_code_102_is_empty() {
    assert!(matches!(interpret(response(102)), Ok(None)));
}

#[test]
fn interpret_found_code_0() {
    let mut raw = response(0);
    raw.input.value = s("bar");
    raw.work = Some(foobar_work());
    raw.recommendations = Some(code_0_recommendations());
    match interpret(raw) {
        Ok(Some(ClassifyResult::SingleWorkSummary(summary))) => {
            assert_eq!(summary.work, foobar_work());
            let ddc = &summary.recommendations.dewey_decimal;
            assert_eq!(ddc.most_popular, vec![s("306.20973"), s("306.20973")]);
            assert_eq!(ddc.most_recent, vec![s("304.60973")]);
            assert_eq!(ddc.latest_edition, vec![s("306.20973")]);
            let lcc = &summary.recommendations.library_of_congress;
            assert_eq!(lcc.most_popular, vec![s("JC599.U5"), s("JC599.U5")]);
            assert_eq!(lcc.most_recent, vec![s("JC599.U5")]);
            assert_eq!(lcc.latest_edition, Vec::<String>::new());
        }
        other => panic!("unexpected outcome: {:?}", other),
    }
}

#[test]
fn interpret_found_code_4() {
    let mut raw = response(4);
    raw.work_count = Some(2);
    raw.works = Some(Works {
        works: vec![zen_work()],
    });
    match interpret(raw) {
        Ok(Some(ClassifyResult::MultiWork(multi))) => {
            assert_eq!(multi.works, vec![zen_work()]);
            assert_eq!(multi.works[0].hyr, Some(s("2020")));
            assert_eq!(multi.works[0].lyr, Some(s("1996")));
        }
        other => panic!("unexpected outcome: {:?}", other),
    }
}

#[test]
fn interpret_unknown_code_is_reported() {
    assert!(matches!(
        interpret(response(999)),
        Err(ClassifyError::UnexpectedResponseCode(999))
    ));
    assert!(matches!(
        interpret(response(-1)),
        Err(ClassifyError::UnexpectedResponseCode(-1))
    ));
}

#[test]
fn interpret_code_0_without_work_is_unexpected() {
    let mut raw = response(0);
    raw.recommendations = Some(code_0_recommendations());
    assert!(matches!(interpret(raw), Err(ClassifyError::UnexpectedError)));
}

#[test]
fn interpret_code_0_without_recommendations_is_unexpected() {
    let mut raw = response(0);
    raw.work = Some(foobar_work());
    assert!(matches!(interpret(raw), Err(ClassifyError::UnexpectedError)));
}

#[test]
fn interpret_code_4_without_works_is_unexpected() {
    let mut raw = response(4);
    raw.work_count = Some(2);
    raw.work = Some(zen_work());
    assert!(matches!(interpret(raw), Err(ClassifyError::UnexpectedError)));
}

#[test]
fn interpret_keeps_absent_optional_fields_absent() {
    let mut raw = response(0);
    raw.work = Some(foobar_work());
    raw.recommendations = Some(code_0_recommendations());
    match interpret(raw) {
        Ok(Some(ClassifyResult::SingleWorkSummary(summary))) => {
            assert_eq!(summary.work.hyr, None);
            assert_eq!(summary.work.lyr, None);
            assert_eq!(summary.work.schemes, None);
            assert_eq!(summary.work.wi, None);
        }
        other => panic!("unexpected outcome: {:?}", other),
    }
}

#[test]
fn interpret_code_4_with_empty_list() {
    let mut raw = response(4);
    raw.works = Some(Works::default());
    match interpret(raw) {
        Ok(Some(ClassifyResult::MultiWork(multi))) => assert!(multi.works.is_empty()),
        other => panic!("unexpected outcome: {:?}", other),
    }
}

#[test]
fn interpret_parsed_reports_decoding_failure() {
    let failure = serde_xml_rs::Error::Custom { field: s("missing field `response`") };
    assert!(matches!(
        interpret_parsed(Err(failure)),
        Err(ClassifyError::XmlParsingError(serde_xml_rs::Error::Custom { .. }))
    ));
}

#[test]
fn interpret_parsed_interprets_a_decoded_response() {
    assert!(matches!(interpret_parsed(Ok(response(101))), Err(ClassifyError::InvalidInput)));
    assert!(matches!(interpret_parsed(Ok(response(102))), Ok(None)));
}
