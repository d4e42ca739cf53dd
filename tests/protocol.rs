use vsop::protocol::{
    accept_response, build_request, respond, TranslateError, TranslationResponse,
};

fn strings(v: &[&str]) -> Vec<String> {
    v.iter().map(|s| s.to_string()).collect()
}

#[test]
fn request_carries_units_in_order() {
    let req = build_request(strings(&["a.", "", "b."]));
    assert_eq!(req.source, strings(&["a.", "", "b."]));
}

#[test]
fn respond_passes_one_translation_per_unit() {
    let req = build_request(strings(&["a.", "", "b."]));
    let r = respond(&req, Ok(strings(&["A.", "", "B."])));
    assert_eq!(
        r,
        Ok(TranslationResponse {
            result: strings(&["A.", "", "B."])
        })
    );
}

#[test]
fn respond_rejects_a_short_batch() {
    let req = build_request(strings(&["a.", "b."]));
    let r = respond(&req, Ok(strings(&["A."])));
    assert_eq!(
        r,
        Err(TranslateError::LengthMismatch {
            expected: 2,
            actual: 1
        })
    );
}

#[test]
fn respond_reports_engine_failure() {
    let req = build_request(strings(&["a."]));
    let r = respond(&req, Err("engine fault".to_string()));
    assert_eq!(r, Err(TranslateError::Engine("engine fault".to_string())));
}

#[test]
fn accept_response_keeps_order() {
    let res = TranslationResponse {
        result: strings(&["x", "y"]),
    };
    assert_eq!(accept_response(2, res), Ok(strings(&["x", "y"])));
}

#[test]
fn accept_response_rejects_a_long_reply() {
    let res = TranslationResponse {
        result: strings(&["x", "y", "z"]),
    };
    assert_eq!(
        accept_response(2, res),
        Err(TranslateError::LengthMismatch {
            expected: 2,
            actual: 3
        })
    );
}

#[test]
fn empty_batch_round_trips() {
    let req = build_request(Vec::new());
    let res = respond(&req, Ok(Vec::new())).unwrap();
    assert_eq!(accept_response(req.source.len(), res), Ok(Vec::new()));
}

#[test]
fn respond_keeps_empty_units_empty() {
    let req = build_request(strings(&["a.", "", "b."]));
    let r = respond(&req, Ok(strings(&["A.", "(blank)", "B."])));
    assert_eq!(
        r,
        Ok(TranslationResponse {
            result: strings(&["A.", "", "B."])
        })
    );
}
