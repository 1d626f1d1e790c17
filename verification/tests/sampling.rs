use binary_blog::sampling::{should_sample, Attribute, SamplingDecision};

fn attribute(key: &str, value: &str) -> Attribute {
    Attribute { key: key.to_string(), value: value.to_string() }
}

#[test]
fn health_probes_are_not_traced() {
    assert_eq!(should_sample(&vec![attribute("http.route", "/livez")]), SamplingDecision::Drop);
    assert_eq!(should_sample(&vec![attribute("http.route", "/readyz")]), SamplingDecision::Drop);
    assert_eq!(
        should_sample(&vec![attribute("url.path", "/x"), attribute("http.route", "/readyz")]),
        SamplingDecision::Drop
    );
}

#[test]
fn everything_else_is_traced() {
    assert_eq!(should_sample(&Vec::new()), SamplingDecision::RecordAndSample);
    assert_eq!(should_sample(&vec![attribute("http.route", "/:a")]), SamplingDecision::RecordAndSample);
    assert_eq!(should_sample(&vec![attribute("url.path", "/livez")]), SamplingDecision::RecordAndSample);
    assert_eq!(should_sample(&vec![attribute("http.route", "/livez/")]), SamplingDecision::RecordAndSample);
    assert_eq!(
        should_sample(&vec![attribute("http.route", "/"), attribute("other", "/readyz")]),
        SamplingDecision::RecordAndSample
    );
}
