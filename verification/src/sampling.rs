//! Which requests are traced: all but the health probes.

use vstd::prelude::*;

verus! {

/// What the tracer does with a span.
#[derive(Clone, Copy, Debug, PartialEq, Eq, Structural)]
pub enum SamplingDecision {
    RecordAndSample,
    Drop,
}

/// One attribute of a span.
#[derive(Clone, Debug, PartialEq, Eq)]
pub struct Attribute {
    pub key: String,
    pub value: String,
}

impl View for Attribute {
    type V = (Seq<char>, Seq<char>);

    open spec fn view(&self) -> (Seq<char>, Seq<char>) {
        (self.key@, self.value@)
    }
}

/// The attributes of a list, each as a key with its value.
pub open spec fn attribute_views(attributes: Seq<Attribute>) -> Seq<(Seq<char>, Seq<char>)> {
    attributes.map_values(|a: Attribute| a@)
}

/// The attribute says that the request went to a health probe.
pub open spec fn names_probe(attribute: (Seq<char>, Seq<char>)) -> bool {
    attribute.0 == "http.route"@ && (attribute.1 == "/livez"@ || attribute.1 == "/readyz"@)
}

/// A span is dropped if one of its attributes names a health probe, and recorded otherwise.
pub open spec fn sampling_decision(attributes: Seq<(Seq<char>, Seq<char>)>) -> SamplingDecision {
    if exists|i: int| 0 <= i < attributes.len() && names_probe(#[trigger] attributes[i]) {
        SamplingDecision::Drop
    } else {
        SamplingDecision::RecordAndSample
    }
}

/// Whether a span with these attributes is traced.
pub fn should_sample(attributes: &Vec<Attribute>) -> (decision: SamplingDecision)
    ensures
        decision == sampling_decision(attribute_views(attributes@)),
{
    let route = "http.route".to_owned();
    let livez = "/livez".to_owned();
    let readyz = "/readyz".to_owned();
    let ghost views = attribute_views(attributes@);
    let mut i: usize = 0;
    while i < attributes.len()
        invariant
            i <= attributes@.len(),
            views == attribute_views(attributes@),
            route@ == "http.route"@,
            livez@ == "/livez"@,
            readyz@ == "/readyz"@,
            forall|j: int| 0 <= j < i ==> !names_probe(#[trigger] views[j]),
        decreases attributes@.len() - i,
    {
        let a = &attributes[i];
        assert(views[i as int] == a@);
        if a.key == route && (a.value == livez || a.value == readyz) {
            return SamplingDecision::Drop;
        }
        i += 1;
    }
    SamplingDecision::RecordAndSample
}

} // verus!
