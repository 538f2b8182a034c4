//! The enrichment-time histogram: its name and the labels it is prepared with.
use vstd::prelude::*;

verus! {

/// Name under which the histogram is registered.
pub const METRIC_NAME: &'static str = "enricher_processed_logs";

/// Description of the histogram.
pub const METRIC_DESCRIPTION: &'static str = "Processed logs";

/// The label of the time spent by one enricher, by its name; the empty name
/// labels the time spent by all enrichers on a log.
pub open spec fn label_for(name: &'static str) -> Seq<(&'static str, &'static str)> {
    seq![("name", name)]
}

/// The labels the histogram is prepared with: one per enricher, in order, then
/// the one for the whole enrichment.
pub open spec fn labels_for(names: Seq<&'static str>) -> Seq<Seq<(&'static str, &'static str)>> {
    names.map_values(|name: &'static str| label_for(name)).push(label_for(""))
}

/// The label under which the time of the enricher with this name is observed.
pub fn enricher_label(name: &'static str) -> (label: Vec<(&'static str, &'static str)>)
    ensures
        label@ == label_for(name),
{
    let mut label = Vec::new();
    label.push(("name", name));
    label
}

/// The label under which the time of a whole enrichment is observed.
pub fn total_label() -> (label: Vec<(&'static str, &'static str)>)
    ensures
        label@ == label_for(""),
{
    enricher_label("")
}

/// The labels to prepare the histogram with, for enrichers with these names.
pub fn metric_labels(names: &Vec<&'static str>) -> (labels: Vec<Vec<(&'static str, &'static str)>>)
    ensures
        labels@.len() == labels_for(names@).len(),
        forall|j: int| 0 <= j < labels@.len() ==> #[trigger] labels@[j]@ == labels_for(names@)[j],
{
    let mut labels: Vec<Vec<(&'static str, &'static str)>> = Vec::new();
    let n: usize = names.len();
    for i in 0..n
        invariant
            n == names@.len(),
            labels@.len() == i,
            forall|j: int| 0 <= j < i ==> #[trigger] labels@[j]@ == label_for(names@[j]),
    {
        let label = enricher_label(names[i]);
        labels.push(label);
    }
    labels.push(total_label());
    assert forall|j: int| 0 <= j < labels@.len() implies #[trigger] labels@[j]@ == labels_for(
        names@,
    )[j] by {
        if j < n {
            assert(labels@[j]@ == label_for(names@[j]));
        }
    }
    labels
}

/// Every observation is made under a label the histogram was prepared with:
/// the label of the i-th enricher is the i-th prepared one, and the label of
/// the whole enrichment is the last.
pub proof fn lemma_observed_labels_are_prepared(names: Seq<&'static str>, i: int)
    requires
        0 <= i < names.len(),
    ensures
        labels_for(names).len() == names.len() + 1,
        labels_for(names)[i] == label_for(names[i]),
        labels_for(names).last() == label_for(""),
        labels_for(names).contains(label_for(names[i])),
        labels_for(names).contains(label_for("")),
{
    assert(labels_for(names)[i] == label_for(names[i]));
    assert(labels_for(names)[names.len() as int] == label_for(""));
}

} // verus!
