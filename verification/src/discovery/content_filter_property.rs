use vstd::prelude::*;

verus! {

/// The filter by which a reader selects samples by their content.
#[derive(Debug, PartialEq, Eq, Clone)]
pub struct ContentFilterProperty {
    pub content_filtered_topic_name: String,
    pub related_topic_name: String,
    pub filter_class_name: String,
    pub filter_expression: String,
    pub expression_parameters: Vec<String>,
}

} // verus!
