//! The names of the parameters that a metric can be searched by.

use vstd::prelude::*;

verus! {

/// The parameter names of one metric.
#[derive(Clone, Debug, PartialEq, Eq)]
pub struct MetricDataParamNames {
    /// The names, in the order in which they are offered.
    pub parameter_names: Vec<String>,
}

/// The payload of the answer that lists a metric's parameter names.
#[derive(Clone, Debug, PartialEq, Eq)]
pub struct MetricDataParams {
    /// The names.
    pub data: MetricDataParamNames,
}

/// The parameter names that are offered for a metric: `a`, `b` and `c`, for
/// every metric.
pub fn query_metric_params(metric_name: &str) -> (r: MetricDataParams)
    ensures
        r.data.parameter_names@.len() == 3,
        r.data.parameter_names@[0]@ == "a"@,
        r.data.parameter_names@[1]@ == "b"@,
        r.data.parameter_names@[2]@ == "c"@,
{
    let mut names: Vec<String> = Vec::new();
    names.push("a".to_owned());
    names.push("b".to_owned());
    names.push("c".to_owned());
    MetricDataParams { data: MetricDataParamNames { parameter_names: names } }
}

} // verus!
