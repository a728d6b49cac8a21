use vstd::prelude::*;
use vstd::string::StrSliceExecFns;
use vstd::string::StringExecFns;

use crate::errors::DistanceFunctionError;

verus! {

/// The distance functions supported by indices.
///
/// - `Euclidean`: the L2 distance.
/// - `Cosine`: one minus the cosine similarity.
/// - `InnerProduct`: one minus the inner product.
#[derive(Clone, Copy, Debug, PartialEq, Eq, Structural)]
pub enum DistanceFunction {
    Euclidean,
    Cosine,
    InnerProduct,
}

/// The canonical configuration string of each metric.
pub open spec fn name_of(m: DistanceFunction) -> Seq<char> {
    match m {
        DistanceFunction::Euclidean => seq!['l', '2'],
        DistanceFunction::Cosine => seq!['c', 'o', 's', 'i', 'n', 'e'],
        DistanceFunction::InnerProduct => seq!['i', 'p'],
    }
}

/// The metric that a configuration string names, if any: an exact,
/// case-sensitive match against the three canonical strings.
pub open spec fn metric_named(s: Seq<char>) -> Option<DistanceFunction> {
    if s == name_of(DistanceFunction::Euclidean) {
        Some(DistanceFunction::Euclidean)
    } else if s == name_of(DistanceFunction::Cosine) {
        Some(DistanceFunction::Cosine)
    } else if s == name_of(DistanceFunction::InnerProduct) {
        Some(DistanceFunction::InnerProduct)
    } else {
        None
    }
}

/// Every canonical configuration string reads as a metric whose configuration
/// string is that same string: `serialize(parse(s)) == s`.
pub proof fn lemma_name_round_trip(s: Seq<char>)
    requires
        s == name_of(DistanceFunction::Euclidean) || s == name_of(DistanceFunction::Cosine) || s
            == name_of(DistanceFunction::InnerProduct),
    ensures
        metric_named(s) matches Some(m) && name_of(m) == s,
{
    lemma_names_distinct();
}

/// Every metric reads back from its own configuration string:
/// `parse(serialize(m)) == m`.
pub proof fn lemma_metric_round_trip(m: DistanceFunction)
    ensures
        metric_named(name_of(m)) == Some(m),
{
    lemma_names_distinct();
}

/// No two metrics share a configuration string.
pub proof fn lemma_names_distinct()
    ensures
        name_of(DistanceFunction::Euclidean) != name_of(DistanceFunction::Cosine),
        name_of(DistanceFunction::Euclidean) != name_of(DistanceFunction::InnerProduct),
        name_of(DistanceFunction::Cosine) != name_of(DistanceFunction::InnerProduct),
{
    assert(name_of(DistanceFunction::Euclidean)[0] != name_of(DistanceFunction::InnerProduct)[0]);
    assert(name_of(DistanceFunction::Euclidean).len() != name_of(DistanceFunction::Cosine).len());
    assert(name_of(DistanceFunction::Cosine).len() != name_of(DistanceFunction::InnerProduct).len());
}

/// Whether two strings hold the same characters.
fn same_chars(s: &str, t: &str) -> (r: bool)
    ensures
        r == (s@ == t@),
{
    let n = s.unicode_len();
    if n != t.unicode_len() {
        return false;
    }
    let mut i: usize = 0;
    while i < n
        invariant
            n == s@.len(),
            n == t@.len(),
            i <= n,
            forall|j: int| 0 <= j < i ==> s@[j] == t@[j],
        decreases n - i,
    {
        if s.get_char(i) != t.get_char(i) {
            return false;
        }
        i = i + 1;
    }
    assert(s@ =~= t@);
    true
}

impl DistanceFunction {
    /// Reads a metric from its configuration string. Anything but `"l2"`,
    /// `"cosine"` or `"ip"` (matched exactly, case included) is rejected with
    /// `InvalidDistanceFunction`, which carries the string verbatim.
    pub fn parse(value: &str) -> (r: Result<DistanceFunction, DistanceFunctionError>)
        ensures
            metric_named(value@) matches Some(m) ==> r == Ok::<DistanceFunction, DistanceFunctionError>(m),
            metric_named(value@) is None ==> (r matches Err(DistanceFunctionError::InvalidDistanceFunction(s)) && s@ == value@),
    {
        proof {
            reveal_strlit("l2");
            reveal_strlit("cosine");
            reveal_strlit("ip");
            assert("l2"@ =~= name_of(DistanceFunction::Euclidean));
            assert("cosine"@ =~= name_of(DistanceFunction::Cosine));
            assert("ip"@ =~= name_of(DistanceFunction::InnerProduct));
        }
        if same_chars(value, "l2") {
            Ok(DistanceFunction::Euclidean)
        } else if same_chars(value, "cosine") {
            Ok(DistanceFunction::Cosine)
        } else if same_chars(value, "ip") {
            Ok(DistanceFunction::InnerProduct)
        } else {
            Err(DistanceFunctionError::InvalidDistanceFunction(String::from_str(value)))
        }
    }

    /// The configuration string of this metric: the inverse of `parse`.
    pub fn serialize(&self) -> (r: String)
        ensures
            r@ == name_of(*self),
    {
        proof {
            reveal_strlit("l2");
            reveal_strlit("cosine");
            reveal_strlit("ip");
        }
        match self {
            DistanceFunction::Euclidean => String::from_str("l2"),
            DistanceFunction::Cosine => String::from_str("cosine"),
            DistanceFunction::InnerProduct => String::from_str("ip"),
        }
    }
}

} // verus!
