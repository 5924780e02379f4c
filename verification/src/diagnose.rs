//! The fallback diagnostic for a pass that displayed nothing: is the
//! namespace empty, or does it not exist at all?

use vstd::prelude::*;
use vstd::string::StringExecFns;
use crate::text::str_eq;

verus! {

/// The message when the namespace exists but no secrets were displayed.
pub open spec fn found_message(ns: Seq<char>) -> Seq<char> {
    "No secrets found in namespace '"@ + ns + "'"@
}

/// The message when no namespace of the cluster bears the target's name.
pub open spec fn missing_message(ns: Seq<char>) -> Seq<char> {
    "Namespace '"@ + ns + "' does not exist. Maybe you're looking at the wrong cluster?"@
}

/// The diagnostic for a pass that displayed nothing, judged by an exact
/// name match against the cluster's full namespace list.
pub open spec fn spec_diagnostic(ns: Seq<char>, cluster: Seq<Seq<char>>) -> Seq<char> {
    if cluster.contains(ns) {
        found_message(ns)
    } else {
        missing_message(ns)
    }
}

/// Does the cluster's namespace list hold an exact match of `namespace`?
pub fn namespace_exists(namespace: &str, cluster: &Vec<String>) -> (r: bool)
    ensures
        r == cluster.deep_view().contains(namespace@),
{
    let n = cluster.len();
    for i in 0..n
        invariant
            n == cluster@.len(),
            forall|j: int| 0 <= j < i ==> cluster.deep_view()[j] != namespace@,
    {
        if str_eq(cluster[i].as_str(), namespace) {
            proof {
                assert(cluster.deep_view()[i as int] == namespace@);
            }
            return true;
        }
    }
    proof {
        assert(!cluster.deep_view().contains(namespace@)) by {
            if cluster.deep_view().contains(namespace@) {
                let j = choose|j: int|
                    0 <= j < cluster.deep_view().len() && cluster.deep_view()[j] == namespace@;
                assert(cluster.deep_view()[j] != namespace@);
            }
        }
    }
    false
}

/// Picks the diagnostic message for a pass that displayed no entries.
/// `cluster` is the cluster's full namespace list, fetched by the caller
/// only after the pass came up empty.
pub fn diagnose(namespace: &str, cluster: &Vec<String>) -> (msg: String)
    ensures
        msg@ == spec_diagnostic(namespace@, cluster.deep_view()),
{
    if namespace_exists(namespace, cluster) {
        String::from_str("No secrets found in namespace '").concat(namespace).concat("'")
    } else {
        String::from_str("Namespace '").concat(namespace).concat(
            "' does not exist. Maybe you're looking at the wrong cluster?",
        )
    }
}

/// Law: when the target namespace is present in the cluster's list, the
/// diagnostic is exactly the "No secrets found" message.
pub proof fn lemma_existing_namespace_message(ns: Seq<char>, cluster: Seq<Seq<char>>)
    requires
        cluster.contains(ns),
    ensures
        spec_diagnostic(ns, cluster) == found_message(ns),
{
}

/// Law: when no namespace of the cluster equals the target, the
/// diagnostic is exactly the "does not exist" message.
pub proof fn lemma_unknown_namespace_message(ns: Seq<char>, cluster: Seq<Seq<char>>)
    requires
        !cluster.contains(ns),
    ensures
        spec_diagnostic(ns, cluster) == missing_message(ns),
{
}

} // verus!
