//! The display predicate: a type gate first, then the optional name query.

use vstd::prelude::*;
use crate::config::{Config, ConfigModel};
use crate::secret::{SecretModel, SecretRecord};
use crate::text::{contains_substring, lemma_empty_needle_occurs, occurs_in, str_eq};

verus! {

/// The secret passes the type gate: either every type is shown, or its
/// type is exactly "Opaque".
pub open spec fn passes_type_gate(c: ConfigModel, s: SecretModel) -> bool {
    c.show_all || s.type_ == "Opaque"@
}

/// The secret passes the query gate: there is no query, or the query
/// occurs in its name as a case-sensitive substring.
pub open spec fn passes_query(c: ConfigModel, s: SecretModel) -> bool {
    match c.query {
        None => true,
        Some(q) => occurs_in(s.name, q),
    }
}

/// The display predicate of the listing: the type gate is an unconditional
/// override that no query can resurrect; a secret that passes it is then
/// held to the substring query on its name.
pub open spec fn spec_should_display(c: ConfigModel, s: SecretModel) -> bool {
    passes_type_gate(c, s) && passes_query(c, s)
}

/// Decides whether `secret` is displayed under `config`.
pub fn should_display(config: &Config, secret: &SecretRecord) -> (r: bool)
    ensures
        r == spec_should_display(config@, secret@),
{
    if config.show_all || str_eq(secret.type_.as_str(), "Opaque") {
        match &config.query {
            None => true,
            Some(q) => contains_substring(secret.name.as_str(), q.as_str()),
        }
    } else {
        false
    }
}

/// Law: an "Opaque" secret is displayed under the default configuration,
/// that is with showAll off and no query.
pub proof fn lemma_opaque_displayed_by_default(c: ConfigModel, s: SecretModel)
    requires
        !c.show_all,
        c.query is None,
        s.type_ == "Opaque"@,
    ensures
        spec_should_display(c, s),
{
}

/// Law: with showAll off, a secret whose type is not "Opaque" is never
/// displayed, whatever the query says.
pub proof fn lemma_type_gate_is_final(c: ConfigModel, s: SecretModel)
    requires
        !c.show_all,
        s.type_ != "Opaque"@,
    ensures
        !spec_should_display(c, s),
{
}

/// Law: with showAll on, a secret is displayed exactly when the query is
/// absent or occurs in its name as a case-sensitive substring.
pub proof fn lemma_show_all_reduces_to_query(c: ConfigModel, s: SecretModel)
    requires
        c.show_all,
    ensures
        spec_should_display(c, s) <==> (c.query is None || occurs_in(s.name, c.query->0)),
{
}

/// Law: an empty-but-present query behaves like an absent one, passing
/// every name.
pub proof fn lemma_empty_query_matches(c: ConfigModel, s: SecretModel)
    requires
        c.query == Some(Seq::<char>::empty()),
    ensures
        passes_query(c, s),
{
    lemma_empty_needle_occurs(s.name);
}

} // verus!
