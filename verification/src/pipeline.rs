//! One listing pass over a fetched snapshot: filter, render, count, and
//! the zero-count decision that triggers the diagnostic.

use vstd::prelude::*;
use crate::config::{Config, ConfigModel};
use crate::filter::{should_display, spec_should_display};
use crate::render::{
    lemma_lines_model_concat, lines_model, render_secret, spec_entry_count, spec_render, Line,
    LineModel,
};
use crate::secret::{SecretModel, SecretRecord};

verus! {

/// The models of a sequence of secrets.
pub open spec fn secrets_model(secrets: Seq<SecretRecord>) -> Seq<SecretModel> {
    secrets.map_values(|s: SecretRecord| s@)
}

/// The lines of one pass: the blocks of the displayed secrets, in fetched
/// order; a rejected secret contributes nothing.
pub open spec fn spec_listing_lines(c: ConfigModel, rs: Seq<SecretModel>) -> Seq<LineModel>
    decreases rs.len(),
{
    if rs.len() == 0 {
        Seq::empty()
    } else {
        spec_listing_lines(c, rs.drop_last()) + (if spec_should_display(c, rs.last()) {
            spec_render(rs.last())
        } else {
            Seq::empty()
        })
    }
}

/// The total number of key lines rendered in one pass.
pub open spec fn spec_listing_count(c: ConfigModel, rs: Seq<SecretModel>) -> nat
    decreases rs.len(),
{
    if rs.len() == 0 {
        0
    } else {
        spec_listing_count(c, rs.drop_last()) + (if spec_should_display(c, rs.last()) {
            spec_entry_count(rs.last())
        } else {
            0
        })
    }
}

/// What one pass produced: the printable lines, and the number of key
/// lines among them, which alone decides whether the diagnostic runs.
pub struct RunOutcome {
    pub lines: Vec<Line>,
    pub entries: usize,
}

impl RunOutcome {
    /// The diagnostic fallback runs exactly when no key line was rendered.
    pub fn needs_diagnostic(&self) -> (r: bool)
        ensures
            r == (self.entries == 0),
    {
        self.entries == 0
    }
}

/// Runs one listing pass: every fetched secret is put to the display
/// predicate, the approved ones are rendered in order, and the rendered
/// key lines are counted.
pub fn run_listing(config: &Config, secrets: &Vec<SecretRecord>) -> (out: RunOutcome)
    ensures
        lines_model(out.lines@) == spec_listing_lines(config@, secrets_model(secrets@)),
        out.entries == spec_listing_count(config@, secrets_model(secrets@)),
{
    let ghost ms = secrets_model(secrets@);
    let mut lines: Vec<Line> = Vec::new();
    let mut entries: usize = 0;
    let n = secrets.len();
    for i in 0..n
        invariant
            n == secrets@.len(),
            ms == secrets_model(secrets@),
            lines_model(lines@) == spec_listing_lines(config@, ms.take(i as int)),
            entries == spec_listing_count(config@, ms.take(i as int)),
            entries <= lines@.len(),
    {
        let secret = &secrets[i];
        proof {
            let gi = i as int;
            assert(ms.take(gi + 1).drop_last() =~= ms.take(gi));
            assert(ms.take(gi + 1).last() == secret@);
        }
        if should_display(config, secret) {
            let mut block = render_secret(secret);
            let added = secret.data.len();
            let ghost prev = lines@;
            let ghost block_view = block@;
            lines.append(&mut block);
            let total = lines.len();
            proof {
                lemma_lines_model_concat(prev, block_view);
                assert(entries + added <= total);
            }
            entries = entries + added;
        }
    }
    proof {
        assert(ms.take(n as int) =~= ms);
    }
    RunOutcome { lines, entries }
}

} // verus!
