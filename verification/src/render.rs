//! Rendering a displayed secret's payload into printable lines.

use vstd::prelude::*;
use vstd::string::StringExecFns;
use vstd::utf8::{decode_utf8, valid_utf8};
use crate::secret::{SecretModel, SecretRecord};

verus! {

/// The placeholder shown for a value whose bytes are not valid UTF-8.
pub open spec fn placeholder_text() -> Seq<char> {
    "<unable to decode UTF-8>"@
}

/// The text shown for one value: its decoded characters, or the
/// placeholder when the bytes are not a valid UTF-8 encoding.
pub open spec fn value_text(bytes: Seq<u8>) -> Seq<char> {
    if valid_utf8(bytes) {
        decode_utf8(bytes)
    } else {
        placeholder_text()
    }
}

/// The mathematical image of a `Line`.
pub enum LineModel {
    Header { name: Seq<char> },
    Entry { key: Seq<char>, value: Seq<char> },
    Blank,
}

/// One printable line of a displayed secret's block. The parts are kept
/// separate so the caller can style them; `text` gives the plain form.
pub enum Line {
    /// The name of the displayed secret; printed with a trailing colon.
    Header { name: String },
    /// One key of the secret, with the text shown for its value.
    Entry { key: String, value: String },
    /// The separator after a secret's block.
    Blank,
}

impl View for Line {
    type V = LineModel;

    open spec fn view(&self) -> LineModel {
        match self {
            Line::Header { name } => LineModel::Header { name: name@ },
            Line::Entry { key, value } => LineModel::Entry { key: key@, value: value@ },
            Line::Blank => LineModel::Blank,
        }
    }
}

/// The plain text of one line.
pub open spec fn line_text(l: LineModel) -> Seq<char> {
    match l {
        LineModel::Header { name } => name + ":"@,
        LineModel::Entry { key, value } => "  "@ + key + ": "@ + value,
        LineModel::Blank => Seq::<char>::empty(),
    }
}

impl Line {
    /// The plain, unstyled text of this line.
    pub fn text(&self) -> (r: String)
        ensures
            r@ == line_text(self@),
    {
        match self {
            Line::Header { name } => String::from_str(name.as_str()).concat(":"),
            Line::Entry { key, value } => String::from_str("  ").concat(key.as_str()).concat(
                ": ",
            ).concat(value.as_str()),
            Line::Blank => String::new(),
        }
    }
}

/// Relies on core::str::from_utf8: it returns Ok exactly when the bytes
/// are a valid UTF-8 encoding, and then borrows them as the str of the
/// characters they encode.
#[verifier::external_body]
fn utf8_to_str(bytes: &[u8]) -> (r: Option<&str>)
    ensures
        r is Some <==> valid_utf8(bytes@),
        r matches Some(s) ==> s@ == decode_utf8(bytes@),
{
    match core::str::from_utf8(bytes) {
        Ok(s) => Some(s),
        Err(_) => None,
    }
}

/// The text shown for one value's bytes.
fn render_value(bytes: &Vec<u8>) -> (r: String)
    ensures
        r@ == value_text(bytes@),
{
    match utf8_to_str(bytes.as_slice()) {
        Some(s) => String::from_str(s),
        None => String::from_str("<unable to decode UTF-8>"),
    }
}

/// The lines of one displayed secret's block: a header, one entry per
/// key/value pair in fetched order, and a blank separator, even when
/// there are no pairs.
pub open spec fn spec_render(s: SecretModel) -> Seq<LineModel> {
    seq![LineModel::Header { name: s.name }] + Seq::new(
        s.data.len(),
        |i: int| LineModel::Entry { key: s.data[i].0, value: value_text(s.data[i].1) },
    ) + seq![LineModel::Blank]
}

/// The number of key lines in one secret's block.
pub open spec fn spec_entry_count(s: SecretModel) -> nat {
    s.data.len()
}

/// The models of a sequence of lines.
pub open spec fn lines_model(lines: Seq<Line>) -> Seq<LineModel> {
    lines.map_values(|l: Line| l@)
}

/// Taking models commutes with concatenating lines.
pub proof fn lemma_lines_model_concat(a: Seq<Line>, b: Seq<Line>)
    ensures
        lines_model(a + b) == lines_model(a) + lines_model(b),
{
    assert(lines_model(a + b) =~= lines_model(a) + lines_model(b));
}

/// Renders one displayed secret. A value that does not decode as UTF-8
/// gets the placeholder on its own line and never aborts the rendering of
/// sibling keys.
pub fn render_secret(secret: &SecretRecord) -> (lines: Vec<Line>)
    ensures
        lines_model(lines@) == spec_render(secret@),
        lines@.len() == spec_entry_count(secret@) + 2,
{
    let ghost target = spec_render(secret@);
    let mut lines: Vec<Line> = Vec::new();
    lines.push(Line::Header { name: secret.name.clone() });
    proof {
        assert(target[0] == (LineModel::Header { name: secret@.name }));
        assert(lines_model(lines@) =~= target.take(1));
    }
    let n = secret.data.len();
    for i in 0..n
        invariant
            n == secret@.data.len(),
            target == spec_render(secret@),
            lines@.len() == i + 1,
            lines_model(lines@) =~= target.take(i + 1),
    {
        let pair = &secret.data[i];
        let value_str = render_value(&pair.1);
        let line = Line::Entry { key: pair.0.clone(), value: value_str };
        let ghost prev = lines@;
        lines.push(line);
        proof {
            let gi = i as int;
            assert(secret@.data[gi] == (pair.0@, pair.1@));
            assert(target[gi + 1] == (LineModel::Entry {
                key: pair.0@,
                value: value_text(pair.1@),
            }));
            assert(lines@ == prev.push(line));
            assert forall|j: int| 0 <= j < gi + 2 implies #[trigger] lines_model(lines@)[j]
                == target.take(gi + 2)[j] by {
                if j < gi + 1 {
                    assert(lines@[j] == prev[j]);
                    assert(lines_model(prev)[j] == target.take(gi + 1)[j]);
                } else {
                    assert(lines@[j] == line);
                }
            }
            assert(lines_model(lines@) =~= target.take(gi + 2));
        }
    }
    let ghost prev = lines@;
    lines.push(Line::Blank);
    proof {
        let gn = n as int;
        assert(target[gn + 1] == LineModel::Blank);
        assert forall|j: int| 0 <= j < gn + 2 implies #[trigger] lines_model(lines@)[j]
            == target[j] by {
            if j < gn + 1 {
                assert(lines@[j] == prev[j]);
                assert(lines_model(prev)[j] == target.take(gn + 1)[j]);
            } else {
                assert(lines@[j] == Line::Blank);
            }
        }
        assert(lines_model(lines@) =~= target);
    }
    lines
}

/// Law: an undecodable value yields the placeholder on its own entry line
/// and nothing else. Every line of a block is determined by its own
/// key/value pair alone, so sibling entries keep their text and the
/// header and separator stay in place.
pub proof fn lemma_bad_value_is_isolated(s: SecretModel, i: int)
    requires
        0 <= i < s.data.len(),
        !valid_utf8(s.data[i].1),
    ensures
        spec_render(s).len() == s.data.len() + 2,
        spec_render(s)[i + 1] == (LineModel::Entry { key: s.data[i].0, value: placeholder_text() }),
        forall|j: int|
            0 <= j < s.data.len() && j != i ==> spec_render(s)[j + 1] == (LineModel::Entry {
                key: s.data[j].0,
                value: value_text(s.data[j].1),
            }),
        spec_render(s)[0] == (LineModel::Header { name: s.name }),
        spec_render(s)[s.data.len() as int + 1] == LineModel::Blank,
{
}

} // verus!
