//! The stdout half of the diagnostic filter: each line of the build tool's
//! structured output is parsed on its own; lines that are not valid records
//! are dropped silently, and among the parseable ones only compiler messages
//! and the build-finished marker are kept, in emission order.

use crate::text::{split_lines, split_on_nl, str_eq};
use vstd::prelude::*;
use vstd::seq_lib::*;

verus! {

/// The fields of one parsed stdout line that the filter reads, as views.
pub struct JsonLineView {
    pub reason: Option<Seq<char>>,
    pub package_id: Option<Seq<char>>,
    pub success: Option<bool>,
    pub rendered: Option<Seq<char>>,
}

/// The fields of one parsed stdout line that the filter reads.
pub struct LineFields {
    pub reason: Option<String>,
    pub package_id: Option<String>,
    pub success: Option<bool>,
    pub rendered: Option<String>,
}

impl DeepView for LineFields {
    type V = JsonLineView;

    open spec fn deep_view(&self) -> JsonLineView {
        JsonLineView {
            reason: self.reason.deep_view(),
            package_id: self.package_id.deep_view(),
            success: self.success,
            rendered: self.rendered.deep_view(),
        }
    }
}

/// What parsing one line of structured output yields: nothing for a line
/// that is not a valid record, else the record's relevant fields. The value
/// is determined by the line's characters alone.
pub uninterp spec fn json_line_fields(l: Seq<char>) -> Option<JsonLineView>;

/// Relies on serde_json::from_str and serde_json::Value's accessors `get`,
/// `as_str` and `as_bool`: the parse of a line, and so every field read off
/// it, is a function of the line's characters alone. A line that is not
/// valid JSON yields `None`.
#[verifier::external_body]
fn parse_line_fields(line: &str) -> (r: Option<LineFields>)
    ensures
        r.deep_view() == json_line_fields(line@),
{
    let v: serde_json::Value = match serde_json::from_str(line) {
        Ok(v) => v,
        Err(_) => return None,
    };
    Some(LineFields {
        reason: v.get("reason").and_then(|x| x.as_str()).map(|s| s.to_string()),
        package_id: v.get("package_id").and_then(|x| x.as_str()).map(|s| s.to_string()),
        success: v.get("success").and_then(|x| x.as_bool()),
        rendered: v
            .get("message")
            .and_then(|m| m.get("rendered"))
            .and_then(|x| x.as_str())
            .map(|s| s.to_string()),
    })
}

/// One structured unit of compiler output: either a rendered error/warning
/// message (with the package it belongs to, when given), or the marker that
/// the build finished, carrying its success flag.
#[derive(Debug, PartialEq, Eq, Clone)]
pub enum DiagnosticRecord {
    CompilerMessage { rendered: Option<String>, package_id: Option<String> },
    BuildFinished { success: bool },
}

/// View of a `DiagnosticRecord`.
pub enum DiagnosticRecordView {
    CompilerMessage { rendered: Option<Seq<char>>, package_id: Option<Seq<char>> },
    BuildFinished { success: bool },
}

impl DeepView for DiagnosticRecord {
    type V = DiagnosticRecordView;

    open spec fn deep_view(&self) -> DiagnosticRecordView {
        match self {
            DiagnosticRecord::CompilerMessage { rendered, package_id } => {
                DiagnosticRecordView::CompilerMessage {
                    rendered: rendered.deep_view(),
                    package_id: package_id.deep_view(),
                }
            },
            DiagnosticRecord::BuildFinished { success } => {
                DiagnosticRecordView::BuildFinished { success: *success }
            },
        }
    }
}

/// How one parsed line is classified: a "compiler-message" record keeps its
/// rendered text and package identifier; a "build-finished" record keeps its
/// success flag, true when the tool omitted it; every other kind, and every
/// unparseable line, is dropped.
pub open spec fn classify_fields(p: Option<JsonLineView>) -> Option<DiagnosticRecordView> {
    match p {
        None => None,
        Some(f) => match f.reason {
            None => None,
            Some(r) => if r == "compiler-message"@ {
                Some(
                    DiagnosticRecordView::CompilerMessage {
                        rendered: f.rendered,
                        package_id: f.package_id,
                    },
                )
            } else if r == "build-finished"@ {
                Some(
                    DiagnosticRecordView::BuildFinished {
                        success: match f.success {
                            Some(b) => b,
                            None => true,
                        },
                    },
                )
            } else {
                None
            },
        },
    }
}

/// The record one line contributes, if any.
pub open spec fn line_record_fn() -> spec_fn(Seq<char>) -> Option<DiagnosticRecordView> {
    |l: Seq<char>| classify_fields(json_line_fields(l))
}

/// What `filter_json_messages` returns: one record per kept line of the
/// structured output, in order.
pub open spec fn spec_filter_records(s: Seq<char>) -> Seq<DiagnosticRecordView> {
    split_on_nl(s).filter_map(line_record_fn())
}

/// Classify the fields parsed from one line.
fn classify_line_fields(p: Option<LineFields>) -> (r: Option<DiagnosticRecord>)
    ensures
        r.deep_view() == classify_fields(p.deep_view()),
{
    match p {
        None => None,
        Some(f) => match f.reason {
            None => None,
            Some(reason) => {
                if str_eq(reason.as_str(), "compiler-message") {
                    Some(
                        DiagnosticRecord::CompilerMessage {
                            rendered: f.rendered,
                            package_id: f.package_id,
                        },
                    )
                } else if str_eq(reason.as_str(), "build-finished") {
                    Some(
                        DiagnosticRecord::BuildFinished {
                            success: match f.success {
                                Some(b) => b,
                                None => true,
                            },
                        },
                    )
                } else {
                    None
                }
            },
        },
    }
}

/// Parse the build tool's structured stdout and keep only the diagnostic
/// records: compiler messages and the build-finished marker, in the order
/// the tool emitted them. Lines that are not valid records are dropped.
pub fn filter_json_messages(stdout: &str) -> (records: Vec<DiagnosticRecord>)
    ensures
        records.deep_view() == spec_filter_records(stdout@),
{
    let lines = split_lines(stdout);
    let mut records: Vec<DiagnosticRecord> = Vec::new();
    let mut i: usize = 0;
    proof {
        assert(records.deep_view() =~= Seq::<DiagnosticRecordView>::empty());
        assert(lines.deep_view().take(0) =~= Seq::<Seq<char>>::empty());
        assert(Seq::<Seq<char>>::empty().filter_map(line_record_fn()) =~= Seq::<
            DiagnosticRecordView,
        >::empty());
    }
    while i < lines.len()
        invariant
            0 <= i <= lines.len(),
            lines.deep_view().len() == lines.len(),
            records.deep_view() == lines.deep_view().take(i as int).filter_map(line_record_fn()),
        decreases lines.len() - i,
    {
        let ghost dv = lines.deep_view();
        proof {
            dv.lemma_filter_map_take_succ(line_record_fn(), i as int);
            assert(dv[i as int] == lines@[i as int]@);
        }
        let parsed = parse_line_fields(lines[i].as_str());
        let classified = classify_line_fields(parsed);
        match classified {
            Some(rec) => {
                let ghost prev = records.deep_view();
                let ghost recv = rec.deep_view();
                records.push(rec);
                proof {
                    assert(records.deep_view() =~= prev.push(recv));
                    assert(records.deep_view() =~= dv.take(i + 1).filter_map(line_record_fn()));
                }
            },
            None => {
                proof {
                    assert(records.deep_view() =~= dv.take(i + 1).filter_map(line_record_fn()));
                }
            },
        }
        i = i + 1;
    }
    proof {
        assert(lines.deep_view().take(lines.len() as int) =~= lines.deep_view());
    }
    records
}

/// Filtering never invents records: at most one per input line.
pub proof fn lemma_filter_map_count<A, B>(ls: Seq<A>, f: spec_fn(A) -> Option<B>)
    ensures
        ls.filter_map(f).len() <= ls.len(),
    decreases ls.len(),
{
    if ls.len() > 0 {
        lemma_filter_map_count(ls.drop_last(), f);
    }
}

/// Law: classification keeps a record only for the two diagnostic kinds —
/// a parsed line whose kind tag is neither "compiler-message" nor
/// "build-finished", like an unparseable line, contributes nothing.
pub proof fn lemma_classify_kinds(p: Option<JsonLineView>)
    ensures
        classify_fields(p) is Some ==> (p matches Some(f) && (f.reason matches Some(r) && (r
            == "compiler-message"@ || r == "build-finished"@))),
{
}

/// Some line of `s` parses to a valid record of a kept kind and classifies
/// to exactly `r`.
pub open spec fn record_has_source_line(s: Seq<char>, r: DiagnosticRecordView) -> bool {
    exists|l: Seq<char>|
        split_on_nl(s).contains(l) && #[trigger] json_line_fields(l) is Some && classify_fields(
            json_line_fields(l),
        ) == Some(r)
}

/// Law: the diagnostic filter emits at most one record per line of input,
/// and every record it emits comes from a line that parsed to the kept
/// kinds — a line that is not a valid record is never represented.
pub proof fn lemma_filter_records_bounded(s: Seq<char>)
    ensures
        spec_filter_records(s).len() <= split_on_nl(s).len(),
        forall|k: int|
            0 <= k < spec_filter_records(s).len() ==> record_has_source_line(
                s,
                #[trigger] spec_filter_records(s)[k],
            ),
{
    let ls = split_on_nl(s);
    let out = spec_filter_records(s);
    lemma_filter_map_count(ls, line_record_fn());
    assert forall|k: int| 0 <= k < out.len() implies record_has_source_line(s, #[trigger] out[k]) by {
        assert(out.contains(out[k]));
        ls.lemma_filter_map_contains(line_record_fn(), out[k]);
        let l = choose|l: Seq<char>| #[trigger] ls.contains(l) && line_record_fn()(l) == Some(
            out[k],
        );
        assert(classify_fields(json_line_fields(l)) == Some(out[k]));
        assert(json_line_fields(l) is Some);
    }
}

} // verus!
