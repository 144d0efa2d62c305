//! The display formatter for a successful query response.
//!
//! The output is assembled from the sections that are present, separated by
//! one blank line, in this fixed order: an "AI: " section with the
//! assistant's text, a "SQL: " section with the generated statement, a
//! "Result:" section with the records, and a "Total records: " line. A list
//! of records shows at most its first five, each as "<index>: <value>" with
//! a 1-based index, then "... and <n> more records" for the rest; an empty
//! list shows "No results found."; a non-list value is shown as its text.

use vstd::prelude::*;

use crate::decimal::dec_rep;
use crate::decimal::u64_to_decimal;
use crate::decimal::usize_to_decimal;
use crate::model::QueryResponse;
use crate::model::ResultValue;

verus! {

/// How many records of a list of length `len` are written out in full.
pub open spec fn shown_count(len: int) -> int {
    if len < 5 {
        len
    } else {
        5
    }
}

/// The record lines from index `i` on: one "\n<index>: <value>" line per
/// shown record, indices 1-based.
pub open spec fn record_lines(rs: Seq<Seq<char>>, i: int) -> Seq<char>
    decreases shown_count(rs.len() as int) - i,
{
    if 0 <= i < shown_count(rs.len() as int) {
        "\n"@ + dec_rep((i + 1) as nat) + ": "@ + rs[i] + record_lines(rs, i + 1)
    } else {
        Seq::empty()
    }
}

/// The trailing "... and <n> more records" line, present only when more than
/// five records exist.
pub open spec fn overflow_note(rs: Seq<Seq<char>>) -> Seq<char> {
    if rs.len() > 5 {
        "\n... and "@ + dec_rep((rs.len() - 5) as nat) + " more records"@
    } else {
        Seq::empty()
    }
}

/// The body of the "Result:" section for a list of records.
pub open spec fn list_body(rs: Seq<Seq<char>>) -> Seq<char> {
    if rs.len() == 0 {
        "No results found."@
    } else {
        dec_rep(rs.len() as nat) + " records found:"@ + record_lines(rs, 0) + overflow_note(rs)
    }
}

/// The body of the "Result:" section for any result payload.
pub open spec fn result_body(v: ResultValue) -> Seq<char> {
    match v {
        ResultValue::List(rs) => list_body(rs.deep_view()),
        ResultValue::Scalar(s) => s@,
    }
}

/// The "AI" section, present when `ai_response` is present and non-empty.
pub open spec fn ai_section(r: QueryResponse) -> Seq<Seq<char>> {
    match r.ai_response {
        Option::Some(a) => if a@.len() > 0 {
            seq!["AI: "@ + a@]
        } else {
            Seq::empty()
        },
        Option::None => Seq::empty(),
    }
}

/// The "SQL" section, present when `sql` is present and non-empty.
pub open spec fn sql_section(r: QueryResponse) -> Seq<Seq<char>> {
    match r.sql {
        Option::Some(s) => if s@.len() > 0 {
            seq!["SQL: "@ + s@]
        } else {
            Seq::empty()
        },
        Option::None => Seq::empty(),
    }
}

/// The "Result" section, present when a result payload is present.
pub open spec fn result_section(r: QueryResponse) -> Seq<Seq<char>> {
    match r.result {
        Option::Some(v) => seq!["Result:\n"@ + result_body(v)],
        Option::None => Seq::empty(),
    }
}

/// The row-count section, present when `row_count` is present.
pub open spec fn count_section(r: QueryResponse) -> Seq<Seq<char>> {
    match r.row_count {
        Option::Some(n) => seq!["Total records: "@ + dec_rep(n as nat)],
        Option::None => Seq::empty(),
    }
}

/// The present sections, in their fixed order.
pub open spec fn sections_of(r: QueryResponse) -> Seq<Seq<char>> {
    ai_section(r) + sql_section(r) + result_section(r) + count_section(r)
}

/// The sections joined by one blank line.
pub open spec fn join_sections(ss: Seq<Seq<char>>) -> Seq<char>
    decreases ss.len(),
{
    if ss.len() == 0 {
        Seq::empty()
    } else if ss.len() == 1 {
        ss[0]
    } else {
        join_sections(ss.drop_last()) + "\n\n"@ + ss.last()
    }
}

/// The whole display string for a successful query response.
pub open spec fn render_spec(r: QueryResponse) -> Seq<char> {
    join_sections(sections_of(r))
}

proof fn lemma_join_push(ss: Seq<Seq<char>>, s: Seq<char>)
    ensures
        join_sections(ss.push(s)) == if ss.len() == 0 {
            s
        } else {
            (join_sections(ss) + "\n\n"@ + s)
        },
{
    assert(ss.push(s).drop_last() =~= ss);
    assert(ss.push(s).last() == s);
    if ss.len() == 0 {
        assert(ss.push(s)[0] == s);
    }
}

/// Renders the body of the "Result:" section for a list of records.
fn render_list(rs: &Vec<String>) -> (out: String)
    ensures
        out@ == list_body(rs.deep_view()),
{
    let ghost rsv: Seq<Seq<char>> = rs.deep_view();
    if rs.len() == 0 {
        String::from_str("No results found.")
    } else {
        let mut out = usize_to_decimal(rs.len());
        out.append(" records found:");
        let ghost total: Seq<char> = dec_rep(rsv.len() as nat) + " records found:"@
            + record_lines(rsv, 0);
        let shown: usize = if rs.len() < 5 {
            rs.len()
        } else {
            5
        };
        let mut i: usize = 0;
        proof {
            assert(out@ + record_lines(rsv, 0) == total);
        }
        while i < shown
            invariant
                rsv == rs.deep_view(),
                rs.len() == rsv.len(),
                shown == shown_count(rsv.len() as int),
                0 <= i <= shown,
                out@ + record_lines(rsv, i as int) == total,
            decreases shown - i,
        {
            let ghost out0: Seq<char> = out@;
            out.append("\n");
            let idx = u64_to_decimal((i as u64) + 1);
            out.append(idx.as_str());
            out.append(": ");
            out.append(rs[i].as_str());
            proof {
                assert(rsv[i as int] == rs@[i as int]@);
                assert(out@ + record_lines(rsv, i + 1) =~= out0 + record_lines(rsv, i as int));
            }
            i += 1;
        }
        if rs.len() > 5 {
            let ghost out1: Seq<char> = out@;
            out.append("\n... and ");
            let more = usize_to_decimal(rs.len() - 5);
            out.append(more.as_str());
            out.append(" more records");
            proof {
                assert(out@ =~= out1 + overflow_note(rsv));
            }
        }
        proof {
            assert(out@ =~= list_body(rsv));
        }
        out
    }
}

/// Renders the body of the "Result:" section for any result payload.
fn render_result_value(v: &ResultValue) -> (out: String)
    ensures
        out@ == result_body(*v),
{
    match v {
        ResultValue::List(rs) => render_list(rs),
        ResultValue::Scalar(s) => s.clone(),
    }
}

/// Renders a successful query response as its display string, exactly the
/// present sections in order, separated by blank lines.
pub fn render_success(r: &QueryResponse) -> (out: String)
    ensures
        out@ == render_spec(*r),
{
    let mut out = String::new();
    let mut any = false;
    let ghost mut secs: Seq<Seq<char>> = Seq::empty();
    if let Some(a) = &r.ai_response {
        if !a.as_str().is_empty() {
            if any {
                out.append("\n\n");
            }
            out.append("AI: ");
            out.append(a.as_str());
            proof {
                lemma_join_push(secs, "AI: "@ + a@);
                secs = secs.push("AI: "@ + a@);
                assert(out@ =~= join_sections(secs));
            }
            any = true;
        }
    }
    proof {
        assert(secs =~= ai_section(*r));
    }
    let ghost secs_ai: Seq<Seq<char>> = secs;
    if let Some(s) = &r.sql {
        if !s.as_str().is_empty() {
            if any {
                out.append("\n\n");
            }
            out.append("SQL: ");
            out.append(s.as_str());
            proof {
                lemma_join_push(secs, "SQL: "@ + s@);
                secs = secs.push("SQL: "@ + s@);
                assert(out@ =~= join_sections(secs));
            }
            any = true;
        }
    }
    proof {
        assert(secs =~= secs_ai + sql_section(*r));
    }
    let ghost secs_sql: Seq<Seq<char>> = secs;
    if let Some(v) = &r.result {
        if any {
            out.append("\n\n");
        }
        out.append("Result:\n");
        let body = render_result_value(v);
        out.append(body.as_str());
        proof {
            lemma_join_push(secs, "Result:\n"@ + result_body(*v));
            secs = secs.push("Result:\n"@ + result_body(*v));
            assert(out@ =~= join_sections(secs));
        }
        any = true;
    }
    proof {
        assert(secs =~= secs_sql + result_section(*r));
    }
    let ghost secs_result: Seq<Seq<char>> = secs;
    if let Some(n) = r.row_count {
        if any {
            out.append("\n\n");
        }
        out.append("Total records: ");
        let cnt = usize_to_decimal(n);
        out.append(cnt.as_str());
        proof {
            lemma_join_push(secs, "Total records: "@ + dec_rep(n as nat));
            secs = secs.push("Total records: "@ + dec_rep(n as nat));
            assert(out@ =~= join_sections(secs));
        }
    }
    proof {
        assert(secs =~= secs_result + count_section(*r));
        assert(secs =~= sections_of(*r));
    }
    out
}

} // verus!
