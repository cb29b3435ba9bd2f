//! Text assembly for rendered log lines.
//!
//! Everything a dispatched event prints or sends is built here: the decimal
//! rendering of call-site numbers, the backtrace suffix, the final line of
//! the form `[<timestamp>] <message><suffix>`, and the substitution of a
//! rendered line into a webhook's format template.

use vstd::prelude::*;
use vstd::string::StrSliceExecFns;
use vstd::string::StringExecFns;

verus! {

/// The character for one decimal digit.
pub open spec fn dec_digit(d: int) -> char {
    if d == 0 {
        '0'
    } else if d == 1 {
        '1'
    } else if d == 2 {
        '2'
    } else if d == 3 {
        '3'
    } else if d == 4 {
        '4'
    } else if d == 5 {
        '5'
    } else if d == 6 {
        '6'
    } else if d == 7 {
        '7'
    } else if d == 8 {
        '8'
    } else {
        '9'
    }
}

/// The decimal representation of a nonnegative number, most significant
/// digit first, with no leading zeros (a single `'0'` for zero).
pub open spec fn dec_rep(n: int) -> Seq<char>
    decreases n,
{
    if n < 10 {
        seq![dec_digit(n)]
    } else {
        dec_rep(n / 10).push(dec_digit(n % 10))
    }
}

/// The one-character string for a decimal digit.
fn digit_str(d: u32) -> (r: &'static str)
    requires
        d < 10,
    ensures
        r@ == seq![dec_digit(d as int)],
{
    proof {
        reveal_strlit("0");
        reveal_strlit("1");
        reveal_strlit("2");
        reveal_strlit("3");
        reveal_strlit("4");
        reveal_strlit("5");
        reveal_strlit("6");
        reveal_strlit("7");
        reveal_strlit("8");
        reveal_strlit("9");
    }
    match d {
        0 => "0",
        1 => "1",
        2 => "2",
        3 => "3",
        4 => "4",
        5 => "5",
        6 => "6",
        7 => "7",
        8 => "8",
        _ => "9",
    }
}

/// Renders a number in decimal, as the call-site line and column appear in
/// a simple backtrace suffix.
pub fn u32_string(n: u32) -> (r: String)
    ensures
        r@ == dec_rep(n as int),
    decreases n,
{
    if n < 10 {
        digit_str(n).to_string()
    } else {
        let q = u32_string(n / 10);
        let r = q.concat(digit_str(n % 10));
        proof {
            assert(r@ =~= dec_rep((n / 10) as int).push(dec_digit((n % 10) as int)));
        }
        r
    }
}

/// The suffix a Simple backtrace policy appends to the rendered line:
/// `" (<file>:<line>:<column>)"` for the call site of the entry point.
pub open spec fn simple_suffix_spec(file: Seq<char>, line: int, col: int) -> Seq<char> {
    seq![' ', '('] + file + seq![':'] + dec_rep(line) + seq![':'] + dec_rep(col) + seq![')']
}

/// Builds the Simple-backtrace suffix for a call site.
pub fn simple_suffix(file: &str, line: u32, col: u32) -> (r: String)
    ensures
        r@ == simple_suffix_spec(file@, line as int, col as int),
{
    let mut out = " (".to_string();
    out.append(file);
    out.append(":");
    let line_s = u32_string(line);
    out.append(line_s.as_str());
    out.append(":");
    let col_s = u32_string(col);
    out.append(col_s.as_str());
    out.append(")");
    proof {
        reveal_strlit(" (");
        reveal_strlit(":");
        reveal_strlit(")");
        assert(out@ =~= simple_suffix_spec(file@, line as int, col as int));
    }
    out
}

/// The final rendered line of one event: `"[<timestamp>] <message><suffix>"`.
pub open spec fn rendered_spec(ts: Seq<char>, msg: Seq<char>, suffix: Seq<char>) -> Seq<char> {
    seq!['['] + ts + seq![']', ' '] + msg + suffix
}

/// Renders the final line from the timestamp, the caller's message and the
/// backtrace suffix.
pub fn render_line(ts: &str, msg: &str, suffix: &str) -> (r: String)
    ensures
        r@ == rendered_spec(ts@, msg@, suffix@),
{
    let mut out = "[".to_string();
    out.append(ts);
    out.append("] ");
    out.append(msg);
    out.append(suffix);
    proof {
        reveal_strlit("[");
        reveal_strlit("] ");
        assert(out@ =~= rendered_spec(ts@, msg@, suffix@));
    }
    out
}

/// For every timestamp, message and suffix, the rendered line is the
/// formatted timestamp prefix `"[<timestamp>] "` followed by the message
/// verbatim, with the suffix after it and nothing else: the prefix is at
/// the front and the message occupies exactly the positions after it.
pub proof fn lemma_rendered_line_structure(ts: Seq<char>, msg: Seq<char>, suffix: Seq<char>)
    ensures
        rendered_spec(ts, msg, suffix).len() == 3 + ts.len() + msg.len() + suffix.len(),
        rendered_spec(ts, msg, suffix).subrange(0, ts.len() + 3 as int) == seq!['['] + ts + seq![
            ']',
            ' ',
        ],
        rendered_spec(ts, msg, suffix).subrange(
            ts.len() + 3 as int,
            ts.len() + 3 + msg.len() as int,
        ) == msg,
{
    assert(rendered_spec(ts, msg, suffix).subrange(0, ts.len() + 3 as int) =~= seq!['['] + ts
        + seq![']', ' ']);
    assert(rendered_spec(ts, msg, suffix).subrange(ts.len() + 3 as int, ts.len() + 3 + msg.len() as int)
        =~= msg);
}

/// A format template with every `"{}"` placeholder replaced by the line,
/// scanning left to right; text without a placeholder stays as it is.
pub open spec fn subst_spec(t: Seq<char>, l: Seq<char>) -> Seq<char>
    decreases t.len(),
{
    if t.len() >= 2 && t[0] == '{' && t[1] == '}' {
        l + subst_spec(t.skip(2), l)
    } else if t.len() == 0 {
        t
    } else {
        seq![t[0]] + subst_spec(t.skip(1), l)
    }
}

/// A placeholder `"{}"` stands at position `i` of the template.
pub open spec fn placeholder_at(t: Seq<char>, i: int) -> bool {
    0 <= i && i + 2 <= t.len() && t[i] == '{' && t[i + 1] == '}'
}

/// A template without any placeholder passes through substitution
/// unchanged.
pub proof fn lemma_no_placeholder_identity(t: Seq<char>, l: Seq<char>)
    requires
        forall|j: int| !placeholder_at(t, j),
    ensures
        subst_spec(t, l) == t,
    decreases t.len(),
{
    if t.len() == 0 {
    } else {
        assert(!placeholder_at(t, 0));
        assert forall|j: int| !placeholder_at(#[trigger] t.skip(1), j) by {
            if placeholder_at(t.skip(1), j) {
                assert(placeholder_at(t, j + 1));
            }
        }
        lemma_no_placeholder_identity(t.skip(1), l);
        assert(seq![t[0]] + t.skip(1) =~= t);
    }
}

/// Where a template holds exactly one placeholder, substitution yields the
/// text before it, then the line verbatim, then the text after it.
pub proof fn lemma_single_placeholder_subst(t: Seq<char>, l: Seq<char>, i: int)
    requires
        placeholder_at(t, i),
        forall|j: int| j != i ==> !placeholder_at(t, j),
    ensures
        subst_spec(t, l) == t.take(i) + l + t.skip(i + 2),
    decreases i,
{
    if i == 0 {
        assert forall|j: int| !placeholder_at(#[trigger] t.skip(2), j) by {
            if placeholder_at(t.skip(2), j) {
                assert(placeholder_at(t, j + 2));
            }
        }
        lemma_no_placeholder_identity(t.skip(2), l);
        assert(subst_spec(t, l) == l + t.skip(2));
        assert(t.take(0) + l + t.skip(2) =~= l + t.skip(2));
    } else {
        assert(!placeholder_at(t, 0));
        assert(t.len() >= 3);
        assert(!(t.len() >= 2 && t[0] == '{' && t[1] == '}'));
        assert(subst_spec(t, l) == seq![t[0]] + subst_spec(t.skip(1), l));
        assert(placeholder_at(t.skip(1), i - 1));
        assert forall|j: int| j != i - 1 implies !placeholder_at(#[trigger] t.skip(1), j) by {
            if placeholder_at(t.skip(1), j) {
                assert(placeholder_at(t, j + 1));
            }
        }
        lemma_single_placeholder_subst(t.skip(1), l, i - 1);
        assert(seq![t[0]] + (t.skip(1).take(i - 1) + l + t.skip(1).skip(i + 1)) =~= t.take(i) + l
            + t.skip(i + 2));
    }
}

/// Substitutes the rendered line into a webhook format template at its
/// placeholder.
pub fn substitute(template: &str, line: &str) -> (r: String)
    ensures
        r@ == subst_spec(template@, line@),
{
    let n = template.unicode_len();
    let mut out = String::new();
    let mut i: usize = 0;
    proof {
        assert(template@.skip(0) =~= template@);
        assert(out@ + subst_spec(template@.skip(0), line@) =~= subst_spec(template@, line@));
    }
    while i < n
        invariant
            i <= n,
            n == template@.len(),
            subst_spec(template@, line@) == out@ + subst_spec(template@.skip(i as int), line@),
        decreases n - i,
    {
        let ghost t = template@;
        let ghost out0 = out@;
        let ghost rest = t.skip(i as int);
        if i + 1 < n && template.get_char(i) == '{' && template.get_char(i + 1) == '}' {
            out.append(line);
            proof {
                assert(rest.len() >= 2);
                assert(rest[0] == '{' && rest[1] == '}');
                assert(rest.skip(2) =~= t.skip(i + 2 as int));
                assert(subst_spec(rest, line@) == line@ + subst_spec(t.skip(i + 2 as int), line@));
                assert(out0 + subst_spec(rest, line@) =~= (out0 + line@) + subst_spec(
                    t.skip(i + 2 as int),
                    line@,
                ));
            }
            i = i + 2;
        } else {
            let piece = template.substring_char(i, i + 1);
            out.append(piece);
            proof {
                assert(rest.len() >= 1);
                assert(rest[0] == t[i as int]);
                assert(!(rest.len() >= 2 && rest[0] == '{' && rest[1] == '}'));
                assert(rest.skip(1) =~= t.skip(i + 1 as int));
                assert(subst_spec(rest, line@) == seq![t[i as int]] + subst_spec(
                    t.skip(i + 1 as int),
                    line@,
                ));
                assert(piece@ =~= seq![t[i as int]]);
                assert(out0 + subst_spec(rest, line@) =~= (out0 + piece@) + subst_spec(
                    t.skip(i + 1 as int),
                    line@,
                ));
            }
            i = i + 1;
        }
    }
    proof {
        assert(template@.skip(n as int) =~= Seq::<char>::empty());
        assert(subst_spec(template@.skip(n as int), line@) =~= Seq::<char>::empty());
        assert(out@ =~= subst_spec(template@, line@));
    }
    out
}

} // verus!
