//! Reading the output of `ollama list`.
use crate::text::{chars_eq, chars_of, first_token, first_token_chars, slice_chars};
use vstd::prelude::*;

verus! {

broadcast use vstd::string::group_string_axioms;

/// Index of the first `'\n'` at or after `from` (the length when there is none).
pub open spec fn next_newline(s: Seq<char>, from: int) -> int
    decreases s.len() - from,
{
    if from >= s.len() {
        s.len() as int
    } else if s[from] == '\n' {
        from
    } else {
        next_newline(s, from + 1)
    }
}

/// A line ended by `"\r\n"` loses its `'\r'`.
pub open spec fn strip_cr(line: Seq<char>) -> Seq<char> {
    if line.len() > 0 && line.last() == '\r' {
        line.drop_last()
    } else {
        line
    }
}

/// The lines of `s` from position `from` on, as `str::lines` splits them: at
/// `'\n'` or `"\r\n"`, with an optional final line ending.
pub open spec fn lines_from(s: Seq<char>, from: int) -> Seq<Seq<char>>
    decreases s.len() - from,
{
    if from < 0 || from >= s.len() {
        Seq::empty()
    } else {
        let i = next_newline(s, from);
        proof {
            lemma_next_newline(s, from);
        }
        if i >= s.len() {
            seq![s.subrange(from, s.len() as int)]
        } else {
            seq![strip_cr(s.subrange(from, i))] + lines_from(s, i + 1)
        }
    }
}

/// The lines of `s`, as `str::lines` gives them.
pub open spec fn lines_of(s: Seq<char>) -> Seq<Seq<char>> {
    lines_from(s, 0)
}

/// The listing printed by `ollama list` names the model: the first word of some
/// line after the header line is the model's tag.
pub open spec fn listing_contains_model(output: Seq<char>, tag: Seq<char>) -> bool {
    exists|k: int| 1 <= k < lines_of(output).len() && first_token(#[trigger] lines_of(output)[k]) == Some(tag)
}

pub proof fn lemma_next_newline(s: Seq<char>, from: int)
    requires
        0 <= from <= s.len(),
    ensures
        from <= next_newline(s, from) <= s.len(),
        next_newline(s, from) < s.len() ==> s[next_newline(s, from)] == '\n',
    decreases s.len() - from,
{
    if from < s.len() && s[from] != '\n' {
        lemma_next_newline(s, from + 1);
    }
}

proof fn lemma_next_newline_shift(p: Seq<char>, r: Seq<char>, j: int)
    requires
        0 <= j <= r.len(),
    ensures
        next_newline(p + r, p.len() + j) == p.len() + next_newline(r, j),
    decreases r.len() - j,
{
    if j < r.len() {
        assert((p + r)[p.len() + j] == r[j]);
        if r[j] != '\n' {
            lemma_next_newline_shift(p, r, j + 1);
        }
    }
}

proof fn lemma_lines_shift(p: Seq<char>, r: Seq<char>, j: int)
    requires
        0 <= j,
    ensures
        lines_from(p + r, p.len() + j) == lines_from(r, j),
    decreases r.len() - j,
{
    if j < r.len() {
        lemma_next_newline_shift(p, r, j);
        lemma_next_newline(r, j);
        lemma_next_newline(p + r, p.len() + j);
        let i = next_newline(r, j);
        if i < r.len() {
            assert((p + r).subrange(p.len() + j, p.len() + i) =~= r.subrange(j, i));
            lemma_lines_shift(p, r, i + 1);
        } else {
            assert((p + r).subrange(p.len() + j, (p + r).len() as int) =~= r.subrange(
                j,
                r.len() as int,
            ));
        }
    }
}

proof fn lemma_header_newline(s: Seq<char>, n: int, k: int)
    requires
        0 <= k <= n < s.len(),
        s[n] == '\n',
        forall|i: int| 0 <= i < n ==> s[i] != '\n',
    ensures
        next_newline(s, k) == n,
    decreases n - k,
{
    if k < n {
        lemma_header_newline(s, n, k + 1);
    }
}

/// The first line of the listing is its header and never names a model, whatever
/// it holds; every line after it is read: the model is listed exactly when the
/// first word of one of the following lines is its tag.
pub proof fn law_header_line_is_skipped(header: Seq<char>, rest: Seq<char>, tag: Seq<char>)
    requires
        forall|i: int| 0 <= i < header.len() ==> header[i] != '\n',
    ensures
        listing_contains_model(header.push('\n') + rest, tag) <==> exists|k: int|
            0 <= k < lines_of(rest).len() && first_token(#[trigger] lines_of(rest)[k]) == Some(tag),
{
    let p = header.push('\n');
    let s = p + rest;
    assert(s[header.len() as int] == '\n');
    assert forall|i: int| 0 <= i < header.len() implies s[i] != '\n' by {
        assert(s[i] == header[i]);
    }
    lemma_header_newline(s, header.len() as int, 0);
    lemma_lines_shift(p, rest, 0);
    assert(s.subrange(0, header.len() as int) =~= header);
    let lines = lines_of(s);
    assert(lines =~= seq![strip_cr(header)] + lines_of(rest));
    if listing_contains_model(s, tag) {
        let k = choose|k: int| 1 <= k < lines.len() && first_token(#[trigger] lines[k]) == Some(tag);
        assert(lines[k] == lines_of(rest)[k - 1]);
    }
    if exists|k: int| 0 <= k < lines_of(rest).len() && first_token(#[trigger] lines_of(rest)[k]) == Some(tag) {
        let k = choose|k: int| 0 <= k < lines_of(rest).len() && first_token(#[trigger] lines_of(rest)[k]) == Some(tag);
        assert(lines[k + 1] == lines_of(rest)[k]);
    }
}

/// Whether the output of `ollama list` names the model `model_tag`: the first
/// word of some line after the header line is the tag.
pub fn parse_ollama_list_contains_model(output: &str, model_tag: &str) -> (r: bool)
    ensures
        r == listing_contains_model(output@, model_tag@),
{
    let v = chars_of(output);
    let tag = chars_of(model_tag);
    let n = v.len();
    let mut pos: usize = 0;
    let mut line_no: usize = 0;
    let mut found = false;
    let ghost mut done: Seq<Seq<char>> = Seq::empty();
    while pos < n
        invariant
            n == v@.len(),
            v@ == output@,
            tag@ == model_tag@,
            pos <= n,
            line_no == done.len(),
            line_no <= pos,
            lines_of(v@) == done + lines_from(v@, pos as int),
            found == exists|k: int| 1 <= k < done.len() && first_token(#[trigger] done[k]) == Some(tag@),
        decreases n - pos,
    {
        let mut i = pos;
        while i < n && v[i] != '\n'
            invariant
                pos <= i <= n,
                n == v@.len(),
                next_newline(v@, i as int) == next_newline(v@, pos as int),
            decreases n - i,
        {
            i = i + 1;
        }
        let end = if i < n && i > pos && v[i - 1] == '\r' {
            i - 1
        } else {
            i
        };
        let line = slice_chars(&v, pos, end);
        proof {
            let full = v@.subrange(pos as int, i as int);
            if i < n {
                assert(line@ =~= strip_cr(full));
            } else {
                assert(line@ =~= full);
            }
        }
        if line_no >= 1 {
            match first_token_chars(&line) {
                Some(t) => {
                    if chars_eq(&t, &tag) {
                        found = true;
                    }
                },
                None => {},
            }
        }
        proof {
            let old_done = done;
            done = done.push(line@);
            assert(lines_from(v@, pos as int) =~= seq![line@] + lines_from(
                v@,
                if i < n {
                    i + 1
                } else {
                    n as int
                },
            ));
            assert(found == exists|k: int| 1 <= k < done.len() && first_token(#[trigger] done[k]) == Some(tag@)) by {
                if found {
                    if !(exists|k: int| 1 <= k < old_done.len() && first_token(#[trigger] old_done[k]) == Some(tag@)) {
                        assert(first_token(done[line_no as int]) == Some(tag@));
                    } else {
                        let k = choose|k: int| 1 <= k < old_done.len() && first_token(#[trigger] old_done[k]) == Some(tag@);
                        assert(done[k] == old_done[k]);
                    }
                } else {
                    assert forall|k: int| 1 <= k < done.len() implies first_token(#[trigger] done[k]) != Some(tag@) by {
                        if k < old_done.len() {
                            assert(done[k] == old_done[k]);
                        }
                    }
                }
            }
        }
        line_no = line_no + 1;
        pos = if i < n {
            i + 1
        } else {
            n
        };
    }
    assert(lines_from(v@, n as int) =~= Seq::<Seq<char>>::empty());
    assert(done + Seq::<Seq<char>>::empty() =~= done);
    found
}

} // verus!
