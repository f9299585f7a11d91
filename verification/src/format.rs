//! Local reformatting of captured text, with no AI involved: each line is
//! trimmed, blank lines are dropped, the survivors are rejoined with single
//! newlines, runs of ASCII spaces collapse to one, and the ASCII space after
//! a full-width punctuation mark is removed.

use vstd::prelude::*;

use crate::types::AiResult;

verus! {

/// Unicode's White_Space property, as `char::is_whitespace` decides it: a
/// function of the character alone.
pub uninterp spec fn unicode_space(c: char) -> bool;

/// Relies on `char::is_whitespace`: true exactly for characters with the
/// White_Space property, a function of the character alone.
#[verifier::external_body]
pub(crate) fn is_space_char(c: char) -> (r: bool)
    ensures
        r == unicode_space(c),
{
    c.is_whitespace()
}

/// Relies on `String::push`: appends the given character to the end.
#[verifier::external_body]
fn push_char(s: &mut String, c: char)
    ensures
        final (s)@ == old(s)@.push(c),
{
    s.push(c);
}

/// The index of the first newline, or the length when there is none.
pub open spec fn first_newline(s: Seq<char>) -> int
    decreases s.len(),
{
    if s.len() == 0 {
        0
    } else if s[0] == '\n' {
        0
    } else {
        1 + first_newline(s.drop_first())
    }
}

proof fn lemma_first_newline(s: Seq<char>)
    ensures
        0 <= first_newline(s) <= s.len(),
        first_newline(s) < s.len() ==> s[first_newline(s)] == '\n',
        forall|j: int| 0 <= j < first_newline(s) ==> s[j] != '\n',
    decreases s.len(),
{
    if s.len() == 0 {
    } else if s[0] == '\n' {
    } else {
        lemma_first_newline(s.drop_first());
        assert forall|j: int| 0 <= j < first_newline(s) implies s[j] != '\n' by {
            if j > 0 {
                assert(s[j] == s.drop_first()[j - 1]);
            }
        }
    }
}

/// The text split at newlines. A trailing newline yields no final empty line.
pub open spec fn line_split(s: Seq<char>) -> Seq<Seq<char>>
    decreases s.len(),
    via line_split_decreases
{
    if s.len() == 0 {
        Seq::empty()
    } else {
        let k = first_newline(s);
        if k >= s.len() {
            seq![s]
        } else {
            seq![s.take(k)] + line_split(s.skip(k + 1))
        }
    }
}

#[via_fn]
proof fn line_split_decreases(s: Seq<char>) {
    lemma_first_newline(s);
}

/// The line with leading whitespace removed.
pub open spec fn trim_front(s: Seq<char>) -> Seq<char>
    decreases s.len(),
{
    if s.len() > 0 && unicode_space(s[0]) {
        trim_front(s.drop_first())
    } else {
        s
    }
}

/// The line with trailing whitespace removed.
pub open spec fn trim_back(s: Seq<char>) -> Seq<char>
    decreases s.len(),
{
    if s.len() > 0 && unicode_space(s.last()) {
        trim_back(s.drop_last())
    } else {
        s
    }
}

/// The line with whitespace removed at both ends.
pub open spec fn trimmed(s: Seq<char>) -> Seq<char> {
    trim_back(trim_front(s))
}

/// Each line trimmed, the blank ones dropped.
pub open spec fn clean_lines(ls: Seq<Seq<char>>) -> Seq<Seq<char>> {
    ls.map_values(|l: Seq<char>| trimmed(l)).filter(|l: Seq<char>| l.len() > 0)
}

/// The lines joined with single newlines.
pub open spec fn join_lines(ls: Seq<Seq<char>>) -> Seq<char>
    decreases ls.len(),
{
    if ls.len() == 0 {
        Seq::empty()
    } else if ls.len() == 1 {
        ls[0]
    } else {
        join_lines(ls.drop_last()) + seq!['\n'] + ls.last()
    }
}

/// Runs of ASCII spaces collapsed to a single space.
pub open spec fn collapse_spaces(s: Seq<char>) -> Seq<char>
    decreases s.len(),
{
    if s.len() == 0 {
        s
    } else if s.len() >= 2 && s[0] == ' ' && s[1] == ' ' {
        collapse_spaces(s.drop_first())
    } else {
        seq![s[0]] + collapse_spaces(s.drop_first())
    }
}

/// The full-width punctuation after which an ASCII space is dropped: comma,
/// full stop, exclamation and question marks, colon, semicolon.
pub open spec fn is_wide_punct(c: char) -> bool {
    c == '\u{ff0c}' || c == '\u{3002}' || c == '\u{ff01}' || c == '\u{ff1f}' || c == '\u{ff1a}'
        || c == '\u{ff1b}'
}

/// One ASCII space directly after a full-width punctuation mark is removed.
pub open spec fn tighten_punct(s: Seq<char>) -> Seq<char>
    decreases s.len(),
{
    if s.len() == 0 {
        s
    } else if s.len() >= 2 && is_wide_punct(s[0]) && s[1] == ' ' {
        seq![s[0]] + tighten_punct(s.skip(2))
    } else {
        seq![s[0]] + tighten_punct(s.drop_first())
    }
}

/// The whole reformatting pipeline.
pub open spec fn format_spec(text: Seq<char>) -> Seq<char> {
    tighten_punct(collapse_spaces(join_lines(clean_lines(line_split(text)))))
}

/// The characters of a string slice.
fn chars_of(s: &str) -> (v: Vec<char>)
    ensures
        v@ == s@,
{
    let n = s.unicode_len();
    let mut v: Vec<char> = Vec::new();
    let mut i: usize = 0;
    while i < n
        invariant
            n == s@.len(),
            i <= n,
            v@ =~= s@.take(i as int),
        decreases n - i,
    {
        v.push(s.get_char(i));
        i += 1;
    }
    proof {
        assert(s@.take(n as int) =~= s@);
    }
    v
}

/// A string holding the given characters.
fn string_of(v: &Vec<char>) -> (s: String)
    ensures
        s@ == v@,
{
    let mut s = String::new();
    let mut i: usize = 0;
    while i < v.len()
        invariant
            i <= v.len(),
            s@ =~= v@.take(i as int),
        decreases v.len() - i,
    {
        push_char(&mut s, v[i]);
        proof {
            assert(s@ =~= v@.take(i as int + 1));
        }
        i += 1;
    }
    proof {
        assert(v@.take(v@.len() as int) =~= v@);
    }
    s
}

/// `trim_front` removes exactly the leading run of whitespace.
proof fn lemma_trim_front_skip(s: Seq<char>, lo: int)
    requires
        0 <= lo <= s.len(),
        forall|j: int| 0 <= j < lo ==> unicode_space(s[j]),
        lo < s.len() ==> !unicode_space(s[lo]),
    ensures
        trim_front(s) == s.skip(lo),
    decreases lo,
{
    if lo == 0 {
        if s.len() > 0 && unicode_space(s[0]) {
            assert(false);
        }
        assert(s.skip(0) =~= s);
    } else {
        assert(unicode_space(s[0]));
        lemma_trim_front_skip(s.drop_first(), lo - 1);
        assert(s.drop_first().skip(lo - 1) =~= s.skip(lo));
    }
}

/// `trim_back` removes exactly the trailing run of whitespace.
proof fn lemma_trim_back_take(s: Seq<char>, hi: int)
    requires
        0 <= hi <= s.len(),
        forall|j: int| hi <= j < s.len() ==> unicode_space(s[j]),
        hi > 0 ==> !unicode_space(s[hi - 1]),
    ensures
        trim_back(s) == s.take(hi),
    decreases s.len(),
{
    if hi == s.len() {
        if s.len() > 0 && unicode_space(s.last()) {
            assert(false);
        }
        assert(s.take(hi) =~= s);
    } else {
        assert(unicode_space(s.last()));
        lemma_trim_back_take(s.drop_last(), hi);
        assert(s.drop_last().take(hi) =~= s.take(hi));
    }
}

/// Lines ahead of position `start`, or nothing once `start` passed the end.
spec fn rest_lines(s: Seq<char>, start: int) -> Seq<Seq<char>> {
    if start <= s.len() {
        line_split(s.skip(start))
    } else {
        Seq::empty()
    }
}

/// Trim each line, drop the blank ones, rejoin with single newlines.
fn cleaned_joined(v: &Vec<char>) -> (out: Vec<char>)
    ensures
        out@ == join_lines(clean_lines(line_split(v@))),
{
    let ghost full = v@;
    let mut out: Vec<char> = Vec::new();
    let ghost mut done: Seq<Seq<char>> = Seq::empty();
    let mut start: usize = 0;
    proof {
        assert(full.skip(0) =~= full);
        assert(line_split(full) =~= done + rest_lines(full, 0));
        assert(clean_lines(done) =~= Seq::<Seq<char>>::empty());
        reveal_with_fuel(Seq::filter, 2);
        assert(clean_lines(done) == Seq::<Seq<char>>::empty().filter(|l: Seq<char>| l.len() > 0));
        assert(out@ =~= join_lines(clean_lines(done)));
    }
    while start < v.len()
        invariant
            start <= v.len(),
            full == v@,
            line_split(full) == done + rest_lines(full, start as int),
            out@ == join_lines(clean_lines(done)),
            out@.len() == 0 ==> clean_lines(done).len() == 0,
            clean_lines(done).len() > 0 ==> out@.len() > 0,
        decreases v.len() - start,
    {
        let ghost rest = full.skip(start as int);
        // find the end of the current line
        let mut k: usize = start;
        while k < v.len() && v[k] != '\n'
            invariant
                start <= k <= v.len(),
                full == v@,
                forall|j: int| start <= j < k ==> full[j] != '\n',
            decreases v.len() - k,
        {
            k += 1;
        }
        proof {
            lemma_first_newline(rest);
            assert forall|j: int| 0 <= j < k - start implies rest[j] != '\n' by {
                assert(rest[j] == full[start + j]);
            }
            if k < v.len() {
                assert(rest[k - start] == full[k as int]);
            }
            // the scan found exactly the first newline of the remainder
            if first_newline(rest) < k - start {
                assert(rest[first_newline(rest)] == '\n');
                assert(full[start + first_newline(rest)] != '\n');
                assert(false);
            }
            if first_newline(rest) > k - start {
                assert(k < v.len());
                assert(false);
            }
            assert(first_newline(rest) == k - start);
        }
        let ghost line = rest.take(k - start as int);
        proof {
            assert(line =~= full.subrange(start as int, k as int));
            if k < v.len() {
                assert(rest_lines(full, start as int) == seq![line] + line_split(
                    rest.skip(k - start + 1),
                ));
                assert(rest.skip(k - start + 1) =~= full.skip(k as int + 1));
                assert(rest_lines(full, start as int) == seq![line] + rest_lines(
                    full,
                    k as int + 1,
                ));
            } else {
                assert(k == v.len());
                if rest.len() == 0 {
                    assert(rest_lines(full, start as int) =~= Seq::<Seq<char>>::empty());
                } else {
                    assert(first_newline(rest) >= rest.len());
                    assert(rest_lines(full, start as int) == seq![rest]);
                    assert(line =~= rest);
                }
            }
        }
        // trim the line at both ends
        let mut a: usize = start;
        while a < k && is_space_char(v[a])
            invariant
                start <= a <= k <= v.len(),
                full == v@,
                forall|j: int| start <= j < a ==> unicode_space(full[j]),
            decreases k - a,
        {
            a += 1;
        }
        let mut b: usize = k;
        while b > a && is_space_char(v[b - 1])
            invariant
                a <= b <= k <= v.len(),
                full == v@,
                forall|j: int| b <= j < k ==> unicode_space(full[j]),
            decreases b,
        {
            b -= 1;
        }
        proof {
            assert forall|j: int| 0 <= j < a - start implies unicode_space(line[j]) by {
                assert(line[j] == full[start + j]);
            }
            if a < k {
                assert(line[a - start] == full[a as int]);
            }
            lemma_trim_front_skip(line, a - start as int);
            let t = line.skip(a - start as int);
            assert forall|j: int| b - a <= j < t.len() implies unicode_space(t[j]) by {
                assert(t[j] == full[a + j]);
            }
            if b > a {
                assert(t[b - a - 1] == full[b as int - 1]);
            }
            lemma_trim_back_take(t, b - a as int);
            assert(trimmed(line) =~= full.subrange(a as int, b as int));
        }
        // append the trimmed line, with a separating newline when needed
        let ghost before = out@;
        let ghost cleaned_before = clean_lines(done);
        if b > a {
            if out.len() > 0 {
                out.push('\n');
            }
            let mut j: usize = a;
            let ghost sep = out@;
            while j < b
                invariant
                    a <= j <= b <= v.len(),
                    full == v@,
                    out@ =~= sep + full.subrange(a as int, j as int),
                decreases b - j,
            {
                out.push(v[j]);
                proof {
                    assert(out@ =~= sep + full.subrange(a as int, j as int + 1));
                }
                j += 1;
            }
        }
        proof {
            let t = trimmed(line);
            // cleaning distributes over appending this one line
            assert(done.push(line).map_values(|l: Seq<char>| trimmed(l)) =~= done.map_values(
                |l: Seq<char>| trimmed(l),
            ).push(t));
            Seq::<Seq<char>>::filter_distributes_over_add(
                done.map_values(|l: Seq<char>| trimmed(l)),
                seq![t],
                |l: Seq<char>| l.len() > 0,
            );
            crate::seqs::lemma_filter_single(t, |l: Seq<char>| l.len() > 0);
            assert(done.map_values(|l: Seq<char>| trimmed(l)) + seq![t] =~= done.push(
                line,
            ).map_values(|l: Seq<char>| trimmed(l)));
            if b > a {
                assert(t.len() > 0);
                assert(clean_lines(done.push(line)) =~= cleaned_before.push(t));
                if cleaned_before.len() == 0 {
                    assert(before.len() == 0);
                    assert(cleaned_before.push(t).len() == 1);
                    assert(out@ =~= full.subrange(a as int, b as int));
                    assert(out@ == join_lines(clean_lines(done.push(line))));
                } else {
                    assert(before.len() > 0);
                    assert(cleaned_before.push(t).drop_last() =~= cleaned_before);
                    assert(out@ =~= before + seq!['\n'] + t);
                    assert(out@ == join_lines(clean_lines(done.push(line))));
                }
            } else {
                assert(t.len() == 0);
                assert(clean_lines(done.push(line)) =~= cleaned_before);
                assert(out@ == before);
            }
            done = done.push(line);
        }
        if k < v.len() {
            proof {
                assert(line_split(full) == done + rest_lines(full, k as int + 1));
            }
            start = k + 1;
        } else {
            proof {
                assert(full.skip(k as int) =~= Seq::<char>::empty() || k == v.len());
                assert(rest_lines(full, v@.len() as int) == line_split(full.skip(v@.len() as int)));
                assert(full.skip(v@.len() as int) =~= Seq::<char>::empty());
                assert(line_split(full) == done + rest_lines(full, v@.len() as int));
            }
            start = v.len();
        }
    }
    proof {
        if start as int <= full.len() {
            assert(full.skip(start as int) =~= Seq::<char>::empty());
            assert(rest_lines(full, start as int) =~= Seq::<Seq<char>>::empty());
        }
        assert(done =~= line_split(full));
    }
    out
}

/// Collapse runs of ASCII spaces to a single space.
fn collapse_pass(v: &Vec<char>) -> (out: Vec<char>)
    ensures
        out@ == collapse_spaces(v@),
{
    let mut out: Vec<char> = Vec::new();
    let mut i: usize = 0;
    proof {
        assert(v@.skip(0) =~= v@);
    }
    while i < v.len()
        invariant
            i <= v.len(),
            collapse_spaces(v@) == out@ + collapse_spaces(v@.skip(i as int)),
        decreases v.len() - i,
    {
        let ghost rest = v@.skip(i as int);
        proof {
            assert(rest[0] == v@[i as int]);
            if i + 1 < v@.len() {
                assert(rest[1] == v@[i as int + 1]);
            }
            assert(rest.drop_first() =~= v@.skip(i as int + 1));
        }
        if v[i] == ' ' && i + 1 < v.len() && v[i + 1] == ' ' {
            // drop this space: the run continues
        } else {
            out.push(v[i]);
            proof {
                assert(out@ + collapse_spaces(v@.skip(i as int + 1)) =~= (out@.drop_last()
                    + collapse_spaces(rest)));
            }
        }
        i += 1;
    }
    proof {
        assert(v@.skip(v@.len() as int) =~= Seq::<char>::empty());
        assert(out@ =~= out@ + collapse_spaces(v@.skip(v@.len() as int)));
    }
    out
}

/// Remove one ASCII space directly after each full-width punctuation mark.
fn tighten_pass(v: &Vec<char>) -> (out: Vec<char>)
    ensures
        out@ == tighten_punct(v@),
{
    let mut out: Vec<char> = Vec::new();
    let mut i: usize = 0;
    proof {
        assert(v@.skip(0) =~= v@);
    }
    while i < v.len()
        invariant
            i <= v.len(),
            tighten_punct(v@) == out@ + tighten_punct(v@.skip(i as int)),
        decreases v.len() - i,
    {
        let ghost rest = v@.skip(i as int);
        proof {
            assert(rest[0] == v@[i as int]);
            if i + 1 < v@.len() {
                assert(rest[1] == v@[i as int + 1]);
            }
            assert(rest.drop_first() =~= v@.skip(i as int + 1));
        }
        let c = v[i];
        let wide = c == '\u{ff0c}' || c == '\u{3002}' || c == '\u{ff01}' || c == '\u{ff1f}'
            || c == '\u{ff1a}' || c == '\u{ff1b}';
        if wide && i + 1 < v.len() && v[i + 1] == ' ' {
            out.push(c);
            proof {
                assert(rest.skip(2) =~= v@.skip(i as int + 2));
                assert(out@ + tighten_punct(v@.skip(i as int + 2)) =~= (out@.drop_last()
                    + tighten_punct(rest)));
            }
            i += 2;
        } else {
            out.push(c);
            proof {
                assert(out@ + tighten_punct(v@.skip(i as int + 1)) =~= (out@.drop_last()
                    + tighten_punct(rest)));
            }
            i += 1;
        }
    }
    proof {
        assert(v@.skip(v@.len() as int) =~= Seq::<char>::empty());
        assert(out@ =~= out@ + tighten_punct(v@.skip(v@.len() as int)));
    }
    out
}

/// Reformat the text locally: trim lines, drop blank ones, rejoin, collapse
/// space runs, tighten spacing after full-width punctuation. The result
/// carries the `"local_format"` tag and the source text.
pub fn local_format_text(text: String) -> (r: AiResult)
    ensures
        r@.result == format_spec(text@),
        r@.action_type == "local_format"@,
        r@.source_text == text@,
{
    let chars = chars_of(text.as_str());
    let joined = cleaned_joined(&chars);
    let collapsed = collapse_pass(&joined);
    let tightened = tighten_pass(&collapsed);
    let result = string_of(&tightened);
    AiResult { result, action_type: "local_format".to_owned(), source_text: text }
}

} // verus!
