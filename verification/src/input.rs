//! Cell-content readers: the lenient conversions applied to raw feed
//! values — digit-only readings, pipe-separated lists, and
//! comma-separated id lists that keep whatever parses and drop the rest.

use vstd::prelude::*;

use crate::text::{all_digits, digits_val, i64_string_val, is_i64_string, parse_i64};

verus! {

/// True of the characters the `White_Space` property names: what
/// trimming removes.
pub open spec fn is_whitespace_char(c: char) -> bool {
    ||| c as int == 0x9
    ||| c as int == 0xa
    ||| c as int == 0xb
    ||| c as int == 0xc
    ||| c as int == 0xd
    ||| c as int == 0x20
    ||| c as int == 0x85
    ||| c as int == 0xa0
    ||| c as int == 0x1680
    ||| (0x2000 <= c as int && c as int <= 0x200a)
    ||| c as int == 0x2028
    ||| c as int == 0x2029
    ||| c as int == 0x202f
    ||| c as int == 0x205f
    ||| c as int == 0x3000
}

/// True of the characters the `White_Space` property names.
fn char_is_whitespace(c: char) -> (r: bool)
    ensures
        r == is_whitespace_char(c),
{
    let u: u32 = c as u32;
    u == 0x9 || u == 0xa || u == 0xb || u == 0xc || u == 0xd || u == 0x20 || u == 0x85 || u
        == 0xa0 || u == 0x1680 || (0x2000 <= u && u <= 0x200a) || u == 0x2028 || u == 0x2029 || u
        == 0x202f || u == 0x205f || u == 0x3000
}

/// The sequence without its leading whitespace.
pub open spec fn spec_trim_start(s: Seq<char>) -> Seq<char>
    decreases s.len(),
{
    if s.len() > 0 && is_whitespace_char(s[0]) {
        spec_trim_start(s.skip(1))
    } else {
        s
    }
}

/// The sequence without its trailing whitespace.
pub open spec fn spec_trim_end(s: Seq<char>) -> Seq<char>
    decreases s.len(),
{
    if s.len() > 0 && is_whitespace_char(s.last()) {
        spec_trim_end(s.drop_last())
    } else {
        s
    }
}

/// The sequence without leading and trailing whitespace.
pub open spec fn spec_trim(s: Seq<char>) -> Seq<char> {
    spec_trim_end(spec_trim_start(s))
}

proof fn lemma_trim_start_skip(s: Seq<char>, i: int)
    requires
        0 <= i <= s.len(),
        forall|k: int| 0 <= k < i ==> is_whitespace_char(#[trigger] s[k]),
    ensures
        spec_trim_start(s) == spec_trim_start(s.skip(i)),
    decreases i,
{
    if i > 0 {
        assert(is_whitespace_char(s[0]));
        assert(spec_trim_start(s) == spec_trim_start(s.skip(1)));
        assert(forall|k: int|
            0 <= k < i - 1 ==> is_whitespace_char(#[trigger] s.skip(1)[k]) && s.skip(1)[k] == s[k
                + 1]);
        lemma_trim_start_skip(s.skip(1), i - 1);
        assert(s.skip(1).skip(i - 1) =~= s.skip(i));
    } else {
        assert(s.skip(0) =~= s);
    }
}

proof fn lemma_trim_end_take(s: Seq<char>, j: int)
    requires
        0 <= j <= s.len(),
        forall|k: int| j <= k < s.len() ==> is_whitespace_char(#[trigger] s[k]),
    ensures
        spec_trim_end(s) == spec_trim_end(s.take(j)),
    decreases s.len() - j,
{
    if j < s.len() {
        assert(is_whitespace_char(s.last()));
        assert(spec_trim_end(s) == spec_trim_end(s.drop_last()));
        assert(s.drop_last() =~= s.take(s.len() - 1));
        assert(forall|k: int|
            j <= k < s.drop_last().len() ==> is_whitespace_char(#[trigger] s.drop_last()[k]));
        lemma_trim_end_take(s.drop_last(), j);
        assert(s.drop_last().take(j) =~= s.take(j));
    } else {
        assert(s.take(j) =~= s);
    }
}

/// Removes leading and trailing whitespace.
pub fn trim_str(s: &str) -> (r: String)
    ensures
        r@ == spec_trim(s@),
{
    let n = s.unicode_len();
    let mut a: usize = 0;
    while a < n && char_is_whitespace(s.get_char(a))
        invariant
            a <= n,
            n == s@.len(),
            forall|k: int| 0 <= k < a ==> is_whitespace_char(#[trigger] s@[k]),
        decreases n - a,
    {
        a = a + 1;
    }
    proof {
        lemma_trim_start_skip(s@, a as int);
        if a < n {
            assert(!is_whitespace_char(s@.skip(a as int)[0]));
        }
    }
    let ghost rest = s@.skip(a as int);
    proof {
        assert(spec_trim_start(s@) == rest);
    }
    let mut b: usize = n;
    while b > a && char_is_whitespace(s.get_char(b - 1))
        invariant
            a <= b <= n,
            n == s@.len(),
            rest == s@.skip(a as int),
            forall|k: int| b - a <= k < rest.len() ==> is_whitespace_char(#[trigger] rest[k]),
        decreases b,
    {
        proof {
            assert(rest[b - 1 - a] == s@[b - 1]);
        }
        b = b - 1;
    }
    proof {
        lemma_trim_end_take(rest, b - a);
        if b > a {
            assert(rest.take(b - a).last() == s@[b - 1]);
            assert(!is_whitespace_char(rest.take(b - a).last()));
        }
        assert(spec_trim_end(rest) == rest.take(b - a));
        assert(rest.take(b - a) =~= s@.subrange(a as int, b as int));
    }
    let out = s.substring_char(a, b);
    out.to_owned()
}

/// The position of the first occurrence of `sep`, or the length when
/// there is none.
pub open spec fn spec_index_of_first(s: Seq<char>, sep: char) -> nat
    decreases s.len(),
{
    if s.len() == 0 {
        0
    } else if s[0] == sep {
        0
    } else {
        1 + spec_index_of_first(s.skip(1), sep)
    }
}

proof fn lemma_index_of_first_is(s: Seq<char>, sep: char, m: int)
    requires
        0 <= m <= s.len(),
        forall|k: int| 0 <= k < m ==> s[k] != sep,
        m == s.len() || s[m] == sep,
    ensures
        spec_index_of_first(s, sep) == m,
    decreases m,
{
    if s.len() == 0 {
    } else if m == 0 {
    } else {
        assert(s[0] != sep);
        assert(forall|k: int| 0 <= k < m - 1 ==> s.skip(1)[k] != sep);
        if m < s.len() {
            assert(s.skip(1)[m - 1] == s[m]);
        }
        lemma_index_of_first_is(s.skip(1), sep, m - 1);
    }
}

/// The segments of `s` between occurrences of `sep`, in order; a
/// sequence with no separator is one segment, and separators at the ends
/// leave empty segments.
pub open spec fn spec_split(s: Seq<char>, sep: char) -> Seq<Seq<char>>
    decreases s.len(),
{
    let i = spec_index_of_first(s, sep);
    if i >= s.len() {
        seq![s]
    } else {
        seq![s.take(i as int)] + spec_split(s.skip(i as int + 1), sep)
    }
}

/// The pipe-separated entries of a raw cell: each segment trimmed, empty
/// segments dropped.
pub open spec fn spec_split_pipe(s: Seq<char>) -> Seq<Seq<char>> {
    spec_split(s, '|').map_values(|seg: Seq<char>| spec_trim(seg)).filter(
        |seg: Seq<char>| seg.len() > 0,
    )
}

proof fn lemma_split_step(s: Seq<char>, sep: char, start: int, i: int)
    requires
        0 <= start <= i < s.len(),
        forall|k: int| start <= k < i ==> s[k] != sep,
        s[i] == sep,
    ensures
        spec_split(s.skip(start), sep) == seq![s.subrange(start, i)] + spec_split(
            s.skip(i + 1),
            sep,
        ),
{
    let rest = s.skip(start);
    assert(forall|k: int| 0 <= k < i - start ==> rest[k] != sep);
    assert(rest[i - start] == s[i]);
    lemma_index_of_first_is(rest, sep, i - start);
    assert(rest.take(i - start) =~= s.subrange(start, i));
    assert(rest.skip(i - start + 1) =~= s.skip(i + 1));
}

proof fn lemma_split_last(s: Seq<char>, sep: char, start: int)
    requires
        0 <= start <= s.len(),
        forall|k: int| start <= k < s.len() ==> s[k] != sep,
    ensures
        spec_split(s.skip(start), sep) == seq![s.skip(start)],
{
    let rest = s.skip(start);
    assert(forall|k: int| 0 <= k < rest.len() ==> rest[k] != sep);
    lemma_index_of_first_is(rest, sep, rest.len() as int);
}

proof fn lemma_filter_push<A>(s: Seq<A>, x: A, pred: spec_fn(A) -> bool)
    ensures
        s.push(x).filter(pred) == (if pred(x) {
            s.filter(pred).push(x)
        } else {
            s.filter(pred)
        }),
{
    reveal(Seq::filter);
    let p = s.push(x);
    assert(p.len() == s.len() + 1);
    assert(p.drop_last() =~= s);
    assert(p.last() == x);
    assert(p.filter(pred) == (if pred(p.last()) {
        p.drop_last().filter(pred).push(p.last())
    } else {
        p.drop_last().filter(pred)
    }));
}

proof fn lemma_map_values_push<A, B>(s: Seq<A>, x: A, f: spec_fn(A) -> B)
    ensures
        s.push(x).map_values(f) == s.map_values(f).push(f(x)),
{
    assert(s.push(x).map_values(f) =~= s.map_values(f).push(f(x)));
}

/// Splits a raw cell on `|`, trims each entry and keeps the non-empty
/// ones, in order.
pub fn split_pipe_string(s: &str) -> (r: Vec<String>)
    ensures
        r.deep_view() == spec_split_pipe(s@),
{
    let n = s.unicode_len();
    let mut out: Vec<String> = Vec::new();
    let ghost mut done: Seq<Seq<char>> = Seq::empty();
    let mut start: usize = 0;
    let mut i: usize = 0;
    proof {
        reveal(Seq::filter);
        assert(s@.skip(0) =~= s@);
        assert(Seq::<Seq<char>>::empty() + spec_split(s@.skip(0), '|') =~= spec_split(s@, '|'));
        assert(out.deep_view() =~= done.map_values(|seg: Seq<char>| spec_trim(seg)).filter(
            |seg: Seq<char>| seg.len() > 0,
        ));
    }
    while i < n
        invariant
            start <= i <= n,
            n == s@.len(),
            forall|k: int| start <= k < i ==> s@[k] != '|',
            spec_split(s@, '|') == done + spec_split(s@.skip(start as int), '|'),
            out.deep_view() == done.map_values(|seg: Seq<char>| spec_trim(seg)).filter(
                |seg: Seq<char>| seg.len() > 0,
            ),
        decreases n - i,
    {
        if s.get_char(i) == '|' {
            let seg = s.substring_char(start, i);
            let trimmed = trim_str(seg);
            let ghost raw = s@.subrange(start as int, i as int);
            proof {
                lemma_split_step(s@, '|', start as int, i as int);
                lemma_map_values_push(done, raw, |seg: Seq<char>| spec_trim(seg));
                lemma_filter_push(
                    done.map_values(|seg: Seq<char>| spec_trim(seg)),
                    spec_trim(raw),
                    |seg: Seq<char>| seg.len() > 0,
                );
            }
            if !trimmed.as_str().is_empty() {
                let ghost dv = out.deep_view();
                out.push(trimmed);
                proof {
                    assert(out.deep_view() =~= dv.push(spec_trim(raw)));
                }
            }
            proof {
                done = done.push(raw);
                assert(done + spec_split(s@.skip(i + 1), '|') =~= spec_split(s@, '|'));
            }
            start = i + 1;
        }
        i = i + 1;
    }
    let seg = s.substring_char(start, n);
    let trimmed = trim_str(seg);
    let ghost raw = s@.skip(start as int);
    proof {
        lemma_split_last(s@, '|', start as int);
        assert(s@.subrange(start as int, n as int) =~= raw);
        lemma_map_values_push(done, raw, |seg: Seq<char>| spec_trim(seg));
        lemma_filter_push(
            done.map_values(|seg: Seq<char>| spec_trim(seg)),
            spec_trim(raw),
            |seg: Seq<char>| seg.len() > 0,
        );
        assert(done.push(raw) =~= done + spec_split(s@.skip(start as int), '|'));
    }
    if !trimmed.as_str().is_empty() {
        let ghost dv = out.deep_view();
        out.push(trimmed);
        proof {
            assert(out.deep_view() =~= dv.push(spec_trim(raw)));
        }
    }
    proof {
        assert(done.push(raw) =~= done + spec_split(s@.skip(start as int), '|'));
        done = done.push(raw);
        assert(done =~= spec_split(s@, '|'));
        assert(out.deep_view() =~= done.map_values(|seg: Seq<char>| spec_trim(seg)).filter(
            |seg: Seq<char>| seg.len() > 0,
        ));
        assert(out.deep_view() =~= spec_split_pipe(s@));
    }
    out
}

/// Reads a cell that must be all digits: the value when the text is one
/// or more digits that fit an `i64`, nothing otherwise.
pub fn string_to_option_i64(s: &str) -> (r: Option<i64>)
    ensures
        r is Some <==> (s@.len() > 0 && all_digits(s@) && digits_val(s@) <= i64::MAX as int),
        r matches Some(v) ==> v as int == digits_val(s@),
{
    let n = s.unicode_len();
    if n == 0 {
        return None;
    }
    let mut i: usize = 0;
    while i < n
        invariant
            i <= n,
            n == s@.len(),
            forall|k: int| 0 <= k < i ==> crate::text::is_digit_char(#[trigger] s@[k]),
        decreases n - i,
    {
        let c = s.get_char(i);
        if c < '0' || c > '9' {
            return None;
        }
        i = i + 1;
    }
    assert(all_digits(s@));
    match parse_i64(s) {
        Some(v) => {
            proof {
                assert(s@[0] != '-' && s@[0] != '+');
            }
            Some(v)
        },
        None => {
            proof {
                assert(s@[0] != '-' && s@[0] != '+');
            }
            None
        },
    }
}

/// The ids a comma-separated cell carries: each entry trimmed, the
/// entries that read as integers kept in order, the rest dropped.
pub open spec fn spec_comma_ids(s: Seq<char>) -> Seq<i64> {
    spec_split(s, ',').map_values(|seg: Seq<char>| spec_trim(seg)).filter(
        |seg: Seq<char>| is_i64_string(seg),
    ).map_values(|seg: Seq<char>| (i64_string_val(seg) as i64))
}

/// Reads a comma-separated id list: every entry that parses as an
/// integer is kept in order, the rest are dropped; a cell yielding no
/// ids reads as nothing.
pub fn string_to_option_vec_i64(s: &str) -> (r: Option<Vec<i64>>)
    ensures
        r is Some <==> spec_comma_ids(s@).len() > 0,
        r matches Some(v) ==> v@ == spec_comma_ids(s@),
{
    let n = s.unicode_len();
    let mut out: Vec<i64> = Vec::new();
    let ghost mut done: Seq<Seq<char>> = Seq::empty();
    let mut start: usize = 0;
    let mut i: usize = 0;
    proof {
        reveal(Seq::filter);
        assert(s@.skip(0) =~= s@);
        assert(Seq::<Seq<char>>::empty() + spec_split(s@.skip(0), ',') =~= spec_split(s@, ','));
        assert(out@ =~= done.map_values(|seg: Seq<char>| spec_trim(seg)).filter(
            |seg: Seq<char>| is_i64_string(seg),
        ).map_values(|seg: Seq<char>| (i64_string_val(seg) as i64)));
    }
    while i < n
        invariant
            start <= i <= n,
            n == s@.len(),
            forall|k: int| start <= k < i ==> s@[k] != ',',
            spec_split(s@, ',') == done + spec_split(s@.skip(start as int), ','),
            out@ == done.map_values(|seg: Seq<char>| spec_trim(seg)).filter(
                |seg: Seq<char>| is_i64_string(seg),
            ).map_values(|seg: Seq<char>| (i64_string_val(seg) as i64)),
        decreases n - i,
    {
        if s.get_char(i) == ',' {
            let seg = s.substring_char(start, i);
            let trimmed = trim_str(seg);
            let ghost raw = s@.subrange(start as int, i as int);
            proof {
                lemma_split_step(s@, ',', start as int, i as int);
                lemma_map_values_push(done, raw, |seg: Seq<char>| spec_trim(seg));
                lemma_filter_push(
                    done.map_values(|seg: Seq<char>| spec_trim(seg)),
                    spec_trim(raw),
                    |seg: Seq<char>| is_i64_string(seg),
                );
                if is_i64_string(spec_trim(raw)) {
                    lemma_map_values_push(
                        done.map_values(|seg: Seq<char>| spec_trim(seg)).filter(
                            |seg: Seq<char>| is_i64_string(seg),
                        ),
                        spec_trim(raw),
                        |seg: Seq<char>| (i64_string_val(seg) as i64),
                    );
                }
            }
            match parse_i64(trimmed.as_str()) {
                Some(v) => {
                    out.push(v);
                },
                None => {},
            }
            proof {
                done = done.push(raw);
                assert(done + spec_split(s@.skip(i + 1), ',') =~= spec_split(s@, ','));
                assert(out@ =~= done.map_values(|seg: Seq<char>| spec_trim(seg)).filter(
                    |seg: Seq<char>| is_i64_string(seg),
                ).map_values(|seg: Seq<char>| (i64_string_val(seg) as i64)));
            }
            start = i + 1;
        }
        i = i + 1;
    }
    let seg = s.substring_char(start, n);
    let trimmed = trim_str(seg);
    let ghost raw = s@.skip(start as int);
    proof {
        lemma_split_last(s@, ',', start as int);
        assert(s@.subrange(start as int, n as int) =~= raw);
        lemma_map_values_push(done, raw, |seg: Seq<char>| spec_trim(seg));
        lemma_filter_push(
            done.map_values(|seg: Seq<char>| spec_trim(seg)),
            spec_trim(raw),
            |seg: Seq<char>| is_i64_string(seg),
        );
        if is_i64_string(spec_trim(raw)) {
            lemma_map_values_push(
                done.map_values(|seg: Seq<char>| spec_trim(seg)).filter(
                    |seg: Seq<char>| is_i64_string(seg),
                ),
                spec_trim(raw),
                |seg: Seq<char>| (i64_string_val(seg) as i64),
            );
        }
    }
    match parse_i64(trimmed.as_str()) {
        Some(v) => {
            out.push(v);
        },
        None => {},
    }
    proof {
        assert(done.push(raw) =~= done + spec_split(s@.skip(start as int), ','));
        done = done.push(raw);
        assert(done =~= spec_split(s@, ','));
        assert(out@ =~= done.map_values(|seg: Seq<char>| spec_trim(seg)).filter(
            |seg: Seq<char>| is_i64_string(seg),
        ).map_values(|seg: Seq<char>| (i64_string_val(seg) as i64)));
        assert(out@ =~= spec_comma_ids(s@));
    }
    if out.len() == 0 {
        None
    } else {
        Some(out)
    }
}

} // verus!
