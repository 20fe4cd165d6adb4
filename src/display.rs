use vstd::prelude::*;

use crate::number::find_dot;
use crate::text::{chars_of, string_of};
use crate::types::{SortColumn, SortDirection};

verus! {

/// `n` copies of the bullet character.
pub open spec fn bullets(n: nat) -> Seq<char> {
    Seq::new(n, |i: int| '\u{2022}')
}

/// A secret shown masked: short secrets are all bullets; longer ones keep
/// their first three characters.
pub open spec fn masked(s: Seq<char>) -> Seq<char> {
    if s.len() <= 6 {
        bullets(s.len())
    } else {
        s.subrange(0, 3) + bullets((s.len() - 3) as nat)
    }
}

/// Masks an API key or topic for display.
pub fn mask_key(key: &str) -> (r: String)
    ensures
        r@ == masked(key@),
{
    let cs = chars_of(key);
    let n = cs.len();
    let keep: usize = if n <= 6 {
        0
    } else {
        3
    };
    let mut out: Vec<char> = Vec::new();
    let mut k: usize = 0;
    while k < n
        invariant
            n == cs@.len(),
            cs@ == key@,
            keep == (if n <= 6 {
                0usize
            } else {
                3usize
            }),
            k <= n,
            out@.len() == k,
            forall|t: int| 0 <= t < k ==> #[trigger] out@[t] == if t < keep {
                cs@[t]
            } else {
                '\u{2022}'
            },
        decreases n - k,
    {
        if k < keep {
            out.push(cs[k]);
        } else {
            out.push('\u{2022}');
        }
        k = k + 1;
    }
    assert(out@ =~= masked(key@));
    string_of(&out)
}

/// Digits grouped by thousands with commas, counted from the right; no comma
/// follows a leading sign.
pub open spec fn grouped(s: Seq<char>) -> Seq<char>
    decreases s.len(),
{
    if s.len() <= 3 {
        s
    } else {
        let p = s.subrange(0, s.len() - 3);
        grouped(p) + (if p.last() == '-' {
            Seq::<char>::empty()
        } else {
            seq![',']
        }) + s.subrange(s.len() - 3, s.len() as int)
    }
}

fn group_prefix(cs: &Vec<char>, end: usize) -> (r: Vec<char>)
    requires
        end <= cs@.len(),
    ensures
        r@ == grouped(cs@.subrange(0, end as int)),
    decreases end,
{
    let ghost s = cs@.subrange(0, end as int);
    if end <= 3 {
        let mut out: Vec<char> = Vec::new();
        let mut k: usize = 0;
        while k < end
            invariant
                end <= cs@.len(),
                k <= end,
                out@ == cs@.subrange(0, k as int),
            decreases end - k,
        {
            out.push(cs[k]);
            assert(out@ =~= cs@.subrange(0, k + 1));
            k = k + 1;
        }
        return out;
    }
    let mut out = group_prefix(cs, end - 3);
    assert(s.subrange(0, s.len() - 3) =~= cs@.subrange(0, end - 3));
    assert(s.subrange(s.len() - 3, s.len() as int) =~= cs@.subrange(end - 3, end as int));
    let ghost head = out@;
    if cs[end - 4] != '-' {
        out.push(',');
    }
    let ghost mid = out@;
    out.push(cs[end - 3]);
    out.push(cs[end - 2]);
    out.push(cs[end - 1]);
    assert(out@ =~= mid + cs@.subrange(end - 3, end as int));
    out
}

/// The text between the first and the second `.` of `s` (or its end).
pub open spec fn first_fraction(s: Seq<char>) -> Seq<char> {
    let rest = s.subrange(find_dot(s, 0) + 1, s.len() as int);
    rest.subrange(0, find_dot(rest, 0))
}

/// A formatted number with thousands separators in its whole part; any
/// text after a second `.` is dropped.
pub open spec fn with_commas(s: Seq<char>) -> Seq<char> {
    let whole = grouped(s.subrange(0, find_dot(s, 0)));
    if find_dot(s, 0) < s.len() {
        whole + seq!['.'] + first_fraction(s)
    } else {
        whole
    }
}

fn dot_from(cs: &Vec<char>, start: usize) -> (r: usize)
    requires
        start <= cs@.len(),
    ensures
        r as int == find_dot(cs@, start as int),
        start <= r <= cs@.len(),
{
    let mut k = start;
    while k < cs.len()
        invariant
            start <= k <= cs@.len(),
            find_dot(cs@, start as int) == find_dot(cs@, k as int),
        decreases cs@.len() - k,
    {
        if cs[k] == '.' {
            return k;
        }
        k = k + 1;
    }
    k
}

proof fn lemma_find_dot_shift(s: Seq<char>, start: int, k: int)
    requires
        0 <= start <= k <= s.len(),
    ensures
        find_dot(s.subrange(start, s.len() as int), k - start) + start == find_dot(s, k),
    decreases s.len() - k,
{
    if k < s.len() {
        assert(s.subrange(start, s.len() as int)[k - start] == s[k]);
        lemma_find_dot_shift(s, start, k + 1);
    }
}

/// Inserts thousands separators into a formatted number.
pub fn add_commas(s: &str) -> (r: String)
    ensures
        r@ == with_commas(s@),
{
    let cs = chars_of(s);
    let n = cs.len();
    let dot = dot_from(&cs, 0);
    let mut out = group_prefix(&cs, dot);
    if dot < n {
        let stop = dot_from(&cs, dot + 1);
        proof {
            lemma_find_dot_shift(cs@, dot + 1, dot + 1);
        }
        out.push('.');
        let ghost head = out@;
        let mut k = dot + 1;
        while k < stop
            invariant
                dot + 1 <= k <= stop <= n,
                n == cs@.len(),
                out@ == head + cs@.subrange(dot + 1, k as int),
            decreases stop - k,
        {
            out.push(cs[k]);
            assert(out@ =~= head + cs@.subrange(dot + 1, k + 1));
            k = k + 1;
        }
        let ghost rest = cs@.subrange(dot + 1, n as int);
        assert(rest.subrange(0, stop - dot - 1) =~= cs@.subrange(dot + 1, stop as int));
    }
    string_of(&out)
}

/// The marker drawn after a column header: an up or down triangle on the
/// sorted column, nothing on the others.
pub fn sort_indicator(sort_column: Option<SortColumn>, sort_direction: SortDirection, col: SortColumn) -> (r:
    &'static str)
    ensures
        sort_column != Some(col) ==> r@.len() == 0,
        sort_column == Some(col) && sort_direction == SortDirection::Asc ==> r@ == " \u{25b4}"@,
        sort_column == Some(col) && sort_direction == SortDirection::Desc ==> r@ == " \u{25be}"@,
{
    if sort_column == Some(col) {
        match sort_direction {
            SortDirection::Asc => " \u{25b4}",
            SortDirection::Desc => " \u{25be}",
        }
    } else {
        proof {
            reveal_strlit("");
        }
        ""
    }
}

} // verus!
