use vstd::prelude::*;

use crate::text::{
    before, chars_of, contains_at_range, copy_range, find_char, has_substring, index_of,
    is_white_space, lemma_trim_end, lemma_trim_start, string_of, trim, white_space,
};

verus! {

/// The characters of `next`.
pub open spec fn next_word() -> Seq<char> {
    seq!['n', 'e', 'x', 't']
}

/// The URL of one `<url>; rel="name"` entry: the part before the first `;`,
/// trimmed, without its first and last character (the angle brackets).
pub open spec fn entry_url(entry: Seq<char>) -> Seq<char> {
    let t = trim(before(entry, ';'));
    if t.len() >= 2 {
        t.subrange(1, t.len() - 1)
    } else {
        Seq::empty()
    }
}

/// The continuation URL of a `Link` header: the URL of the first
/// comma-separated entry that mentions `next`, if there is one.
pub open spec fn next_link(h: Seq<char>) -> Option<Seq<char>>
    decreases h.len(),
{
    let entry = before(h, ',');
    if has_substring(entry, next_word()) {
        Some(entry_url(entry))
    } else if index_of(h, ',') < h.len() {
        next_link(h.subrange(index_of(h, ',') + 1 as int, h.len() as int))
    } else {
        None
    }
}

/// Extracts the URL of the `rel="next"` entry of a `Link` response header.
pub fn get_next_url(link_header: &str) -> (r: Option<String>)
    ensures
        match r {
            Some(u) => next_link(link_header@) == Some(u@),
            None => next_link(link_header@) is None,
        },
{
    let v = chars_of(link_header);
    let pat: Vec<char> = vec!['n', 'e', 'x', 't'];
    assert(pat@ =~= next_word());
    let n = v.len();
    let mut start: usize = 0;
    assert(v@.subrange(0, n as int) =~= v@);
    loop
        invariant
            start <= n == v.len(),
            v@ == link_header@,
            pat@ == next_word(),
            next_link(v@) == next_link(v@.subrange(start as int, n as int)),
        decreases n - start,
    {
        let ghost t = v@.subrange(start as int, n as int);
        let end = find_char(&v, start, n, ',');
        assert(before(t, ',') =~= v@.subrange(start as int, end as int));
        if contains_at_range(&v, start, end, &pat) {
            let ghost entry = v@.subrange(start as int, end as int);
            let semi = find_char(&v, start, end, ';');
            assert(before(entry, ';') =~= v@.subrange(start as int, semi as int));
            let mut a: usize = start;
            while a < semi && is_white_space(v[a])
                invariant
                    start <= a <= semi <= end <= n == v.len(),
                    forall|j: int| start <= j < a ==> white_space(#[trigger] v@[j]),
                decreases semi - a,
            {
                a = a + 1;
            }
            let mut b: usize = semi;
            while b > a && is_white_space(v[b - 1])
                invariant
                    a <= b <= semi <= n == v.len(),
                    forall|j: int| b <= j < semi ==> white_space(#[trigger] v@[j]),
                decreases b - a,
            {
                b = b - 1;
            }
            proof {
                let x = v@.subrange(start as int, semi as int);
                assert forall|j: int| 0 <= j < a - start implies white_space(#[trigger] x[j]) by {
                    assert(x[j] == v@[start + j]);
                }
                if a < semi {
                    assert(x[a - start] == v@[a as int]);
                }
                lemma_trim_start(x, a - start);
                let y = v@.subrange(a as int, semi as int);
                assert(x.subrange(a - start, x.len() as int) =~= y);
                assert forall|j: int| b - a <= j < y.len() implies white_space(#[trigger] y[j]) by {
                    assert(y[j] == v@[a + j]);
                }
                if b > a {
                    assert(y[b - a - 1] == v@[b - 1]);
                }
                lemma_trim_end(y, b - a);
                assert(y.take(b - a) =~= v@.subrange(a as int, b as int));
            }
            if b - a >= 2 {
                let inner = copy_range(&v, a + 1, b - 1);
                assert(inner@ =~= v@.subrange(a as int, b as int).subrange(1, b - a - 1));
                return Some(string_of(&inner));
            } else {
                return Some(String::new());
            }
        }
        if end == n {
            return None;
        }
        assert(t.subrange(end - start + 1, t.len() as int) =~= v@.subrange(end + 1, n as int));
        start = end + 1;
    }
}

} // verus!
