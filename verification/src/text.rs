//! Latin-1 text in byte fields.
use vstd::prelude::*;

verus! {

/// `String::push`: the character is appended.
pub assume_specification[ String::push ](s: &mut String, c: char)
    ensures
        final(s)@ == old(s)@.push(c),
;

/// Bytes as Latin-1 characters.
pub open spec fn latin1(s: Seq<u8>) -> Seq<char> {
    Seq::new(s.len(), |i: int| s[i] as char)
}

/// A field without its trailing spaces and tabs.
pub open spec fn trimmed(s: Seq<u8>) -> Seq<u8>
    decreases s.len(),
{
    if s.len() > 0 && (s.last() == 0x20 || s.last() == 0x09) {
        trimmed(s.drop_last())
    } else {
        s
    }
}

/// The text in a field.
pub open spec fn text_of(s: Seq<u8>) -> Seq<char> {
    latin1(trimmed(s))
}

/// Position of the first NUL, or the length if there is none.
pub open spec fn first_nul(s: Seq<u8>) -> int
    decreases s.len(),
{
    if s.len() == 0 || s[0] == 0 {
        0
    } else {
        1 + first_nul(s.drop_first())
    }
}

/// The parts of `s` between its NULs; there is always at least one.
pub open spec fn pieces(s: Seq<u8>) -> Seq<Seq<u8>>
    decreases s.len(),
{
    let n = first_nul(s);
    if 0 <= n < s.len() {
        seq![s.subrange(0, n)] + pieces(s.subrange(n + 1, s.len() as int))
    } else {
        seq![s]
    }
}

/// The texts of a run of NUL-terminated strings: an empty last piece is what
/// follows the last terminator, and is no string.
pub open spec fn strings_of(body: Seq<u8>) -> Seq<Seq<char>> {
    let p = pieces(body);
    let q = if p.last().len() == 0 { p.drop_last() } else { p };
    Seq::new(q.len(), |i: int| text_of(q[i]))
}

/// The contents of a list of strings.
pub open spec fn string_views(v: Seq<String>) -> Seq<Seq<char>> {
    Seq::new(v.len(), |i: int| v[i]@)
}

proof fn lemma_first_nul(s: Seq<u8>)
    ensures
        0 <= first_nul(s) <= s.len(),
        first_nul(s) < s.len() ==> s[first_nul(s)] == 0,
        forall|i: int| 0 <= i < first_nul(s) ==> s[i] != 0,
    decreases s.len(),
{
    if s.len() == 0 || s[0] == 0 {
    } else {
        lemma_first_nul(s.drop_first());
        assert forall|i: int| 0 <= i < first_nul(s) implies s[i] != 0 by {
            if i > 0 {
                assert(s[i] == s.drop_first()[i - 1]);
            }
        }
    }
}

proof fn lemma_first_nul_is(s: Seq<u8>, n: int)
    requires
        0 <= n <= s.len(),
        forall|i: int| 0 <= i < n ==> s[i] != 0,
        n < s.len() ==> s[n] == 0,
    ensures
        first_nul(s) == n,
    decreases s.len(),
{
    if s.len() == 0 || s[0] == 0 {
    } else {
        lemma_first_nul_is(s.drop_first(), n - 1);
    }
}

/// Position of the first NUL at or behind `from`, or the length.
pub fn find_nul(b: &[u8], from: usize) -> (n: usize)
    requires
        from <= b@.len(),
    ensures
        from <= n <= b@.len(),
        n - from == first_nul(b@.subrange(from as int, b@.len() as int)),
        pieces(b@.subrange(from as int, b@.len() as int))[0] == b@.subrange(from as int, n as int),
        pieces(b@.subrange(from as int, b@.len() as int)).len() > 0,
        n < b@.len() ==> pieces(b@.subrange(from as int, b@.len() as int)) == seq![
            b@.subrange(from as int, n as int),
        ] + pieces(b@.subrange(n + 1, b@.len() as int)),
        n == b@.len() ==> pieces(b@.subrange(from as int, b@.len() as int)) == seq![
            b@.subrange(from as int, n as int),
        ],
{
    let mut n: usize = from;
    while n < b.len() && b[n] != 0
        invariant
            from <= n <= b@.len(),
            forall|i: int| from <= i < n ==> b@[i] != 0,
        decreases b@.len() - n,
    {
        n = n + 1;
    }
    proof {
        let rest = b@.subrange(from as int, b@.len() as int);
        lemma_first_nul_is(rest, n - from);
        assert(rest.subrange(0, n - from) =~= b@.subrange(from as int, n as int));
        if n < b@.len() {
            assert(rest.subrange(n - from + 1, rest.len() as int) =~= b@.subrange(
                n + 1,
                b@.len() as int,
            ));
        }
    }
    n
}

/// The text in a field: Latin-1, without trailing spaces and tabs.
pub fn read_string(field: &[u8]) -> (r: String)
    ensures
        r@ == text_of(field@),
{
    let mut last: usize = field.len();
    assert(field@.subrange(0, field@.len() as int) =~= field@);
    while last > 0 && (field[last - 1] == 0x20 || field[last - 1] == 0x09)
        invariant
            last <= field@.len(),
            trimmed(field@) == trimmed(field@.subrange(0, last as int)),
        decreases last,
    {
        assert(field@.subrange(0, last as int).drop_last() =~= field@.subrange(0, last - 1));
        last = last - 1;
    }
    let ghost kept = field@.subrange(0, last as int);
    assert(trimmed(field@) == kept);
    let mut r: String = String::new();
    for i in 0..last
        invariant
            last <= field@.len(),
            kept == field@.subrange(0, last as int),
            r@ =~= latin1(kept).subrange(0, i as int),
    {
        r.push(field[i] as char);
    }
    r
}

/// The text of the piece that starts at `at`, and where the next piece starts.
pub fn next_piece(b: &[u8], at: Option<usize>) -> (r: (String, Option<usize>))
    requires
        at matches Some(i) ==> i <= b@.len(),
    ensures
        r.1 matches Some(j) ==> j <= b@.len(),
        match at {
            None => r.0@ == Seq::<char>::empty() && r.1 is None,
            Some(i) => {
                let p = pieces(b@.subrange(i as int, b@.len() as int));
                &&& p.len() > 0
                &&& r.0@ == text_of(p[0])
                &&& match r.1 {
                    None => p.len() == 1,
                    Some(j) => p == seq![p[0]] + pieces(b@.subrange(j as int, b@.len() as int)),
                }
            },
        },
{
    match at {
        None => (String::new(), None),
        Some(i) => {
            let n: usize = find_nul(b, i);
            let s = read_string(&b[i..n]);
            if n < b.len() {
                (s, Some(n + 1))
            } else {
                (s, None)
            }
        },
    }
}

/// The strings of a run of NUL-terminated strings.
pub fn split_null_strings(body: &[u8]) -> (r: Vec<String>)
    ensures
        string_views(r@) == strings_of(body@),
{
    let mut r: Vec<String> = Vec::new();
    let mut at: usize = 0;
    let ghost all = pieces(body@);
    assert(body@.subrange(0, body@.len() as int) =~= body@);
    assert(all.subrange(0, all.len() as int) =~= all);
    loop
        invariant
            at <= body@.len(),
            all == pieces(body@),
            r@.len() < all.len(),
            all.subrange(r@.len() as int, all.len() as int) == pieces(
                body@.subrange(at as int, body@.len() as int),
            ),
            forall|i: int| 0 <= i < r@.len() ==> (#[trigger] r@[i])@ == text_of(all[i]),
        decreases body@.len() - at,
    {
        let n: usize = find_nul(body, at);
        let ghost here = all.subrange(r@.len() as int, all.len() as int);
        assert(here[0] == all[r@.len() as int]);
        if n == body.len() {
            assert(all.len() == r@.len() + 1);
            assert(all.last() == here[0]);
            if n == at {
                assert(string_views(r@) =~= strings_of(body@));
                return r;
            }
            r.push(read_string(&body[at..n]));
            assert(string_views(r@) =~= strings_of(body@));
            return r;
        }
        let ghost count = r@.len() as int;
        r.push(read_string(&body[at..n]));
        proof {
            let tail = pieces(body@.subrange(n + 1, body@.len() as int));
            assert(here.subrange(1, here.len() as int) =~= tail);
            assert(all.subrange(count + 1, all.len() as int) =~= here.subrange(
                1,
                here.len() as int,
            ));
            lemma_pieces_nonempty(body@.subrange(n + 1, body@.len() as int));
        }
        at = n + 1;
    }
}

proof fn lemma_pieces_nonempty(s: Seq<u8>)
    ensures
        pieces(s).len() > 0,
{
    lemma_first_nul(s);
}

} // verus!
