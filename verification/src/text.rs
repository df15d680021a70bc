//! Text helpers shared by the decoder and the dispatcher.

use vstd::prelude::*;
use vstd::string::*;
use vstd::utf8::*;

verus! {

/// `s` with every double-quote character removed, the rest in order.
pub open spec fn without_quotes(s: Seq<char>) -> Seq<char> {
    s.filter(|c: char| c != '"')
}

/// Whether `part` occurs in `whole` as a run of consecutive characters.
pub open spec fn occurs_in(part: Seq<char>, whole: Seq<char>) -> bool {
    exists|at: int|
        0 <= at && at + part.len() <= whole.len() && #[trigger] whole.subrange(
            at,
            at + part.len(),
        ) == part
}

/// Whether two string slices hold the same characters.
pub fn same_text(a: &str, b: &str) -> (same: bool)
    ensures
        same == (a@ == b@),
{
    let x = a.as_bytes();
    let y = b.as_bytes();
    proof {
        encode_utf8_decode_utf8(a@);
        encode_utf8_decode_utf8(b@);
    }
    if x.len() != y.len() {
        return false;
    }
    let n = x.len();
    let mut i: usize = 0;
    while i < n
        invariant
            i <= n,
            n == x@.len(),
            n == y@.len(),
            x@ == a.spec_bytes(),
            y@ == b.spec_bytes(),
            forall|k: int| 0 <= k < i ==> x@[k] == y@[k],
        decreases n - i,
    {
        if x[i] != y[i] {
            return false;
        }
        i += 1;
    }
    assert(x@ =~= y@);
    true
}

/// The characters of `s`, for access by index.
pub fn characters(s: &str) -> (chars: Vec<char>)
    ensures
        chars@ == s@,
{
    let mut chars: Vec<char> = Vec::new();
    for c in it: s.chars()
        invariant
            it.seq() == s@,
            chars@ == s@.subrange(0, it.index() as int),
    {
        chars.push(c);
    }
    assert(s@.subrange(0, s@.len() as int) =~= s@);
    chars
}

/// Stripping a text that holds no double quote returns it unchanged.
pub proof fn lemma_without_quotes_keeps(s: Seq<char>)
    requires
        forall|k: int| 0 <= k < s.len() ==> s[k] != '"',
    ensures
        without_quotes(s) == s,
    decreases s.len(),
{
    reveal(Seq::filter);
    if s.len() > 0 {
        lemma_without_quotes_keeps(s.drop_last());
        assert(s.drop_last().push(s.last()) =~= s);
    }
}

/// Stripping distributes over concatenation.
pub proof fn lemma_without_quotes_concat(a: Seq<char>, b: Seq<char>)
    ensures
        without_quotes(a + b) == without_quotes(a) + without_quotes(b),
{
    Seq::filter_distributes_over_add(a, b, |c: char| c != '"');
}

/// A copy of `s` without its double-quote characters.
pub fn strip_quotes(s: &str) -> (out: String)
    ensures
        out@ == without_quotes(s@),
{
    let n = s.unicode_len();
    let mut out = String::new();
    let mut start: usize = 0;
    let mut i: usize = 0;
    for c in it: s.chars()
        invariant
            i == it.index(),
            start <= i <= n,
            n == s@.len(),
            it.seq() == s@,
            forall|k: int| start <= k < i ==> s@[k] != '"',
            out@ == without_quotes(s@.subrange(0, start as int)),
    {
        if c == '"' {
            out.append(s.substring_char(start, i));
            proof {
                let head = s@.subrange(0, start as int);
                let run = s@.subrange(start as int, i as int);
                let mark = s@.subrange(i as int, i + 1);
                lemma_without_quotes_keeps(run);
                lemma_without_quotes_concat(head, run);
                lemma_without_quotes_concat(head + run, mark);
                reveal_with_fuel(Seq::filter, 2);
                assert(without_quotes(mark) =~= Seq::<char>::empty());
                assert(head + run + mark =~= s@.subrange(0, i + 1));
            }
            start = i + 1;
        }
        i += 1;
    }
    out.append(s.substring_char(start, n));
    proof {
        let head = s@.subrange(0, start as int);
        let run = s@.subrange(start as int, n as int);
        lemma_without_quotes_keeps(run);
        lemma_without_quotes_concat(head, run);
        assert(head + run =~= s@);
    }
    out
}

} // verus!
