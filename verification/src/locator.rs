//! The shape of an endpoint locator: `scheme://host:port`.

use vstd::prelude::*;
use crate::text::characters;

verus! {

/// A decimal digit.
pub open spec fn is_decimal(c: char) -> bool {
    '0' <= c && c <= '9'
}

/// `address` is a scheme up to `mark`, then `://`, a host up to `colon`,
/// then `:` and a port. The scheme holds neither `:` nor `/` and the host
/// no `/`; the port is all decimal digits; none of the three is empty.
pub open spec fn splits_as_locator(address: Seq<char>, mark: int, colon: int) -> bool {
    &&& 0 < mark
    &&& mark + 3 < colon
    &&& colon + 1 < address.len()
    &&& forall|i: int| 0 <= i < mark ==> address[i] != ':' && address[i] != '/'
    &&& address[mark] == ':'
    &&& address[mark + 1] == '/'
    &&& address[mark + 2] == '/'
    &&& forall|i: int| mark + 3 <= i < colon ==> address[i] != '/'
    &&& address[colon] == ':'
    &&& forall|i: int| colon < i < address.len() ==> is_decimal(address[i])
}

/// Whether `address` has the shape `scheme://host:port`.
pub open spec fn is_locator(address: Seq<char>) -> bool {
    exists|mark: int, colon: int| splits_as_locator(address, mark, colon)
}

/// A locator has at least seven characters, does not begin with `:` or
/// `/`, holds `://` and ends in a decimal digit.
pub proof fn lemma_locator_parts(address: Seq<char>)
    requires
        is_locator(address),
    ensures
        address.len() >= 7,
        address[0] != ':' && address[0] != '/',
        exists|mark: int|
            0 < mark && mark + 2 < address.len() && #[trigger] address[mark] == ':' && address[mark
                + 1] == '/' && address[mark + 2] == '/',
        is_decimal(address.last()),
{
    let (mark, colon) = choose|mark: int, colon: int| splits_as_locator(address, mark, colon);
    assert(address[mark] == ':');
    assert(is_decimal(address[address.len() - 1]));
}

/// A text without a colon is no locator.
pub proof fn lemma_no_colon_no_locator(address: Seq<char>)
    requires
        forall|i: int| 0 <= i < address.len() ==> address[i] != ':',
    ensures
        !is_locator(address),
{
    assert forall|mark: int, colon: int| !splits_as_locator(address, mark, colon) by {
        if splits_as_locator(address, mark, colon) {
            assert(address[mark] == ':');
        }
    }
}

/// Whether `c` is a decimal digit.
pub fn decimal(c: char) -> (digit: bool)
    ensures
        digit == is_decimal(c),
{
    '0' <= c && c <= '9'
}

/// Whether `address` has the shape `scheme://host:port`.
pub fn locator_shaped(address: &str) -> (shaped: bool)
    ensures
        shaped == is_locator(address@),
{
    let text = characters(address);
    let n = text.len();
    let mut mark: usize = 0;
    while mark < n && text[mark] != ':' && text[mark] != '/'
        invariant
            mark <= n,
            n == text@.len(),
            forall|i: int| 0 <= i < mark ==> text@[i] != ':' && text@[i] != '/',
        decreases n - mark,
    {
        mark += 1;
    }
    if mark == 0 || n - mark < 3 || text[mark] != ':' || text[mark + 1] != '/' || text[mark + 2]
        != '/' {
        assert forall|m: int, c: int| !splits_as_locator(text@, m, c) by {
            if splits_as_locator(text@, m, c) {
                assert(m == mark);
            }
        }
        return false;
    }
    let mut port: usize = n;
    while port > mark + 3 && decimal(text[port - 1])
        invariant
            mark + 3 <= port <= n,
            n == text@.len(),
            forall|i: int| port <= i < n ==> is_decimal(text@[i]),
        decreases port,
    {
        port -= 1;
    }
    if port == n || port - mark < 5 || text[port - 1] != ':' {
        assert forall|m: int, c: int| !splits_as_locator(text@, m, c) by {
            if splits_as_locator(text@, m, c) {
                assert(m == mark);
                assert(c == port - 1);
            }
        }
        return false;
    }
    let colon = port - 1;
    let mut i: usize = mark + 3;
    while i < colon
        invariant
            mark + 3 <= i <= colon,
            colon < n,
            n == text@.len(),
            text@ == address@,
            forall|k: int| 0 <= k < mark ==> text@[k] != ':' && text@[k] != '/',
            text@[mark as int] == ':',
            text@[colon as int] == ':',
            forall|k: int| colon < k < n ==> is_decimal(text@[k]),
            forall|k: int| mark + 3 <= k < i ==> text@[k] != '/',
        decreases colon - i,
    {
        if text[i] == '/' {
            assert forall|m: int, c: int| !splits_as_locator(text@, m, c) by {
                if splits_as_locator(text@, m, c) {
                    assert(m == mark);
                    assert(c == colon);
                }
            }
            return false;
        }
        i += 1;
    }
    assert(splits_as_locator(text@, mark as int, colon as int));
    true
}

} // verus!
