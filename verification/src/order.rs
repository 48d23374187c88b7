//! The order of texts: character by character, by code point, a text
//! before each of its extensions.

use vstd::prelude::*;
use vstd::std_specs::iter::IteratorSpec;
use std::cmp::Ordering;

verus! {

broadcast use vstd::string::group_string_axioms;

/// Whether `a` and `b` agree on their first `i` characters and part ways
/// there in favour of `a`: `a` ends, or holds the smaller character.
pub open spec fn parts_below(a: Seq<char>, b: Seq<char>, i: int) -> bool {
    &&& 0 <= i <= a.len()
    &&& i < b.len()
    &&& a.take(i) == b.take(i)
    &&& (i < a.len() ==> a[i] < b[i])
}

/// Whether `a` comes before `b`.
pub open spec fn text_lt(a: Seq<char>, b: Seq<char>) -> bool {
    exists|i: int| parts_below(a, b, i)
}

/// How `a` stands to `b`.
pub open spec fn text_order(a: Seq<char>, b: Seq<char>) -> Ordering {
    if a == b {
        Ordering::Equal
    } else if text_lt(a, b) {
        Ordering::Less
    } else {
        Ordering::Greater
    }
}

/// How an optional text stands to another: the absent one comes first.
pub open spec fn opt_text_order(a: Option<Seq<char>>, b: Option<Seq<char>>) -> Ordering {
    match (a, b) {
        (None, None) => Ordering::Equal,
        (None, Some(_)) => Ordering::Less,
        (Some(_), None) => Ordering::Greater,
        (Some(x), Some(y)) => text_order(x, y),
    }
}

/// Two texts part ways at one place at most, and in one direction.
pub proof fn parting_is_unique(a: Seq<char>, b: Seq<char>, i: int, j: int)
    requires
        parts_below(a, b, i),
    ensures
        a != b,
        !parts_below(b, a, j),
        parts_below(a, b, j) ==> i == j,
{
    if i < j && (parts_below(b, a, j) || parts_below(a, b, j)) {
        assert(a.take(j)[i] == b.take(j)[i]);
    }
    if j < i && (parts_below(b, a, j) || parts_below(a, b, j)) {
        assert(a.take(i)[j] == b.take(i)[j]);
    }
    if a == b {
        assert(a.len() == b.len());
    }
}

/// Of two texts exactly one holds: they are equal, the first comes before
/// the second, or the second before the first.
pub proof fn text_order_is_total(a: Seq<char>, b: Seq<char>)
    ensures
        text_order(a, b) == Ordering::Less <==> text_lt(a, b),
        text_order(a, b) == Ordering::Equal <==> a == b,
        text_order(a, b) == Ordering::Greater <==> text_lt(b, a),
{
    if text_lt(a, b) {
        let i = choose|i: int| parts_below(a, b, i);
        assert forall|j: int| !parts_below(b, a, j) by {
            parting_is_unique(a, b, i, j);
        }
        parting_is_unique(a, b, i, i);
    } else if a != b {
        assert(a.take(0) =~= b.take(0));
        first_parting(a, b, 0);
    } else {
        assert forall|j: int| !parts_below(b, a, j) by {
            if parts_below(b, a, j) {
                parting_is_unique(b, a, j, j);
            }
        }
    }
}

/// Two different texts that agree on their first `i` characters part ways
/// at or after `i`.
proof fn first_parting(a: Seq<char>, b: Seq<char>, i: int)
    requires
        0 <= i <= a.len(),
        i <= b.len(),
        a.take(i) == b.take(i),
        a != b,
    ensures
        text_lt(a, b) || text_lt(b, a),
    decreases a.len() - i,
{
    if i == a.len() {
        if i == b.len() {
            assert(a.take(i) == a);
            assert(b.take(i) == b);
        } else {
            assert(parts_below(a, b, i));
        }
    } else if i == b.len() {
        assert(parts_below(b, a, i));
    } else if a[i] < b[i] {
        assert(parts_below(a, b, i));
    } else if b[i] < a[i] {
        assert(parts_below(b, a, i));
    } else {
        assert(a.take(i + 1) == a.take(i).push(a[i]));
        assert(b.take(i + 1) == b.take(i).push(b[i]));
        first_parting(a, b, i + 1);
    }
}

/// What comes before a text that comes before a third comes before the
/// third.
pub proof fn text_lt_is_transitive(a: Seq<char>, b: Seq<char>, c: Seq<char>)
    requires
        text_lt(a, b),
        text_lt(b, c),
    ensures
        text_lt(a, c),
{
    let i = choose|i: int| parts_below(a, b, i);
    let j = choose|j: int| parts_below(b, c, j);
    let k = if i <= j {
        i
    } else {
        j
    };
    assert(a.take(k) =~= c.take(k)) by {
        assert forall|m: int| 0 <= m < k implies a[m] == c[m] by {
            assert(a.take(i)[m] == b.take(i)[m]);
            assert(b.take(j)[m] == c.take(j)[m]);
        }
    }
    if i < j {
        assert(b.take(j)[i] == c.take(j)[i]);
    }
    if j < i {
        assert(a.take(i)[j] == b.take(i)[j]);
    }
    assert(parts_below(a, c, k));
}

/// Compares two texts.
pub fn compare_text(a: &str, b: &str) -> (o: Ordering)
    ensures
        o == text_order(a@, b@),
{
    let mut ia = a.chars();
    let mut ib = b.chars();
    let ghost mut i: int = 0;
    loop
        invariant
            0 <= i <= a@.len(),
            i <= b@.len(),
            ia.obeys_prophetic_iter_laws(),
            ib.obeys_prophetic_iter_laws(),
            ia.remaining() == a@.skip(i),
            ib.remaining() == b@.skip(i),
            a@.take(i) == b@.take(i),
        decreases a@.len() - i,
    {
        let ca = ia.next();
        let cb = ib.next();
        proof {
            text_order_is_total(a@, b@);
        }
        match (ca, cb) {
            (None, None) => {
                assert(a@ == a@.take(i));
                assert(b@ == b@.take(i));
                return Ordering::Equal;
            },
            (None, Some(_)) => {
                assert(parts_below(a@, b@, i));
                return Ordering::Less;
            },
            (Some(_), None) => {
                assert(parts_below(b@, a@, i));
                return Ordering::Greater;
            },
            (Some(x), Some(y)) => {
                if x < y {
                    assert(parts_below(a@, b@, i));
                    return Ordering::Less;
                }
                if y < x {
                    assert(parts_below(b@, a@, i));
                    return Ordering::Greater;
                }
                proof {
                    assert(a@.take(i + 1) == a@.take(i).push(a@[i]));
                    assert(b@.take(i + 1) == b@.take(i).push(b@[i]));
                    assert(a@.skip(i).drop_first() == a@.skip(i + 1));
                    assert(b@.skip(i).drop_first() == b@.skip(i + 1));
                    i = i + 1;
                }
            },
        }
    }
}

/// Compares two optional texts.
pub fn compare_opt_text(a: &Option<String>, b: &Option<String>) -> (o: Ordering)
    ensures
        o == opt_text_order(
            match *a {
                Some(s) => Some(s@),
                None => None,
            },
            match *b {
                Some(s) => Some(s@),
                None => None,
            },
        ),
{
    match (a, b) {
        (None, None) => Ordering::Equal,
        (None, Some(_)) => Ordering::Less,
        (Some(_), None) => Ordering::Greater,
        (Some(x), Some(y)) => compare_text(x.as_str(), y.as_str()),
    }
}

} // verus!
