//! Texts as sequences of characters, and their lexicographic order.

use vstd::prelude::*;
use vstd::string::*;

verus! {

/// The strings, each as a character sequence.
pub open spec fn strings_view(strings: Seq<String>) -> Seq<Seq<char>> {
    strings.map_values(|text: String| text@)
}

/// The two texts agree on their first `n` characters.
pub open spec fn agree_until(a: Seq<char>, b: Seq<char>, n: int) -> bool {
    &&& 0 <= n <= a.len()
    &&& n <= b.len()
    &&& forall|i: int| 0 <= i < n ==> a[i] == b[i]
}

/// `a` comes before `b` in lexicographic order, characters compared by code
/// point: at the first place where they part, `a` has ended or has the
/// smaller character.
pub open spec fn precedes(a: Seq<char>, b: Seq<char>) -> bool {
    exists|n: int| #[trigger]
        agree_until(a, b, n) && n < b.len() && (n == a.len() || (a[n] as u32) < (b[n] as u32))
}

/// Each text comes before all that follow it: ascending, and none twice.
pub open spec fn strictly_ascending(texts: Seq<Seq<char>>) -> bool {
    forall|i: int, j: int| 0 <= i < j < texts.len() ==> precedes(texts[i], texts[j])
}

/// No text comes before itself.
pub proof fn lemma_precedes_irreflexive(a: Seq<char>)
    ensures
        !precedes(a, a),
{
}

/// The order is transitive.
pub proof fn lemma_precedes_transitive(a: Seq<char>, b: Seq<char>, c: Seq<char>)
    requires
        precedes(a, b),
        precedes(b, c),
    ensures
        precedes(a, c),
{
    let m = choose|n: int| #[trigger]
        agree_until(a, b, n) && n < b.len() && (n == a.len() || (a[n] as u32) < (b[n] as u32));
    let n = choose|n: int| #[trigger]
        agree_until(b, c, n) && n < c.len() && (n == b.len() || (b[n] as u32) < (c[n] as u32));
    let first = if m <= n {
        m
    } else {
        n
    };
    assert(agree_until(a, c, first));
}

/// How one text stands to another in the order.
#[derive(Debug, Clone, Copy, PartialEq, Eq)]
pub enum Place {
    Before,
    Same,
    After,
}

/// Where `a` stands with respect to `b`.
pub open spec fn placed(a: Seq<char>, b: Seq<char>) -> Place {
    if precedes(a, b) {
        Place::Before
    } else if a == b {
        Place::Same
    } else {
        Place::After
    }
}

/// Of two texts at most one comes before the other.
pub proof fn lemma_precedes_asymmetric(a: Seq<char>, b: Seq<char>)
    requires
        precedes(a, b),
    ensures
        !precedes(b, a),
        a != b,
{
    lemma_precedes_irreflexive(a);
    if precedes(b, a) {
        lemma_precedes_transitive(a, b, a);
    }
}

/// Where `a` stands with respect to `b`: before it, after it, or the same
/// text.
pub fn place_of(a: &str, b: &str) -> (place: Place)
    ensures
        place == placed(a@, b@),
        place == Place::After ==> precedes(b@, a@),
{
    proof {
        lemma_precedes_irreflexive(a@);
        if precedes(b@, a@) {
            lemma_precedes_asymmetric(b@, a@);
        }
    }
    let a_len = a.unicode_len();
    let b_len = b.unicode_len();
    let mut i: usize = 0;
    while i < a_len && i < b_len
        invariant
            a_len == a@.len(),
            b_len == b@.len(),
            agree_until(a@, b@, i as int),
        decreases a_len - i,
    {
        let x = a.get_char(i);
        let y = b.get_char(i);
        if x != y {
            if (x as u32) < (y as u32) {
                return Place::Before;
            } else {
                assert(agree_until(b@, a@, i as int));
                return Place::After;
            }
        }
        i += 1;
    }
    if a_len == b_len {
        assert(a@ =~= b@);
        Place::Same
    } else if a_len < b_len {
        Place::Before
    } else {
        assert(agree_until(b@, a@, i as int));
        Place::After
    }
}

} // verus!
