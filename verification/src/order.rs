//! Lexicographic order on registry keys.
//!
//! Registry keys are UTF-8 strings; the scan order of the registry is
//! lexicographic by character code point, the order the host's ordered
//! byte-keyed store exhibits on UTF-8 encoded keys.

use vstd::prelude::*;

verus! {

use vstd::string::StrSliceExecFns;

/// Strict lexicographic order on character sequences by code point;
/// a proper prefix sorts before its extensions.
pub open spec fn char_seq_lt(a: Seq<char>, b: Seq<char>) -> bool
    decreases a.len(),
{
    if b.len() == 0 {
        false
    } else if a.len() == 0 {
        true
    } else if a[0] != b[0] {
        (a[0] as u32) < (b[0] as u32)
    } else {
        char_seq_lt(a.drop_first(), b.drop_first())
    }
}

pub proof fn lemma_char_seq_lt_irrefl(a: Seq<char>)
    ensures
        !char_seq_lt(a, a),
    decreases a.len(),
{
    if a.len() > 0 {
        lemma_char_seq_lt_irrefl(a.drop_first());
    }
}

pub proof fn lemma_char_seq_lt_asym(a: Seq<char>, b: Seq<char>)
    requires
        char_seq_lt(a, b),
    ensures
        !char_seq_lt(b, a),
    decreases a.len(),
{
    if a.len() > 0 && b.len() > 0 && a[0] == b[0] {
        lemma_char_seq_lt_asym(a.drop_first(), b.drop_first());
    }
}

pub proof fn lemma_char_seq_lt_trans(a: Seq<char>, b: Seq<char>, c: Seq<char>)
    requires
        char_seq_lt(a, b),
        char_seq_lt(b, c),
    ensures
        char_seq_lt(a, c),
    decreases a.len(),
{
    if a.len() > 0 && b.len() > 0 && c.len() > 0 && a[0] == b[0] && b[0] == c[0] {
        lemma_char_seq_lt_trans(a.drop_first(), b.drop_first(), c.drop_first());
    }
}

/// Equal prefixes up to `i`, then either `a` ends or its character at `i`
/// is smaller: `a` sorts strictly before `b`.
proof fn lemma_lt_from_prefix(a: Seq<char>, b: Seq<char>, i: int)
    requires
        0 <= i <= a.len(),
        i <= b.len(),
        forall|j: int| 0 <= j < i ==> a[j] == b[j],
        (i < a.len() && i < b.len() && (a[i] as u32) < (b[i] as u32)) || (i == a.len() && i
            < b.len()),
    ensures
        char_seq_lt(a, b),
    decreases i,
{
    if i == 0 {
    } else {
        assert(a[0] == b[0]);
        assert(a.drop_first().len() == a.len() - 1);
        assert(forall|j: int| 0 <= j < i - 1 ==> a.drop_first()[j] == b.drop_first()[j]);
        lemma_lt_from_prefix(a.drop_first(), b.drop_first(), i - 1);
    }
}

/// The outcome of comparing two registry keys.
pub enum KeyCmp {
    Less,
    Equal,
    Greater,
}

/// Three-way comparison of two strings in key order.
pub fn str_cmp(a: &str, b: &str) -> (r: KeyCmp)
    ensures
        r is Less <==> char_seq_lt(a@, b@),
        r is Greater <==> char_seq_lt(b@, a@),
        r is Equal <==> a@ == b@,
{
    let a_len = a.unicode_len();
    let b_len = b.unicode_len();
    let mut i: usize = 0;
    while i < a_len && i < b_len
        invariant
            a_len == a@.len(),
            b_len == b@.len(),
            0 <= i <= a_len,
            i <= b_len,
            forall|j: int| 0 <= j < i ==> a@[j] == b@[j],
        decreases a_len - i,
    {
        let ca = a.get_char(i);
        let cb = b.get_char(i);
        if ca != cb {
            if (ca as u32) < (cb as u32) {
                proof {
                    lemma_lt_from_prefix(a@, b@, i as int);
                    lemma_char_seq_lt_asym(a@, b@);
                }
                return KeyCmp::Less;
            } else {
                proof {
                    assert((cb as u32) < (ca as u32)) by {
                        assert(ca as u32 != cb as u32) by {
                            assert(ca != cb);
                        };
                    };
                    lemma_lt_from_prefix(b@, a@, i as int);
                    lemma_char_seq_lt_asym(b@, a@);
                }
                return KeyCmp::Greater;
            }
        }
        i = i + 1;
    }
    if a_len == b_len {
        proof {
            assert(a@ =~= b@);
            lemma_char_seq_lt_irrefl(a@);
        }
        KeyCmp::Equal
    } else if a_len < b_len {
        proof {
            lemma_lt_from_prefix(a@, b@, a_len as int);
            lemma_char_seq_lt_asym(a@, b@);
        }
        KeyCmp::Less
    } else {
        proof {
            lemma_lt_from_prefix(b@, a@, b_len as int);
            lemma_char_seq_lt_asym(b@, a@);
        }
        KeyCmp::Greater
    }
}

} // verus!
