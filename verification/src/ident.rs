//! Row identifiers.
//!
//! Every row the store creates is keyed by the decimal rendering of a counter.
//! The facts proved here — the rendering is injective, so a fresh counter value
//! yields an identifier that collides with no earlier one — are what the store
//! invariant rests on.

use vstd::prelude::*;

verus! {

use vstd::string::StringExecFns;

/// The character for a single decimal digit.
pub open spec fn digit_char(d: nat) -> char {
    if d == 0 {
        '0'
    } else if d == 1 {
        '1'
    } else if d == 2 {
        '2'
    } else if d == 3 {
        '3'
    } else if d == 4 {
        '4'
    } else if d == 5 {
        '5'
    } else if d == 6 {
        '6'
    } else if d == 7 {
        '7'
    } else if d == 8 {
        '8'
    } else {
        '9'
    }
}

/// The decimal rendering of `n`, most significant digit first, no leading zeros.
pub open spec fn dec_digits(n: nat) -> Seq<char>
    decreases n,
{
    if n < 10 {
        seq![digit_char(n)]
    } else {
        dec_digits(n / 10).push(digit_char(n % 10))
    }
}

pub proof fn lemma_dec_digits_len(n: nat)
    ensures
        dec_digits(n).len() >= 1,
        n >= 10 ==> dec_digits(n).len() >= 2,
    decreases n,
{
    if n >= 10 {
        lemma_dec_digits_len(n / 10);
    }
}

proof fn lemma_digit_char_injective(x: nat, y: nat)
    requires
        x < 10,
        y < 10,
        digit_char(x) == digit_char(y),
    ensures
        x == y,
{
}

/// Two distinct counter values render to distinct identifiers.
pub proof fn lemma_dec_digits_injective(a: nat, b: nat)
    requires
        dec_digits(a) == dec_digits(b),
    ensures
        a == b,
    decreases a,
{
    if a < 10 && b < 10 {
        assert(dec_digits(a)[0] == digit_char(a));
        assert(dec_digits(b)[0] == digit_char(b));
        lemma_digit_char_injective(a, b);
    } else if a < 10 {
        lemma_dec_digits_len(b / 10);
        assert(dec_digits(b).len() >= 2);
        assert(dec_digits(a).len() == 1);
    } else if b < 10 {
        lemma_dec_digits_len(a / 10);
        assert(dec_digits(a).len() >= 2);
        assert(dec_digits(b).len() == 1);
    } else {
        let la = dec_digits(a).len();
        assert(dec_digits(a).last() == dec_digits(b).last());
        assert(dec_digits(a).last() == digit_char(a % 10));
        assert(dec_digits(b).last() == digit_char(b % 10));
        lemma_digit_char_injective(a % 10, b % 10);
        assert(dec_digits(a).drop_last() =~= dec_digits(a / 10));
        assert(dec_digits(b).drop_last() =~= dec_digits(b / 10));
        lemma_dec_digits_injective(a / 10, b / 10);
        assert(a == 10 * (a / 10) + a % 10);
        assert(b == 10 * (b / 10) + b % 10);
    }
}

/// `id` was minted by some counter value below `next`.
pub open spec fn id_in_range(id: Seq<char>, next: nat) -> bool {
    exists|k: nat| k < next && id == dec_digits(k)
}

/// Every listed identifier was minted below `next`, and no two are equal.
pub open spec fn ids_ok(ids: Seq<Seq<char>>, next: nat) -> bool {
    &&& forall|i: int| 0 <= i < ids.len() ==> id_in_range(#[trigger] ids[i], next)
    &&& forall|i: int, j: int| 0 <= i < j < ids.len() ==> ids[i] != ids[j]
}

pub proof fn lemma_id_in_range_grow(id: Seq<char>, next: nat, later: nat)
    requires
        id_in_range(id, next),
        next <= later,
    ensures
        id_in_range(id, later),
{
    let k = choose|k: nat| k < next && id == dec_digits(k);
    assert(k < later && id == dec_digits(k));
}

pub proof fn lemma_ids_ok_grow(ids: Seq<Seq<char>>, next: nat, later: nat)
    requires
        ids_ok(ids, next),
        next <= later,
    ensures
        ids_ok(ids, later),
{
    assert forall|i: int| 0 <= i < ids.len() implies id_in_range(#[trigger] ids[i], later) by {
        lemma_id_in_range_grow(ids[i], next, later);
    }
}

/// A fresh identifier never collides with an already-minted one.
pub proof fn lemma_fresh_id(id: Seq<char>, next: nat)
    requires
        id_in_range(id, next),
    ensures
        id != dec_digits(next),
{
    let k = choose|k: nat| k < next && id == dec_digits(k);
    if id == dec_digits(next) {
        lemma_dec_digits_injective(k, next);
    }
}

/// Appending the identifier minted at `next` keeps the list well formed.
pub proof fn lemma_ids_ok_push(ids: Seq<Seq<char>>, next: nat)
    requires
        ids_ok(ids, next),
    ensures
        ids_ok(ids.push(dec_digits(next)), next + 1),
{
    let grown = ids.push(dec_digits(next));
    assert forall|i: int| 0 <= i < grown.len() implies id_in_range(#[trigger] grown[i], next + 1) by {
        if i < ids.len() {
            lemma_id_in_range_grow(ids[i], next, next + 1);
        } else {
            assert(grown[i] == dec_digits(next));
        }
    }
    assert forall|i: int, j: int| 0 <= i < j < grown.len() implies grown[i] != grown[j] by {
        if j == ids.len() {
            lemma_fresh_id(ids[i], next);
        }
    }
}

/// Dropping one identifier keeps the list well formed.
pub proof fn lemma_ids_ok_remove(ids: Seq<Seq<char>>, next: nat, ix: int)
    requires
        ids_ok(ids, next),
        0 <= ix < ids.len(),
    ensures
        ids_ok(ids.remove(ix), next),
{
    let shrunk = ids.remove(ix);
    assert forall|i: int| 0 <= i < shrunk.len() implies id_in_range(#[trigger] shrunk[i], next) by {
        if i < ix {
            assert(shrunk[i] == ids[i]);
        } else {
            assert(shrunk[i] == ids[i + 1]);
        }
    }
    assert forall|i: int, j: int| 0 <= i < j < shrunk.len() implies shrunk[i] != shrunk[j] by {
        let i0 = if i < ix { i } else { i + 1 };
        let j0 = if j < ix { j } else { j + 1 };
        assert(shrunk[i] == ids[i0]);
        assert(shrunk[j] == ids[j0]);
    }
}

fn digit_str(d: u64) -> (r: &'static str)
    requires
        d < 10,
    ensures
        r@ == seq![digit_char(d as nat)],
{
    proof {
        reveal_strlit("0");
        reveal_strlit("1");
        reveal_strlit("2");
        reveal_strlit("3");
        reveal_strlit("4");
        reveal_strlit("5");
        reveal_strlit("6");
        reveal_strlit("7");
        reveal_strlit("8");
        reveal_strlit("9");
    }
    let r = if d == 0 {
        "0"
    } else if d == 1 {
        "1"
    } else if d == 2 {
        "2"
    } else if d == 3 {
        "3"
    } else if d == 4 {
        "4"
    } else if d == 5 {
        "5"
    } else if d == 6 {
        "6"
    } else if d == 7 {
        "7"
    } else if d == 8 {
        "8"
    } else {
        "9"
    };
    proof {
        assert(r@ =~= seq![digit_char(d as nat)]);
    }
    r
}

/// Renders `n` in decimal.
pub fn u64_to_dec(n: u64) -> (s: String)
    ensures
        s@ == dec_digits(n as nat),
    decreases n,
{
    if n < 10 {
        String::from_str(digit_str(n))
    } else {
        let mut s = u64_to_dec(n / 10);
        s.append(digit_str(n % 10));
        proof {
            assert(s@ =~= dec_digits((n / 10) as nat).push(digit_char((n % 10) as nat)));
        }
        s
    }
}

} // verus!
