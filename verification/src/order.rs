//! Ordering: stable sorting of lists whose items have a rank, and the
//! dictionary order of text.

use vstd::prelude::*;

use crate::text::chars_of;

verus! {

/// Items that a list can be sorted by.
pub trait Ranked: Sized {
    /// The item may stand in front of the other one.
    spec fn precedes(self, other: Self) -> bool;

    proof fn precedes_total(a: Self, b: Self)
        ensures
            a.precedes(b) || b.precedes(a),
    ;

    proof fn precedes_transitive(a: Self, b: Self, c: Self)
        requires
            a.precedes(b),
            b.precedes(c),
        ensures
            a.precedes(c),
    ;

    fn may_precede(&self, other: &Self) -> (r: bool)
        ensures
            r == self.precedes(*other),
    ;
}

/// `output` lists the items of `input` in rank order. `from[i]` is where its
/// item `i` stood; items of equal rank keep their order.
pub open spec fn stable_order<T: Ranked>(input: Seq<T>, output: Seq<T>, from: Seq<int>) -> bool {
    &&& from.len() == input.len()
    &&& output.len() == input.len()
    &&& forall|i: int| 0 <= i < from.len() ==> 0 <= #[trigger] from[i] < input.len()
    &&& forall|i: int, j: int| 0 <= i < j < from.len() ==> from[i] != from[j]
    &&& forall|i: int| 0 <= i < from.len() ==> #[trigger] output[i] == input[from[i]]
    &&& forall|i: int, j: int|
        0 <= i < j < output.len() ==> #[trigger] output[i].precedes(#[trigger] output[j])
    &&& forall|i: int, j: int|
        0 <= i < j < output.len() && #[trigger] output[j].precedes(#[trigger] output[i])
            ==> from[i] < from[j]
}

/// `output` is `input` sorted, with items of equal rank in their old order.
pub open spec fn sorted_from<T: Ranked>(input: Seq<T>, output: Seq<T>) -> bool {
    exists|from: Seq<int>| stable_order(input, output, from)
}

/// `output` lists the items of `input` from position `k` on in rank order.
spec fn tail_order<T: Ranked>(input: Seq<T>, k: int, output: Seq<T>, from: Seq<int>) -> bool {
    &&& from.len() == input.len() - k
    &&& output.len() == from.len()
    &&& forall|i: int| 0 <= i < from.len() ==> k <= #[trigger] from[i] < input.len()
    &&& forall|i: int, j: int| 0 <= i < j < from.len() ==> from[i] != from[j]
    &&& forall|i: int| 0 <= i < from.len() ==> #[trigger] output[i] == input[from[i]]
    &&& forall|i: int, j: int|
        0 <= i < j < output.len() ==> #[trigger] output[i].precedes(#[trigger] output[j])
    &&& forall|i: int, j: int|
        0 <= i < j < output.len() && #[trigger] output[j].precedes(#[trigger] output[i])
            ==> from[i] < from[j]
}

proof fn lemma_insert<T: Ranked>(
    input: Seq<T>,
    k: int,
    output: Seq<T>,
    from: Seq<int>,
    at: int,
)
    requires
        0 < k <= input.len(),
        tail_order(input, k, output, from),
        0 <= at <= output.len(),
        forall|i: int| 0 <= i < at ==> !input[k - 1].precedes(#[trigger] output[i]),
        at < output.len() ==> input[k - 1].precedes(output[at]),
    ensures
        tail_order(input, k - 1, output.insert(at, input[k - 1]), from.insert(at, k - 1)),
{
    let x = input[k - 1];
    let o2 = output.insert(at, x);
    let f2 = from.insert(at, k - 1);
    assert forall|i: int, j: int| 0 <= i < j < o2.len() implies #[trigger] o2[i].precedes(
        #[trigger] o2[j],
    ) by {
        let a = if i < at { i } else { i - 1 };
        let b = if j < at { j } else { j - 1 };
        if i == at {
            assert(o2[j] == output[b]);
            if b > at {
                assert(output[at].precedes(output[b]));
                T::precedes_transitive(x, output[at], output[b]);
            }
        } else if j == at {
            assert(o2[i] == output[i]);
            T::precedes_total(x, output[i]);
        } else {
            assert(o2[i] == output[a] && o2[j] == output[b]);
        }
    }
    assert forall|i: int, j: int|
        0 <= i < j < o2.len() && #[trigger] o2[j].precedes(#[trigger] o2[i]) implies f2[i]
        < f2[j] by {
        let a = if i < at { i } else { i - 1 };
        let b = if j < at { j } else { j - 1 };
        if i == at {
            assert(f2[j] == from[b]);
        } else if j == at {
            assert(o2[i] == output[i]);
        } else {
            assert(o2[i] == output[a] && o2[j] == output[b]);
            assert(f2[i] == from[a] && f2[j] == from[b]);
        }
    }
    assert forall|i: int| 0 <= i < f2.len() implies k - 1 <= #[trigger] f2[i] < input.len() by {
        if i < at {
            assert(f2[i] == from[i]);
        } else if i > at {
            assert(f2[i] == from[i - 1]);
        }
    }
    assert forall|i: int| 0 <= i < f2.len() implies #[trigger] o2[i] == input[f2[i]] by {
        if i < at {
            assert(o2[i] == output[i]);
        } else if i > at {
            assert(o2[i] == output[i - 1]);
        }
    }
    assert forall|i: int, j: int| 0 <= i < j < f2.len() implies f2[i] != f2[j] by {
        let a = if i < at { i } else { i - 1 };
        let b = if j < at { j } else { j - 1 };
        if i == at {
            assert(f2[j] == from[b]);
        } else if j == at {
            assert(f2[i] == from[a]);
        } else {
            assert(f2[i] == from[a] && f2[j] == from[b]);
        }
    }
}

/// Sorts a list; items of equal rank keep their order.
pub fn sort<T: Ranked>(items: Vec<T>) -> (r: Vec<T>)
    ensures
        sorted_from(items@, r@),
{
    let ghost input = items@;
    let mut rest = items;
    let mut out: Vec<T> = Vec::new();
    let ghost mut from: Seq<int> = Seq::empty();
    while rest.len() > 0
        invariant
            rest@ == input.take(rest@.len() as int),
            rest@.len() <= input.len(),
            tail_order(input, rest@.len() as int, out@, from),
        decreases rest@.len(),
    {
        let item = rest.pop().unwrap();
        let mut at: usize = 0;
        while at < out.len() && !item.may_precede(&out[at])
            invariant
                at <= out@.len(),
                forall|i: int| 0 <= i < at ==> !item.precedes(#[trigger] out@[i]),
            decreases out@.len() - at,
        {
            at = at + 1;
        }
        proof {
            let k = rest@.len() as int + 1;
            assert(item == input[k - 1]);
            lemma_insert(input, k, out@, from, at as int);
            from = from.insert(at as int, k - 1);
        }
        out.insert(at, item);
    }
    proof {
        assert(stable_order(input, out@, from));
    }
    out
}

/// Dictionary order of two texts by character code.
pub open spec fn text_le(a: Seq<char>, b: Seq<char>) -> bool
    decreases a.len(),
{
    if a.len() == 0 {
        true
    } else if b.len() == 0 {
        false
    } else if a[0] == b[0] {
        text_le(a.drop_first(), b.drop_first())
    } else {
        a[0] < b[0]
    }
}

pub proof fn lemma_text_le_total(a: Seq<char>, b: Seq<char>)
    ensures
        text_le(a, b) || text_le(b, a),
    decreases a.len(),
{
    if a.len() > 0 && b.len() > 0 && a[0] == b[0] {
        lemma_text_le_total(a.drop_first(), b.drop_first());
    }
}

pub proof fn lemma_text_le_transitive(a: Seq<char>, b: Seq<char>, c: Seq<char>)
    requires
        text_le(a, b),
        text_le(b, c),
    ensures
        text_le(a, c),
    decreases a.len(),
{
    if a.len() > 0 && b.len() > 0 && c.len() > 0 && a[0] == b[0] && b[0] == c[0] {
        lemma_text_le_transitive(a.drop_first(), b.drop_first(), c.drop_first());
    }
}

/// Compares two texts in dictionary order.
pub fn text_at_most(a: &str, b: &str) -> (r: bool)
    ensures
        r == text_le(a@, b@),
{
    let av = chars_of(a);
    let bv = chars_of(b);
    let mut i: usize = 0;
    proof {
        assert(a@.skip(0) == a@);
        assert(b@.skip(0) == b@);
    }
    while i < av.len() && i < bv.len() && av[i] == bv[i]
        invariant
            av@ == a@,
            bv@ == b@,
            i <= av@.len(),
            i <= bv@.len(),
            text_le(a@, b@) == text_le(a@.skip(i as int), b@.skip(i as int)),
        decreases av@.len() - i,
    {
        proof {
            assert(a@.skip(i as int).drop_first() == a@.skip(i + 1));
            assert(b@.skip(i as int).drop_first() == b@.skip(i + 1));
        }
        i = i + 1;
    }
    if i >= av.len() {
        true
    } else if i >= bv.len() {
        false
    } else {
        av[i] < bv[i]
    }
}

/// Text stands in front of any continuation of it; of two texts that differ first
/// in one character, the one with the smaller character stands in front, whatever
/// follows.
pub proof fn texts_are_ordered_by_their_first_difference(
    common: Seq<char>,
    c: char,
    d: char,
    a: Seq<char>,
    b: Seq<char>,
)
    requires
        c < d,
    ensures
        text_le(common, common + a),
        a.len() > 0 ==> !text_le(common + a, common),
        text_le(common + seq![c] + a, common + seq![d] + b),
        !text_le(common + seq![d] + b, common + seq![c] + a),
    decreases common.len(),
{
    let x = common + seq![c] + a;
    let y = common + seq![d] + b;
    if common.len() > 0 {
        let rest = common.drop_first();
        texts_are_ordered_by_their_first_difference(rest, c, d, a, b);
        assert(x.drop_first() =~= rest + seq![c] + a);
        assert(y.drop_first() =~= rest + seq![d] + b);
        assert((common + a).drop_first() =~= rest + a);
    } else {
        assert(x[0] == c && y[0] == d);
    }
}

} // verus!
