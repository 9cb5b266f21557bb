//! The canonical order of a status breakdown. The service lists the statuses
//! of the two media categories in different orders; sorting both by the
//! status token puts equal statuses at equal places.

use crate::status::{StatusCount, StatusCountView};
use crate::text::{
    lex_le, lex_le_antisymmetric, lex_le_reflexive, lex_le_total, lex_le_transitive,
    lexically_at_most,
};
use vstd::prelude::*;

verus! {

/// Whether `a` may stand before `b`: its status token is lexically at or
/// before the other's.
pub open spec fn comes_first(a: StatusCountView, b: StatusCountView) -> bool {
    lex_le(a.status.token(), b.status.token())
}

/// Whether every entry may stand before each entry after it.
pub open spec fn in_canonical_order(s: Seq<StatusCountView>) -> bool {
    forall|i: int, j: int| 0 <= i < j < s.len() ==> comes_first(#[trigger] s[i], #[trigger] s[j])
}

/// Whether no two entries have the same status token.
pub open spec fn distinct_tokens(s: Seq<StatusCountView>) -> bool {
    forall|i: int, j: int|
        0 <= i < j < s.len() ==> (#[trigger] s[i]).status.token() != (
        #[trigger] s[j]).status.token()
}

/// The number of leading entries of `s` that may stand before `e`. In a
/// breakdown in canonical order these are all the entries that may.
pub open spec fn insertion_point(s: Seq<StatusCountView>, e: StatusCountView) -> nat
    decreases s.len(),
{
    if s.len() == 0 || !comes_first(s[0], e) {
        0
    } else {
        1 + insertion_point(s.drop_first(), e)
    }
}

/// `s` with `e` put behind the leading entries that may stand before it.
pub open spec fn inserted(s: Seq<StatusCountView>, e: StatusCountView) -> Seq<StatusCountView> {
    s.insert(insertion_point(s, e) as int, e)
}

/// The breakdown in canonical order: ascending by status token, entries with
/// the same token in the order in which they came.
pub open spec fn normalized(s: Seq<StatusCountView>) -> Seq<StatusCountView>
    decreases s.len(),
{
    if s.len() == 0 {
        s
    } else {
        inserted(normalized(s.drop_last()), s.last())
    }
}

/// The insertion point is the one place that has only entries that may stand
/// before `e` in front of it and none of them directly behind it.
proof fn insertion_point_is(s: Seq<StatusCountView>, e: StatusCountView, k: int)
    requires
        0 <= k <= s.len(),
        forall|i: int| 0 <= i < k ==> comes_first(#[trigger] s[i], e),
        k < s.len() ==> !comes_first(s[k], e),
    ensures
        insertion_point(s, e) == k,
    decreases k,
{
    if k > 0 {
        let rest = s.drop_first();
        assert forall|i: int| 0 <= i < k - 1 implies comes_first(#[trigger] rest[i], e) by {
            assert(rest[i] == s[i + 1]);
        }
        if k < s.len() {
            assert(rest[k - 1] == s[k]);
        }
        assert(comes_first(s[0], e));
        insertion_point_is(rest, e, k - 1);
    }
}

/// What stands around the insertion point.
proof fn insertion_point_bounds(s: Seq<StatusCountView>, e: StatusCountView)
    ensures
        insertion_point(s, e) <= s.len(),
        forall|i: int| 0 <= i < insertion_point(s, e) ==> comes_first(#[trigger] s[i], e),
        insertion_point(s, e) < s.len() ==> !comes_first(s[insertion_point(s, e) as int], e),
    decreases s.len(),
{
    if s.len() == 0 || !comes_first(s[0], e) {
    } else {
        let rest = s.drop_first();
        insertion_point_bounds(rest, e);
        let k = insertion_point(s, e);
        assert forall|i: int| 0 <= i < k implies comes_first(#[trigger] s[i], e) by {
            if i > 0 {
                assert(s[i] == rest[i - 1]);
            }
        }
        if k < s.len() {
            assert(s[k as int] == rest[k - 1]);
        }
    }
}

/// Inserting into a breakdown in canonical order keeps the order.
proof fn inserted_keeps_order(s: Seq<StatusCountView>, e: StatusCountView)
    requires
        in_canonical_order(s),
    ensures
        in_canonical_order(inserted(s, e)),
{
    insertion_point_bounds(s, e);
    let k = insertion_point(s, e) as int;
    let t = inserted(s, e);
    assert forall|i: int, j: int| 0 <= i < j < t.len() implies comes_first(
        #[trigger] t[i],
        #[trigger] t[j],
    ) by {
        if j < k {
            assert(t[i] == s[i] && t[j] == s[j]);
        } else if j == k {
            assert(t[i] == s[i] && t[j] == e);
        } else if i < k {
            assert(t[i] == s[i] && t[j] == s[j - 1]);
        } else if i == k {
            // `e` stands before what used to be at `k`, and that before `t[j]`.
            assert(t[i] == e && t[j] == s[j - 1]);
            lex_le_total(s[k].status.token(), e.status.token());
            if j - 1 > k {
                assert(comes_first(s[k], s[j - 1]));
                lex_le_transitive(
                    e.status.token(),
                    s[k].status.token(),
                    s[j - 1].status.token(),
                );
            }
        } else {
            assert(t[i] == s[i - 1] && t[j] == s[j - 1]);
        }
    }
}

/// The normalized breakdown is in canonical order.
pub proof fn normalized_is_in_order(s: Seq<StatusCountView>)
    ensures
        in_canonical_order(normalized(s)),
    decreases s.len(),
{
    if s.len() > 0 {
        normalized_is_in_order(s.drop_last());
        inserted_keeps_order(normalized(s.drop_last()), s.last());
    }
}

/// The normalized breakdown holds the entries of the input, each as often
/// as the input does: nothing is dropped, added or changed.
pub proof fn normalized_is_permutation(s: Seq<StatusCountView>)
    ensures
        normalized(s).to_multiset() == s.to_multiset(),
        normalized(s).len() == s.len(),
    decreases s.len(),
{
    broadcast use vstd::seq_lib::group_to_multiset_ensures;

    if s.len() > 0 {
        let head = s.drop_last();
        normalized_is_permutation(head);
        insertion_point_bounds(normalized(head), s.last());
        assert(head.push(s.last()) =~= s);
        assert(normalized(s).to_multiset() =~= s.to_multiset());
    }
}

/// A breakdown that is in canonical order already is its own normal form.
pub proof fn normalized_keeps_ordered(s: Seq<StatusCountView>)
    requires
        in_canonical_order(s),
    ensures
        normalized(s) == s,
    decreases s.len(),
{
    if s.len() > 0 {
        let head = s.drop_last();
        assert forall|i: int, j: int| 0 <= i < j < head.len() implies comes_first(
            #[trigger] head[i],
            #[trigger] head[j],
        ) by {
            assert(head[i] == s[i] && head[j] == s[j]);
        }
        normalized_keeps_ordered(head);
        assert forall|i: int| 0 <= i < head.len() implies comes_first(
            #[trigger] head[i],
            s.last(),
        ) by {
            assert(head[i] == s[i]);
        }
        insertion_point_is(head, s.last(), head.len() as int);
        assert(head.insert(head.len() as int, s.last()) =~= s);
    }
}

/// Normalizing twice gives what normalizing once gives.
pub proof fn normalized_is_idempotent(s: Seq<StatusCountView>)
    ensures
        normalized(normalized(s)) == normalized(s),
{
    normalized_is_in_order(s);
    normalized_keeps_ordered(normalized(s));
}

/// The entries of `s` that have the status token `token`, in the order in
/// which `s` holds them.
pub open spec fn entries_with_token(s: Seq<StatusCountView>, token: Seq<char>) -> Seq<
    StatusCountView,
>
    decreases s.len(),
{
    if s.len() == 0 {
        s
    } else if s.last().status.token() == token {
        entries_with_token(s.drop_last(), token).push(s.last())
    } else {
        entries_with_token(s.drop_last(), token)
    }
}

/// The entries with a token in two breakdowns, one behind the other, are
/// those of the first and then those of the second.
proof fn entries_with_token_of_both(
    a: Seq<StatusCountView>,
    b: Seq<StatusCountView>,
    token: Seq<char>,
)
    ensures
        entries_with_token(a + b, token) == entries_with_token(a, token) + entries_with_token(
            b,
            token,
        ),
    decreases b.len(),
{
    if b.len() == 0 {
        assert(a + b =~= a);
        assert(entries_with_token(a, token) + entries_with_token(b, token) =~= entries_with_token(
            a,
            token,
        ));
    } else {
        assert((a + b).drop_last() =~= a + b.drop_last());
        entries_with_token_of_both(a, b.drop_last(), token);
        assert(entries_with_token(a + b, token) =~= entries_with_token(a, token)
            + entries_with_token(b, token));
    }
}

/// A breakdown without an entry of a token gives no entry for it.
proof fn entries_with_token_of_none(s: Seq<StatusCountView>, token: Seq<char>)
    requires
        forall|i: int| 0 <= i < s.len() ==> (#[trigger] s[i]).status.token() != token,
    ensures
        entries_with_token(s, token) == Seq::<StatusCountView>::empty(),
    decreases s.len(),
{
    if s.len() > 0 {
        assert(s.last() == s[s.len() - 1]);
        assert forall|i: int| 0 <= i < s.drop_last().len() implies (#[trigger] s.drop_last()[
            i
        ]).status.token() != token by {
            assert(s.drop_last()[i] == s[i]);
        }
        entries_with_token_of_none(s.drop_last(), token);
    } else {
        assert(s =~= Seq::<StatusCountView>::empty());
    }
}

/// Inserting an entry puts it behind the entries of its own token and
/// leaves the entries of every token in the order they had.
proof fn inserted_keeps_arrival_order(
    s: Seq<StatusCountView>,
    e: StatusCountView,
    token: Seq<char>,
)
    requires
        in_canonical_order(s),
    ensures
        entries_with_token(inserted(s, e), token) == entries_with_token(s.push(e), token),
{
    insertion_point_bounds(s, e);
    let k = insertion_point(s, e) as int;
    let front = s.take(k);
    let back = s.skip(k);
    assert(s =~= front + back);
    assert(inserted(s, e) =~= front.push(e) + back);
    entries_with_token_of_both(front, back, token);
    entries_with_token_of_both(front.push(e), back, token);
    assert(front.push(e).drop_last() =~= front);
    assert(s.push(e).drop_last() =~= s);
    if e.status.token() == token {
        // No entry behind the insertion point has the token of `e`.
        assert forall|i: int| 0 <= i < back.len() implies (#[trigger] back[i]).status.token()
            != token by {
            assert(back[i] == s[k + i]);
            if back[i].status.token() == token {
                lex_le_reflexive(token);
                if i > 0 {
                    assert(comes_first(s[k], s[k + i]));
                    lex_le_transitive(
                        s[k].status.token(),
                        s[k + i].status.token(),
                        e.status.token(),
                    );
                }
            }
        }
        entries_with_token_of_none(back, token);
        assert(entries_with_token(front, token) + Seq::<StatusCountView>::empty()
            =~= entries_with_token(front, token));
        assert(entries_with_token(front.push(e), token) + Seq::<StatusCountView>::empty()
            =~= entries_with_token(front.push(e), token));
    }
}

/// The normal form is stable: the entries of one status token stand in it
/// in the order in which they came.
pub proof fn normalized_keeps_arrival_order(s: Seq<StatusCountView>, token: Seq<char>)
    ensures
        entries_with_token(normalized(s), token) == entries_with_token(s, token),
    decreases s.len(),
{
    if s.len() > 0 {
        let head = s.drop_last();
        normalized_keeps_arrival_order(head, token);
        normalized_is_in_order(head);
        inserted_keeps_arrival_order(normalized(head), s.last(), token);
        assert(normalized(head).push(s.last()).drop_last() =~= normalized(head));
    }
}

/// Entries with distinct tokens stay so in every arrangement of them.
proof fn distinct_tokens_of_permutation(a: Seq<StatusCountView>, b: Seq<StatusCountView>)
    requires
        distinct_tokens(a),
        a.to_multiset() == b.to_multiset(),
    ensures
        distinct_tokens(b),
        b.no_duplicates(),
{
    broadcast use vstd::seq_lib::group_to_multiset_ensures;

    assert(a.no_duplicates()) by {
        assert forall|i: int, j: int| 0 <= i < a.len() && 0 <= j < a.len() && i != j implies a[i]
            != a[j] by {
            if i < j {
                assert(a[i].status.token() != a[j].status.token());
            } else {
                assert(a[j].status.token() != a[i].status.token());
            }
        }
    }
    a.lemma_multiset_has_no_duplicates();
    b.lemma_multiset_has_no_duplicates_conv();
    assert forall|i: int, j: int| 0 <= i < j < b.len() implies (#[trigger] b[i]).status.token() != (
    #[trigger] b[j]).status.token() by {
        assert(b.contains(b[i]) && b.contains(b[j]));
        assert(a.to_multiset().count(b[i]) > 0 && a.to_multiset().count(b[j]) > 0);
        assert(a.contains(b[i]) && a.contains(b[j]));
        let p = choose|p: int| 0 <= p < a.len() && a[p] == b[i];
        let q = choose|q: int| 0 <= q < a.len() && a[q] == b[j];
        assert(b[i] != b[j]);
        if p < q {
            assert(a[p].status.token() != a[q].status.token());
        } else {
            assert(a[q].status.token() != a[p].status.token());
        }
    }
}

/// Of entries with distinct tokens there is one arrangement in canonical
/// order and no other.
proof fn canonical_order_is_unique(x: Seq<StatusCountView>, y: Seq<StatusCountView>)
    requires
        in_canonical_order(x),
        in_canonical_order(y),
        distinct_tokens(x),
        x.to_multiset() == y.to_multiset(),
    ensures
        x == y,
    decreases x.len(),
{
    broadcast use vstd::seq_lib::group_to_multiset_ensures;

    assert(x.len() == y.len()) by {
        vstd::seq_lib::to_multiset_len(x);
        vstd::seq_lib::to_multiset_len(y);
    }
    if x.len() == 0 {
        assert(x =~= y);
    } else {
        assert(y.contains(y[0]) && x.contains(x[0]));
        assert(x.to_multiset().count(y[0]) > 0 && y.to_multiset().count(x[0]) > 0);
        assert(x.contains(y[0]) && y.contains(x[0]));
        let i = choose|i: int| 0 <= i < x.len() && x[i] == y[0];
        let j = choose|j: int| 0 <= j < y.len() && y[j] == x[0];
        // `x[0]` and `y[0]` each stand before the other, so they have one token.
        lex_le_reflexive(x[0].status.token());
        lex_le_reflexive(y[0].status.token());
        assert(comes_first(x[0], x[i]));
        assert(comes_first(y[0], y[j]));
        lex_le_antisymmetric(x[0].status.token(), x[i].status.token());
        assert(i == 0);
        let xs = x.drop_first();
        let ys = y.drop_first();
        assert(xs =~= x.remove(0));
        assert(ys =~= y.remove(0));
        assert(xs.to_multiset() == ys.to_multiset());
        assert forall|a: int, b: int| 0 <= a < b < xs.len() implies comes_first(
            #[trigger] xs[a],
            #[trigger] xs[b],
        ) by {
            assert(xs[a] == x[a + 1] && xs[b] == x[b + 1]);
        }
        assert forall|a: int, b: int| 0 <= a < b < ys.len() implies comes_first(
            #[trigger] ys[a],
            #[trigger] ys[b],
        ) by {
            assert(ys[a] == y[a + 1] && ys[b] == y[b + 1]);
        }
        assert forall|a: int, b: int| 0 <= a < b < xs.len() implies (
        #[trigger] xs[a]).status.token() != (#[trigger] xs[b]).status.token() by {
            assert(xs[a] == x[a + 1] && xs[b] == x[b + 1]);
        }
        canonical_order_is_unique(xs, ys);
        assert(x =~= seq![x[0]] + xs);
        assert(y =~= seq![y[0]] + ys);
    }
}

/// The order in which the service lists the statuses does not matter: two
/// breakdowns that hold the same entries, no two of them with the same
/// status token, have the same normal form.
pub proof fn normalized_ignores_input_order(a: Seq<StatusCountView>, b: Seq<StatusCountView>)
    requires
        a.to_multiset() == b.to_multiset(),
        distinct_tokens(a),
    ensures
        normalized(a) == normalized(b),
{
    normalized_is_permutation(a);
    normalized_is_permutation(b);
    normalized_is_in_order(a);
    normalized_is_in_order(b);
    distinct_tokens_of_permutation(a, normalized(a));
    canonical_order_is_unique(normalized(a), normalized(b));
}

/// Puts a status breakdown in canonical order: ascending by status token.
/// Entries with the same token keep the order in which they came.
pub fn normalize(statuses: Vec<StatusCount>) -> (ordered: Vec<StatusCount>)
    ensures
        ordered.deep_view() == normalized(statuses.deep_view()),
        in_canonical_order(ordered.deep_view()),
        ordered.deep_view().to_multiset() == statuses.deep_view().to_multiset(),
        ordered.len() == statuses.len(),
{
    let ghost input = statuses.deep_view();
    let mut rest = statuses;
    let mut ordered: Vec<StatusCount> = Vec::new();
    let ghost mut done: int = 0;
    while rest.len() > 0
        invariant
            0 <= done <= input.len(),
            rest.deep_view() == input.skip(done),
            ordered.deep_view() == normalized(input.take(done)),
            ordered.len() == done,
        decreases rest.len(),
    {
        let ghost waiting = rest.deep_view();
        assert(waiting.len() == rest.len());
        assert(waiting[0] == input[done]);
        let entry = rest.remove(0);
        let ghost before = ordered.deep_view();
        let mut at: usize = 0;
        while at < ordered.len() && lexically_at_most(
            ordered[at].status.token(),
            entry.status.token(),
        )
            invariant
                at <= ordered.len(),
                ordered.deep_view() == before,
                forall|i: int| 0 <= i < at ==> comes_first(#[trigger] before[i], entry@),
            decreases ordered.len() - at,
        {
            at = at + 1;
        }
        proof {
            assert(entry@ == input[done]);
            insertion_point_is(before, entry@, at as int);
            assert(input.take(done + 1).drop_last() =~= input.take(done));
            assert(input.take(done + 1).last() == input[done]);
        }
        ordered.insert(at, entry);
        proof {
            assert(ordered.deep_view() =~= before.insert(at as int, input[done]));
            assert(rest.deep_view() =~= waiting.remove(0));
            assert(waiting.remove(0) =~= input.skip(done + 1));
            done = done + 1;
        }
    }
    proof {
        assert(input.take(input.len() as int) =~= input);
        normalized_is_in_order(input);
        normalized_is_permutation(input);
    }
    ordered
}

} // verus!
