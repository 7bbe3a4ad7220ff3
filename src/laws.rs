use vstd::prelude::*;

use crate::catalog::{is_catalog_of, strictly_sorted};
use crate::machine::{next_cursor, previous_cursor, steps_forward, Action, AppModel, Event};
use crate::staging::StagingError;
use crate::text::{lemma_lt_asymmetric, lemma_lt_irreflexive, lemma_lt_total, seq_lt};

verus! {

/// Two strictly sorted sequences with the same elements are equal.
pub proof fn lemma_sorted_unique(a: Seq<Seq<char>>, b: Seq<Seq<char>>)
    requires
        strictly_sorted(a),
        strictly_sorted(b),
        forall|x: Seq<char>| a.contains(x) <==> b.contains(x),
    ensures
        a == b,
    decreases a.len(),
{
    if a.len() == 0 {
        if b.len() > 0 {
            assert(b.contains(b[0]));
        }
        assert(a =~= b);
    } else if b.len() == 0 {
        assert(a.contains(a[0]));
    } else {
        if a[0] != b[0] {
            lemma_lt_total(a[0], b[0]);
            if seq_lt(a[0], b[0]) {
                assert(a.contains(a[0]));
                let k = choose|k: int| 0 <= k < b.len() && b[k] == a[0];
                lemma_lt_asymmetric(a[0], b[0]);
            } else {
                assert(b.contains(b[0]));
                let k = choose|k: int| 0 <= k < a.len() && a[k] == b[0];
                lemma_lt_asymmetric(b[0], a[0]);
            }
        }
        let ta = a.drop_first();
        let tb = b.drop_first();
        assert forall|x: Seq<char>| ta.contains(x) <==> tb.contains(x) by {
            if ta.contains(x) {
                let j = choose|j: int| 0 <= j < ta.len() && ta[j] == x;
                assert(a[j + 1] == x);
                assert(b.contains(x));
                let k = choose|k: int| 0 <= k < b.len() && b[k] == x;
                if k == 0 {
                    lemma_lt_irreflexive(x);
                    assert(seq_lt(a[0], a[j + 1]));
                }
                assert(tb[k - 1] == x);
            }
            if tb.contains(x) {
                let j = choose|j: int| 0 <= j < tb.len() && tb[j] == x;
                assert(b[j + 1] == x);
                assert(a.contains(x));
                let k = choose|k: int| 0 <= k < a.len() && a[k] == x;
                if k == 0 {
                    lemma_lt_irreflexive(x);
                    assert(seq_lt(b[0], b[j + 1]));
                }
                assert(ta[k - 1] == x);
            }
        }
        lemma_sorted_unique(ta, tb);
        assert forall|i: int| 0 <= i < a.len() implies a[i] == b[i] by {
            if i > 0 {
                assert(a[i] == ta[i - 1]);
                assert(b[i] == tb[i - 1]);
            }
        }
        assert(a =~= b);
    }
}

/// A directory listing has at most one catalog: the distinct versions of its
/// kernel images in string order.
pub proof fn lemma_catalog_unique(c1: Seq<Seq<char>>, c2: Seq<Seq<char>>, names: Seq<Seq<char>>)
    requires
        is_catalog_of(c1, names),
        is_catalog_of(c2, names),
    ensures
        c1 == c2,
{
    lemma_sorted_unique(c1, c2);
}

/// `k` steps forward from row `c` of `n` rows land on row `(c + k) mod n`.
pub proof fn lemma_steps_forward(c: nat, n: nat, k: nat)
    requires
        c < n,
    ensures
        steps_forward(c, n, k) == (c + k) as int % (n as int),
    decreases k,
{
    if k == 0 {
        vstd::arithmetic::div_mod::lemma_small_mod(c, n);
    } else {
        lemma_steps_forward(c, n, (k - 1) as nat);
        vstd::arithmetic::div_mod::lemma_add_mod_noop_right(1, (c + k - 1) as int, n as int);
    }
}

/// Over a catalog of `n` rows, `n` steps forward from any row come back to it.
pub proof fn lemma_next_cycle(c: nat, n: nat)
    requires
        c < n,
    ensures
        steps_forward(c, n, n) == c,
{
    lemma_steps_forward(c, n, n);
    vstd::arithmetic::div_mod::lemma_mod_add_multiples_vanish(c as int, n as int);
    vstd::arithmetic::div_mod::lemma_small_mod(c, n);
}

/// A step back undoes a step forward, and a step forward undoes a step back.
pub proof fn lemma_previous_inverts_next(c: nat, n: nat)
    requires
        c < n,
    ensures
        previous_cursor(next_cursor(c, n), n) == c,
        next_cursor(previous_cursor(c, n), n) == c,
{
    let m = n as int;
    if c + 1 < n {
        vstd::arithmetic::div_mod::lemma_small_mod((c + 1) as nat, n);
        vstd::arithmetic::div_mod::lemma_mod_add_multiples_vanish(c as int, m);
        vstd::arithmetic::div_mod::lemma_small_mod(c, n);
    } else {
        vstd::arithmetic::div_mod::lemma_mod_self_0(m);
        vstd::arithmetic::div_mod::lemma_small_mod((n - 1) as nat, n);
    }
    if c == 0 {
        vstd::arithmetic::div_mod::lemma_small_mod((n - 1) as nat, n);
        vstd::arithmetic::div_mod::lemma_mod_self_0(m);
    } else {
        vstd::arithmetic::div_mod::lemma_mod_add_multiples_vanish((c - 1) as int, m);
        vstd::arithmetic::div_mod::lemma_small_mod((c - 1) as nat, n);
        vstd::arithmetic::div_mod::lemma_small_mod(c, n);
    }
}

/// While browsing, the catalog moved through by as many `MoveNext` events as
/// it has rows is back where it began; `MovePrevious` undoes `MoveNext` and
/// the other way round.
pub proof fn lemma_navigation_round_trip(m: AppModel)
    requires
        m.wf(),
        m.staged is None,
    ensures
        m.after(Event::MoveNext).after(Event::MovePrevious) == m,
        m.after(Event::MovePrevious).after(Event::MoveNext) == m,
        steps_forward(m.cursor, m.versions.len(), m.versions.len()) == m.cursor,
{
    lemma_previous_inverts_next(m.cursor, m.versions.len());
    lemma_next_cycle(m.cursor, m.versions.len());
}

/// Navigation, selection and quitting are ignored while confirming, and the
/// confirmation events while browsing: the state stays and nothing is to be
/// done.
pub proof fn lemma_inapplicable_events_ignored(m: AppModel, e: Event)
    requires
        m.wf(),
        (m.staged is Some && (e == Event::MoveNext || e == Event::MovePrevious || e
            == Event::Select || e == Event::Quit)) || (m.staged is None && (e
            == Event::ConfirmYes || e == Event::ConfirmNo)),
    ensures
        m.after(e) == m,
        m.is_action_for(e, Action::Nothing),
{
}

/// Selecting a version and staging it with success leads to confirming
/// exactly that version, from the same row; a failed staging leaves browsing
/// on the same row.
pub proof fn lemma_load_transition(m: AppModel, v: String, err: StagingError)
    requires
        m.wf(),
        m.staged is None,
        m.is_action_for(Event::Select, Action::Load(v)),
    ensures
        m.after(Event::Select) == m,
        m.after_load(Ok(())).staged == Some(v@),
        m.after_load(Ok(())).cursor == m.cursor,
        m.after_load(Ok(())).wf(),
        m.after_load(Err(err)) == m,
{
}

} // verus!
