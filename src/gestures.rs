//! Facts about the detector's behaviour over one step and over runs of steps.

use vstd::prelude::*;

use crate::button::{ack_stage, bump, elapsed, run, step, ButtonView};

verus! {

/// The samples of a level held asserted from `t0`, one per millisecond.
pub open spec fn held_from(t0: u128, n: nat) -> Seq<(u128, bool)> {
    Seq::new(n, |i: int| ((t0 + i) as u128, true))
}

/// A detector with no press confirmed, none being debounced and no press
/// event waiting.
pub open spec fn released_idle(m: ButtonView) -> bool {
    !m.confirmed && !m.debouncing && !m.pressed
}

/// Sample `i` of `s` is asserted and taken less than `d` after sample 0.
pub open spec fn asserted_within(s: Seq<(u128, bool)>, i: int, d: u16) -> bool {
    s[i].1 && s[0].0 <= s[i].0 && s[i].0 < s[0].0 + d
}

/// The state while a rising edge at `t` is being debounced.
pub open spec fn debouncing_from(m: ButtonView, t: u128) -> ButtonView {
    ButtonView { debouncing: true, edge_time: t, level: true, ..ack_stage(m) }
}

/// While every sample so far is asserted and within `debounce` of the
/// first, the press stays unconfirmed and debouncing from the first sample.
proof fn lemma_debouncing_prefix(m: ButtonView, s: Seq<(u128, bool)>, k: int)
    requires
        !m.confirmed,
        !m.debouncing,
        1 <= k <= s.len(),
        forall|i: int| 0 <= i < k ==> #[trigger] asserted_within(s, i, m.debounce),
    ensures
        run(m, s.take(k)) == debouncing_from(m, s[0].0),
    decreases k,
{
    assert(s.take(k).drop_last() =~= s.take(k - 1));
    assert(s.take(k).last() == s[k - 1]);
    assert(asserted_within(s, k - 1, m.debounce));
    let prev = run(m, s.take(k - 1));
    assert(run(m, s.take(k)) == step(prev, s[k - 1].0, true));
    if k > 1 {
        lemma_debouncing_prefix(m, s, k - 1);
        assert(elapsed(s[k - 1].0, prev.edge_time) < prev.debounce);
        assert(step(prev, s[k - 1].0, true) == prev);
    } else {
        assert(s.take(0) =~= Seq::<(u128, bool)>::empty());
        assert(prev == m);
    }
}

/// A level that stays asserted for less than `debounce` and then deasserts
/// never raises the press event, at any step of the run.
pub proof fn lemma_short_press_rejected(m: ButtonView, s: Seq<(u128, bool)>)
    requires
        released_idle(m),
        s.len() >= 1,
        forall|i: int| 0 <= i < s.len() - 1 ==> #[trigger] asserted_within(s, i, m.debounce),
        !s.last().1,
    ensures
        forall|k: int| 0 <= k <= s.len() ==> !(#[trigger] run(m, s.take(k))).pressed,
{
    let n = s.len() as int;
    assert forall|k: int| 0 <= k <= s.len() implies !(#[trigger] run(m, s.take(k))).pressed by {
        if k == 0 {
            assert(s.take(0) =~= Seq::<(u128, bool)>::empty());
            assert(run(m, s.take(k)) == m);
        } else if k < n {
            lemma_debouncing_prefix(m, s, k);
        } else {
            assert(s.take(k).drop_last() =~= s.take(n - 1));
            assert(s.take(k).last() == s.last());
            assert(run(m, s.take(k)) == step(run(m, s.take(n - 1)), s.last().0, false));
            if n > 1 {
                lemma_debouncing_prefix(m, s, n - 1);
            } else {
                assert(s.take(0) =~= Seq::<(u128, bool)>::empty());
            }
        }
    }
}

/// A level asserted continuously and sampled every millisecond raises the
/// press event on the step where the time since the first sample reaches
/// `debounce`, and on no step before it.
pub proof fn lemma_press_confirmed_at_threshold(m: ButtonView, t0: u128)
    requires
        released_idle(m),
        m.debounce >= 1,
        t0 + m.debounce <= u128::MAX,
    ensures
        forall|n: int|
            1 <= n <= m.debounce ==> !(#[trigger] run(
                m,
                held_from(t0, m.debounce as nat + 1).take(n),
            )).pressed,
        run(m, held_from(t0, m.debounce as nat + 1)).pressed,
{
    let s = held_from(t0, m.debounce as nat + 1);
    let d = m.debounce as int;
    assert(s[0].0 == t0);
    assert forall|i: int| 0 <= i < d implies #[trigger] asserted_within(s, i, m.debounce) by {}
    assert forall|n: int| 1 <= n <= m.debounce implies !(#[trigger] run(m, s.take(n))).pressed by {
        lemma_debouncing_prefix(m, s, n);
    }
    lemma_debouncing_prefix(m, s, d);
    assert(s.drop_last() =~= s.take(d));
    assert(s.last() == ((t0 + d) as u128, true));
    assert(elapsed((t0 + d) as u128, t0) == d);
}

/// A step never changes the configuration: the timings and the auto-tick
/// switch stay as they were.
pub proof fn lemma_step_keeps_configuration(m: ButtonView, now: u128, level: bool)
    ensures
        step(m, now, level).debounce == m.debounce,
        step(m, now, level).timeout == m.timeout,
        step(m, now, level).click_timeout == m.click_timeout,
        step(m, now, level).step_timeout == m.step_timeout,
        step(m, now, level).tick_mode == m.tick_mode,
{
}

/// A confirmed press still asserted `timeout` after its last edge starts a
/// hold: the hold event is raised, the pending single click is cancelled,
/// and the taps counted before the hold are kept.
pub proof fn lemma_hold_starts(m: ButtonView, now: u128)
    requires
        m.confirmed,
        !m.hold,
        elapsed(now, m.edge_time) >= m.timeout,
    ensures
        step(m, now, true).hold,
        step(m, now, true).hold_started,
        step(m, now, true).holding_now,
        !step(m, now, true).tap_in_flight,
        step(m, now, true).hold_clicks == m.pending as u32,
        step(m, now, true).confirmed,
{
}

/// During a hold, the hold is not started again and no single click is
/// raised; the release that ends it counts no tap, cancels the pending taps
/// and the finalized group, and raises no single click either.
pub proof fn lemma_hold_preempts_tap(m: ButtonView, now: u128, level: bool)
    requires
        m.confirmed,
        m.hold,
        m.holding_now,
        !m.tap_in_flight,
    ensures
        level ==> step(m, now, level).hold && step(m, now, level).holding_now
            && step(m, now, level).confirmed,
        step(m, now, level).hold_started == m.hold_started,
        step(m, now, level).single_click == m.single_click,
        !step(m, now, level).tap_in_flight,
        !level ==> !step(m, now, level).confirmed && !step(m, now, level).holding_now
            && step(m, now, level).pending == 0 && step(m, now, level).finalized == 0,
{
}

/// The release of a confirmed press that did not become a hold counts one
/// more tap and raises the release and single-click events.
pub proof fn lemma_tap_counts(m: ButtonView, now: u128)
    requires
        m.confirmed,
        !m.hold,
        !m.holding_now,
        m.tap_in_flight,
        m.click_timeout >= 1,
    ensures
        !step(m, now, false).confirmed,
        step(m, now, false).pending == bump(m.pending),
        step(m, now, false).released,
        step(m, now, false).single_click,
        step(m, now, false).edge_time == now,
{
}

/// With the input released and `click_timeout` passed since the last edge,
/// the pending taps become the finalized group.
pub proof fn lemma_group_finalizes(m: ButtonView, now: u128)
    requires
        !m.confirmed,
        m.pending != 0,
        elapsed(now, m.edge_time) >= m.click_timeout,
        !m.ack_requested,
    ensures
        step(m, now, false).finalized == m.pending as u32,
        step(m, now, false).group_ready,
        step(m, now, false).pending == 0,
{
}

/// Running a series of samples in two parts gives the same state as running
/// it whole.
pub proof fn lemma_run_append(m: ButtonView, a: Seq<(u128, bool)>, b: Seq<(u128, bool)>)
    ensures
        run(m, a + b) == run(run(m, a), b),
    decreases b.len(),
{
    if b.len() == 0 {
        assert(a + b =~= a);
    } else {
        assert((a + b).drop_last() =~= a + b.drop_last());
        assert((a + b).last() == b.last());
        lemma_run_append(m, a, b.drop_last());
    }
}

/// The samples of one tap: asserted every millisecond for `n` milliseconds
/// from `t`, then one released sample at `t + n`.
pub open spec fn tap_samples(t: u128, n: nat) -> Seq<(u128, bool)> {
    held_from(t, n).push(((t + n) as u128, false))
}

/// A detector between presses: nothing held, nothing being debounced, and a
/// grouping window that cannot close on the step of a release.
pub open spec fn tap_ready(m: ButtonView) -> bool {
    !m.confirmed && !m.debouncing && !m.hold && !m.holding_now && m.click_timeout >= 1
}

/// The state once a press from `t` has been confirmed; `first` marks the
/// confirming step itself, after which debouncing is over.
pub open spec fn confirmed_from(m: ButtonView, t: u128, first: bool) -> ButtonView {
    ButtonView {
        debouncing: first,
        confirmed: true,
        pressed: true,
        tap_in_flight: true,
        ..debouncing_from(m, t)
    }
}

/// The state after a tap of `n` milliseconds from `t`.
pub open spec fn tapped(m: ButtonView, t: u128, n: nat) -> ButtonView {
    ButtonView {
        debouncing: false,
        confirmed: false,
        pressed: true,
        tap_in_flight: false,
        single_click: true,
        released: true,
        pending: bump(m.pending),
        level: false,
        edge_time: (t + n) as u128,
        ..ack_stage(m)
    }
}

/// The number of asserted samples, one per millisecond, after which the next
/// one confirms a press: the first sample only starts the debounce.
pub open spec fn samples_to_confirm(debounce: u16) -> int {
    if debounce == 0 {
        1
    } else {
        debounce as int
    }
}

#[verifier::rlimit(40)]
proof fn lemma_held_prefix(m: ButtonView, t: u128, n: nat, k: int)
    requires
        tap_ready(m),
        samples_to_confirm(m.debounce) < n <= m.timeout,
        t + n <= u128::MAX,
        1 <= k <= n,
    ensures
        run(m, held_from(t, n).take(k)) == if k <= samples_to_confirm(m.debounce) {
            debouncing_from(m, t)
        } else {
            confirmed_from(m, t, k == samples_to_confirm(m.debounce) + 1)
        },
    decreases k,
{
    let s = held_from(t, n);
    if k == 1 {
        assert(s.take(1).drop_last() =~= Seq::<(u128, bool)>::empty());
        assert(s.take(1).last() == (t, true));
        assert(run(m, s.take(1)) == step(run(m, Seq::<(u128, bool)>::empty()), t, true));
        assert(step(m, t, true) == debouncing_from(m, t));
    } else if k <= m.debounce {
        assert forall|i: int| 0 <= i < k implies #[trigger] asserted_within(s, i, m.debounce) by {}
        lemma_debouncing_prefix(m, s, k);
    } else {
        lemma_held_prefix(m, t, n, k - 1);
        let prev = run(m, s.take(k - 1));
        assert(s.take(k).drop_last() =~= s.take(k - 1));
        assert(s.take(k).last() == ((t + k - 1) as u128, true));
        assert(run(m, s.take(k)) == step(prev, (t + k - 1) as u128, true));
        assert(elapsed((t + k - 1) as u128, t) == k - 1);
        let c = samples_to_confirm(m.debounce);
        if k - 1 == c {
            assert(prev == debouncing_from(m, t));
            assert(step(prev, (t + k - 1) as u128, true) == confirmed_from(m, t, true));
        } else {
            assert(prev == confirmed_from(m, t, k - 1 == c + 1));
            assert(step(prev, (t + k - 1) as u128, true) == confirmed_from(m, t, false));
        }
    }
}

/// A tap longer than `debounce` (and than one sample) and no longer than
/// `timeout` counts one
/// more pending tap and raises the press, release and single-click events.
pub proof fn lemma_tap(m: ButtonView, t: u128, n: nat)
    requires
        tap_ready(m),
        samples_to_confirm(m.debounce) < n <= m.timeout,
        t + n <= u128::MAX,
    ensures
        run(m, tap_samples(t, n)) == tapped(m, t, n),
{
    let s = tap_samples(t, n);
    lemma_held_prefix(m, t, n, n as int);
    assert(held_from(t, n).take(n as int) =~= held_from(t, n));
    assert(s.drop_last() =~= held_from(t, n));
}

/// A released sample less than `timeout` after `since`.
pub open spec fn quiet_at(s: Seq<(u128, bool)>, i: int, since: u128, timeout: u16) -> bool {
    !s[i].1 && elapsed(s[i].0, since) < timeout
}

/// Released samples inside the grouping window change nothing.
proof fn lemma_quiet(m: ButtonView, s: Seq<(u128, bool)>)
    requires
        !m.confirmed,
        !m.debouncing,
        !m.level,
        !m.ack_requested,
        forall|i: int| 0 <= i < s.len() ==> #[trigger] quiet_at(s, i, m.edge_time, m.click_timeout),
    ensures
        run(m, s) == m,
    decreases s.len(),
{
    if s.len() > 0 {
        let d = s.drop_last();
        assert forall|i: int| 0 <= i < d.len() implies #[trigger] quiet_at(
            d,
            i,
            m.edge_time,
            m.click_timeout,
        ) by {
            assert(quiet_at(s, i, m.edge_time, m.click_timeout));
        }
        lemma_quiet(m, d);
        assert(quiet_at(s, s.len() - 1, m.edge_time, m.click_timeout));
    }
}

/// Three taps, each longer than `debounce` (and than one sample) and no
/// longer than `timeout`,
/// with only released samples inside the grouping window between them, and
/// then a released sample `click_timeout` after the last release, finalize
/// a group of exactly three clicks.
pub proof fn lemma_three_taps(
    m: ButtonView,
    t1: u128,
    n1: nat,
    g1: Seq<(u128, bool)>,
    t2: u128,
    n2: nat,
    g2: Seq<(u128, bool)>,
    t3: u128,
    n3: nat,
    t4: u128,
)
    requires
        tap_ready(m),
        m.pending == 0,
        samples_to_confirm(m.debounce) < n1 <= m.timeout,
        samples_to_confirm(m.debounce) < n2 <= m.timeout,
        samples_to_confirm(m.debounce) < n3 <= m.timeout,
        t1 + n1 <= u128::MAX,
        t2 + n2 <= u128::MAX,
        t3 + n3 <= u128::MAX,
        forall|i: int|
            0 <= i < g1.len() ==> #[trigger] quiet_at(g1, i, (t1 + n1) as u128, m.click_timeout),
        forall|i: int|
            0 <= i < g2.len() ==> #[trigger] quiet_at(g2, i, (t2 + n2) as u128, m.click_timeout),
        elapsed(t4, (t3 + n3) as u128) >= m.click_timeout,
    ensures
        ({
            let s = tap_samples(t1, n1) + g1 + tap_samples(t2, n2) + g2 + tap_samples(t3, n3) + seq![
                (t4, false),
            ];
            run(m, s).group_ready && run(m, s).finalized == 3 && run(m, s).pending == 0
        }),
{
    let a1 = tap_samples(t1, n1);
    let a2 = a1 + g1;
    let a3 = a2 + tap_samples(t2, n2);
    let a4 = a3 + g2;
    let a5 = a4 + tap_samples(t3, n3);
    let s = a5 + seq![(t4, false)];

    lemma_tap(m, t1, n1);
    let m1 = tapped(m, t1, n1);
    lemma_run_append(m, a1, g1);
    lemma_quiet(m1, g1);
    lemma_run_append(m, a2, tap_samples(t2, n2));
    lemma_tap(m1, t2, n2);
    let m2 = tapped(m1, t2, n2);
    lemma_run_append(m, a3, g2);
    lemma_quiet(m2, g2);
    lemma_run_append(m, a4, tap_samples(t3, n3));
    lemma_tap(m2, t3, n3);
    let m3 = tapped(m2, t3, n3);
    assert(m3.pending == 3);
    assert(s.drop_last() =~= a5);
    assert(s.last() == (t4, false));
}

/// A press held from `t` until `timeout` has passed starts a hold on the
/// step at `t + timeout`, which keeps the number of taps pending before it.
pub proof fn lemma_press_becomes_hold(m: ButtonView, t: u128)
    requires
        tap_ready(m),
        samples_to_confirm(m.debounce) < m.timeout,
        t + m.timeout <= u128::MAX,
    ensures
        run(m, held_from(t, m.timeout as nat + 1)).hold_started,
        run(m, held_from(t, m.timeout as nat + 1)).holding_now,
        !run(m, held_from(t, m.timeout as nat + 1)).tap_in_flight,
        run(m, held_from(t, m.timeout as nat + 1)).hold_clicks == m.pending as u32,
{
    let d = m.timeout as int;
    let s = held_from(t, m.timeout as nat + 1);
    lemma_held_prefix(m, t, m.timeout as nat, d);
    assert(held_from(t, m.timeout as nat).take(d) =~= held_from(t, m.timeout as nat));
    assert(s.drop_last() =~= held_from(t, m.timeout as nat));
    assert(s.last() == ((t + d) as u128, true));
    assert(elapsed((t + d) as u128, t) == d);
}

/// Two taps followed by a press held until `timeout` has passed: the hold
/// remembers the two taps.
pub proof fn lemma_hold_after_two_taps(
    m: ButtonView,
    t1: u128,
    n1: nat,
    g1: Seq<(u128, bool)>,
    t2: u128,
    n2: nat,
    g2: Seq<(u128, bool)>,
    t3: u128,
)
    requires
        tap_ready(m),
        m.pending == 0,
        samples_to_confirm(m.debounce) < n1 <= m.timeout,
        samples_to_confirm(m.debounce) < n2 <= m.timeout,
        samples_to_confirm(m.debounce) < m.timeout,
        t1 + n1 <= u128::MAX,
        t2 + n2 <= u128::MAX,
        t3 + m.timeout <= u128::MAX,
        forall|i: int|
            0 <= i < g1.len() ==> #[trigger] quiet_at(g1, i, (t1 + n1) as u128, m.click_timeout),
        forall|i: int|
            0 <= i < g2.len() ==> #[trigger] quiet_at(g2, i, (t2 + n2) as u128, m.click_timeout),
    ensures
        ({
            let s = tap_samples(t1, n1) + g1 + tap_samples(t2, n2) + g2 + held_from(
                t3,
                m.timeout as nat + 1,
            );
            run(m, s).hold_started && run(m, s).hold_clicks == 2
        }),
{
    let a1 = tap_samples(t1, n1);
    let a2 = a1 + g1;
    let a3 = a2 + tap_samples(t2, n2);
    let a4 = a3 + g2;

    lemma_tap(m, t1, n1);
    let m1 = tapped(m, t1, n1);
    lemma_run_append(m, a1, g1);
    lemma_quiet(m1, g1);
    lemma_run_append(m, a2, tap_samples(t2, n2));
    lemma_tap(m1, t2, n2);
    let m2 = tapped(m1, t2, n2);
    lemma_run_append(m, a3, g2);
    lemma_quiet(m2, g2);
    lemma_run_append(m, a4, held_from(t3, m.timeout as nat + 1));
    lemma_press_becomes_hold(m2, t3);
}

/// A detector in the middle of a hold.
pub open spec fn in_hold(m: ButtonView) -> bool {
    m.confirmed && m.hold && m.holding_now && !m.tap_in_flight
}

/// Asserted samples during a hold keep it going, and neither start it again
/// nor raise a single click.
proof fn lemma_holding_run(h: ButtonView, s: Seq<(u128, bool)>)
    requires
        in_hold(h),
        forall|i: int| 0 <= i < s.len() ==> #[trigger] s[i].1,
    ensures
        in_hold(run(h, s)),
        run(h, s).single_click == h.single_click,
        run(h, s).hold_started == h.hold_started,
    decreases s.len(),
{
    if s.len() > 0 {
        let d = s.drop_last();
        assert forall|i: int| 0 <= i < d.len() implies #[trigger] d[i].1 by {
            assert(s[i].1);
        }
        lemma_holding_run(h, d);
        assert(s[s.len() - 1].1);
        lemma_hold_preempts_tap(run(h, d), s.last().0, true);
    }
}

/// A press held past `timeout` and then released: the hold was started, the
/// release raises no single click, and no tap is left pending, so no click
/// group can finalize from this gesture.
pub proof fn lemma_hold_then_release(
    m: ButtonView,
    t: u128,
    more: Seq<(u128, bool)>,
    tr: u128,
)
    requires
        tap_ready(m),
        samples_to_confirm(m.debounce) < m.timeout,
        t + m.timeout <= u128::MAX,
        forall|i: int| 0 <= i < more.len() ==> #[trigger] more[i].1,
    ensures
        run(m, held_from(t, m.timeout as nat + 1)).hold_started,
        ({
            let s = held_from(t, m.timeout as nat + 1) + more + seq![(tr, false)];
            &&& run(m, s).single_click == m.single_click
            &&& run(m, s).pending == 0
            &&& !run(m, s).holding_now
            &&& !run(m, s).confirmed
        }),
{
    let a = held_from(t, m.timeout as nat + 1);
    let b = a + more;
    let s = b + seq![(tr, false)];
    lemma_press_becomes_hold(m, t);
    let h = run(m, a);
    let d = m.timeout as int;
    lemma_held_prefix(m, t, m.timeout as nat, d);
    assert(held_from(t, m.timeout as nat).take(d) =~= held_from(t, m.timeout as nat));
    assert(a.drop_last() =~= held_from(t, m.timeout as nat));
    assert(h.single_click == m.single_click);
    lemma_run_append(m, a, more);
    lemma_holding_run(h, more);
    assert(s.drop_last() =~= b);
    assert(s.last() == (tr, false));
    lemma_hold_preempts_tap(run(m, b), tr, false);
}

} // verus!
