//! The laws of the synthesis and of the tick-indexed query, proved
//! over the spec-level model that `calculate_cameras` and `position`
//! are verified against.

use vstd::prelude::*;
use crate::camera::{
    best_in_prefix, best_index, closer, make_move_spec, position_at_spec, step_spec, synth_spec,
    track_event_dist_sq, within_threshold, CameraMove,
};
use crate::config::Config;
use crate::event::Event;

verus! {

/// Total number of moves across all tracks.
pub open spec fn total_moves(cams: Seq<Seq<CameraMove>>) -> int
    decreases cams.len(),
{
    if cams.len() == 0 {
        0
    } else {
        total_moves(cams.drop_last()) + cams.last().len()
    }
}

/// Replacing one track changes the total by the difference of that
/// track's lengths.
proof fn lemma_total_moves_update(cams: Seq<Seq<CameraMove>>, i: int, s: Seq<CameraMove>)
    requires
        0 <= i < cams.len(),
    ensures
        total_moves(cams.update(i, s)) == total_moves(cams) - cams[i].len() + s.len(),
    decreases cams.len(),
{
    let u = cams.update(i, s);
    if i == cams.len() - 1 {
        assert(u.drop_last() =~= cams.drop_last());
        assert(u.last() == s);
    } else {
        assert(u.drop_last() =~= cams.drop_last().update(i, s));
        assert(u.last() == cams.last());
        assert(cams.drop_last()[i] == cams[i]);
        lemma_total_moves_update(cams.drop_last(), i, s);
    }
}

/// Appending a track adds its length to the total.
proof fn lemma_total_moves_push(cams: Seq<Seq<CameraMove>>, s: Seq<CameraMove>)
    ensures
        total_moves(cams.push(s)) == total_moves(cams) + s.len(),
{
    assert(cams.push(s).drop_last() =~= cams);
    assert(cams.push(s).last() == s);
}

/// The first closest index is an index.
proof fn lemma_best_in_prefix_bounds(cams: Seq<Seq<CameraMove>>, e: Event, n: int)
    requires
        1 <= n <= cams.len(),
    ensures
        0 <= best_in_prefix(cams, e, n) < n,
    decreases n,
{
    if n > 1 {
        lemma_best_in_prefix_bounds(cams, e, n - 1);
    }
}

/// No track in the prefix is strictly closer than the selected one.
proof fn lemma_best_in_prefix_minimal(cams: Seq<Seq<CameraMove>>, e: Event, n: int)
    requires
        1 <= n <= cams.len(),
    ensures
        forall|j: int|
            0 <= j < n ==> !closer(
                track_event_dist_sq(cams[j], e),
                track_event_dist_sq(cams[best_in_prefix(cams, e, n)], e),
            ),
    decreases n,
{
    if n > 1 {
        lemma_best_in_prefix_minimal(cams, e, n - 1);
        lemma_best_in_prefix_bounds(cams, e, n - 1);
        let b0 = best_in_prefix(cams, e, n - 1);
        let b = best_in_prefix(cams, e, n);
        let dn = track_event_dist_sq(cams[n - 1], e);
        let db0 = track_event_dist_sq(cams[b0], e);
        if closer(dn, db0) {
            assert(b == n - 1);
            assert forall|j: int| 0 <= j < n implies !closer(
                track_event_dist_sq(cams[j], e),
                dn,
            ) by {
                if j < n - 1 {
                    assert(!closer(track_event_dist_sq(cams[j], e), db0));
                }
            }
        }
    }
}

/// One clustering step keeps every existing track and creates at most
/// one.
proof fn lemma_step_len(cams: Seq<Seq<CameraMove>>, e: Event, cfg: Config)
    ensures
        cams.len() <= step_spec(cams, e, cfg).len() <= cams.len() + 1,
{
    if cams.len() > 0 {
        lemma_best_in_prefix_bounds(cams, e, cams.len() as int);
    }
}

/// One clustering step appends exactly one move over all tracks.
proof fn lemma_step_adds_one_move(cams: Seq<Seq<CameraMove>>, e: Event, cfg: Config)
    ensures
        total_moves(step_spec(cams, e, cfg)) == total_moves(cams) + 1,
{
    let mv = make_move_spec(e, cfg);
    if cams.len() == 0 {
        let s = seq![seq![mv]];
        assert(s.drop_last() =~= Seq::<Seq<CameraMove>>::empty());
        assert(total_moves(Seq::<Seq<CameraMove>>::empty()) == 0);
        assert(total_moves(s) == 1);
    } else {
        let b = best_index(cams, e);
        lemma_best_in_prefix_bounds(cams, e, cams.len() as int);
        if within_threshold(track_event_dist_sq(cams[b], e), cfg.follow_threshold as int) {
            lemma_total_moves_update(cams, b, cams[b].push(mv));
        } else {
            lemma_total_moves_push(cams, seq![mv]);
        }
    }
}

/// Move conservation: every event of the sequence contributes exactly
/// one move to exactly one track, so the total move count across the
/// synthesized tracks equals the number of events.
pub proof fn lemma_move_conservation(events: Seq<Event>, cfg: Config)
    ensures
        total_moves(synth_spec(events, cfg)) == events.len(),
    decreases events.len(),
{
    if events.len() > 0 {
        lemma_move_conservation(events.drop_last(), cfg);
        lemma_step_adds_one_move(synth_spec(events.drop_last(), cfg), events.last(), cfg);
    }
}

/// Monotonic track count: consuming one more event never removes a
/// track and creates at most one.
pub proof fn lemma_track_count_monotonic(events: Seq<Event>, e: Event, cfg: Config)
    ensures
        synth_spec(events, cfg).len() <= synth_spec(events.push(e), cfg).len(),
        synth_spec(events.push(e), cfg).len() <= synth_spec(events, cfg).len() + 1,
{
    assert(events.push(e).drop_last() =~= events);
    assert(events.push(e).last() == e);
    lemma_step_len(synth_spec(events, cfg), e, cfg);
}

/// Monotonic track count over a whole run: while the events of a
/// sequence are consumed in order, the number of tracks never
/// decreases, and grows by at most one per event consumed.
pub proof fn lemma_track_count_monotonic_run(events: Seq<Event>, i: int, j: int, cfg: Config)
    requires
        0 <= i <= j <= events.len(),
    ensures
        synth_spec(events.take(i), cfg).len() <= synth_spec(events.take(j), cfg).len(),
        synth_spec(events.take(j), cfg).len() <= synth_spec(events.take(i), cfg).len() + (j - i),
    decreases j - i,
{
    if i < j {
        lemma_track_count_monotonic_run(events, i, j - 1, cfg);
        assert(events.take(j).drop_last() =~= events.take(j - 1));
        assert(events.take(j).last() == events[j - 1]);
        lemma_step_len(synth_spec(events.take(j - 1), cfg), events[j - 1], cfg);
    }
}

/// The single-linkage threshold law: if the event lies within the
/// follow threshold of some existing track's viewport at its tick, no
/// new track is created for it; if it lies beyond the threshold of
/// every track (in particular when no track exists or all are unborn
/// at that tick), a new track is created, holding exactly the event's
/// move.
pub proof fn lemma_threshold_law(cams: Seq<Seq<CameraMove>>, e: Event, cfg: Config)
    ensures
        (exists|j: int|
            0 <= j < cams.len() && within_threshold(
                #[trigger] track_event_dist_sq(cams[j], e),
                cfg.follow_threshold as int,
            )) ==> step_spec(cams, e, cfg).len() == cams.len(),
        (forall|j: int|
            0 <= j < cams.len() ==> !within_threshold(
                #[trigger] track_event_dist_sq(cams[j], e),
                cfg.follow_threshold as int,
            )) ==> (step_spec(cams, e, cfg).len() == cams.len() + 1 && step_spec(cams, e, cfg).last()
            == seq![make_move_spec(e, cfg)]),
{
    if cams.len() > 0 {
        let b = best_index(cams, e);
        lemma_best_in_prefix_bounds(cams, e, cams.len() as int);
        lemma_best_in_prefix_minimal(cams, e, cams.len() as int);
        let t = cfg.follow_threshold as int;
        if exists|j: int|
            0 <= j < cams.len() && within_threshold(
                #[trigger] track_event_dist_sq(cams[j], e),
                t,
            ) {
            let j = choose|j: int|
                0 <= j < cams.len() && within_threshold(
                    #[trigger] track_event_dist_sq(cams[j], e),
                    t,
                );
            assert(!closer(track_event_dist_sq(cams[j], e), track_event_dist_sq(cams[b], e)));
            assert(within_threshold(track_event_dist_sq(cams[b], e), t));
        }
    }
}

/// Query correctness over a three-move track: for moves at ascending
/// ticks `t0 < t1 < t2`, the query answers nothing before `t0`, the
/// first move on `[t0, t1)`, the second on `[t1, t2)`, and the third
/// from `t2` on.
pub proof fn lemma_query_intervals(m0: CameraMove, m1: CameraMove, m2: CameraMove, t: u64)
    requires
        m0.on_tick < m1.on_tick,
        m1.on_tick < m2.on_tick,
    ensures
        t < m0.on_tick ==> position_at_spec(seq![m0, m1, m2], t) is None,
        m0.on_tick <= t < m1.on_tick ==> position_at_spec(seq![m0, m1, m2], t) == Some(m0.to),
        m1.on_tick <= t < m2.on_tick ==> position_at_spec(seq![m0, m1, m2], t) == Some(m1.to),
        m2.on_tick <= t ==> position_at_spec(seq![m0, m1, m2], t) == Some(m2.to),
{
    reveal_with_fuel(position_at_spec, 4);
    let s = seq![m0, m1, m2];
    assert(s.drop_last() =~= seq![m0, m1]);
    assert(seq![m0, m1].drop_last() =~= seq![m0]);
    assert(seq![m0].drop_last() =~= Seq::<CameraMove>::empty());
}

} // verus!
