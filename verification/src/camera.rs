//! Camera tracks and their synthesis from an event stream.
//!
//! A `Camera` owns an append-only sequence of `CameraMove`s, ascending
//! by tick, plus a memoization cache for tick queries. `position`
//! answers "which waypoint is active at tick T": the last move whose
//! tick is at or before T. `calculate_cameras` partitions an event
//! stream into tracks by greedy single-linkage clustering: an event
//! joins the closest existing track whose viewport is within the follow
//! threshold, otherwise it starts a new track.

use std::collections::HashMap;
use vstd::prelude::*;
use crate::geometry::{
    dist_sq, in_world, point_to_rect_distance_sq, rect_wf, valid_dim, viewport_rect,
    viewport_rect_spec, Rect, COORD_LIMIT,
};
use crate::event::{event_in_world, events_in_world, events_sorted, Event};
use crate::config::{config_error_of, valid_config, Config, ConfigError};

verus! {

broadcast use vstd::std_specs::hash::group_hash_axioms;

/// A camera pose: a world position, the zoom stamped on it, and the
/// viewport rectangle derived from the position and the configured
/// viewport size (the zoom is a rendering hint and does not scale the
/// viewport).
#[derive(Clone, Copy, Debug, PartialEq, Eq, Structural)]
pub struct CameraPos {
    pub x: i64,
    pub y: i64,
    pub zoom: i64,
    pub rect: Rect,
}

impl CameraPos {
    /// Builds a pose centered on `(x, y)` with its viewport rectangle
    /// of the configured size.
    fn new(x: i64, y: i64, zoom: i64, view_w: i64, view_h: i64) -> (p: CameraPos)
        requires
            in_world(x as int),
            in_world(y as int),
            valid_dim(view_w as int),
            valid_dim(view_h as int),
        ensures
            p.x == x,
            p.y == y,
            p.zoom == zoom,
            p.rect == viewport_rect_spec(x as int, y as int, view_w as int, view_h as int),
            pos_wf(p),
    {
        CameraPos { x, y, zoom, rect: viewport_rect(x, y, view_w, view_h) }
    }

    /// The viewport rectangle of this pose.
    pub fn rect(&self) -> (r: Rect)
        ensures
            r == self.rect,
    {
        self.rect
    }
}

/// A pose the exact geometry accepts: bounded position, well-formed
/// rectangle.
pub open spec fn pos_wf(p: CameraPos) -> bool {
    &&& in_world(p.x as int)
    &&& in_world(p.y as int)
    &&& rect_wf(p.rect)
}

/// The binding of a pose to the tick at which the camera adopts it.
#[derive(Clone, Copy, Debug, PartialEq, Eq, Structural)]
pub struct CameraMove {
    pub to: CameraPos,
    pub on_tick: u64,
}

/// The waypoint active at `tick`: the last move whose tick is at or
/// before `tick`, none if every move lies in the future (or there is
/// no move at all).
pub open spec fn position_at_spec(ms: Seq<CameraMove>, tick: u64) -> Option<CameraPos>
    decreases ms.len(),
{
    if ms.len() == 0 {
        None
    } else if ms.last().on_tick <= tick {
        Some(ms.last().to)
    } else {
        position_at_spec(ms.drop_last(), tick)
    }
}

/// Move ticks are non-decreasing in insertion order.
pub open spec fn moves_sorted(ms: Seq<CameraMove>) -> bool {
    forall|i: int, j: int| 0 <= i <= j < ms.len() ==> ms[i].on_tick <= ms[j].on_tick
}

/// Every pose of the sequence is well formed.
pub open spec fn moves_wf(ms: Seq<CameraMove>) -> bool {
    forall|i: int| 0 <= i < ms.len() ==> pos_wf(#[trigger] ms[i].to)
}

/// Every cache entry agrees with the uncached scan, and caches a tick
/// strictly before the last move's tick — exactly the entries that a
/// later append (at or after the last tick) can never invalidate.
pub open spec fn cache_consistent(cache: Map<u64, CameraPos>, ms: Seq<CameraMove>) -> bool {
    forall|t: u64|
        #[trigger] cache.contains_key(t) ==> ms.len() > 0 && t < ms.last().on_tick
            && position_at_spec(ms, t) == Some(cache[t])
}

/// One camera's timeline: its moves in ascending tick order, plus a
/// memoization cache for `position` queries. The cache is pure
/// optimization state: it can never change an answer.
#[derive(Debug)]
pub struct Camera {
    moves: Vec<CameraMove>,
    position_cache: HashMap<u64, CameraPos>,
}

impl View for Camera {
    type V = Seq<CameraMove>;

    closed spec fn view(&self) -> Seq<CameraMove> {
        self.moves@
    }
}

impl Camera {
    /// The track's invariant: moves ascending and well formed, cache in
    /// agreement with the scan.
    pub closed spec fn wf(&self) -> bool {
        &&& moves_sorted(self.moves@)
        &&& moves_wf(self.moves@)
        &&& cache_consistent(self.position_cache@, self.moves@)
    }

    /// An empty track with no moves.
    pub fn new() -> (c: Camera)
        ensures
            c@ == Seq::<CameraMove>::empty(),
            c.wf(),
    {
        let c = Camera { moves: Vec::new(), position_cache: HashMap::new() };
        proof {
            assert(c.moves@ =~= Seq::<CameraMove>::empty());
        }
        c
    }

    /// Appends a move; the caller supplies moves in ascending tick
    /// order. Existing cache entries stay valid: they all concern ticks
    /// strictly before the previous last move, which the new move (at
    /// or after that tick) cannot affect.
    pub fn add_move(&mut self, m: CameraMove)
        requires
            old(self).wf(),
            pos_wf(m.to),
            old(self)@.len() > 0 ==> old(self)@.last().on_tick <= m.on_tick,
        ensures
            final(self)@ == old(self)@.push(m),
            final(self).wf(),
    {
        proof {
            lemma_push_future_move_preserves_cache(
                self.position_cache@,
                self.moves@,
                m,
            );
        }
        self.moves.push(m);
        proof {
            assert(self.moves@ =~= old(self).moves@.push(m));
        }
    }

    /// Number of moves on this track.
    pub fn move_count(&self) -> (n: usize)
        ensures
            n == self@.len(),
    {
        self.moves.len()
    }

    /// The move at insertion position `i`.
    pub fn move_at(&self, i: usize) -> (m: CameraMove)
        requires
            i < self@.len(),
        ensures
            m == self@[i as int],
    {
        self.moves[i]
    }

    /// The waypoint active at `tick`, or nothing if the track has no
    /// move at or before `tick`. A cache hit and the uncached reverse
    /// scan return the same value — the result depends only on the
    /// moves and the tick, so repeated queries agree.
    pub fn position(&self, tick: u64) -> (r: Option<CameraPos>)
        requires
            self.wf(),
        ensures
            r == position_at_spec(self@, tick),
    {
        match self.position_cache.get(&tick) {
            Some(p) => Some(*p),
            None => {
                let mut i: usize = self.moves.len();
                while i > 0
                    invariant
                        i <= self.moves@.len(),
                        forall|j: int| i <= j < self.moves@.len() ==> self.moves@[j].on_tick > tick,
                    decreases i,
                {
                    i = i - 1;
                    if self.moves[i].on_tick <= tick {
                        proof {
                            lemma_position_at_found(self.moves@, tick, i as int);
                        }
                        return Some(self.moves[i].to);
                    }
                }
                proof {
                    lemma_position_at_none(self.moves@, tick);
                }
                None
            },
        }
    }

    /// The viewport rectangle covered at `tick`: the active waypoint's
    /// rectangle, or nothing if the camera does not exist yet at that
    /// tick.
    pub fn rect_at(&self, tick: u64) -> (r: Option<Rect>)
        requires
            self.wf(),
        ensures
            match r {
                Some(rect) => position_at_spec(self@, tick) matches Some(p) && rect == p.rect,
                None => position_at_spec(self@, tick) is None,
            },
    {
        match self.position(tick) {
            Some(p) => Some(p.rect()),
            None => None,
        }
    }
}

/// If moves at or after position `i` are all in the future of `tick`
/// except `ms[i]` itself, the scan answers with `ms[i]`.
proof fn lemma_position_at_found(ms: Seq<CameraMove>, tick: u64, i: int)
    requires
        0 <= i < ms.len(),
        ms[i].on_tick <= tick,
        forall|j: int| i < j < ms.len() ==> ms[j].on_tick > tick,
    ensures
        position_at_spec(ms, tick) == Some(ms[i].to),
    decreases ms.len(),
{
    if i < ms.len() - 1 {
        assert(ms.drop_last()[i] == ms[i]);
        lemma_position_at_found(ms.drop_last(), tick, i);
    }
}

/// If every move is in the future of `tick`, the scan answers nothing.
proof fn lemma_position_at_none(ms: Seq<CameraMove>, tick: u64)
    requires
        forall|j: int| 0 <= j < ms.len() ==> ms[j].on_tick > tick,
    ensures
        position_at_spec(ms, tick) is None,
    decreases ms.len(),
{
    if ms.len() > 0 {
        lemma_position_at_none(ms.drop_last(), tick);
    }
}

/// Appending a move at or after the last tick does not change the
/// answer for any strictly earlier tick, so every cache entry stays
/// consistent.
proof fn lemma_push_future_move_preserves_cache(
    cache: Map<u64, CameraPos>,
    ms: Seq<CameraMove>,
    m: CameraMove,
)
    requires
        cache_consistent(cache, ms),
        ms.len() > 0 ==> ms.last().on_tick <= m.on_tick,
    ensures
        cache_consistent(cache, ms.push(m)),
{
    assert forall|t: u64| #[trigger] cache.contains_key(t) implies ms.push(m).len() > 0
        && t < ms.push(m).last().on_tick && position_at_spec(ms.push(m), t) == Some(cache[t]) by {
        assert(ms.len() > 0 && t < ms.last().on_tick);
        assert(ms.push(m).last() == m);
        assert(m.on_tick > t);
        assert(ms.push(m).drop_last() =~= ms);
    }
}

/// The pose synthesized for an event: the event's point, the
/// configured zoom, and the viewport rectangle of the configured size
/// centered on the point.
pub open spec fn make_pos_spec(e: Event, cfg: Config) -> CameraPos {
    CameraPos {
        x: e.x,
        y: e.y,
        zoom: cfg.target_zoom,
        rect: viewport_rect_spec(e.x as int, e.y as int, cfg.view_w as int, cfg.view_h as int),
    }
}

/// The move synthesized for an event: the synthesized pose, adopted at
/// the event's tick.
pub open spec fn make_move_spec(e: Event, cfg: Config) -> CameraMove {
    CameraMove { to: make_pos_spec(e, cfg), on_tick: e.tick }
}

/// Squared doubled distance from the event's point to the track's
/// viewport at the event's tick; nothing while the track is unborn at
/// that tick (it has no move at or before it).
pub open spec fn track_event_dist_sq(ms: Seq<CameraMove>, e: Event) -> Option<int> {
    match position_at_spec(ms, e.tick) {
        None => None,
        Some(p) => Some(dist_sq(e.x as int, e.y as int, p.rect)),
    }
}

/// `a` is strictly closer than `b`; an unborn track (`None`) is
/// infinitely far, never strictly closer than anything.
pub open spec fn closer(a: Option<int>, b: Option<int>) -> bool {
    match (a, b) {
        (Some(x), Some(y)) => x < y,
        (Some(_), None) => true,
        _ => false,
    }
}

/// First index among `cams[0..n]` whose distance to the event is
/// minimal; on ties the earlier track wins.
pub open spec fn best_in_prefix(cams: Seq<Seq<CameraMove>>, e: Event, n: int) -> int
    decreases n,
{
    if n <= 1 {
        0
    } else {
        let b = best_in_prefix(cams, e, n - 1);
        if closer(track_event_dist_sq(cams[n - 1], e), track_event_dist_sq(cams[b], e)) {
            n - 1
        } else {
            b
        }
    }
}

/// First index of a closest track among all of `cams`.
pub open spec fn best_index(cams: Seq<Seq<CameraMove>>, e: Event) -> int {
    best_in_prefix(cams, e, cams.len() as int)
}

/// The distance is within the follow threshold. Distances are squared
/// doubled values, so a true distance `d` satisfies `d <= threshold`
/// exactly when the squared doubled value is at most
/// `4 * threshold * threshold`; an unborn track is never within.
pub open spec fn within_threshold(d: Option<int>, threshold: int) -> bool {
    match d {
        Some(v) => v <= 4 * threshold * threshold,
        None => false,
    }
}

/// One greedy clustering step: the event's move joins the first
/// closest track if that track's viewport at the event's tick is
/// within the follow threshold; otherwise (no track yet, all tracks
/// unborn, or all too far) it starts a new track at the end.
pub open spec fn step_spec(cams: Seq<Seq<CameraMove>>, e: Event, cfg: Config) -> Seq<
    Seq<CameraMove>,
> {
    let mv = make_move_spec(e, cfg);
    if cams.len() == 0 {
        seq![seq![mv]]
    } else {
        let b = best_index(cams, e);
        if within_threshold(track_event_dist_sq(cams[b], e), cfg.follow_threshold as int) {
            cams.update(b, cams[b].push(mv))
        } else {
            cams.push(seq![mv])
        }
    }
}

/// The whole synthesis: the fold of `step_spec` over the events in
/// order, starting from no tracks.
pub open spec fn synth_spec(events: Seq<Event>, cfg: Config) -> Seq<Seq<CameraMove>>
    decreases events.len(),
{
    if events.len() == 0 {
        Seq::<Seq<CameraMove>>::empty()
    } else {
        step_spec(synth_spec(events.drop_last(), cfg), events.last(), cfg)
    }
}

/// The answer of the scan, when there is one, is the pose of one of
/// the moves; in particular it is well formed on a well-formed track.
pub proof fn lemma_position_at_wf(ms: Seq<CameraMove>, tick: u64)
    requires
        moves_wf(ms),
    ensures
        position_at_spec(ms, tick) matches Some(p) ==> pos_wf(p),
    decreases ms.len(),
{
    if ms.len() > 0 && !(ms.last().on_tick <= tick) {
        assert(moves_wf(ms.drop_last())) by {
            assert(forall|i: int|
                0 <= i < ms.drop_last().len() ==> ms.drop_last()[i] == ms[i]);
        }
        lemma_position_at_wf(ms.drop_last(), tick);
    }
}

/// The computed optional distance stands for the spec-level one.
spec fn dist_match(d: Option<u128>, s: Option<int>) -> bool {
    match (d, s) {
        (Some(a), Some(b)) => a as int == b,
        (None, None) => true,
        _ => false,
    }
}

/// Squared doubled distance from the event's point to the camera's
/// viewport at the event's tick; nothing while the camera is unborn.
fn camera_event_distance(camera: &Camera, e: &Event) -> (d: Option<u128>)
    requires
        camera.wf(),
        event_in_world(*e),
    ensures
        dist_match(d, track_event_dist_sq(camera@, *e)),
{
    match camera.position(e.tick) {
        None => None,
        Some(pos) => {
            proof {
                lemma_position_at_wf(camera@, e.tick);
            }
            Some(point_to_rect_distance_sq(e.x, e.y, &pos.rect))
        },
    }
}

/// Partitions the event stream into camera tracks by greedy
/// single-linkage clustering with the configured follow threshold, one
/// pass in order: each event appends exactly one move, either to the
/// first closest existing track within the threshold or to a track
/// created for it. An invalid configuration is reported before any
/// work; an empty event sequence yields an empty track set.
#[verifier::loop_isolation(false)]
pub fn calculate_cameras(events: &Vec<Event>, cfg: &Config) -> (r: Result<Vec<Camera>, ConfigError>)
    requires
        events_sorted(events@),
        events_in_world(events@),
    ensures
        r is Ok <==> valid_config(*cfg),
        match r {
            Ok(cams) => {
                &&& cams@.len() == synth_spec(events@, *cfg).len()
                &&& forall|j: int|
                    0 <= j < cams@.len() ==> (#[trigger] cams@[j])@ == synth_spec(
                        events@,
                        *cfg,
                    )[j] && cams@[j].wf() && cams@[j]@.len() > 0
            },
            Err(err) => err == config_error_of(*cfg),
        },
{
    if !(cfg.view_w >= 1 && cfg.view_w <= COORD_LIMIT && cfg.view_h >= 1
        && cfg.view_h <= COORD_LIMIT) {
        return Err(ConfigError::InvalidViewport);
    }
    if !(cfg.follow_threshold >= 0 && cfg.follow_threshold <= COORD_LIMIT) {
        return Err(ConfigError::InvalidThreshold);
    }
    let t2: i64 = 2 * cfg.follow_threshold;
    proof {
        assert((t2 as u128) * (t2 as u128) <= 4_000_000_000_000_000_000u128) by (nonlinear_arith)
            requires
                0 <= t2 <= 2_000_000_000i64,
        ;
    }
    let tsq: u128 = (t2 as u128) * (t2 as u128);
    proof {
        assert(tsq == 4 * (cfg.follow_threshold as int) * (cfg.follow_threshold as int))
            by (nonlinear_arith)
            requires
                t2 == 2 * cfg.follow_threshold,
                0 <= cfg.follow_threshold <= COORD_LIMIT,
                tsq == (t2 as u128) * (t2 as u128),
                COORD_LIMIT == 1_000_000_000i64,
        ;
    }
    let mut cameras: Vec<Camera> = Vec::new();
    let mut idx: usize = 0;
    proof {
        assert(events@.take(0) =~= Seq::<Event>::empty());
    }
    while idx < events.len()
        invariant
            idx <= events@.len(),
            cameras@.len() == synth_spec(events@.take(idx as int), *cfg).len(),
            forall|j: int|
                0 <= j < cameras@.len() ==> (#[trigger] cameras@[j])@ == synth_spec(
                    events@.take(idx as int),
                    *cfg,
                )[j],
            forall|j: int| 0 <= j < cameras@.len() ==> (#[trigger] cameras@[j]).wf(),
            forall|j: int| 0 <= j < cameras@.len() ==> (#[trigger] cameras@[j])@.len() > 0,
            forall|j: int|
                0 <= j < cameras@.len() ==> idx > 0 && (#[trigger] cameras@[j])@.last().on_tick
                    <= events@[idx as int - 1].tick,
        decreases events@.len() - idx,
    {
        let e = events[idx];
        let ghost model = synth_spec(events@.take(idx as int), *cfg);
        let mut k: usize = 0;
        let mut best_idx: usize = 0;
        let mut best_dist: Option<u128> = None;
        while k < cameras.len()
            invariant
                k <= cameras@.len(),
                k == 0 ==> best_idx == 0 && best_dist is None,
                k > 0 ==> best_idx < k && best_idx == best_in_prefix(model, e, k as int)
                    && dist_match(best_dist, track_event_dist_sq(model[best_idx as int], e)),
            decreases cameras@.len() - k,
        {
            let d = camera_event_distance(&cameras[k], &e);
            let better: bool = match (d, best_dist) {
                (Some(x), Some(y)) => x < y,
                (Some(_), None) => true,
                _ => false,
            };
            proof {
                assert(cameras@[k as int]@ == model[k as int]);
                if k > 0 {
                    assert(better == closer(
                        track_event_dist_sq(model[k as int], e),
                        track_event_dist_sq(model[best_idx as int], e),
                    ));
                }
            }
            if better {
                best_idx = k;
                best_dist = d;
            }
            k += 1;
        }
        let new_pos = CameraPos::new(e.x, e.y, cfg.target_zoom, cfg.view_w, cfg.view_h);
        let cmove = CameraMove { to: new_pos, on_tick: e.tick };
        let ghost mv = make_move_spec(e, *cfg);
        proof {
            assert(cmove == mv);
        }
        let make_new: bool = if cameras.len() == 0 {
            true
        } else {
            match best_dist {
                None => true,
                Some(dv) => dv > tsq,
            }
        };
        proof {
            if cameras@.len() > 0 {
                assert(best_idx == best_index(model, e));
                assert(make_new == !within_threshold(
                    track_event_dist_sq(model[best_idx as int], e),
                    cfg.follow_threshold as int,
                ));
            }
        }
        let ghost cams_before = cameras@;
        if make_new {
            let mut c = Camera::new();
            c.add_move(cmove);
            cameras.push(c);
            proof {
                assert(c@ =~= seq![mv]);
                if model.len() == 0 {
                    assert(step_spec(model, e, *cfg) == seq![seq![mv]]);
                } else {
                    assert(step_spec(model, e, *cfg) == model.push(seq![mv]));
                }
            }
        } else {
            let mut c = cameras.remove(best_idx);
            c.add_move(cmove);
            cameras.insert(best_idx, c);
            proof {
                assert(cameras@ =~= cams_before.update(best_idx as int, c));
                assert(step_spec(model, e, *cfg) == model.update(
                    best_index(model, e),
                    model[best_index(model, e)].push(mv),
                ));
            }
        }
        proof {
            assert(events@.take(idx as int + 1).drop_last() =~= events@.take(idx as int));
            assert(events@.take(idx as int + 1).last() == e);
            assert(synth_spec(events@.take(idx as int + 1), *cfg) == step_spec(model, e, *cfg));
        }
        idx += 1;
    }
    proof {
        assert(events@.take(events@.len() as int) =~= events@);
    }
    Ok(cameras)
}

} // verus!
