use vstd::prelude::*;
use crate::shapes::{ShapeKind, ShapeTag};
use crate::tracer::TraceHit;

verus! {

/// How the outgoing direction is computed after a marching pass.
#[derive(Clone, Copy, Debug, PartialEq, Eq, Structural)]
pub enum BounceRule {
    /// Mirror the incoming vector about the normal of the line struck.
    MirrorLine,
    /// Mirror the incoming vector about the radial normal of the circle struck.
    MirrorCircle,
    /// Refract through the medium's boundary; leaving a medium swaps the two
    /// indices and keeps the boundary normal, entering one negates it. Where
    /// no refracted ray exists, mirror about the boundary normal instead.
    Refract { leaving: bool },
}

pub open spec fn bounce_rule_of(hit: TraceHit) -> Option<BounceRule> {
    match hit.shape {
        None => None,
        Some(s) => Some(
            match s.kind {
                ShapeKind::Line => BounceRule::MirrorLine,
                ShapeKind::Circle => BounceRule::MirrorCircle,
                ShapeKind::Medium => BounceRule::Refract { leaving: hit.is_leaving },
            },
        ),
    }
}

/// Which computation gives the new direction after `hit`; `None` when the
/// ray escaped and keeps its direction.
pub fn bounce_rule(hit: &TraceHit) -> (r: Option<BounceRule>)
    ensures
        r == bounce_rule_of(*hit),
{
    match hit.shape {
        None => None,
        Some(s) => Some(
            match s.kind {
                ShapeKind::Line => BounceRule::MirrorLine,
                ShapeKind::Circle => BounceRule::MirrorCircle,
                ShapeKind::Medium => BounceRule::Refract { leaving: hit.is_leaving },
            },
        ),
    }
}

/// The abstract state of a multi-bounce trace: the path so far, the bounce
/// budget, the obstacle to pass through at the start of the next pass, and
/// whether the next pass starts inside a medium.
pub struct PathModel<P> {
    pub points: Seq<P>,
    pub bounces: nat,
    pub last_shape: Option<ShapeTag>,
    pub is_inside_medium: bool,
}

impl<P> PathModel<P> {
    /// A fresh trace: the path holds the origin alone.
    pub open spec fn start(origin: P, bounces: nat) -> PathModel<P> {
        PathModel { points: seq![origin], bounces, last_shape: None, is_inside_medium: false }
    }

    /// How many passes have been recorded.
    pub open spec fn recorded(self) -> int {
        self.points.len() - 1
    }

    pub open spec fn is_complete(self) -> bool {
        self.recorded() == self.bounces
    }

    /// Records the end of one pass at `point`: after leaving a medium there
    /// is nothing to pass through and the ray is outside; after any other
    /// pass the obstacle reached is passed through next and the ray counts
    /// as inside.
    pub open spec fn record(self, hit: TraceHit, point: P) -> PathModel<P> {
        PathModel {
            points: self.points.push(point),
            bounces: self.bounces,
            last_shape: if hit.is_leaving { None } else { hit.shape },
            is_inside_medium: !hit.is_leaving,
        }
    }

    /// The state after recording each pass of `passes` in turn.
    pub open spec fn record_all(self, passes: Seq<(TraceHit, P)>) -> PathModel<P>
        decreases passes.len(),
    {
        if passes.len() == 0 {
            self
        } else {
            self.record_all(passes.drop_last()).record(passes.last().0, passes.last().1)
        }
    }
}

/// A path of `bounces` passes always ends with exactly `bounces + 1` points,
/// whatever each pass struck, left or escaped.
pub proof fn lemma_path_length<P>(origin: P, bounces: nat, passes: Seq<(TraceHit, P)>)
    requires
        passes.len() == bounces,
    ensures
        PathModel::start(origin, bounces).record_all(passes).points.len() == bounces + 1,
        PathModel::start(origin, bounces).record_all(passes).is_complete(),
        PathModel::start(origin, bounces).record_all(passes).points[0] == origin,
    decreases passes.len(),
{
    lemma_record_all_len(PathModel::start(origin, bounces), passes);
}

proof fn lemma_record_all_len<P>(m: PathModel<P>, passes: Seq<(TraceHit, P)>)
    requires
        m.points.len() >= 1,
    ensures
        m.record_all(passes).points.len() == m.points.len() + passes.len(),
        m.record_all(passes).bounces == m.bounces,
        m.record_all(passes).points[0] == m.points[0],
    decreases passes.len(),
{
    if passes.len() > 0 {
        lemma_record_all_len(m, passes.drop_last());
    }
}

/// The state of one ray's multi-bounce trace, with its path.
pub struct BouncePath<P> {
    points: Vec<P>,
    bounces: u32,
    last_shape: Option<ShapeTag>,
    is_inside_medium: bool,
}

impl<P> View for BouncePath<P> {
    type V = PathModel<P>;

    closed spec fn view(&self) -> PathModel<P> {
        PathModel {
            points: self.points@,
            bounces: self.bounces as nat,
            last_shape: self.last_shape,
            is_inside_medium: self.is_inside_medium,
        }
    }
}

impl<P> BouncePath<P> {
    /// The path never holds more than one point per pass plus the origin.
    pub open spec fn wf(&self) -> bool {
        1 <= self@.points.len() <= self@.bounces + 1
    }

    pub fn new(origin: P, bounces: u32) -> (r: Self)
        ensures
            r@ == PathModel::start(origin, bounces as nat),
            r.wf(),
    {
        let mut points: Vec<P> = Vec::new();
        points.push(origin);
        let r = BouncePath { points, bounces, last_shape: None, is_inside_medium: false };
        assert(r@.points =~= seq![origin]);
        r
    }

    pub fn is_complete(&self) -> (r: bool)
        requires
            self.wf(),
        ensures
            r == self@.is_complete(),
    {
        proof {
            lemma_wf_len(self);
        }
        self.points.len() - 1 == self.bounces as usize
    }

    /// The obstacle the next pass passes through.
    pub fn last_shape(&self) -> (r: Option<ShapeTag>)
        ensures
            r == self@.last_shape,
    {
        self.last_shape
    }

    /// Whether the next pass starts inside a medium.
    pub fn is_inside_medium(&self) -> (r: bool)
        ensures
            r == self@.is_inside_medium,
    {
        self.is_inside_medium
    }

    /// Records the end of one pass; the path gains `point`.
    pub fn record(&mut self, hit: TraceHit, point: P)
        requires
            old(self).wf(),
            !old(self)@.is_complete(),
        ensures
            final(self)@ == old(self)@.record(hit, point),
            final(self).wf(),
    {
        self.points.push(point);
        self.last_shape = if hit.is_leaving { None } else { hit.shape };
        self.is_inside_medium = !hit.is_leaving;
    }

    /// The path's points, origin first.
    pub fn points(&self) -> (r: &Vec<P>)
        ensures
            r@ == self@.points,
    {
        &self.points
    }
}

proof fn lemma_wf_len<P>(p: &BouncePath<P>)
    requires
        p.wf(),
    ensures
        1 <= p.points@.len() <= p.bounces + 1,
{
}

} // verus!
