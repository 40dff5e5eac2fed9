use vstd::prelude::*;
use crate::shapes::{ShapeKind, ShapeTag};

verus! {

/// What one increment of the marching cursor decides.
#[derive(Clone, Copy, Debug, PartialEq, Eq, Structural)]
pub enum StepVerdict {
    /// Nothing to report: keep marching.
    Advance,
    /// The cursor struck this obstacle.
    Struck(ShapeTag),
    /// The cursor left this medium.
    Exited(ShapeTag),
}

/// The medium a pass starts out crossing: the one last bounced off, if that
/// was a medium.
pub open spec fn crossing_of(last: Option<ShapeTag>) -> Option<ShapeTag> {
    match last {
        Some(m) => if m.kind == ShapeKind::Medium {
            Some(m)
        } else {
            None
        },
        None => None,
    }
}

/// A medium being crossed is a medium, if there is one.
pub open spec fn is_crossing(medium: Option<ShapeTag>) -> bool {
    match medium {
        Some(m) => m.kind == ShapeKind::Medium,
        None => true,
    }
}

/// The rule of one marching step. `last` is the obstacle the ray most
/// recently bounced off, `medium` the medium it is crossing, `inside` says
/// whether the ray is marked inside a medium, and `hit` is the first
/// obstacle of the scene that holds the cursor after the increment.
/// Yields the updated `medium` and the verdict.
/// - A medium met while inside is passed through and becomes the medium
///   being crossed, unless it differs from the one already being crossed.
/// - The obstacle last bounced off is passed through.
/// - Any other obstacle is struck.
/// - Open space while inside a medium being crossed means the ray has left it.
pub open spec fn step_rule(
    last: Option<ShapeTag>,
    medium: Option<ShapeTag>,
    inside: bool,
    hit: Option<ShapeTag>,
) -> (Option<ShapeTag>, StepVerdict) {
    match hit {
        Some(s) => if s.kind == ShapeKind::Medium && inside && (medium is None || medium == Some(s)) {
            (Some(s), StepVerdict::Advance)
        } else if last == Some(s) {
            (medium, StepVerdict::Advance)
        } else {
            (medium, StepVerdict::Struck(s))
        },
        None => match medium {
            Some(m) => if inside {
                (medium, StepVerdict::Exited(m))
            } else {
                (medium, StepVerdict::Advance)
            },
            None => (medium, StepVerdict::Advance),
        },
    }
}

/// The medium a pass starts out crossing.
pub fn crossing_start(last_shape: Option<ShapeTag>) -> (r: Option<ShapeTag>)
    ensures
        r == crossing_of(last_shape),
{
    match last_shape {
        Some(m) => if m.kind == ShapeKind::Medium {
            Some(m)
        } else {
            None
        },
        None => None,
    }
}

/// Applies the rule of one marching step, updating `medium` in place.
pub fn march_step(
    medium: &mut Option<ShapeTag>,
    last_shape: Option<ShapeTag>,
    is_inside_medium: bool,
    hit: Option<ShapeTag>,
) -> (r: StepVerdict)
    ensures
        (*final(medium), r) == step_rule(last_shape, *old(medium), is_inside_medium, hit),
{
    match hit {
        Some(s) => {
            if s.kind == ShapeKind::Medium && is_inside_medium {
                let same = match medium {
                    Some(m) => m.compare(&s),
                    None => true,
                };
                if same {
                    *medium = Some(s);
                    return StepVerdict::Advance;
                }
            }
            match last_shape {
                Some(l) => {
                    if l.compare(&s) {
                        return StepVerdict::Advance;
                    }
                },
                None => {},
            }
            StepVerdict::Struck(s)
        },
        None => match medium {
            Some(m) => {
                if is_inside_medium {
                    StepVerdict::Exited(*m)
                } else {
                    StepVerdict::Advance
                }
            },
            None => StepVerdict::Advance,
        },
    }
}

/// How one marching pass ended.
#[derive(Clone, Copy, Debug, PartialEq, Eq, Structural)]
pub struct TraceHit {
    /// The obstacle struck or left; `None` when the ray escaped.
    pub shape: Option<ShapeTag>,
    /// How many increments the cursor had taken when the pass ended.
    pub steps: usize,
    /// Whether the pass ended by leaving a medium.
    pub is_leaving: bool,
}

/// How a pass ends at increment `steps` with `verdict`; `None` while it goes on.
pub open spec fn pass_end_of(verdict: StepVerdict, steps: usize) -> Option<TraceHit> {
    match verdict {
        StepVerdict::Advance => None,
        StepVerdict::Struck(s) => Some(TraceHit { shape: Some(s), steps, is_leaving: false }),
        StepVerdict::Exited(m) => Some(TraceHit { shape: Some(m), steps, is_leaving: true }),
    }
}

/// How a pass ends at increment `steps` with `verdict`; `None` while it goes on.
pub fn pass_end(verdict: StepVerdict, steps: usize) -> (r: Option<TraceHit>)
    ensures
        r == pass_end_of(verdict, steps),
{
    match verdict {
        StepVerdict::Advance => None,
        StepVerdict::Struck(s) => Some(TraceHit { shape: Some(s), steps, is_leaving: false }),
        StepVerdict::Exited(m) => Some(TraceHit { shape: Some(m), steps, is_leaving: true }),
    }
}

/// The outcome of marching over `probes` from position `i` on, with `last`,
/// `medium` and `inside` as in `step_rule`. `probes[k]` is the first obstacle
/// holding the cursor after increment `k + 1`.
pub open spec fn trace_from(
    probes: Seq<Option<ShapeTag>>,
    i: int,
    last: Option<ShapeTag>,
    medium: Option<ShapeTag>,
    inside: bool,
) -> TraceHit
    decreases probes.len() - i,
{
    if i < 0 || i >= probes.len() {
        TraceHit { shape: None, steps: probes.len() as usize, is_leaving: false }
    } else {
        let (next, verdict) = step_rule(last, medium, inside, probes[i]);
        match pass_end_of(verdict, (i + 1) as usize) {
            None => trace_from(probes, i + 1, last, next, inside),
            Some(h) => h,
        }
    }
}

/// What holds of every pass: an obstacle struck is never the one last
/// bounced off, and a pass ends by leaving only a medium, only when the ray
/// was inside one.
proof fn lemma_trace_from(
    probes: Seq<Option<ShapeTag>>,
    i: int,
    last: Option<ShapeTag>,
    medium: Option<ShapeTag>,
    inside: bool,
)
    requires
        0 <= i,
        is_crossing(medium),
    ensures
        ({
            let r = trace_from(probes, i, last, medium, inside);
            &&& (r.shape is Some && !r.is_leaving) ==> last != r.shape
            &&& r.is_leaving ==> inside && r.shape is Some && r.shape->0.kind == ShapeKind::Medium
            &&& r.shape is None ==> !r.is_leaving
        }),
    decreases probes.len() - i,
{
    if i < probes.len() {
        let (next, verdict) = step_rule(last, medium, inside, probes[i]);
        if verdict == StepVerdict::Advance {
            lemma_trace_from(probes, i + 1, last, next, inside);
        }
    }
}

/// One marching pass over the measured probes: the first step whose verdict
/// is not `Advance` ends it; with none, the ray escapes after every probe.
/// An obstacle struck is never `last_shape`, and the pass ends by leaving a
/// medium only when the ray is inside one.
pub fn ray_trace(probes: &Vec<Option<ShapeTag>>, last_shape: Option<ShapeTag>, is_inside_medium: bool) -> (r:
    TraceHit)
    ensures
        r == trace_from(probes@, 0, last_shape, crossing_of(last_shape), is_inside_medium),
        (r.shape is Some && !r.is_leaving) ==> last_shape != r.shape,
        r.is_leaving ==> is_inside_medium && r.shape is Some && r.shape->0.kind == ShapeKind::Medium,
        r.shape is None ==> !r.is_leaving && r.steps == probes@.len(),
{
    let mut medium = crossing_start(last_shape);
    let mut i: usize = 0;
    while i < probes.len()
        invariant
            i <= probes@.len(),
            trace_from(probes@, i as int, last_shape, medium, is_inside_medium) == trace_from(
                probes@,
                0,
                last_shape,
                crossing_of(last_shape),
                is_inside_medium,
            ),
        decreases probes@.len() - i,
    {
        let ghost before = medium;
        let verdict = march_step(&mut medium, last_shape, is_inside_medium, probes[i]);
        match pass_end(verdict, i + 1) {
            Some(h) => {
                proof {
                    assert(h == trace_from(probes@, i as int, last_shape, before, is_inside_medium));
                    lemma_trace_from(probes@, 0, last_shape, crossing_of(last_shape), is_inside_medium);
                }
                return h;
            },
            None => {},
        }
        i = i + 1;
    }
    TraceHit { shape: None, steps: probes.len(), is_leaving: false }
}

} // verus!
