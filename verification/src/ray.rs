//! One ray: its state, its trail, and the policy that decides each tick
//! whether it lives on, is captured, or escapes.

use vstd::prelude::*;
use crate::error::EngineError;
use crate::scalar::Scalar;
use crate::state::{GeodesicState, Launch, StepOutcome};
use crate::trail::{appended, Point, Trail};

verus! {

/// The pattern of `2e11`, the standard escape radius in metres.
pub const STANDARD_MAX_DISTANCE_BITS: u64 = 0x4247_4876_E800_0000;

/// The pattern of `1e8`, the standard spacing between trail points in metres.
pub const STANDARD_MIN_SPACING_BITS: u64 = 0x4197_D784_0000_0000;

/// The standard bound on the points of one trail.
pub const STANDARD_TRAIL_CAPACITY: usize = 800;

/// Where a ray stands in its life. Only `Alive` rays are integrated.
#[derive(Clone, Copy, Debug, PartialEq, Eq, Structural)]
pub enum RayStatus {
    Alive,
    Captured,
    Escaped,
}

/// The constants of the retention policy.
#[derive(Clone, Copy, Debug, PartialEq, Eq, Structural)]
pub struct Policy {
    /// A ray whose radius exceeds this has escaped.
    pub max_distance: Scalar,
    /// A position joins the trail only if it is farther than this from the
    /// newest stored point.
    pub min_spacing: Scalar,
    /// The bound on the points of each trail.
    pub trail_capacity: usize,
}

impl Policy {
    /// The standard policy: escape beyond `2e11`, trail points more than
    /// `1e8` apart, at most 800 of them.
    pub fn standard() -> (policy: Policy)
        ensures
            policy.max_distance.bits == STANDARD_MAX_DISTANCE_BITS,
            policy.min_spacing.bits == STANDARD_MIN_SPACING_BITS,
            policy.trail_capacity == STANDARD_TRAIL_CAPACITY,
    {
        Policy {
            max_distance: Scalar::from_bits(STANDARD_MAX_DISTANCE_BITS),
            min_spacing: Scalar::from_bits(STANDARD_MIN_SPACING_BITS),
            trail_capacity: STANDARD_TRAIL_CAPACITY,
        }
    }
}

/// The mathematical content of a ray.
pub struct RayView {
    pub state: GeodesicState,
    pub x: Scalar,
    pub y: Scalar,
    /// The stored points, oldest first.
    pub trail: Seq<Point>,
    /// For each stored point, the distance that was measured between it and
    /// the point stored before it at the moment it joined the trail. The
    /// entry of a point that joined an empty trail stands for no distance.
    /// This is bookkeeping for proofs: a running ray does not carry it.
    pub gaps: Seq<Scalar>,
    pub limit: nat,
    pub status: RayStatus,
}

impl RayView {
    /// The ray that a launch gives: alive, at its starting position, with the
    /// starting point appended to an empty trail.
    pub open spec fn fresh(launch: Launch, limit: nat) -> RayView {
        RayView {
            state: launch.state,
            x: launch.x,
            y: launch.y,
            trail: appended(Seq::<Point>::empty(), limit, launch.start),
            gaps: appended(Seq::<Scalar>::empty(), limit, Scalar { bits: 0 }),
            limit,
            status: RayStatus::Alive,
        }
    }

    /// The dead ray with nothing in it: every number is zero, the trail is
    /// empty with a limit of no points, and the status is `Escaped`.
    pub open spec fn husk() -> RayView {
        let zero = Scalar { bits: 0 };
        RayView {
            state: GeodesicState { r: zero, phi: zero, dr: zero, dphi: zero, e: zero, l: zero },
            x: zero,
            y: zero,
            trail: Seq::<Point>::empty(),
            gaps: Seq::<Scalar>::empty(),
            limit: 0,
            status: RayStatus::Escaped,
        }
    }

    /// The trail holds no more points than its limit, and one measured
    /// distance is on record for each of them.
    pub open spec fn wf(self) -> bool {
        self.trail.len() <= self.limit && self.gaps.len() == self.trail.len()
    }

    /// Every stored point but the oldest was measured farther than `spacing`
    /// from the point stored before it.
    pub open spec fn spaced(self, spacing: Scalar) -> bool {
        forall|i: int| 1 <= i < self.gaps.len() ==> (#[trigger] self.gaps[i]).above(spacing)
    }

    /// Whether the ray is alive.
    pub open spec fn is_alive(self) -> bool {
        self.status == RayStatus::Alive
    }

    /// The decimation rule: a stepped position joins the trail if the trail
    /// is empty or the position is more than the minimum spacing away from
    /// the newest stored point.
    pub open spec fn admits_point(self, policy: Policy, outcome: StepOutcome) -> bool {
        self.trail.len() == 0 || outcome.gap.above(policy.min_spacing)
    }

    /// One tick of this ray.
    ///
    /// A ray that is not alive stays as it is. An alive ray whose radius is
    /// at most `rs` becomes captured where it stands. Any other ray moves to
    /// the outcome of its step; if its new radius exceeds the escape radius
    /// it has escaped, and otherwise its new position joins the trail under
    /// the decimation rule.
    pub open spec fn advanced(self, rs: Scalar, policy: Policy, outcome: StepOutcome) -> RayView {
        if self.status != RayStatus::Alive {
            self
        } else if self.state.r.at_most(rs) {
            RayView { status: RayStatus::Captured, ..self }
        } else if outcome.r.above(policy.max_distance) {
            RayView {
                state: self.state.moved(outcome),
                x: outcome.x,
                y: outcome.y,
                status: RayStatus::Escaped,
                ..self
            }
        } else {
            RayView {
                state: self.state.moved(outcome),
                x: outcome.x,
                y: outcome.y,
                trail: if self.admits_point(policy, outcome) {
                    appended(self.trail, self.limit, outcome.point)
                } else {
                    self.trail
                },
                gaps: if self.admits_point(policy, outcome) {
                    appended(self.gaps, self.limit, outcome.gap)
                } else {
                    self.gaps
                },
                ..self
            }
        }
    }
}

/// A light ray.
pub struct Ray {
    state: GeodesicState,
    x: Scalar,
    y: Scalar,
    trail: Trail,
    gaps: Ghost<Seq<Scalar>>,
    status: RayStatus,
}

impl View for Ray {
    type V = RayView;

    closed spec fn view(&self) -> RayView {
        RayView {
            state: self.state,
            x: self.x,
            y: self.y,
            trail: self.trail@,
            gaps: self.gaps@,
            limit: self.trail.limit(),
            status: self.status,
        }
    }
}

impl Ray {
    /// The trail holds no more points than its limit, and one measured
    /// distance is on record for each of them.
    pub open spec fn wf(&self) -> bool {
        self@.wf()
    }

    /// Makes the ray of `launch`, with a trail bounded by `capacity` points,
    /// unless the lapse factor at its starting point is zero or negative:
    /// that point lies on or inside the horizon, and the launch is turned
    /// down as `BelowHorizon`.
    pub fn new(launch: &Launch, capacity: usize) -> (res: Result<Ray, EngineError>)
        ensures
            res is Err <==> launch.lapse.at_most(Scalar { bits: 0 }),
            res is Err ==> res->Err_0 == EngineError::BelowHorizon,
            res is Ok ==> res->Ok_0@ == RayView::fresh(*launch, capacity as nat) && res->Ok_0.wf(),
    {
        if launch.lapse.le(Scalar::zero()) {
            return Err(EngineError::BelowHorizon);
        }
        let mut trail = Trail::new(capacity);
        trail.push(launch.start);
        let gaps = Ghost(appended(Seq::<Scalar>::empty(), capacity as nat, Scalar { bits: 0 }));
        Ok(
            Ray {
                state: launch.state,
                x: launch.x,
                y: launch.y,
                trail,
                gaps,
                status: RayStatus::Alive,
            },
        )
    }

    /// A dead ray with nothing in it, to stand where a ray has been moved
    /// away: every number in it is zero, its trail is empty and can hold
    /// nothing, and its status is `Escaped`, so no tick ever changes it.
    pub(crate) fn husk() -> (ray: Ray)
        ensures
            ray@ == RayView::husk(),
            ray.wf(),
            !ray@.is_alive(),
    {
        let zero = Scalar::zero();
        Ray {
            state: GeodesicState { r: zero, phi: zero, dr: zero, dphi: zero, e: zero, l: zero },
            x: zero,
            y: zero,
            trail: Trail::new(0),
            gaps: Ghost(Seq::empty()),
            status: RayStatus::Escaped,
        }
    }

    /// The dynamical state.
    pub fn state(&self) -> (s: GeodesicState)
        ensures
            s == self@.state,
    {
        self.state
    }

    /// The Cartesian position, `(x, y)`.
    pub fn position(&self) -> (p: (Scalar, Scalar))
        ensures
            p.0 == self@.x,
            p.1 == self@.y,
    {
        (self.x, self.y)
    }

    /// The trail.
    pub fn trail(&self) -> (t: &Trail)
        ensures
            t@ == self@.trail,
            t.limit() == self@.limit,
    {
        &self.trail
    }

    /// The status.
    pub fn status(&self) -> (s: RayStatus)
        ensures
            s == self@.status,
    {
        self.status
    }

    /// Whether the ray is alive.
    pub fn is_alive(&self) -> (b: bool)
        ensures
            b == self@.is_alive(),
    {
        match self.status {
            RayStatus::Alive => true,
            _ => false,
        }
    }

    /// Whether the next tick will integrate this ray: it is alive and its
    /// radius exceeds `rs`. For any other ray the outcome handed to `step`
    /// is ignored.
    pub fn needs_step(&self, rs: Scalar) -> (b: bool)
        ensures
            b == (self@.is_alive() && !self@.state.r.at_most(rs)),
    {
        self.is_alive() && !self.state.r.le(rs)
    }

    /// Runs one tick of this ray, given what integrating its state by one
    /// step came to, and tells whether the ray is alive after it. The trail
    /// stays within its bound, and stays spaced if it was.
    pub fn step(&mut self, rs: Scalar, policy: &Policy, outcome: &StepOutcome) -> (alive: bool)
        requires
            old(self).wf(),
        ensures
            final(self).wf(),
            final(self)@ == old(self)@.advanced(rs, *policy, *outcome),
            alive == final(self)@.is_alive(),
            old(self)@.spaced(policy.min_spacing) ==> final(self)@.spaced(policy.min_spacing),
    {
        proof {
            if self@.spaced(policy.min_spacing) {
                lemma_trail_keeps_its_spacing(self@, rs, *policy, *outcome);
            }
        }
        if !self.is_alive() {
            return false;
        }
        if self.state.r.le(rs) {
            self.status = RayStatus::Captured;
            return false;
        }
        self.state = self.state.step_to(outcome);
        self.x = outcome.x;
        self.y = outcome.y;
        if outcome.r.gt(policy.max_distance) {
            self.status = RayStatus::Escaped;
            return false;
        }
        if self.trail.is_empty() || outcome.gap.gt(policy.min_spacing) {
            self.gaps = Ghost(appended(self.gaps@, self.trail.limit(), outcome.gap));
            self.trail.push(outcome.point);
        }
        true
    }
}

/// The two constants of the motion never change: whatever a tick does to a
/// ray, its `e` and `l` are those it was made with.
pub proof fn lemma_constants_are_kept(
    ray: RayView,
    rs: Scalar,
    policy: Policy,
    outcome: StepOutcome,
)
    ensures
        ray.advanced(rs, policy, outcome).state.e == ray.state.e,
        ray.advanced(rs, policy, outcome).state.l == ray.state.l,
{
}

/// A living ray is captured exactly when its radius is at most the horizon
/// radius at the start of the tick, and it is captured where it stands: the
/// step is not taken.
pub proof fn lemma_capture_is_at_the_horizon(
    ray: RayView,
    rs: Scalar,
    policy: Policy,
    outcome: StepOutcome,
)
    requires
        ray.is_alive(),
    ensures
        ray.advanced(rs, policy, outcome).status == RayStatus::Captured <==> ray.state.r.at_most(
            rs,
        ),
        ray.state.r.at_most(rs) ==> ray.advanced(rs, policy, outcome) == (RayView {
            status: RayStatus::Captured,
            ..ray
        }),
{
}

/// A living ray escapes exactly when it is outside the horizon at the start
/// of the tick and the radius it steps to exceeds the escape radius. It is
/// classified on the stepped state, which it carries as it leaves.
pub proof fn lemma_escape_is_beyond_the_limit(
    ray: RayView,
    rs: Scalar,
    policy: Policy,
    outcome: StepOutcome,
)
    requires
        ray.is_alive(),
    ensures
        ray.advanced(rs, policy, outcome).status == RayStatus::Escaped <==> !ray.state.r.at_most(
            rs,
        ) && outcome.r.above(policy.max_distance),
        ray.advanced(rs, policy, outcome).status == RayStatus::Escaped ==> ray.advanced(
            rs,
            policy,
            outcome,
        ).state.r == outcome.r && ray.advanced(rs, policy, outcome).trail == ray.trail,
{
}

/// A ray that is captured or has escaped never changes again, and so never
/// comes back to life.
pub proof fn lemma_the_dead_stay_dead(
    ray: RayView,
    rs: Scalar,
    policy: Policy,
    outcome: StepOutcome,
)
    requires
        !ray.is_alive(),
    ensures
        ray.advanced(rs, policy, outcome) == ray,
{
}

/// A tick keeps the spacing of a trail: if every stored point but the oldest
/// was measured farther than the minimum spacing from the point before it,
/// the same holds after the tick, whichever point the tick stores or evicts.
pub proof fn lemma_trail_keeps_its_spacing(
    ray: RayView,
    rs: Scalar,
    policy: Policy,
    outcome: StepOutcome,
)
    requires
        ray.wf(),
        ray.spaced(policy.min_spacing),
    ensures
        ray.advanced(rs, policy, outcome).spaced(policy.min_spacing),
{
    let after = ray.advanced(rs, policy, outcome);
    assert forall|i: int| 1 <= i < after.gaps.len() implies (#[trigger] after.gaps[i]).above(
        policy.min_spacing,
    ) by {
        if after.gaps != ray.gaps {
            let grown = ray.gaps.push(outcome.gap);
            if grown.len() > ray.limit {
                assert(after.gaps[i] == grown[i + 1]);
            } else {
                assert(after.gaps[i] == grown[i]);
            }
        }
    }
}

/// A ray fresh from its launch has at most one stored point, so nothing in
/// its trail is closer to its predecessor than any spacing.
pub proof fn lemma_fresh_trail_is_spaced(launch: Launch, limit: nat, spacing: Scalar)
    ensures
        RayView::fresh(launch, limit).wf(),
        RayView::fresh(launch, limit).spaced(spacing),
{
}

/// A tick keeps the bound of a trail and never takes the trail past it.
pub proof fn lemma_trail_stays_bounded(
    ray: RayView,
    rs: Scalar,
    policy: Policy,
    outcome: StepOutcome,
)
    requires
        ray.wf(),
    ensures
        ray.advanced(rs, policy, outcome).wf(),
        ray.advanced(rs, policy, outcome).limit == ray.limit,
{
}

/// A tick changes a trail in one way only: it appends the stepped position,
/// and it does so only for a ray that lives on, and only if the trail was
/// empty or the position was measured more than the minimum spacing from
/// the newest stored point. In every other case the trail is what it was.
pub proof fn lemma_trail_takes_only_spaced_points(
    ray: RayView,
    rs: Scalar,
    policy: Policy,
    outcome: StepOutcome,
)
    ensures
        ray.advanced(rs, policy, outcome).trail == if ray.is_alive() && !ray.state.r.at_most(rs)
            && !outcome.r.above(policy.max_distance) && (ray.trail.len() == 0
            || outcome.gap.above(policy.min_spacing)) {
            appended(ray.trail, ray.limit, outcome.point)
        } else {
            ray.trail
        },
        ray.advanced(rs, policy, outcome).trail != ray.trail ==> ray.advanced(
            rs,
            policy,
            outcome,
        ).gaps == appended(ray.gaps, ray.limit, outcome.gap),
{
}

} // verus!
