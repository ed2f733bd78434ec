//! The set of live rays: batch spawning, the per-tick pass over every ray,
//! and the retention of the survivors.

use vstd::prelude::*;
use crate::mass::Mass;
use crate::ray::{
    lemma_fresh_trail_is_spaced, lemma_trail_keeps_its_spacing, Policy, Ray, RayView,
};
use crate::scalar::Scalar;
use crate::state::{Launch, StepOutcome};

verus! {

/// The views of a sequence of rays, in order.
pub open spec fn views(rays: Seq<Ray>) -> Seq<RayView> {
    rays.map_values(|ray: Ray| ray@)
}

/// Whether a launch starts outside the horizon: its lapse factor is not zero
/// or negative.
pub open spec fn admissible(launch: Launch) -> bool {
    !launch.lapse.at_most(Scalar { bits: 0 })
}

/// What holds of every ray that a set under `policy` keeps: it is alive, its
/// trail is bounded as the policy says, and the stored points keep their
/// spacing.
pub open spec fn sound(ray: RayView, policy: Policy) -> bool {
    &&& ray.is_alive()
    &&& ray.wf()
    &&& ray.limit == policy.trail_capacity
    &&& ray.spaced(policy.min_spacing)
}

/// The rays that a batch of launches gives: one fresh ray for each admissible
/// launch, in the order of the batch. The other launches are passed over.
pub open spec fn spawned(launches: Seq<Launch>, limit: nat) -> Seq<RayView> {
    launches.filter(|launch: Launch| admissible(launch)).map_values(
        |launch: Launch| RayView::fresh(launch, limit),
    )
}

/// Every ray after one tick of its own, ray `i` with outcome `i`.
pub open spec fn stepped(
    rays: Seq<RayView>,
    rs: Scalar,
    policy: Policy,
    outcomes: Seq<StepOutcome>,
) -> Seq<RayView> {
    Seq::new(rays.len(), |i: int| rays[i].advanced(rs, policy, outcomes[i]))
}

/// The rays that are still alive, in their order.
pub open spec fn survivors(rays: Seq<RayView>) -> Seq<RayView> {
    rays.filter(|ray: RayView| ray.is_alive())
}

/// What a set holds after one tick: every ray is advanced, then only the
/// living are kept.
pub open spec fn ticked(
    rays: Seq<RayView>,
    rs: Scalar,
    policy: Policy,
    outcomes: Seq<StepOutcome>,
) -> Seq<RayView> {
    survivors(stepped(rays, rs, policy, outcomes))
}

/// All rays in flight around one mass. Its view is the rays in iteration
/// order.
pub struct RaySet {
    rays: Vec<Ray>,
    mass: Mass,
    policy: Policy,
}

impl View for RaySet {
    type V = Seq<RayView>;

    closed spec fn view(&self) -> Seq<RayView> {
        views(self.rays@)
    }
}

impl RaySet {
    /// The mass the rays move around.
    pub closed spec fn body(&self) -> Mass {
        self.mass
    }

    /// The retention policy.
    pub closed spec fn rules(&self) -> Policy {
        self.policy
    }

    /// Every ray in the set is alive, its trail is within the bound that the
    /// policy sets, and every stored point but the oldest was measured
    /// farther than the policy's minimum spacing from the point before it.
    pub open spec fn wf(&self) -> bool {
        forall|i: int| 0 <= i < self@.len() ==> sound(#[trigger] self@[i], self.rules())
    }

    /// An empty set around `mass`.
    pub fn new(mass: Mass, policy: Policy) -> (set: RaySet)
        ensures
            set.wf(),
            set@ == Seq::<RayView>::empty(),
            set.body() == mass,
            set.rules() == policy,
    {
        let set = RaySet { rays: Vec::new(), mass, policy };
        assert(views(set.rays@) =~= Seq::<RayView>::empty());
        set
    }

    /// The mass the rays move around.
    pub fn mass(&self) -> (mass: Mass)
        ensures
            mass == self.body(),
    {
        self.mass
    }

    /// The retention policy.
    pub fn policy(&self) -> (policy: Policy)
        ensures
            policy == self.rules(),
    {
        self.policy
    }

    /// The number of rays in flight.
    pub fn len(&self) -> (n: usize)
        ensures
            n == self@.len(),
    {
        self.rays.len()
    }

    /// Whether no ray is in flight.
    pub fn is_empty(&self) -> (b: bool)
        ensures
            b == (self@.len() == 0),
    {
        self.rays.len() == 0
    }

    /// The rays in flight, in iteration order, for reading.
    pub fn rays(&self) -> (all: &Vec<Ray>)
        ensures
            views(all@) == self@,
    {
        &self.rays
    }

    /// Adds one ray for each admissible launch of the batch, in order, and
    /// reports how many were added. A launch on or inside the horizon is
    /// passed over; it does not stop the batch.
    pub fn spawn(&mut self, launches: &Vec<Launch>) -> (added: usize)
        requires
            old(self).wf(),
        ensures
            final(self).wf(),
            final(self).body() == old(self).body(),
            final(self).rules() == old(self).rules(),
            final(self)@ == old(self)@ + spawned(
                launches@,
                old(self).rules().trail_capacity as nat,
            ),
            added == spawned(launches@, old(self).rules().trail_capacity as nat).len(),
    {
        let ghost limit = self.policy.trail_capacity as nat;
        let ghost before = self@;
        let ghost keep = |launch: Launch| admissible(launch);
        let ghost make = |launch: Launch| RayView::fresh(launch, limit);
        let mut added: usize = 0;
        let mut i: usize = 0;
        assert(launches@.take(0) =~= Seq::<Launch>::empty());
        assert(self@ =~= before + spawned(launches@.take(0), limit)) by {
            reveal(Seq::filter);
        }
        while i < launches.len()
            invariant
                i <= launches@.len(),
                self.wf(),
                self.mass == old(self).mass,
                self.policy == old(self).policy,
                limit == self.policy.trail_capacity as nat,
                before == old(self)@,
                keep == (|launch: Launch| admissible(launch)),
                make == (|launch: Launch| RayView::fresh(launch, limit)),
                self@ == before + spawned(launches@.take(i as int), limit),
                added == spawned(launches@.take(i as int), limit).len(),
                added <= i,
            decreases launches@.len() - i,
        {
            let ghost seen = launches@.take(i as int);
            let ghost launch = launches@[i as int];
            proof {
                assert(launches@.take(i + 1) =~= seen.push(launch));
                seen.lemma_filter_push(launch, keep);
            }
            match Ray::new(&launches[i], self.policy.trail_capacity) {
                Ok(ray) => {
                    proof {
                        lemma_fresh_trail_is_spaced(launch, limit, self.policy.min_spacing);
                        assert(seen.push(launch).filter(keep).map_values(make) =~= seen.filter(
                            keep,
                        ).map_values(make).push(ray@));
                        assert(views(self.rays@.push(ray)) =~= views(self.rays@).push(ray@));
                    }
                    self.rays.push(ray);
                    added = added + 1;
                },
                Err(_) => {},
            }
            i = i + 1;
        }
        assert(launches@.take(launches@.len() as int) =~= launches@);
        added
    }

    /// Runs one tick: ray `i` is advanced with outcome `i`, and the rays that
    /// are no longer alive after that leave the set. The survivors keep their
    /// order.
    pub fn tick(&mut self, outcomes: &Vec<StepOutcome>)
        requires
            old(self).wf(),
            outcomes@.len() == old(self)@.len(),
        ensures
            final(self).wf(),
            final(self).body() == old(self).body(),
            final(self).rules() == old(self).rules(),
            final(self)@ == ticked(
                old(self)@,
                old(self).body().horizon(),
                old(self).rules(),
                outcomes@,
            ),
    {
        let rs = self.mass.schwarzschild_radius();
        let policy = self.policy;
        let ghost before = self@;
        let ghost after = stepped(before, rs, policy, outcomes@);
        let ghost alive = |ray: RayView| ray.is_alive();
        let count: usize = self.rays.len();
        let mut kept: usize = 0;
        let mut i: usize = 0;
        assert(after.take(0) =~= Seq::<RayView>::empty());
        assert(views(self.rays@.take(0)) =~= survivors(after.take(0))) by {
            reveal(Seq::filter);
        }
        while i < count
            invariant
                kept <= i <= count,
                self.rays@.len() == count,
                self.mass == old(self).mass,
                self.policy == old(self).policy,
                policy == self.policy,
                outcomes@.len() == count,
                before.len() == count,
                after == stepped(before, rs, policy, outcomes@),
                alive == (|ray: RayView| ray.is_alive()),
                forall|j: int| 0 <= j < count ==> sound(#[trigger] before[j], policy),
                forall|j: int| i <= j < count ==> (#[trigger] self.rays@[j])@ == before[j],
                views(self.rays@.take(kept as int)) == survivors(after.take(i as int)),
                forall|j: int| 0 <= j < kept ==> sound((#[trigger] self.rays@[j])@, policy),
            decreases count - i,
        {
            let ghost done = after.take(i as int);
            let ghost front = self.rays@.take(kept as int);
            let alive_now = self.rays[i].step(rs, &policy, &outcomes[i]);
            let ghost moved = self.rays@[i as int];
            proof {
                lemma_trail_keeps_its_spacing(before[i as int], rs, policy, outcomes@[i as int]);
                assert(moved@ == after[i as int]);
                assert(after.take(i + 1) =~= done.push(moved@));
                done.lemma_filter_push(moved@, alive);
                assert(self.rays@.take(kept as int) =~= front);
            }
            if alive_now {
                if kept != i {
                    let mut hole = Ray::husk();
                    core::mem::swap(&mut self.rays[i], &mut hole);
                    core::mem::swap(&mut self.rays[kept], &mut hole);
                }
                proof {
                    assert(self.rays@.take(kept + 1) =~= front.push(moved));
                    assert(views(front.push(moved)) =~= views(front).push(moved@));
                }
                kept = kept + 1;
            }
            i = i + 1;
        }
        assert(after.take(count as int) =~= after);
        self.rays.truncate(kept);
    }
}

/// What a set holds after a run of ticks, one batch of outcomes for each.
pub open spec fn replayed(
    rays: Seq<RayView>,
    rs: Scalar,
    policy: Policy,
    script: Seq<Seq<StepOutcome>>,
) -> Seq<RayView>
    decreases script.len(),
{
    if script.len() == 0 {
        rays
    } else {
        ticked(replayed(rays, rs, policy, script.drop_last()), rs, policy, script.last())
    }
}

/// After a tick every ray in the set is alive: a ray that was captured or
/// has escaped in that tick is in no later snapshot. Each ray that is there
/// is the advance of a ray that was alive before the tick, and the set has
/// not grown.
pub proof fn lemma_tick_keeps_only_the_living(
    rays: Seq<RayView>,
    rs: Scalar,
    policy: Policy,
    outcomes: Seq<StepOutcome>,
)
    requires
        outcomes.len() == rays.len(),
    ensures
        ticked(rays, rs, policy, outcomes).len() <= rays.len(),
        forall|j: int|
            0 <= j < ticked(rays, rs, policy, outcomes).len() ==> (#[trigger] ticked(
                rays,
                rs,
                policy,
                outcomes,
            )[j]).is_alive(),
        forall|j: int|
            0 <= j < ticked(rays, rs, policy, outcomes).len() ==> exists|i: int|
                0 <= i < rays.len() && rays[i].is_alive() && (#[trigger] ticked(
                    rays,
                    rs,
                    policy,
                    outcomes,
                )[j]) == rays[i].advanced(rs, policy, outcomes[i]),
{
    let after = stepped(rays, rs, policy, outcomes);
    let alive = |ray: RayView| ray.is_alive();
    let kept = ticked(rays, rs, policy, outcomes);
    after.lemma_filter_len(alive);
    assert forall|j: int| 0 <= j < kept.len() implies exists|i: int|
        0 <= i < rays.len() && rays[i].is_alive() && (#[trigger] kept[j]) == rays[i].advanced(
            rs,
            policy,
            outcomes[i],
        ) by {
        after.lemma_filter_pred(alive, j);
        assert(kept.contains(kept[j]));
        after.lemma_filter_contains_rev(alive, kept[j]);
        let i = choose|i: int| 0 <= i < after.len() && after[i] == kept[j];
        assert(rays[i].is_alive());
    }
}

/// A tick never takes a trail past the bound it was made with, and never
/// brings two stored points closer together than the minimum spacing: in
/// every ray that is in the set after the tick, the trail is within its
/// bound and every stored point but the oldest was measured farther than
/// the spacing from the point before it.
pub proof fn lemma_tick_keeps_trails_bounded_and_spaced(
    rays: Seq<RayView>,
    rs: Scalar,
    policy: Policy,
    outcomes: Seq<StepOutcome>,
)
    requires
        outcomes.len() == rays.len(),
        forall|i: int| 0 <= i < rays.len() ==> sound(#[trigger] rays[i], policy),
    ensures
        forall|j: int|
            0 <= j < ticked(rays, rs, policy, outcomes).len() ==> sound(
                #[trigger] ticked(rays, rs, policy, outcomes)[j],
                policy,
            ),
{
    let after = stepped(rays, rs, policy, outcomes);
    let alive = |ray: RayView| ray.is_alive();
    let kept = ticked(rays, rs, policy, outcomes);
    assert forall|j: int| 0 <= j < kept.len() implies sound(#[trigger] kept[j], policy) by {
        after.lemma_filter_pred(alive, j);
        assert(kept.contains(kept[j]));
        after.lemma_filter_contains_rev(alive, kept[j]);
        let i = choose|i: int| 0 <= i < after.len() && after[i] == kept[j];
        assert(sound(rays[i], policy));
        lemma_trail_keeps_its_spacing(rays[i], rs, policy, outcomes[i]);
    }
}

/// Spawning adds only rays that are alive, within the bound and spaced.
pub proof fn lemma_spawned_rays_are_sound(launches: Seq<Launch>, policy: Policy)
    ensures
        forall|j: int|
            0 <= j < spawned(launches, policy.trail_capacity as nat).len() ==> sound(
                #[trigger] spawned(launches, policy.trail_capacity as nat)[j],
                policy,
            ),
{
    let limit = policy.trail_capacity as nat;
    let admitted = launches.filter(|launch: Launch| admissible(launch));
    assert forall|j: int| 0 <= j < spawned(launches, limit).len() implies sound(
        #[trigger] spawned(launches, limit)[j],
        policy,
    ) by {
        lemma_fresh_trail_is_spaced(admitted[j], limit, policy.min_spacing);
    }
}

/// Rays do not act on one another: ticking two groups of rays as one set
/// gives what ticking each group alone gives, one after the other.
pub proof fn lemma_rays_are_independent(
    first: Seq<RayView>,
    second: Seq<RayView>,
    rs: Scalar,
    policy: Policy,
    first_outcomes: Seq<StepOutcome>,
    second_outcomes: Seq<StepOutcome>,
)
    requires
        first_outcomes.len() == first.len(),
        second_outcomes.len() == second.len(),
    ensures
        ticked(first + second, rs, policy, first_outcomes + second_outcomes) == ticked(
            first,
            rs,
            policy,
            first_outcomes,
        ) + ticked(second, rs, policy, second_outcomes),
{
    let alive = |ray: RayView| ray.is_alive();
    let a = stepped(first, rs, policy, first_outcomes);
    let b = stepped(second, rs, policy, second_outcomes);
    let both = stepped(first + second, rs, policy, first_outcomes + second_outcomes);
    assert(both =~= a + b);
    Seq::filter_distributes_over_add(a, b, alive);
}

/// A run replays: from the same rays, around the same mass, under the same
/// policy and with the same outcomes tick by tick, two runs hold the same
/// rays, positions and trails after every tick.
pub proof fn lemma_replay_is_deterministic(
    first: Seq<RayView>,
    second: Seq<RayView>,
    rs: Scalar,
    policy: Policy,
    script: Seq<Seq<StepOutcome>>,
    ticks: int,
)
    requires
        first == second,
        0 <= ticks <= script.len(),
    ensures
        replayed(first, rs, policy, script.take(ticks)) == replayed(
            second,
            rs,
            policy,
            script.take(ticks),
        ),
{
}

} // verus!
