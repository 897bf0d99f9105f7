use vstd::prelude::*;

verus! {

/// What surface, if any, a controlled body is touching.
#[derive(Clone, Copy, Debug, PartialEq, Eq, Structural)]
pub enum Grounded {
    Airborne,
    Ground,
    LeftWall,
    RightWall,
}

impl Grounded {
    /// Whether this contact is one of the two walls.
    pub open spec fn is_wall_spec(self) -> bool {
        self == Grounded::LeftWall || self == Grounded::RightWall
    }

    #[verifier::when_used_as_spec(is_wall_spec)]
    pub fn is_wall(self) -> (r: bool)
        ensures
            r == self.is_wall_spec(),
    {
        match self {
            Grounded::LeftWall | Grounded::RightWall => true,
            _ => false,
        }
    }
}

} // verus!

verus! {

/// A direction in which the body's probe shape is swept.
#[derive(Clone, Copy, Debug, PartialEq, Eq, Structural)]
pub enum ProbeDirection {
    Down,
    Right,
    Left,
}

/// The contact that a hit in the given direction stands for.
pub open spec fn probe_contact(d: ProbeDirection) -> Grounded {
    match d {
        ProbeDirection::Down => Grounded::Ground,
        ProbeDirection::Right => Grounded::RightWall,
        ProbeDirection::Left => Grounded::LeftWall,
    }
}

/// The probe that follows `d` in priority order, if any.
pub open spec fn next_probe_spec(d: ProbeDirection) -> Option<ProbeDirection> {
    match d {
        ProbeDirection::Down => Some(ProbeDirection::Right),
        ProbeDirection::Right => Some(ProbeDirection::Left),
        ProbeDirection::Left => None,
    }
}

/// How many probes remain after `d`, itself included.
pub open spec fn probes_left(d: ProbeDirection) -> nat {
    match d {
        ProbeDirection::Down => 3,
        ProbeDirection::Right => 2,
        ProbeDirection::Left => 1,
    }
}

/// The first probe of a classification: downward, so that ground wins ties.
pub fn first_probe() -> (r: ProbeDirection)
    ensures
        r == ProbeDirection::Down,
{
    ProbeDirection::Down
}

pub fn contact_for_probe(d: ProbeDirection) -> (r: Grounded)
    ensures
        r == probe_contact(d),
{
    match d {
        ProbeDirection::Down => Grounded::Ground,
        ProbeDirection::Right => Grounded::RightWall,
        ProbeDirection::Left => Grounded::LeftWall,
    }
}

pub fn next_probe(d: ProbeDirection) -> (r: Option<ProbeDirection>)
    ensures
        r == next_probe_spec(d),
{
    match d {
        ProbeDirection::Down => Some(ProbeDirection::Right),
        ProbeDirection::Right => Some(ProbeDirection::Left),
        ProbeDirection::Left => None,
    }
}

/// What a classification does after one probe.
#[derive(Clone, Copy, Debug, PartialEq, Eq, Structural)]
pub enum ProbeOutcome {
    /// The contact is decided; no further probe is cast.
    Settled(Grounded),
    /// The given probe is cast next.
    Next(ProbeDirection),
}

pub open spec fn after_probe_spec(d: ProbeDirection, hit: bool) -> ProbeOutcome {
    if hit {
        ProbeOutcome::Settled(probe_contact(d))
    } else {
        match next_probe_spec(d) {
            Some(n) => ProbeOutcome::Next(n),
            None => ProbeOutcome::Settled(Grounded::Airborne),
        }
    }
}

/// Decides the step after the probe in direction `d` reported `hit`:
/// a hit settles the contact, a miss moves on to the next probe, and a miss
/// of the last probe leaves the body airborne.
pub fn after_probe(d: ProbeDirection, hit: bool) -> (r: ProbeOutcome)
    ensures
        r == after_probe_spec(d, hit),
{
    if hit {
        ProbeOutcome::Settled(contact_for_probe(d))
    } else {
        match next_probe(d) {
            Some(n) => ProbeOutcome::Next(n),
            None => ProbeOutcome::Settled(Grounded::Airborne),
        }
    }
}

/// Which of the three probes would report a hit from the body's position.
#[derive(Clone, Copy, Debug, PartialEq, Eq, Structural)]
pub struct ProbeHits {
    pub down: bool,
    pub right: bool,
    pub left: bool,
}

impl ProbeHits {
    pub open spec fn hit(self, d: ProbeDirection) -> bool {
        match d {
            ProbeDirection::Down => self.down,
            ProbeDirection::Right => self.right,
            ProbeDirection::Left => self.left,
        }
    }

    pub fn hits(&self, d: ProbeDirection) -> (r: bool)
        ensures
            r == self.hit(d),
    {
        match d {
            ProbeDirection::Down => self.down,
            ProbeDirection::Right => self.right,
            ProbeDirection::Left => self.left,
        }
    }
}

/// The contact of a body: ground first, then the right wall, then the left
/// wall, else none.
pub open spec fn classify_spec(h: ProbeHits) -> Grounded {
    if h.down {
        Grounded::Ground
    } else if h.right {
        Grounded::RightWall
    } else if h.left {
        Grounded::LeftWall
    } else {
        Grounded::Airborne
    }
}

/// The contact that the probe sequence settles on when it starts at `d`.
pub open spec fn run_probes(h: ProbeHits, d: ProbeDirection) -> Grounded
    decreases probes_left(d),
{
    match after_probe_spec(d, h.hit(d)) {
        ProbeOutcome::Settled(g) => g,
        ProbeOutcome::Next(n) => run_probes(h, n),
    }
}

/// Running the probes one at a time, stopping at the first hit, settles on
/// the contact given by the priority order.
pub proof fn lemma_probe_sequence_matches_priority(h: ProbeHits)
    ensures
        run_probes(h, ProbeDirection::Down) == classify_spec(h),
{
    reveal_with_fuel(run_probes, 3);
}

/// Classifies a contact by running the probe sequence over known probe results.
pub fn classify(h: &ProbeHits) -> (r: Grounded)
    ensures
        r == classify_spec(*h),
        r == run_probes(*h, ProbeDirection::Down),
{
    proof {
        lemma_probe_sequence_matches_priority(*h);
    }
    let mut d = first_probe();
    loop
        invariant
            run_probes(*h, d) == classify_spec(*h),
            run_probes(*h, ProbeDirection::Down) == classify_spec(*h),
        decreases probes_left(d),
    {
        match after_probe(d, h.hits(d)) {
            ProbeOutcome::Settled(g) => {
                return g;
            },
            ProbeOutcome::Next(n) => {
                d = n;
            },
        }
    }
}

/// The contact held after an update from `previous` with probe results `h`.
pub open spec fn grounded_after_update(previous: Grounded, h: ProbeHits) -> Grounded {
    classify_spec(h)
}

/// Sets `grounded` to the contact that the probe results give; the previous
/// contact plays no part.
pub fn update_grounded(grounded: &mut Grounded, h: &ProbeHits)
    ensures
        *final(grounded) == grounded_after_update(*old(grounded), *h),
        *final(grounded) == classify_spec(*h),
{
    *grounded = classify(h);
}

} // verus!

verus! {

/// A classification settles on exactly one of the four contacts, by priority:
/// ground whenever the downward probe hits, even with a wall probe hitting
/// too; a wall only when every earlier probe misses; none when all miss.
pub proof fn lemma_classification_priority(h: ProbeHits)
    ensures
        (classify_spec(h) == Grounded::Ground) == h.down,
        (classify_spec(h) == Grounded::RightWall) == (!h.down && h.right),
        (classify_spec(h) == Grounded::LeftWall) == (!h.down && !h.right && h.left),
        (classify_spec(h) == Grounded::Airborne) == (!h.down && !h.right && !h.left),
{
}

/// The contact after `n` successive classifications, each made with
/// `update_grounded` on the same probe results, starting from `start`.
pub open spec fn classified_times(start: Grounded, h: ProbeHits, n: nat) -> Grounded
    decreases n,
{
    if n == 0 {
        start
    } else {
        grounded_after_update(classified_times(start, h, (n - 1) as nat), h)
    }
}

/// Classifying a body that has not moved, in a world that has not changed,
/// gives the same contact every time, whatever the contact was before.
pub proof fn lemma_classification_repeatable(start: Grounded, h: ProbeHits, n: nat, m: nat)
    requires
        n >= 1,
        m >= 1,
    ensures
        classified_times(start, h, n) == classified_times(start, h, m),
        classified_times(start, h, n) == classify_spec(h),
{
}

} // verus!
