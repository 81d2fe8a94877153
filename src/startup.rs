use vstd::prelude::*;

verus! {

/// What the startup probe found: whether another server answered
/// `GetServerInformation` on the service's object path.
#[derive(Clone, Copy, Debug, PartialEq, Eq, Structural)]
pub enum ProbeOutcome {
    /// A server answered with its identity.
    PeerDetected,
    /// No usable answer came: a timeout, no owner, or a malformed reply.
    PeerAbsent,
}

/// The phase of a starting instance.
#[derive(Clone, Copy, Debug, PartialEq, Eq, Structural)]
pub enum Phase {
    /// Checking for another server.
    Probing,
    /// Owns the service name and answers calls, until it is killed.
    Serving,
    /// Left without serving: another server is present, or the name could
    /// not be had.
    Exited,
}

/// What a starting instance does after the probe.
#[derive(Clone, Copy, Debug, PartialEq, Eq, Structural)]
pub enum StartupAction {
    /// Request exclusive ownership of the service name, then serve.
    RequestName,
    /// Exit without touching the name.
    Exit,
}

/// The probe's outcome for a call that did (`true`) or did not give back a
/// server identity.
pub fn probe_outcome(answered: bool) -> (r: ProbeOutcome)
    ensures
        r == (if answered { ProbeOutcome::PeerDetected } else { ProbeOutcome::PeerAbsent }),
{
    if answered {
        ProbeOutcome::PeerDetected
    } else {
        ProbeOutcome::PeerAbsent
    }
}

/// The step after the probe: a present server makes this instance exit
/// without asking for the name; an absent one makes it ask.
pub fn after_probe(outcome: ProbeOutcome) -> (r: (Phase, StartupAction))
    ensures
        outcome == ProbeOutcome::PeerDetected ==> r == (Phase::Exited, StartupAction::Exit),
        outcome == ProbeOutcome::PeerAbsent ==> r == (Phase::Probing, StartupAction::RequestName),
{
    match outcome {
        ProbeOutcome::PeerDetected => (Phase::Exited, StartupAction::Exit),
        ProbeOutcome::PeerAbsent => (Phase::Probing, StartupAction::RequestName),
    }
}

/// The phase reached once the name request has answered.
pub fn after_name_request(granted: bool) -> (r: Phase)
    ensures
        r == (if granted { Phase::Serving } else { Phase::Exited }),
{
    if granted {
        Phase::Serving
    } else {
        Phase::Exited
    }
}

/// A bus's record of who owns the service name. Ownership is exclusive and
/// requests are neither queued nor allowed to replace the owner.
#[derive(Clone, Copy, Debug, PartialEq, Eq, Structural)]
pub struct NameRegistry {
    pub owner: Option<u64>,
}

/// The owner and the phase reached after instance `id` starts against a bus
/// whose name is owned by `owner`.
pub open spec fn startup_step(owner: Option<u64>, id: u64) -> (Option<u64>, Phase) {
    match owner {
        Some(o) => (Some(o), Phase::Exited),
        None => (Some(id), Phase::Serving),
    }
}

/// The phases reached by instances `ids`, started one after another against
/// a bus whose name is owned by `owner`, and the owner after the last.
pub open spec fn startup_run(owner: Option<u64>, ids: Seq<u64>) -> (Option<u64>, Seq<Phase>)
    decreases ids.len(),
{
    if ids.len() == 0 {
        (owner, Seq::empty())
    } else {
        let (o, ps) = startup_run(owner, ids.drop_last());
        let (o2, p) = startup_step(o, ids.last());
        (o2, ps.push(p))
    }
}

/// The number of `Serving` entries in `ps`.
pub open spec fn serving_count(ps: Seq<Phase>) -> nat
    decreases ps.len(),
{
    if ps.len() == 0 {
        0
    } else {
        serving_count(ps.drop_last()) + if ps.last() == Phase::Serving {
            1nat
        } else {
            0nat
        }
    }
}

impl NameRegistry {
    /// A bus on which nobody owns the name.
    pub fn new() -> (r: NameRegistry)
        ensures
            r.owner is None,
    {
        NameRegistry { owner: None }
    }

    /// Answers a probe: a server is detected exactly when the name is owned.
    pub fn probe(&self) -> (r: ProbeOutcome)
        ensures
            r == (if self.owner is Some { ProbeOutcome::PeerDetected } else { ProbeOutcome::PeerAbsent }),
    {
        probe_outcome(self.owner.is_some())
    }

    /// Requests the name for `id`: granted exactly when nobody owns it.
    pub fn request_name(&mut self, id: u64) -> (r: bool)
        ensures
            r == old(self).owner is None,
            final(self).owner == (if r { Some(id) } else { old(self).owner }),
    {
        if self.owner.is_some() {
            false
        } else {
            self.owner = Some(id);
            true
        }
    }
}

/// Starts instance `id` against `bus`: probe, then request the name only
/// if no server answered.
pub fn start_instance(bus: &mut NameRegistry, id: u64) -> (r: Phase)
    ensures
        (final(bus).owner, r) == startup_step(old(bus).owner, id),
        old(bus).owner is Some ==> final(bus).owner == old(bus).owner,
{
    let (phase, action) = after_probe(bus.probe());
    match action {
        StartupAction::Exit => phase,
        StartupAction::RequestName => {
            let granted = bus.request_name(id);
            after_name_request(granted)
        },
    }
}

proof fn lemma_run_owned(o: u64, ids: Seq<u64>)
    ensures
        startup_run(Some(o), ids).0 == Some(o),
        serving_count(startup_run(Some(o), ids).1) == 0,
    decreases ids.len(),
{
    if ids.len() > 0 {
        lemma_run_owned(o, ids.drop_last());
        let ps = startup_run(Some(o), ids).1;
        assert(ps.drop_last() == startup_run(Some(o), ids.drop_last()).1);
    }
}

/// Exclusivity: of any sequence of instances started one after another
/// against a bus, at most one reaches `Serving`, and none does once the
/// name is owned.
pub proof fn lemma_at_most_one_serving(owner: Option<u64>, ids: Seq<u64>)
    ensures
        serving_count(startup_run(owner, ids).1) <= 1,
        owner is Some ==> serving_count(startup_run(owner, ids).1) == 0,
    decreases ids.len(),
{
    match owner {
        Some(o) => lemma_run_owned(o, ids),
        None => {
            if ids.len() > 0 {
                lemma_at_most_one_serving(owner, ids.drop_last());
                let (o1, ps1) = startup_run(owner, ids.drop_last());
                let ps = startup_run(owner, ids).1;
                assert(ps.drop_last() == ps1);
                match o1 {
                    Some(x) => {},
                    None => {
                        lemma_none_run(ids.drop_last());
                    },
                }
            }
        },
    }
}

proof fn lemma_none_run(ids: Seq<u64>)
    ensures
        startup_run(None, ids).0 is None ==> serving_count(startup_run(None, ids).1) == 0,
    decreases ids.len(),
{
    if ids.len() > 0 {
        lemma_none_run(ids.drop_last());
    }
}

/// Starts instances `ids` one after another against `bus`, returning the
/// phase each reached.
pub fn start_all(bus: &mut NameRegistry, ids: &Vec<u64>) -> (r: Vec<Phase>)
    ensures
        (final(bus).owner, r@) == startup_run(old(bus).owner, ids@),
        serving_count(r@) <= 1,
{
    let mut out: Vec<Phase> = Vec::new();
    let mut i: usize = 0;
    while i < ids.len()
        invariant
            i <= ids.len(),
            (bus.owner, out@) == startup_run(old(bus).owner, ids@.take(i as int)),
        decreases ids.len() - i,
    {
        let p = start_instance(bus, ids[i]);
        out.push(p);
        proof {
            assert(ids@.take(i as int + 1).drop_last() =~= ids@.take(i as int));
        }
        i = i + 1;
    }
    assert(ids@.take(ids.len() as int) =~= ids@);
    proof {
        lemma_at_most_one_serving(old(bus).owner, ids@);
    }
    out
}

} // verus!
