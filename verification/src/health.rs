//! Liveness and readiness of a service, and the answers of its probes.

use vstd::prelude::*;

verus! {

/// Whether the service is live and whether it is ready.
#[derive(Debug, Clone, Copy, PartialEq, Eq, Structural)]
pub struct HealthState {
    pub live: bool,
    pub ready: bool,
}

/// The two probes of the admin endpoints.
#[derive(Debug, Clone, Copy, PartialEq, Eq, Structural)]
pub enum Probe {
    Liveness,
    Readiness,
}

/// The answer of a probe: an HTTP status and the `status` text of its body.
#[derive(Debug, Clone, Copy, PartialEq, Eq)]
pub struct ProbeReply {
    pub status_code: u16,
    pub status: &'static str,
}

/// A probe answers 200 `ok` when its flag is set, 503 `unavailable` otherwise.
pub open spec fn spec_probe_ok(s: HealthState, probe: Probe) -> bool {
    match probe {
        Probe::Liveness => s.live,
        Probe::Readiness => s.ready,
    }
}

impl HealthState {
    /// A new health state: live, not yet ready.
    pub fn new() -> (s: Self)
        ensures
            s.live,
            !s.ready,
    {
        HealthState { live: true, ready: false }
    }

    /// Marks the service as ready.
    pub fn mark_ready(&mut self)
        ensures
            *final(self) == (HealthState { ready: true, ..*old(self) }),
    {
        self.ready = true;
    }

    /// Marks the service as not ready.
    pub fn mark_not_ready(&mut self)
        ensures
            *final(self) == (HealthState { ready: false, ..*old(self) }),
    {
        self.ready = false;
    }

    /// Marks the service as live.
    pub fn mark_live(&mut self)
        ensures
            *final(self) == (HealthState { live: true, ..*old(self) }),
    {
        self.live = true;
    }

    /// Marks the service as not live (terminal failure).
    pub fn mark_not_live(&mut self)
        ensures
            *final(self) == (HealthState { live: false, ..*old(self) }),
    {
        self.live = false;
    }

    /// The answer of a probe.
    pub fn reply(&self, probe: Probe) -> (r: ProbeReply)
        ensures
            spec_probe_ok(*self, probe) ==> r.status_code == 200 && r.status@ == "ok"@,
            !spec_probe_ok(*self, probe) ==> r.status_code == 503 && r.status@ == "unavailable"@,
    {
        let ok = match probe {
            Probe::Liveness => self.live,
            Probe::Readiness => self.ready,
        };
        if ok {
            ProbeReply { status_code: 200, status: "ok" }
        } else {
            ProbeReply { status_code: 503, status: "unavailable" }
        }
    }
}

/// A probe answers as the last mark of its own flag says, whatever was done
/// to the other flag: readiness follows `mark_ready`/`mark_not_ready`,
/// liveness follows `mark_live`/`mark_not_live`.
pub proof fn lemma_probes_follow_marks(s: HealthState)
    ensures
        spec_probe_ok(HealthState { ready: true, ..s }, Probe::Readiness),
        !spec_probe_ok(HealthState { ready: false, ..s }, Probe::Readiness),
        spec_probe_ok(HealthState { live: true, ..s }, Probe::Liveness),
        !spec_probe_ok(HealthState { live: false, ..s }, Probe::Liveness),
        spec_probe_ok(HealthState { ready: true, ..s }, Probe::Liveness) == spec_probe_ok(s, Probe::Liveness),
        spec_probe_ok(HealthState { ready: false, ..s }, Probe::Liveness) == spec_probe_ok(s, Probe::Liveness),
        spec_probe_ok(HealthState { live: true, ..s }, Probe::Readiness) == spec_probe_ok(s, Probe::Readiness),
        spec_probe_ok(HealthState { live: false, ..s }, Probe::Readiness) == spec_probe_ok(s, Probe::Readiness),
{
}

/// Marking a flag twice is marking it once, and a mark on one flag after a
/// mark on the other keeps that other mark: a state is fixed by the last
/// mark of each flag.
pub proof fn lemma_last_mark_decides(s: HealthState, ready: bool, live: bool)
    ensures
        (HealthState { ready, ..HealthState { ready, ..s } }) == (HealthState { ready, ..s }),
        (HealthState { live, ..HealthState { live, ..s } }) == (HealthState { live, ..s }),
        (HealthState { live, ..HealthState { ready, ..s } }) == (HealthState { ready, live }),
        (HealthState { ready, ..HealthState { live, ..s } }) == (HealthState { ready, live }),
        (HealthState { ready, ..HealthState { ready: !ready, ..s } }) == (HealthState { ready, ..s }),
{
}

} // verus!
