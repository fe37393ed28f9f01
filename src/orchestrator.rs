//! Orchestrator: the phases of a provisioning run, from the start-up scans
//! to the end of a connection attempt.
use vstd::prelude::*;
use vstd::string::StringSliceAdditionalSpecFns;

use crate::ap::{ap_down, exclusive, ApState, ApStateView, TearDownStep};
use crate::structs::{networks_view, Network, NetworkView};
use crate::web::{
    backend_kind_reply, captive_probe_reply, connect_ack_reply, method_not_allowed_reply,
    HttpReply, Route,
};

verus! {

/// Scan attempts made at start-up before giving up.
pub const MAX_SCAN_ATTEMPTS: u8 = 3;

/// Where a provisioning run stands.
#[derive(Debug, Clone, Copy, PartialEq, Eq, Structural)]
pub enum Phase {
    /// Scanning for networks before the access point exists.
    Scanning,
    /// Bringing the access point up (at start-up, or again after a failed
    /// connection attempt).
    BringingUpAp,
    /// The access point is up and the HTTP surface serves.
    Serving,
    /// A connection attempt owns the radio.
    Committing,
    /// Connected: the run is over.
    Provisioned,
    /// Start-up failed: the run is over.
    Failed,
}

/// What to do after a start-up scan.
#[derive(Debug, Clone, Copy, PartialEq, Eq, Structural)]
pub enum StartupStep {
    /// Nothing found yet: wait, then scan again.
    ScanAgain,
    /// Networks found: bring the access point up and serve them.
    BringUpAp,
    /// Nothing found in any attempt: release the access point and fail.
    GiveUp,
}

/// A provisioning run, as mathematical values.
pub struct ProvisionerView {
    pub phase: Phase,
    /// Start-up scans that found nothing.
    pub failed_scans: nat,
    /// The networks shown to clients while the access point is up.
    pub scan_cache: Seq<NetworkView>,
    pub ap: ApStateView,
}

/// The state of a run when the process starts.
pub open spec fn initial_view() -> ProvisionerView {
    ProvisionerView { phase: Phase::Scanning, failed_scans: 0, scan_cache: Seq::empty(), ap: ap_down() }
}

/// The step after a start-up scan that found `found` networks, when
/// `failed` earlier scans found none.
pub open spec fn scan_step(failed: nat, found: nat) -> StartupStep {
    if found > 0 {
        StartupStep::BringUpAp
    } else if failed + 1 >= MAX_SCAN_ATTEMPTS {
        StartupStep::GiveUp
    } else {
        StartupStep::ScanAgain
    }
}

/// The run after a start-up scan that found `found`, and the step to take.
pub open spec fn after_scan(v: ProvisionerView, found: Seq<NetworkView>) -> (
    ProvisionerView,
    StartupStep,
) {
    let step = scan_step(v.failed_scans, found.len());
    let next = match step {
        StartupStep::BringUpAp => ProvisionerView {
            phase: Phase::BringingUpAp,
            scan_cache: found,
            ..v
        },
        StartupStep::GiveUp => ProvisionerView {
            phase: Phase::Failed,
            failed_scans: v.failed_scans + 1,
            ..v
        },
        StartupStep::ScanAgain => ProvisionerView { failed_scans: v.failed_scans + 1, ..v },
    };
    (next, step)
}

/// The run: its phase, the start-up scan count, the cached scan list and
/// the access point's resources.
pub struct Provisioner {
    phase: Phase,
    failed_scans: u8,
    scan_cache: Vec<Network>,
    ap: ApState,
}

impl View for Provisioner {
    type V = ProvisionerView;

    closed spec fn view(&self) -> ProvisionerView {
        ProvisionerView {
            phase: self.phase,
            failed_scans: self.failed_scans as nat,
            scan_cache: networks_view(self.scan_cache@),
            ap: self.ap@,
        }
    }
}

/// What the HTTP layer does for a request.
#[derive(Debug, Clone)]
pub enum HttpAction {
    /// Send this reply.
    Reply(HttpReply),
    /// Send the cached scan list as JSON.
    ScanList,
    /// Look the asset up and send `asset_reply` for it.
    Asset(String),
    /// Send this reply at once, then run the connection attempt in the
    /// background.
    AcknowledgeThenCommit(HttpReply),
}

impl Provisioner {
    #[verifier::type_invariant]
    spec fn scans_bounded(&self) -> bool {
        self.failed_scans < MAX_SCAN_ATTEMPTS || self.phase == Phase::Failed
    }

    pub fn new() -> (r: Provisioner)
        ensures
            r@ == initial_view(),
    {
        let r = Provisioner {
            phase: Phase::Scanning,
            failed_scans: 0,
            scan_cache: Vec::new(),
            ap: ApState::new(),
        };
        assert(networks_view(r.scan_cache@) =~= Seq::<NetworkView>::empty());
        r
    }

    pub fn phase(&self) -> (r: Phase)
        ensures
            r == self@.phase,
    {
        self.phase
    }

    pub fn ap(&self) -> (r: &ApState)
        ensures
            r@ == self@.ap,
            exclusive(r@),
    {
        let _ = self.ap.network_id();
        &self.ap
    }

    /// The networks shown to clients.
    pub fn scan_cache(&self) -> (r: &Vec<Network>)
        ensures
            networks_view(r@) == self@.scan_cache,
    {
        &self.scan_cache
    }

    /// Records a start-up scan that found `networks` and says what comes
    /// next. A scan that found networks caches them; the third scan in a
    /// row that finds none ends the run.
    pub fn scan_finished(&mut self, networks: Vec<Network>) -> (r: StartupStep)
        requires
            old(self)@.phase == Phase::Scanning,
        ensures
            (final(self)@, r) == after_scan(old(self)@, networks_view(networks@)),
    {
        proof {
            use_type_invariant(&*self);
        }
        if networks.len() > 0 {
            self.phase = Phase::BringingUpAp;
            self.scan_cache = networks;
            StartupStep::BringUpAp
        } else if self.failed_scans + 1 >= MAX_SCAN_ATTEMPTS {
            self.phase = Phase::Failed;
            self.failed_scans = self.failed_scans + 1;
            StartupStep::GiveUp
        } else {
            self.failed_scans = self.failed_scans + 1;
            StartupStep::ScanAgain
        }
    }

    /// Records one release of the access point's tear-down (see
    /// `ApState::released`).
    pub fn ap_released(&mut self, step: TearDownStep) -> (ok: bool)
        ensures
            final(self)@.phase == old(self)@.phase,
            final(self)@.scan_cache == old(self)@.scan_cache,
            ok == !(step matches TearDownStep::RemoveNetwork(_) && old(self)@.ap.dhcp_running),
            ok ==> final(self)@.ap == (match step {
                TearDownStep::StopDhcp => ApStateView { dhcp_running: false, ..old(self)@.ap },
                TearDownStep::RemoveNetwork(_) => ApStateView { network_id: None, ..old(self)@.ap },
                TearDownStep::DeleteAddress => ApStateView {
                    address_assigned: false,
                    ..old(self)@.ap
                },
            }),
            !ok ==> final(self)@.ap == old(self)@.ap,
            exclusive(final(self)@.ap),
    {
        proof {
            use_type_invariant(&*self);
        }
        self.ap.released(step)
    }

    /// Records that the gateway address is on the interface.
    pub fn ap_address_added(&mut self)
        ensures
            final(self)@ == (ProvisionerView {
                ap: ApStateView { address_assigned: true, ..old(self)@.ap },
                ..old(self)@
            }),
            exclusive(final(self)@.ap),
    {
        proof {
            use_type_invariant(&*self);
        }
        self.ap.address_added();
    }

    /// Records that network `id` realizes the access point.
    pub fn ap_network_enabled(&mut self, id: u32)
        ensures
            final(self)@ == (ProvisionerView {
                ap: ApStateView { network_id: Some(id), ..old(self)@.ap },
                ..old(self)@
            }),
            exclusive(final(self)@.ap),
    {
        proof {
            use_type_invariant(&*self);
        }
        self.ap.network_enabled(id);
    }

    /// Records that the DHCP sidecar runs; refused without an access point
    /// network.
    pub fn ap_dhcp_started(&mut self) -> (ok: bool)
        ensures
            ok == (old(self)@.ap.network_id is Some),
            ok ==> final(self)@ == (ProvisionerView {
                ap: ApStateView { dhcp_running: true, ..old(self)@.ap },
                ..old(self)@
            }),
            !ok ==> final(self)@ == old(self)@,
            exclusive(final(self)@.ap),
    {
        proof {
            use_type_invariant(&*self);
        }
        self.ap.dhcp_started()
    }

    /// The access point is up: start (or resume) serving. Refused unless
    /// the AP is being brought up and all of it is in place.
    pub fn ap_ready(&mut self) -> (ok: bool)
        ensures
            ok == (old(self)@.phase == Phase::BringingUpAp && old(self)@.ap.network_id is Some
                && old(self)@.ap.dhcp_running && old(self)@.ap.address_assigned),
            ok ==> final(self)@ == (ProvisionerView { phase: Phase::Serving, ..old(self)@ }),
            !ok ==> final(self)@ == old(self)@,
    {
        proof {
            use_type_invariant(&*self);
        }
        if self.phase == Phase::BringingUpAp && self.ap.is_up() {
            self.phase = Phase::Serving;
            true
        } else {
            false
        }
    }

    /// A connection attempt takes the radio; refused unless serving.
    pub fn commit_started(&mut self) -> (ok: bool)
        ensures
            ok == (old(self)@.phase == Phase::Serving),
            ok ==> final(self)@ == (ProvisionerView { phase: Phase::Committing, ..old(self)@ }),
            !ok ==> final(self)@ == old(self)@,
    {
        proof {
            use_type_invariant(&*self);
        }
        if self.phase == Phase::Serving {
            self.phase = Phase::Committing;
            true
        } else {
            false
        }
    }

    /// The connection attempt ended: the run is over if it connected, else
    /// the access point comes back. Refused unless committing.
    pub fn commit_finished(&mut self, connected: bool) -> (ok: bool)
        ensures
            ok == (old(self)@.phase == Phase::Committing),
            ok ==> final(self)@ == (ProvisionerView {
                phase: if connected {
                    Phase::Provisioned
                } else {
                    Phase::BringingUpAp
                },
                ..old(self)@
            }),
            !ok ==> final(self)@ == old(self)@,
    {
        proof {
            use_type_invariant(&*self);
        }
        if self.phase == Phase::Committing {
            self.phase = if connected {
                Phase::Provisioned
            } else {
                Phase::BringingUpAp
            };
            true
        } else {
            false
        }
    }

    /// What the HTTP layer does for a routed request. The run is not
    /// changed: a connection request is acknowledged before its attempt
    /// starts, so the answer leaves while the access point is still up.
    pub fn handle(&self, route: &Route) -> (r: HttpAction)
        ensures
            route is Connect ==> (r matches HttpAction::AcknowledgeThenCommit(ack) && ack.status
                == 200),
            route is Scan ==> r is ScanList,
            route is CaptivePortalProbe ==> (r matches HttpAction::Reply(rep) && rep.status == 204
                && rep.body@.len() == 0),
            route is BackendKind ==> (r matches HttpAction::Reply(rep) && rep.status == 200
                && rep.body@ == "{\"kind\":\"tdm\"}".spec_bytes()),
            route is MethodNotAllowed ==> (r matches HttpAction::Reply(rep) && rep.status == 405),
            route matches Route::Asset(p) ==> (r matches HttpAction::Asset(q) && q@ == p@),
    {
        match route {
            Route::BackendKind => HttpAction::Reply(backend_kind_reply()),
            Route::Scan => HttpAction::ScanList,
            Route::Connect => HttpAction::AcknowledgeThenCommit(connect_ack_reply()),
            Route::CaptivePortalProbe => HttpAction::Reply(captive_probe_reply()),
            Route::Asset(p) => HttpAction::Asset(p.clone()),
            Route::MethodNotAllowed => HttpAction::Reply(method_not_allowed_reply()),
        }
    }
}

/// Scan retry: when the first two start-up scans find nothing, a third
/// that finds networks brings the access point up with exactly those
/// networks cached; a third that finds nothing ends the run with no access
/// point resource held.
pub proof fn lemma_scan_retry(r0: Seq<NetworkView>, r1: Seq<NetworkView>, r2: Seq<NetworkView>)
    requires
        r0.len() == 0,
        r1.len() == 0,
    ensures
        ({
            let (s1, a1) = after_scan(initial_view(), r0);
            let (s2, a2) = after_scan(s1, r1);
            let (s3, a3) = after_scan(s2, r2);
            &&& a1 == StartupStep::ScanAgain
            &&& a2 == StartupStep::ScanAgain
            &&& s2.phase == Phase::Scanning
            &&& r2.len() > 0 ==> a3 == StartupStep::BringUpAp && s3.scan_cache == r2 && s3.phase
                == Phase::BringingUpAp
            &&& r2.len() == 0 ==> a3 == StartupStep::GiveUp && s3.phase == Phase::Failed && s3.ap
                == ap_down()
        }),
{
}

/// A first scan that finds networks brings the access point up at once,
/// with those networks cached.
pub proof fn lemma_first_scan_found(r0: Seq<NetworkView>)
    requires
        r0.len() > 0,
    ensures
        after_scan(initial_view(), r0).1 == StartupStep::BringUpAp,
        after_scan(initial_view(), r0).0.scan_cache == r0,
{
}

} // verus!
