//! Certificate Lifecycle Manager: keeps the public endpoint's certificate
//! valid without operator intervention.
//!
//! The manager is a state machine driven by issuance results and the
//! expiry clock.  The published certificate is replaced only wholesale —
//! a new, fully-formed pair swapped in as one value — so a concurrent
//! reader sees either the old pair or the new pair, never a certificate
//! with a mismatched key.

use vstd::prelude::*;

verus! {

/// One certificate/key pair as issued together, with its expiry and the
/// domain set it covers.  The issuing authority hands back the certificate
/// and its private key as one batch; both sides carry the serial of that
/// batch, and a well-formed pair carries the same serial on both.
pub struct CertificatePair {
    pub cert_der: Vec<u8>,
    pub key_der: Vec<u8>,
    pub cert_serial: u64,
    pub key_serial: u64,
    pub expires_at: u64,
    pub domains: Vec<String>,
}

/// A certificate matched with its own key.
pub open spec fn pair_wf(p: CertificatePair) -> bool {
    p.cert_serial == p.key_serial
}

impl CertificatePair {
    /// Assembles a pair from one issuance batch: both sides are stamped
    /// with the batch serial, so the pair is well-formed by construction.
    pub fn new(cert_der: Vec<u8>, key_der: Vec<u8>, serial: u64, expires_at: u64, domains: Vec<
        String,
    >) -> (r: CertificatePair)
        ensures
            pair_wf(r),
            r.cert_der@ == cert_der@,
            r.key_der@ == key_der@,
            r.cert_serial == serial,
            r.expires_at == expires_at,
    {
        CertificatePair {
            cert_der,
            key_der,
            cert_serial: serial,
            key_serial: serial,
            expires_at,
            domains,
        }
    }
}

/// Lifecycle phases of the managed certificate.
#[derive(Clone, Copy, PartialEq, Eq, Structural, Debug)]
pub enum CertPhase {
    Uninitialized,
    Issuing,
    Valid,
    Renewing,
    Expiring,
    Invalid,
}

/// Fixed lifecycle configuration: how long before expiry renewal starts,
/// how many retries a failed issuance gets, and the base retry delay.
pub struct CertConfig {
    pub renew_threshold_secs: u64,
    pub max_retries: u32,
    pub base_backoff_ms: u64,
}

/// What drives the lifecycle: service start (with any cached pair reloaded
/// from durable storage), the result of an issuance or renewal attempt,
/// and the expiry clock.
pub enum CertEvent {
    Start { now: u64, cached: Option<CertificatePair> },
    IssuanceSucceeded(CertificatePair),
    IssuanceFailed,
    Clock { now: u64 },
}

/// Background work the lifecycle asks of its driver.  Nothing here touches
/// open connections: a swap never drops a session.
#[derive(Clone, Copy, PartialEq, Eq, Structural, Debug)]
pub enum CertAction {
    RunIssuance,
    ScheduleRetry { delay_ms: u64 },
    Alert,
}

/// The Certificate Lifecycle Manager: the current published pair and where
/// it stands in its lifecycle.
pub struct CertManager {
    pub phase: CertPhase,
    pub current: Option<CertificatePair>,
    pub retries: u32,
    pub config: CertConfig,
}

/// Manager well-formedness: whatever is published is a matched pair, a
/// serving phase always has a pair published, and the retry counter never
/// exceeds its bound.
pub open spec fn manager_wf(m: CertManager) -> bool {
    &&& (m.current matches Some(p) ==> pair_wf(p))
    &&& ((m.phase == CertPhase::Valid || m.phase == CertPhase::Renewing || m.phase
        == CertPhase::Expiring) ==> m.current is Some)
    &&& m.retries <= m.config.max_retries
}

/// An event is well-formed when any pair it carries is matched — which
/// holds of every pair assembled by `CertificatePair::new`.
pub open spec fn event_wf(ev: CertEvent) -> bool {
    match ev {
        CertEvent::Start { now: _, cached } => cached matches Some(p) ==> pair_wf(p),
        CertEvent::IssuanceSucceeded(p) => pair_wf(p),
        _ => true,
    }
}

/// Saturating exponential backoff: the base delay doubled once per retry
/// already spent, capped at ten doublings.
pub open spec fn spec_backoff(base: u64, k: nat) -> u64
    decreases k,
{
    if k == 0 {
        base
    } else {
        let p = spec_backoff(base, (k - 1) as nat);
        if p > u64::MAX / 2 {
            u64::MAX
        } else {
            (p * 2) as u64
        }
    }
}

/// Computes the retry delay for the given retry count.
pub fn backoff_delay(base: u64, retries: u32) -> (r: u64)
    ensures
        r == spec_backoff(base, (if retries > 10 {
            10u32
        } else {
            retries
        }) as nat),
{
    let k: u32 = if retries > 10 {
        10
    } else {
        retries
    };
    let mut d: u64 = base;
    let mut i: u32 = 0;
    while i < k
        invariant
            i <= k,
            d == spec_backoff(base, i as nat),
        decreases k - i,
    {
        d = if d > u64::MAX / 2 {
            u64::MAX
        } else {
            d * 2
        };
        i = i + 1;
    }
    d
}

/// The full transition table of the certificate lifecycle.
///
/// * `Uninitialized`: on start, a cached unexpired pair is published and
///   the manager is `Valid`; otherwise issuance runs.
/// * `Issuing`: success publishes the new pair; failure retries with
///   backoff until the retry budget is spent, then alerts and gives up
///   (`Invalid` — there never was a pair to serve).
/// * `Valid`: the clock either leaves it alone, starts renewal once the
///   remaining validity falls under the threshold, or (if expiry somehow
///   passed) alerts and invalidates.
/// * `Renewing`: success swaps the new pair in wholesale and drops no
///   connection; failure retries with backoff, and once retries are spent
///   the manager alerts and keeps serving the old pair (`Expiring`) rather
///   than going offline.
/// * `Expiring`: late success still recovers; the clock reaching expiry
///   makes future connections impossible (`Invalid`), which alerts again.
/// * `Invalid`: a successful issuance recovers; failures keep retrying.
pub open spec fn spec_cert_step(m: CertManager, ev: CertEvent) -> (CertManager, Seq<CertAction>) {
    let cfg = m.config;
    match m.phase {
        CertPhase::Uninitialized => match ev {
            CertEvent::Start { now, cached } => match cached {
                Some(p) => {
                    if p.expires_at > now {
                        (
                            CertManager { phase: CertPhase::Valid, current: Some(p), retries: 0, config: cfg },
                            Seq::<CertAction>::empty(),
                        )
                    } else {
                        (
                            CertManager { phase: CertPhase::Issuing, current: None, retries: 0, config: cfg },
                            seq![CertAction::RunIssuance],
                        )
                    }
                },
                None => (
                    CertManager { phase: CertPhase::Issuing, current: None, retries: 0, config: cfg },
                    seq![CertAction::RunIssuance],
                ),
            },
            _ => (m, Seq::<CertAction>::empty()),
        },
        CertPhase::Issuing => match ev {
            CertEvent::IssuanceSucceeded(p) => (
                CertManager { phase: CertPhase::Valid, current: Some(p), retries: 0, config: cfg },
                Seq::<CertAction>::empty(),
            ),
            CertEvent::IssuanceFailed => {
                if m.retries < cfg.max_retries {
                    (
                        CertManager {
                            phase: CertPhase::Issuing,
                            current: m.current,
                            retries: (m.retries + 1) as u32,
                            config: cfg,
                        },
                        seq![
                            CertAction::ScheduleRetry {
                                delay_ms: spec_backoff(
                                    cfg.base_backoff_ms,
                                    (if m.retries > 10 {
                                        10u32
                                    } else {
                                        m.retries
                                    }) as nat,
                                ),
                            },
                        ],
                    )
                } else {
                    (
                        CertManager { phase: CertPhase::Invalid, current: m.current, retries: m.retries, config: cfg },
                        seq![CertAction::Alert],
                    )
                }
            },
            _ => (m, Seq::<CertAction>::empty()),
        },
        CertPhase::Valid => match ev {
            CertEvent::Clock { now } => {
                let p = m.current->Some_0;
                if now >= p.expires_at {
                    (
                        CertManager { phase: CertPhase::Invalid, current: m.current, retries: m.retries, config: cfg },
                        seq![CertAction::Alert],
                    )
                } else if p.expires_at - now <= cfg.renew_threshold_secs {
                    (
                        CertManager { phase: CertPhase::Renewing, current: m.current, retries: 0, config: cfg },
                        seq![CertAction::RunIssuance],
                    )
                } else {
                    (m, Seq::<CertAction>::empty())
                }
            },
            _ => (m, Seq::<CertAction>::empty()),
        },
        CertPhase::Renewing => match ev {
            CertEvent::IssuanceSucceeded(p) => (
                CertManager { phase: CertPhase::Valid, current: Some(p), retries: 0, config: cfg },
                Seq::<CertAction>::empty(),
            ),
            CertEvent::IssuanceFailed => {
                if m.retries < cfg.max_retries {
                    (
                        CertManager {
                            phase: CertPhase::Renewing,
                            current: m.current,
                            retries: (m.retries + 1) as u32,
                            config: cfg,
                        },
                        seq![
                            CertAction::ScheduleRetry {
                                delay_ms: spec_backoff(
                                    cfg.base_backoff_ms,
                                    (if m.retries > 10 {
                                        10u32
                                    } else {
                                        m.retries
                                    }) as nat,
                                ),
                            },
                        ],
                    )
                } else {
                    (
                        CertManager { phase: CertPhase::Expiring, current: m.current, retries: m.retries, config: cfg },
                        seq![CertAction::Alert],
                    )
                }
            },
            _ => (m, Seq::<CertAction>::empty()),
        },
        CertPhase::Expiring => match ev {
            CertEvent::IssuanceSucceeded(p) => (
                CertManager { phase: CertPhase::Valid, current: Some(p), retries: 0, config: cfg },
                Seq::<CertAction>::empty(),
            ),
            CertEvent::IssuanceFailed => (
                m,
                seq![
                    CertAction::ScheduleRetry {
                        delay_ms: spec_backoff(
                            cfg.base_backoff_ms,
                            (if m.retries > 10 {
                                10u32
                            } else {
                                m.retries
                            }) as nat,
                        ),
                    },
                ],
            ),
            CertEvent::Clock { now } => {
                let p = m.current->Some_0;
                if now >= p.expires_at {
                    (
                        CertManager { phase: CertPhase::Invalid, current: m.current, retries: m.retries, config: cfg },
                        seq![CertAction::Alert],
                    )
                } else {
                    (m, Seq::<CertAction>::empty())
                }
            },
            _ => (m, Seq::<CertAction>::empty()),
        },
        CertPhase::Invalid => match ev {
            CertEvent::IssuanceSucceeded(p) => (
                CertManager { phase: CertPhase::Valid, current: Some(p), retries: 0, config: cfg },
                Seq::<CertAction>::empty(),
            ),
            CertEvent::IssuanceFailed => (
                m,
                seq![
                    CertAction::ScheduleRetry {
                        delay_ms: spec_backoff(
                            cfg.base_backoff_ms,
                            (if m.retries > 10 {
                                10u32
                            } else {
                                m.retries
                            }) as nat,
                        ),
                    },
                ],
            ),
            _ => (m, Seq::<CertAction>::empty()),
        },
    }
}

impl CertManager {
    /// A fresh manager: nothing published yet.
    pub fn new(config: CertConfig) -> (r: CertManager)
        ensures
            r.phase == CertPhase::Uninitialized,
            r.current is None,
            r.retries == 0,
            manager_wf(r),
    {
        CertManager { phase: CertPhase::Uninitialized, current: None, retries: 0, config }
    }

    /// Advances the lifecycle by one event, exactly as `spec_cert_step`
    /// says.  Publication is the assignment of `current` as one value:
    /// there is no step that writes a certificate without its key.
    pub fn step(&mut self, ev: CertEvent) -> (acts: Vec<CertAction>)
        requires
            manager_wf(*old(self)),
            event_wf(ev),
        ensures
            *final(self) == spec_cert_step(*old(self), ev).0,
            acts@ == spec_cert_step(*old(self), ev).1,
            manager_wf(*final(self)),
    {
        proof {
            lemma_cert_step_preserves_wf(*self, ev);
        }
        let cfg_max = self.config.max_retries;
        match self.phase {
            CertPhase::Uninitialized => match ev {
                CertEvent::Start { now, cached } => match cached {
                    Some(p) => {
                        if p.expires_at > now {
                            self.phase = CertPhase::Valid;
                            self.current = Some(p);
                            self.retries = 0;
                            Vec::new()
                        } else {
                            self.phase = CertPhase::Issuing;
                            self.current = None;
                            self.retries = 0;
                            let mut acts: Vec<CertAction> = Vec::new();
                            acts.push(CertAction::RunIssuance);
                            acts
                        }
                    },
                    None => {
                        self.phase = CertPhase::Issuing;
                        self.current = None;
                        self.retries = 0;
                        let mut acts: Vec<CertAction> = Vec::new();
                        acts.push(CertAction::RunIssuance);
                        acts
                    },
                },
                _ => Vec::new(),
            },
            CertPhase::Issuing => match ev {
                CertEvent::IssuanceSucceeded(p) => {
                    self.phase = CertPhase::Valid;
                    self.current = Some(p);
                    self.retries = 0;
                    Vec::new()
                },
                CertEvent::IssuanceFailed => {
                    if self.retries < cfg_max {
                        let delay = backoff_delay(self.config.base_backoff_ms, self.retries);
                        self.retries = self.retries + 1;
                        let mut acts: Vec<CertAction> = Vec::new();
                        acts.push(CertAction::ScheduleRetry { delay_ms: delay });
                        acts
                    } else {
                        self.phase = CertPhase::Invalid;
                        let mut acts: Vec<CertAction> = Vec::new();
                        acts.push(CertAction::Alert);
                        acts
                    }
                },
                _ => Vec::new(),
            },
            CertPhase::Valid => match ev {
                CertEvent::Clock { now } => {
                    let expires_at = match &self.current {
                        Some(p) => p.expires_at,
                        None => 0,
                    };
                    if now >= expires_at {
                        self.phase = CertPhase::Invalid;
                        let mut acts: Vec<CertAction> = Vec::new();
                        acts.push(CertAction::Alert);
                        acts
                    } else if expires_at - now <= self.config.renew_threshold_secs {
                        self.phase = CertPhase::Renewing;
                        self.retries = 0;
                        let mut acts: Vec<CertAction> = Vec::new();
                        acts.push(CertAction::RunIssuance);
                        acts
                    } else {
                        Vec::new()
                    }
                },
                _ => Vec::new(),
            },
            CertPhase::Renewing => match ev {
                CertEvent::IssuanceSucceeded(p) => {
                    self.phase = CertPhase::Valid;
                    self.current = Some(p);
                    self.retries = 0;
                    Vec::new()
                },
                CertEvent::IssuanceFailed => {
                    if self.retries < cfg_max {
                        let delay = backoff_delay(self.config.base_backoff_ms, self.retries);
                        self.retries = self.retries + 1;
                        let mut acts: Vec<CertAction> = Vec::new();
                        acts.push(CertAction::ScheduleRetry { delay_ms: delay });
                        acts
                    } else {
                        self.phase = CertPhase::Expiring;
                        let mut acts: Vec<CertAction> = Vec::new();
                        acts.push(CertAction::Alert);
                        acts
                    }
                },
                _ => Vec::new(),
            },
            CertPhase::Expiring => match ev {
                CertEvent::IssuanceSucceeded(p) => {
                    self.phase = CertPhase::Valid;
                    self.current = Some(p);
                    self.retries = 0;
                    Vec::new()
                },
                CertEvent::IssuanceFailed => {
                    let delay = backoff_delay(self.config.base_backoff_ms, self.retries);
                    let mut acts: Vec<CertAction> = Vec::new();
                    acts.push(CertAction::ScheduleRetry { delay_ms: delay });
                    acts
                },
                CertEvent::Clock { now } => {
                    let expires_at = match &self.current {
                        Some(p) => p.expires_at,
                        None => 0,
                    };
                    if now >= expires_at {
                        self.phase = CertPhase::Invalid;
                        let mut acts: Vec<CertAction> = Vec::new();
                        acts.push(CertAction::Alert);
                        acts
                    } else {
                        Vec::new()
                    }
                },
                _ => Vec::new(),
            },
            CertPhase::Invalid => match ev {
                CertEvent::IssuanceSucceeded(p) => {
                    self.phase = CertPhase::Valid;
                    self.current = Some(p);
                    self.retries = 0;
                    Vec::new()
                },
                CertEvent::IssuanceFailed => {
                    let delay = backoff_delay(self.config.base_backoff_ms, self.retries);
                    let mut acts: Vec<CertAction> = Vec::new();
                    acts.push(CertAction::ScheduleRetry { delay_ms: delay });
                    acts
                },
                _ => Vec::new(),
            },
        }
    }

    /// Runtime check of `manager_wf`, for callers outside the proof.
    pub fn check_wf(&self) -> (r: bool)
        ensures
            r == manager_wf(*self),
    {
        let published_ok = match &self.current {
            Some(p) => p.cert_serial == p.key_serial,
            None => true,
        };
        let serving_has_pair = match self.phase {
            CertPhase::Valid | CertPhase::Renewing | CertPhase::Expiring => self.current.is_some(),
            _ => true,
        };
        published_ok && serving_has_pair && self.retries <= self.config.max_retries
    }

    /// What the TLS layer of an accepted connection reads: the whole
    /// published pair, or nothing.  A well-formed manager never hands out
    /// a certificate with a mismatched key.
    pub fn current_pair(&self) -> (r: Option<&CertificatePair>)
        requires
            manager_wf(*self),
        ensures
            r matches Some(p) ==> pair_wf(*p) && Some(*p) == self.current,
            r is Some <==> self.current is Some,
    {
        match &self.current {
            Some(p) => Some(p),
            None => None,
        }
    }
}

/// Runtime check of `event_wf`, for callers outside the proof.
pub fn check_event_wf(ev: &CertEvent) -> (r: bool)
    ensures
        r == event_wf(*ev),
{
    match ev {
        CertEvent::Start { now: _, cached: Some(p) } => p.cert_serial == p.key_serial,
        CertEvent::IssuanceSucceeded(p) => p.cert_serial == p.key_serial,
        _ => true,
    }
}

/// One lifecycle step preserves well-formedness.
pub proof fn lemma_cert_step_preserves_wf(m: CertManager, ev: CertEvent)
    requires
        manager_wf(m),
        event_wf(ev),
    ensures
        manager_wf(spec_cert_step(m, ev).0),
{
}

/// A successful renewal publishes the new pair wholesale — the one field
/// assignment replaces certificate and key together — and asks nothing
/// else of the driver: no connection is dropped to perform the swap.
pub proof fn lemma_swap_publishes_wholesale(m: CertManager, p: CertificatePair)
    requires
        m.phase == CertPhase::Renewing,
    ensures
        spec_cert_step(m, CertEvent::IssuanceSucceeded(p)).0.phase == CertPhase::Valid,
        spec_cert_step(m, CertEvent::IssuanceSucceeded(p)).0.current == Some(p),
        spec_cert_step(m, CertEvent::IssuanceSucceeded(p)).1 == Seq::<CertAction>::empty(),
{
}

/// The certificate the manager serves after a trace: every reachable
/// manager state is well-formed, so a reader that fetches the published
/// pair at any point — between any two steps of a concurrent renewal —
/// sees a certificate matched with its own key, never a mix of old and
/// new.
pub open spec fn cert_run(m: CertManager, evs: Seq<CertEvent>) -> CertManager
    decreases evs.len(),
{
    if evs.len() == 0 {
        m
    } else {
        cert_run(spec_cert_step(m, evs[0]).0, evs.drop_first())
    }
}

/// Certificate swap atomicity over whole histories: after any prefix of
/// any well-formed event trace, the published pair (if any) is matched.
pub proof fn lemma_swap_atomic(m: CertManager, evs: Seq<CertEvent>)
    requires
        manager_wf(m),
        forall|i: int| 0 <= i < evs.len() ==> event_wf(#[trigger] evs[i]),
    ensures
        forall|i: int|
            0 <= i <= evs.len() ==> manager_wf(cert_run(m, #[trigger] evs.take(i))),
        forall|i: int|
            0 <= i <= evs.len() ==> (cert_run(m, #[trigger] evs.take(i)).current matches Some(p)
                ==> pair_wf(p)),
    decreases evs.len(),
{
    assert(evs.take(0) =~= Seq::<CertEvent>::empty());
    if evs.len() > 0 {
        lemma_cert_step_preserves_wf(m, evs[0]);
        let m1 = spec_cert_step(m, evs[0]).0;
        lemma_swap_atomic(m1, evs.drop_first());
        assert forall|i: int|
            1 <= i <= evs.len() implies manager_wf(cert_run(m, #[trigger] evs.take(i))) by {
            let t = evs.take(i);
            assert(t[0] == evs[0]);
            assert(t.drop_first() =~= evs.drop_first().take(i - 1));
            assert(cert_run(m, t) == cert_run(m1, evs.drop_first().take(i - 1)));
        }
    }
}

} // verus!
