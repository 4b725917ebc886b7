//! The gateway override: a session that replaces the default gateway while
//! keeping one remote endpoint reachable through the original gateway, and
//! its release, which undoes that in reverse order.
//!
//! Both are state machines. The caller asks for the next command, runs it,
//! and hands back its outcome, until no command is left.
use vstd::prelude::*;
use crate::route::{
    CommandOutcome,
    NetError,
    Platform,
    RouteChange,
    RouteOp,
    RouteType,
    change_argv,
    default_gateway_query,
    gateway_reading,
    get_default_gateway,
    parse_default_gateway,
    trim_end_of,
};
use crate::table::{
    RouteTable,
    acquire_plan,
    apply_all,
    lemma_failure_keeps_exception,
    lemma_round_trip,
    release_plan,
};
use vstd::string::StringExecFns;

verus! {

/// A held override of the default gateway.
#[derive(Debug)]
pub struct DefaultGateway {
    origin: String,
    remote: String,
    default: bool,
}

/// What a held override records.
pub struct GatewayView {
    /// The default gateway observed before any change.
    pub origin: Seq<char>,
    /// The endpoint that stays reachable via `origin`.
    pub remote: Seq<char>,
    /// Whether the default gateway was replaced.
    pub replaced: bool,
}

impl View for DefaultGateway {
    type V = GatewayView;

    closed spec fn view(&self) -> GatewayView {
        GatewayView { origin: self.origin@, remote: self.remote@, replaced: self.default }
    }
}

/// How far an acquisition has come.
#[derive(Clone, Copy, Debug, PartialEq, Eq, Structural)]
pub enum AcquireStage {
    /// The original default gateway is being read.
    Querying,
    /// The planned route changes are being made.
    Applying,
    /// Every change succeeded.
    Acquired,
    /// A step failed; nothing more is attempted.
    Failed,
}

/// An acquisition in progress.
pub struct Acquisition {
    gateway: String,
    remote: String,
    default: bool,
    stage: AcquireStage,
    origin: String,
    plan: Vec<RouteOp>,
    done: usize,
    error: Option<NetError>,
}

/// What an acquisition in progress records.
pub struct AcquireView {
    /// The gateway that replaces the default.
    pub gateway: Seq<char>,
    pub remote: Seq<char>,
    /// Whether the default gateway is to be replaced.
    pub replace: bool,
    pub stage: AcquireStage,
    /// The original default gateway, once read.
    pub origin: Seq<char>,
    /// How many planned changes have succeeded.
    pub done: nat,
    /// Why the acquisition failed.
    pub error: Option<NetError>,
}

impl AcquireView {
    /// The route changes to make once the original gateway is known.
    pub open spec fn plan(self) -> Seq<RouteChange> {
        acquire_plan(self.origin, self.gateway, self.remote, self.replace)
    }

    /// The route changes made so far.
    pub open spec fn applied(self) -> Seq<RouteChange> {
        self.plan().take(self.done as int)
    }
}

impl View for Acquisition {
    type V = AcquireView;

    closed spec fn view(&self) -> AcquireView {
        AcquireView {
            gateway: self.gateway@,
            remote: self.remote@,
            replace: self.default,
            stage: self.stage,
            origin: self.origin@,
            done: self.done as nat,
            error: self.error,
        }
    }
}

impl DefaultGateway {
    /// Starts acquiring an override that keeps `remote` reachable via the
    /// current default gateway and, when `default` holds, makes `gateway` the
    /// default. The first command reads the current default gateway.
    pub fn create(gateway: &str, remote: &str, default: bool) -> (r: Acquisition)
        ensures
            r.wf(),
            r@.gateway == gateway@,
            r@.remote == remote@,
            r@.replace == default,
            r@.stage == AcquireStage::Querying,
            r@.done == 0,
            r@.error is None,
    {
        Acquisition {
            gateway: String::from_str(gateway),
            remote: String::from_str(remote),
            default,
            stage: AcquireStage::Querying,
            origin: String::new(),
            plan: Vec::new(),
            done: 0,
            error: None,
        }
    }
}

/// The views of a sequence of route operations.
pub open spec fn ops_view(ops: Seq<RouteOp>) -> Seq<RouteChange> {
    ops.map_values(|o: RouteOp| o@)
}

fn default_route_name() -> (r: String)
    ensures
        r@ == crate::route::default_target(),
{
    String::from_str("default")
}

fn build_acquire_plan(origin: &String, gateway: &String, remote: &String, replace: bool) -> (r: Vec<
    RouteOp,
>)
    ensures
        ops_view(r@) == acquire_plan(origin@, gateway@, remote@, replace),
{
    let mut v: Vec<RouteOp> = Vec::new();
    v.push(RouteOp::Add { kind: RouteType::Host, target: remote.clone(), gateway: origin.clone() });
    if replace {
        v.push(RouteOp::Delete { kind: RouteType::Net, target: default_route_name() });
        v.push(
            RouteOp::Add {
                kind: RouteType::Net,
                target: default_route_name(),
                gateway: gateway.clone(),
            },
        );
    }
    assert(ops_view(v@) =~= acquire_plan(origin@, gateway@, remote@, replace));
    v
}

fn build_release_plan(origin: &String, remote: &String, replaced: bool) -> (r: Vec<RouteOp>)
    ensures
        ops_view(r@) == release_plan(origin@, remote@, replaced),
{
    let mut v: Vec<RouteOp> = Vec::new();
    if replaced {
        v.push(RouteOp::Delete { kind: RouteType::Net, target: default_route_name() });
        v.push(
            RouteOp::Add {
                kind: RouteType::Net,
                target: default_route_name(),
                gateway: origin.clone(),
            },
        );
    }
    v.push(RouteOp::Delete { kind: RouteType::Host, target: remote.clone() });
    assert(ops_view(v@) =~= release_plan(origin@, remote@, replaced));
    v
}

impl Acquisition {
    /// The acquisition's internal consistency.
    pub closed spec fn wf(&self) -> bool {
        &&& self.stage == AcquireStage::Querying ==> self.done == 0 && self.error is None
        &&& (self.stage == AcquireStage::Applying || self.stage == AcquireStage::Acquired || (
        self.stage == AcquireStage::Failed && self.done > 0)) ==> ops_view(self.plan@)
            == self@.plan()
        &&& self.done <= self.plan@.len()
        &&& self.stage == AcquireStage::Applying ==> self.done < self.plan@.len()
            && self.error is None
        &&& self.stage == AcquireStage::Acquired ==> self.done == self.plan@.len()
            && self.error is None
        &&& self.stage == AcquireStage::Failed ==> self.error is Some
    }

    /// Where an acquisition can stand: an applying one has changes left to
    /// make, an acquired one has made every planned change, and a failed one
    /// holds its error.
    pub proof fn lemma_progress(&self)
        requires
            self.wf(),
        ensures
            self@.done <= self@.plan().len(),
            self@.stage == AcquireStage::Applying ==> self@.done < self@.plan().len(),
            self@.stage == AcquireStage::Acquired ==> self@.applied() == self@.plan(),
            self@.stage == AcquireStage::Failed ==> self@.error is Some,
    {
        assert(self@.plan().len() >= 1);
        assert(ops_view(self.plan@).len() == self.plan@.len());
        if self.stage == AcquireStage::Acquired {
            assert(self@.plan().take(self.done as int) =~= self@.plan());
        }
    }

    /// How far the acquisition has come.
    pub fn stage(&self) -> (r: AcquireStage)
        ensures
            r == self@.stage,
    {
        self.stage
    }

    /// The command to run next on `platform`: the gateway query, then each
    /// planned change in order; none once acquired or failed.
    pub fn next_command(&self, platform: Platform) -> (r: Option<Vec<String>>)
        requires
            self.wf(),
        ensures
            self@.stage == AcquireStage::Querying ==> r is Some && r->Some_0.deep_view() == seq![
                "bash"@,
                "-c"@,
                default_gateway_query(platform),
            ],
            self@.stage == AcquireStage::Applying ==> self@.done < self@.plan().len() && r is Some
                && r->Some_0.deep_view() == change_argv(platform, self@.plan()[self@.done as int]),
            self@.stage == AcquireStage::Acquired || self@.stage == AcquireStage::Failed ==> r is None,
    {
        match self.stage {
            AcquireStage::Querying => Some(get_default_gateway(platform)),
            AcquireStage::Applying => {
                assert(self.plan@[self.done as int]@ == self@.plan()[self.done as int]);
                Some(self.plan[self.done].command(platform))
            },
            _ => None,
        }
    }

    /// Takes the outcome of the command that `next_command` gave. A failed
    /// step ends the acquisition and nothing already changed is undone.
    pub fn advance(&mut self, outcome: &CommandOutcome)
        requires
            old(self).wf(),
            old(self)@.stage == AcquireStage::Querying || old(self)@.stage
                == AcquireStage::Applying,
        ensures
            final(self).wf(),
            final(self)@.gateway == old(self)@.gateway,
            final(self)@.remote == old(self)@.remote,
            final(self)@.replace == old(self)@.replace,
            old(self)@.stage == AcquireStage::Querying ==> (match gateway_reading(
                outcome.success,
                trim_end_of(outcome.stdout@),
                outcome.stderr,
            ) {
                Ok(o) => final(self)@.stage == AcquireStage::Applying && final(self)@.origin == o
                    && final(self)@.done == 0 && final(self)@.error is None,
                Err(e) => final(self)@.stage == AcquireStage::Failed && final(self)@.done == 0
                    && final(self)@.error == Some(e),
            }),
            old(self)@.stage == AcquireStage::Applying && outcome.success ==> final(self)@.origin
                == old(self)@.origin && final(self)@.done == old(self)@.done + 1
                && final(self)@.error is None && final(self)@.stage == (if final(self)@.done
                == final(self)@.plan().len() {
                AcquireStage::Acquired
            } else {
                AcquireStage::Applying
            }),
            old(self)@.stage == AcquireStage::Applying && !outcome.success ==> final(self)@.origin
                == old(self)@.origin && final(self)@.done == old(self)@.done && final(self)@.stage
                == AcquireStage::Failed && final(self)@.error == Some(
                NetError::Command(outcome.stderr),
            ),
    {
        if self.stage == AcquireStage::Querying {
            match parse_default_gateway(outcome) {
                Ok(origin) => {
                    self.plan = build_acquire_plan(&origin, &self.gateway, &self.remote, self.default);
                    self.origin = origin;
                    self.stage = AcquireStage::Applying;
                    assert(ops_view(self.plan@).len() == self.plan@.len());
                    assert(self@.plan().len() >= 1);
                },
                Err(e) => {
                    self.stage = AcquireStage::Failed;
                    self.error = Some(e);
                },
            }
        } else if outcome.success {
            let n = self.plan.len();
            self.done = self.done + 1;
            assert(ops_view(self.plan@).len() == self.plan@.len());
            if self.done == n {
                self.stage = AcquireStage::Acquired;
            }
        } else {
            self.stage = AcquireStage::Failed;
            self.error = Some(NetError::Command(outcome.stderr.clone()));
        }
    }

    /// Ends a finished acquisition: the held override when every step
    /// succeeded; otherwise the error, with the override to release whenever
    /// the exception route was already installed.
    pub fn finish(self) -> (r: Result<DefaultGateway, (NetError, Option<DefaultGateway>)>)
        requires
            self.wf(),
            self@.stage == AcquireStage::Acquired || self@.stage == AcquireStage::Failed,
        ensures
            r is Ok <==> self@.stage == AcquireStage::Acquired,
            r matches Ok(g) ==> g@ == (GatewayView {
                origin: self@.origin,
                remote: self@.remote,
                replaced: self@.replace,
            }),
            r matches Err((e, h)) ==> Some(e) == self@.error && (h is Some <==> self@.done > 0) && (
            h matches Some(g) ==> g@ == (GatewayView {
                origin: self@.origin,
                remote: self@.remote,
                replaced: self@.replace,
            })),
    {
        let Acquisition { remote, default, stage, origin, done, error, .. } = self;
        let held = DefaultGateway { origin, remote, default };
        if stage == AcquireStage::Acquired {
            Ok(held)
        } else {
            let e = error.unwrap();
            if done > 0 {
                Err((e, Some(held)))
            } else {
                Err((e, None))
            }
        }
    }
}

/// A release in progress: every planned change is attempted in order, and a
/// failed one is recorded and passed over.
pub struct Release {
    plan: Vec<RouteOp>,
    attempted: usize,
    applied: Ghost<Seq<RouteChange>>,
    failures: Vec<NetError>,
}

/// What a release in progress records.
pub struct ReleaseView {
    /// The route changes to make, in order.
    pub plan: Seq<RouteChange>,
    /// How many of them have been attempted.
    pub attempted: nat,
    /// The attempted changes that succeeded, in order.
    pub applied: Seq<RouteChange>,
    /// Why each failed one failed, in order.
    pub failures: Seq<NetError>,
}

impl View for Release {
    type V = ReleaseView;

    closed spec fn view(&self) -> ReleaseView {
        ReleaseView {
            plan: ops_view(self.plan@),
            attempted: self.attempted as nat,
            applied: self.applied@,
            failures: self.failures@,
        }
    }
}

impl DefaultGateway {
    /// The default gateway observed before the override.
    pub fn origin(&self) -> (r: &String)
        ensures
            r@ == self@.origin,
    {
        &self.origin
    }

    /// The endpoint kept reachable via the original gateway.
    pub fn remote(&self) -> (r: &String)
        ensures
            r@ == self@.remote,
    {
        &self.remote
    }

    /// Whether the override replaced the default gateway.
    pub fn replaced(&self) -> (r: bool)
        ensures
            r == self@.replaced,
    {
        self.default
    }

    /// Starts releasing the override: the default gateway goes back to the
    /// original one when it was replaced, then the exception route goes.
    pub fn release(self) -> (r: Release)
        ensures
            r.wf(),
            r@.plan == release_plan(self@.origin, self@.remote, self@.replaced),
            r@.attempted == 0,
            r@.applied.len() == 0,
            r@.failures.len() == 0,
    {
        let plan = build_release_plan(&self.origin, &self.remote, self.default);
        assert(ops_view(plan@).take(0) =~= Seq::<RouteChange>::empty());
        Release { plan, attempted: 0, applied: Ghost(Seq::empty()), failures: Vec::new() }
    }
}

impl Release {
    /// The release's internal consistency.
    pub closed spec fn wf(&self) -> bool {
        &&& self.attempted <= self.plan@.len()
        &&& self.failures@.len() == 0 ==> self.applied@ == ops_view(self.plan@).take(
            self.attempted as int,
        )
    }

    /// Whether every planned change has been attempted.
    pub fn is_done(&self) -> (r: bool)
        requires
            self.wf(),
        ensures
            r == (self@.attempted == self@.plan.len()),
    {
        self.attempted == self.plan.len()
    }

    /// The command to run next on `platform`, or none once every change has
    /// been attempted.
    pub fn next_command(&self, platform: Platform) -> (r: Option<Vec<String>>)
        requires
            self.wf(),
        ensures
            self@.attempted < self@.plan.len() ==> r is Some && r->Some_0.deep_view()
                == change_argv(platform, self@.plan[self@.attempted as int]),
            self@.attempted >= self@.plan.len() ==> r is None,
    {
        if self.attempted < self.plan.len() {
            Some(self.plan[self.attempted].command(platform))
        } else {
            None
        }
    }

    /// Takes the outcome of the command that `next_command` gave.
    pub fn advance(&mut self, outcome: &CommandOutcome)
        requires
            old(self).wf(),
            old(self)@.attempted < old(self)@.plan.len(),
        ensures
            final(self).wf(),
            final(self)@.plan == old(self)@.plan,
            final(self)@.attempted == old(self)@.attempted + 1,
            outcome.success ==> final(self)@.applied == old(self)@.applied.push(
                old(self)@.plan[old(self)@.attempted as int],
            ) && final(self)@.failures == old(self)@.failures,
            !outcome.success ==> final(self)@.applied == old(self)@.applied
                && final(self)@.failures == old(self)@.failures.push(
                NetError::Command(outcome.stderr),
            ),
    {
        let len = self.plan.len();
        assert(self.attempted < len);
        let ghost step = ops_view(self.plan@)[self.attempted as int];
        if outcome.success {
            self.applied = Ghost(self.applied@.push(step));
            assert(ops_view(self.plan@).take(self.attempted + 1) =~= ops_view(self.plan@).take(
                self.attempted as int,
            ).push(step));
        } else {
            self.failures.push(NetError::Command(outcome.stderr.clone()));
        }
        self.attempted = self.attempted + 1;
    }

    /// The failures recorded, in order.
    pub fn failures(&self) -> (r: &Vec<NetError>)
        ensures
            r@ == self@.failures,
    {
        &self.failures
    }

    /// A release with no recorded failure has made exactly the planned
    /// changes attempted so far.
    pub proof fn lemma_clean(&self)
        requires
            self.wf(),
        ensures
            self@.failures.len() == 0 ==> self@.applied == self@.plan.take(self@.attempted as int),
    {
    }
}

/// A session whose acquisition and release both succeeded at every step
/// leaves the default gateway it observed at acquisition and no host route
/// for the exception target.
pub proof fn lemma_session_round_trip(t: RouteTable, a: &Acquisition, r: &Release)
    requires
        a.wf(),
        r.wf(),
        a@.stage == AcquireStage::Acquired,
        t.default == Some(a@.origin),
        r@.plan == release_plan(a@.origin, a@.remote, a@.replace),
        r@.attempted == r@.plan.len(),
        r@.failures.len() == 0,
    ensures
        ({
            let after = apply_all(apply_all(t, a@.applied()), r@.applied);
            &&& after.default == t.default
            &&& !after.hosts.contains_key(a@.remote)
        }),
{
    a.lemma_progress();
    r.lemma_clean();
    assert(r@.plan.take(r@.attempted as int) =~= r@.plan);
    lemma_round_trip(t, a@.origin, a@.gateway, a@.remote, a@.replace);
}

/// An acquisition that failed after the exception route was installed
/// leaves that route, via the original gateway, in the table.
pub proof fn lemma_failed_session_keeps_exception(t: RouteTable, a: &Acquisition)
    requires
        a.wf(),
        a@.stage == AcquireStage::Failed,
        a@.done > 0,
    ensures
        ({
            let partial = apply_all(t, a@.applied());
            partial.hosts.contains_key(a@.remote) && partial.hosts[a@.remote] == a@.origin
        }),
{
    a.lemma_progress();
    lemma_failure_keeps_exception(t, a@.origin, a@.gateway, a@.remote, a@.replace, a@.done);
}

} // verus!
