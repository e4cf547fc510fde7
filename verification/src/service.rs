//! The client service: its startup as a whole, its accessors, its shutdown.

use vstd::prelude::*;
use crate::config::StartupPlan;
use crate::ownership::{Ledger, Share};
use crate::startup::{
    teardown_of, teardown_plan, Component, Error, Stage, Startup, Step, TeardownStep, COMPONENTS,
};

verus! {

/// How each stage of a startup goes: `Ok` where the step is done, `Err` with
/// the reason where it fails. Startup reads them in order and stops at the
/// first that fails.
#[derive(Debug, PartialEq, Eq)]
pub struct StartupOutcomes {
    pub io_service: Result<(), String>,
    pub database: Result<(), String>,
    pub client: Result<(), String>,
    pub snapshot: Result<(), String>,
    pub private_tx: Result<(), String>,
    pub handler: Result<(), String>,
}

impl StartupOutcomes {
    /// How `stage` goes.
    pub open spec fn of(self, stage: Stage) -> Result<(), String> {
        match stage {
            Stage::StartRuntime => self.io_service,
            Stage::OpenStore => self.database,
            Stage::BuildClient => self.client,
            Stage::BuildSnapshot => self.snapshot,
            Stage::BuildPrivateTx => self.private_tx,
            Stage::RegisterHandler => self.handler,
        }
    }

    /// Whether `stage` is the first stage that fails.
    pub open spec fn fails_first_at(self, stage: Stage) -> bool {
        &&& self.of(stage) is Err
        &&& forall|earlier: Stage|
            earlier.index() < stage.index() ==> (#[trigger] self.of(earlier)) is Ok
    }

    /// Whether every stage completes.
    pub open spec fn all_ok(self) -> bool {
        forall|stage: Stage| (#[trigger] self.of(stage)) is Ok
    }

    /// The outcomes of a startup in which every stage completes.
    pub fn completed() -> (outcomes: StartupOutcomes)
        ensures
            outcomes.all_ok(),
    {
        StartupOutcomes {
            io_service: Ok(()),
            database: Ok(()),
            client: Ok(()),
            snapshot: Ok(()),
            private_tx: Ok(()),
            handler: Ok(()),
        }
    }

    /// Reads how `stage` goes.
    pub fn outcome(&self, stage: Stage) -> (outcome: Result<(), String>)
        ensures
            outcome == self.of(stage),
    {
        let recorded = match stage {
            Stage::StartRuntime => &self.io_service,
            Stage::OpenStore => &self.database,
            Stage::BuildClient => &self.client,
            Stage::BuildSnapshot => &self.snapshot,
            Stage::BuildPrivateTx => &self.private_tx,
            Stage::RegisterHandler => &self.handler,
        };
        match recorded {
            Ok(done) => Ok(*done),
            Err(reason) => Err(reason.clone()),
        }
    }
}

/// What is left when a service is shut down.
#[derive(Debug)]
pub struct Teardown {
    /// The steps that take the service down, in order.
    pub steps: Vec<TeardownStep>,
    /// Who holds the components afterwards.
    pub ledger: Ledger,
}

/// The client service, started: all its components exist, the dispatcher is
/// registered with the runtime, the engine has its weak back-reference to
/// the state processor, and the shutdown guard is armed.
#[derive(Debug)]
pub struct ClientService {
    ledger: Ledger,
}

impl ClientService {
    /// Who holds the components of the service.
    pub closed spec fn ledger(self) -> Ledger {
        self.ledger
    }

    /// Whether the service is as startup hands it over: alive, linked to the
    /// engine, with no share handed out.
    pub open spec fn is_fresh(self) -> bool {
        self.ledger() == Ledger::fresh()
    }

    /// The service that a completed startup hands over.
    pub(crate) fn assemble() -> (service: ClientService)
        ensures
            service.is_fresh(),
    {
        ClientService {
            ledger: Ledger {
                live: true,
                engine_linked: true,
                io_service: 0,
                database: 0,
                client: 0,
                snapshot: 0,
                private_tx: 0,
                handlers: 0,
                observers: 0,
            },
        }
    }

    /// Runs a whole startup under `plan`, given how each stage goes.
    ///
    /// Where every stage completes, the engine is linked, the guard is armed
    /// and the service starts. Otherwise startup is refused with the error
    /// of the first stage that fails, and no service comes into being.
    /// Either way startup is over after at most one attempt at each stage.
    pub fn start(plan: StartupPlan, outcomes: &StartupOutcomes) -> (result: Result<
        ClientService,
        Error,
    >)
        ensures
            outcomes.all_ok() ==> (result matches Ok(service) && service.is_fresh()),
            forall|stage: Stage| #[trigger]
                outcomes.fails_first_at(stage) ==> result == Err::<ClientService, Error>(
                    stage.failure(outcomes.of(stage)->Err_0),
                ),
            result is Ok ==> outcomes.all_ok(),
            result is Err ==> exists|stage: Stage| #[trigger] outcomes.fails_first_at(stage),
    {
        let mut startup = Startup::begin(plan);
        loop
            invariant
                forall|earlier: Stage|
                    earlier.index() < startup.stage().index() ==> (#[trigger] outcomes.of(
                        earlier,
                    )) is Ok,
            decreases COMPONENTS - startup.stage().index(),
        {
            let stage = startup.pending();
            let outcome = outcomes.outcome(stage);
            match startup.advance(outcome) {
                Step::Continue(next) => {
                    startup = next;
                },
                Step::Built(assembled) => {
                    let service = assembled.link_engine().arm_guard();
                    proof {
                        assert forall|other: Stage| (#[trigger] outcomes.of(other)) is Ok by {
                            if other != stage {
                                assert(other.index() < stage.index());
                            }
                        }
                    }
                    return Ok(service);
                },
                Step::Refused { stage: _, error, teardown: _ } => {
                    proof {
                        assert(outcomes.fails_first_at(stage));
                        assert forall|other: Stage| #[trigger]
                            outcomes.fails_first_at(other) implies other == stage by {
                            if other.index() < stage.index() {
                                assert(outcomes.of(other) is Ok);
                            } else if stage.index() < other.index() {
                                assert(outcomes.of(stage) is Ok);
                            }
                        }
                        assert(!outcomes.all_ok()) by {
                            if outcomes.all_ok() {
                                assert(outcomes.of(stage) is Ok);
                            }
                        }
                    }
                    return Err(error);
                },
            }
        }
    }

    /// Looks at who holds the components.
    pub fn ownership(&self) -> (ledger: Ledger)
        ensures
            ledger == self.ledger(),
    {
        self.ledger
    }

    /// Takes note of what the runtime answered when a further handler was
    /// registered with it. A handler that the runtime took stays with it
    /// until it stops. Where it refused, nothing changes, and the refusal is
    /// handed back as an I/O error.
    pub fn register_io_handler(&mut self, outcome: Result<(), String>) -> (result: Result<
        (),
        Error,
    >)
        requires
            old(self).ledger().handlers < u32::MAX,
        ensures
            match outcome {
                Ok(_) => result is Ok && final(self).ledger() == (Ledger {
                    handlers: (old(self).ledger().handlers + 1) as u32,
                    ..old(self).ledger()
                }),
                Err(reason) => result == Err::<(), Error>(Error::Io(reason))
                    && final(self).ledger() == old(self).ledger(),
            },
    {
        match outcome {
            Ok(_) => {
                self.ledger.handlers = self.ledger.handlers + 1;
                Ok(())
            },
            Err(reason) => Err(Error::Io(reason)),
        }
    }

    /// Hands out a further share of the state processor.
    pub fn client(&mut self) -> (share: Share)
        requires
            old(self).ledger().shares(Component::Client) < u32::MAX,
        ensures
            share.component() == Component::Client,
            final(self).ledger() == old(self).ledger().with_share(Component::Client),
    {
        self.ledger.acquire(Component::Client)
    }

    /// Hands out a further share of the snapshot synchronizer.
    pub fn snapshot_service(&mut self) -> (share: Share)
        requires
            old(self).ledger().shares(Component::Snapshot) < u32::MAX,
        ensures
            share.component() == Component::Snapshot,
            final(self).ledger() == old(self).ledger().with_share(Component::Snapshot),
    {
        self.ledger.acquire(Component::Snapshot)
    }

    /// Hands out a further share of the private-message processor.
    pub fn private_tx_service(&mut self) -> (share: Share)
        requires
            old(self).ledger().shares(Component::PrivateTx) < u32::MAX,
        ensures
            share.component() == Component::PrivateTx,
            final(self).ledger() == old(self).ledger().with_share(Component::PrivateTx),
    {
        self.ledger.acquire(Component::PrivateTx)
    }

    /// Hands out a further share of the I/O runtime.
    pub fn io(&mut self) -> (share: Share)
        requires
            old(self).ledger().shares(Component::IoService) < u32::MAX,
        ensures
            share.component() == Component::IoService,
            final(self).ledger() == old(self).ledger().with_share(Component::IoService),
    {
        self.ledger.acquire(Component::IoService)
    }

    /// Takes note of a further observer of chain events, attached to the
    /// state processor.
    pub fn add_notify(&mut self)
        requires
            old(self).ledger().observers < u32::MAX,
        ensures
            final(self).ledger() == (Ledger {
                observers: (old(self).ledger().observers + 1) as u32,
                ..old(self).ledger()
            }),
    {
        self.ledger.observers = self.ledger.observers + 1;
    }

    /// Hands out a further share of the store.
    pub fn db(&mut self) -> (share: Share)
        requires
            old(self).ledger().shares(Component::Database) < u32::MAX,
        ensures
            share.component() == Component::Database,
            final(self).ledger() == old(self).ledger().with_share(Component::Database),
    {
        self.ledger.acquire(Component::Database)
    }

    /// Takes back a share that an accessor has handed out.
    pub fn release(&mut self, share: Share)
        ensures
            final(self).ledger() == old(self).ledger().without_share(share.component()),
    {
        self.ledger.release(share)
    }

    /// Takes the service down: the runtime is stopped before any component
    /// is released, then the service gives up its holds, the last built
    /// first. What accessors have handed out stays with those who hold it.
    pub fn shutdown(self) -> (teardown: Teardown)
        ensures
            teardown.steps@ == teardown_of(COMPONENTS as nat),
            teardown.ledger == self.ledger().torn_down(),
    {
        let mut ledger = self.ledger;
        ledger.live = false;
        ledger.handlers = 0;
        Teardown { steps: teardown_plan(COMPONENTS), ledger }
    }
}

/// Either every stage completes, or exactly one stage is the first to fail.
pub proof fn lemma_first_failure_is_unique(outcomes: StartupOutcomes)
    ensures
        outcomes.all_ok() <==> !exists|stage: Stage| #[trigger] outcomes.fails_first_at(stage),
        forall|a: Stage, b: Stage|
            #[trigger] outcomes.fails_first_at(a) && #[trigger] outcomes.fails_first_at(b) ==> a
                == b,
{
    assert forall|a: Stage, b: Stage|
        #[trigger] outcomes.fails_first_at(a) && #[trigger] outcomes.fails_first_at(
            b,
        ) implies a == b by {
        if a.index() < b.index() {
            assert(outcomes.of(a) is Ok);
        } else if b.index() < a.index() {
            assert(outcomes.of(b) is Ok);
        }
    }
    if outcomes.all_ok() {
        assert forall|stage: Stage| !#[trigger] outcomes.fails_first_at(stage) by {
            assert(outcomes.of(stage) is Ok);
        }
    } else {
        let first = if outcomes.io_service is Err {
            Stage::StartRuntime
        } else if outcomes.database is Err {
            Stage::OpenStore
        } else if outcomes.client is Err {
            Stage::BuildClient
        } else if outcomes.snapshot is Err {
            Stage::BuildSnapshot
        } else if outcomes.private_tx is Err {
            Stage::BuildPrivateTx
        } else {
            Stage::RegisterHandler
        };
        let failed = choose|stage: Stage| !((#[trigger] outcomes.of(stage)) is Ok);
        assert(outcomes.of(failed) is Err);
        assert(outcomes.of(first) is Err);
        assert(outcomes.fails_first_at(first));
    }
}

/// Dropping a service that has handed out no share releases every
/// component, the state processor and the store among them, though the
/// engine keeps its weak back-reference.
pub proof fn lemma_dropping_a_fresh_service_releases_everything(service: ClientService)
    requires
        service.is_fresh(),
    ensures
        forall|component: Component| #[trigger]
            service.ledger().torn_down().is_released(component),
        service.ledger().torn_down().weak_count(Component::Client) == 1,
{
    crate::ownership::lemma_weak_reference_keeps_nothing_alive(service.ledger());
}

} // verus!
