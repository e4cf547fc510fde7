//! The startup sequence of the client service, as a machine that is told how
//! each step went and answers with the step to take next.
//!
//! The components are built bottom-up, each from those built before it. A
//! step that fails ends the sequence: the error names what failed, and the
//! components built so far are torn down, the runtime stopped first.

use vstd::prelude::*;
use crate::config::{StartupPlan, StoreConfig};
use crate::service::ClientService;

verus! {

/// What the service is made of, in the order in which it is built.
#[derive(Clone, Copy, Debug, PartialEq, Eq, Structural)]
pub enum Component {
    /// The I/O runtime that owns the event loop.
    IoService,
    /// The persistent key-value store.
    Database,
    /// The state processor.
    Client,
    /// The snapshot synchronizer.
    Snapshot,
    /// The private-message processor.
    PrivateTx,
    /// The event dispatcher, registered with the runtime.
    Handler,
}

/// The steps of startup that may fail, in order.
#[derive(Clone, Copy, Debug, PartialEq, Eq, Structural)]
pub enum Stage {
    StartRuntime,
    OpenStore,
    BuildClient,
    BuildSnapshot,
    BuildPrivateTx,
    RegisterHandler,
}

/// Why startup was refused.
#[derive(Clone, Debug, PartialEq, Eq)]
pub enum Error {
    /// The runtime did not start, or did not take the dispatcher.
    Io(String),
    /// The store did not open, or the state processor or the snapshot
    /// synchronizer could not be built.
    Client(String),
    /// The private-message processor could not be built.
    PrivateTransactions(String),
}

/// What a pending stage asks the embedding program to do.
#[derive(Clone, Debug, PartialEq, Eq)]
pub enum Action {
    /// Start the I/O runtime.
    StartRuntime,
    /// Open the store at `path` with `config`.
    OpenStore { config: StoreConfig, path: String },
    /// Build the state processor on the store, with a channel into the runtime.
    BuildClient,
    /// Build the snapshot synchronizer on the state processor, with the
    /// configuration that the store was opened with and a channel into the
    /// runtime.
    BuildSnapshot { db_config: StoreConfig },
    /// Build the private-message processor on the state processor, with a
    /// channel into the runtime.
    BuildPrivateTx,
    /// Build the dispatcher over the three subsystems and register it with
    /// the runtime.
    RegisterHandler,
}

/// One step of taking the service down.
#[derive(Clone, Copy, Debug, PartialEq, Eq, Structural)]
pub enum TeardownStep {
    /// Stop the runtime: no callback runs after this.
    StopRuntime,
    /// Give up the service's own hold on a component.
    Release(Component),
}

/// How many components the service is made of.
pub const COMPONENTS: usize = 6;

/// The components in the order in which startup builds them.
pub open spec fn construction_order() -> Seq<Component> {
    seq![
        Component::IoService,
        Component::Database,
        Component::Client,
        Component::Snapshot,
        Component::PrivateTx,
        Component::Handler,
    ]
}

/// Taking down a service of which the first `built` components exist: the
/// runtime is stopped first, then the components are released, the last
/// built first. Where nothing was built there is nothing to do.
pub open spec fn teardown_of(built: nat) -> Seq<TeardownStep>
    recommends
        built <= COMPONENTS,
{
    if built == 0 {
        Seq::empty()
    } else {
        Seq::new(
            built + 1,
            |i: int|
                if i == 0 {
                    TeardownStep::StopRuntime
                } else {
                    TeardownStep::Release(construction_order()[built - i])
                },
        )
    }
}

impl Component {
    /// The component built at position `index` of the construction order.
    pub fn at(index: usize) -> (component: Component)
        requires
            index < COMPONENTS,
        ensures
            component == construction_order()[index as int],
    {
        if index == 0 {
            Component::IoService
        } else if index == 1 {
            Component::Database
        } else if index == 2 {
            Component::Client
        } else if index == 3 {
            Component::Snapshot
        } else if index == 4 {
            Component::PrivateTx
        } else {
            Component::Handler
        }
    }
}

impl Stage {
    /// Position of the stage in the sequence, which is also the number of
    /// components that exist while the stage is pending.
    pub open spec fn index(self) -> nat {
        match self {
            Stage::StartRuntime => 0,
            Stage::OpenStore => 1,
            Stage::BuildClient => 2,
            Stage::BuildSnapshot => 3,
            Stage::BuildPrivateTx => 4,
            Stage::RegisterHandler => 5,
        }
    }

    /// The component that exists once the stage has completed.
    pub open spec fn builds(self) -> Component {
        construction_order()[self.index() as int]
    }

    /// The components that the stage builds on: the state processor on the
    /// store, the snapshot synchronizer and the private-message processor on
    /// the state processor, the dispatcher on the three subsystems, and all
    /// of them on the runtime, into which they are given a channel or with
    /// which they are registered.
    pub open spec fn builds_on(self) -> Set<Component> {
        match self {
            Stage::StartRuntime => set![],
            Stage::OpenStore => set![],
            Stage::BuildClient => set![Component::IoService, Component::Database],
            Stage::BuildSnapshot => set![Component::IoService, Component::Client],
            Stage::BuildPrivateTx => set![Component::IoService, Component::Client],
            Stage::RegisterHandler => set![
                Component::IoService,
                Component::Client,
                Component::Snapshot,
                Component::PrivateTx,
            ],
        }
    }

    /// The stage after this one; the last stage has none.
    pub open spec fn following(self) -> Option<Stage> {
        match self {
            Stage::StartRuntime => Some(Stage::OpenStore),
            Stage::OpenStore => Some(Stage::BuildClient),
            Stage::BuildClient => Some(Stage::BuildSnapshot),
            Stage::BuildSnapshot => Some(Stage::BuildPrivateTx),
            Stage::BuildPrivateTx => Some(Stage::RegisterHandler),
            Stage::RegisterHandler => None,
        }
    }

    /// The error with which startup is refused when this stage fails with
    /// `message`.
    pub open spec fn failure(self, message: String) -> Error {
        match self {
            Stage::StartRuntime => Error::Io(message),
            Stage::OpenStore => Error::Client(message),
            Stage::BuildClient => Error::Client(message),
            Stage::BuildSnapshot => Error::Client(message),
            Stage::BuildPrivateTx => Error::PrivateTransactions(message),
            Stage::RegisterHandler => Error::Io(message),
        }
    }

    /// What the stage asks for, under `plan`.
    pub open spec fn action(self, plan: StartupPlan) -> Action {
        match self {
            Stage::StartRuntime => Action::StartRuntime,
            Stage::OpenStore => Action::OpenStore { config: plan.store, path: plan.client_path },
            Stage::BuildClient => Action::BuildClient,
            Stage::BuildSnapshot => Action::BuildSnapshot { db_config: plan.store },
            Stage::BuildPrivateTx => Action::BuildPrivateTx,
            Stage::RegisterHandler => Action::RegisterHandler,
        }
    }

    /// Number of components that exist while the stage is pending.
    pub fn position(self) -> (index: usize)
        ensures
            index == self.index(),
            index < COMPONENTS,
    {
        match self {
            Stage::StartRuntime => 0,
            Stage::OpenStore => 1,
            Stage::BuildClient => 2,
            Stage::BuildSnapshot => 3,
            Stage::BuildPrivateTx => 4,
            Stage::RegisterHandler => 5,
        }
    }

    /// The stage to go on with once this one has completed.
    pub fn next(self) -> (next: Option<Stage>)
        ensures
            next == self.following(),
            next matches Some(stage) ==> stage.index() == self.index() + 1,
            next is None ==> self.index() + 1 == COMPONENTS,
    {
        match self {
            Stage::StartRuntime => Some(Stage::OpenStore),
            Stage::OpenStore => Some(Stage::BuildClient),
            Stage::BuildClient => Some(Stage::BuildSnapshot),
            Stage::BuildSnapshot => Some(Stage::BuildPrivateTx),
            Stage::BuildPrivateTx => Some(Stage::RegisterHandler),
            Stage::RegisterHandler => None,
        }
    }

    /// Turns the failure of this stage into the error of startup.
    pub fn fail(self, message: String) -> (error: Error)
        ensures
            error == self.failure(message),
    {
        match self {
            Stage::StartRuntime => Error::Io(message),
            Stage::OpenStore => Error::Client(message),
            Stage::BuildClient => Error::Client(message),
            Stage::BuildSnapshot => Error::Client(message),
            Stage::BuildPrivateTx => Error::PrivateTransactions(message),
            Stage::RegisterHandler => Error::Io(message),
        }
    }
}

/// Lists the steps that take down a service of which the first `built`
/// components exist.
pub fn teardown_plan(built: usize) -> (steps: Vec<TeardownStep>)
    requires
        built <= COMPONENTS,
    ensures
        steps@ == teardown_of(built as nat),
{
    let mut steps: Vec<TeardownStep> = Vec::new();
    if built == 0 {
        assert(steps@ =~= teardown_of(0));
        return steps;
    }
    steps.push(TeardownStep::StopRuntime);
    let mut left: usize = built;
    while left > 0
        invariant
            0 < built <= COMPONENTS,
            left <= built,
            steps@.len() == built - left + 1,
            forall|i: int| 0 <= i < steps@.len() ==> steps@[i] == teardown_of(built as nat)[i],
        decreases left,
    {
        left = left - 1;
        steps.push(TeardownStep::Release(Component::at(left)));
    }
    assert(steps@ =~= teardown_of(built as nat));
    steps
}

/// A startup under way: the plan, and the stage that is pending.
#[derive(Debug)]
pub struct Startup {
    plan: StartupPlan,
    stage: Stage,
}

/// A startup of which every stage has completed: all components exist and
/// the dispatcher is registered. The engine is yet to be given its
/// back-reference to the state processor.
#[derive(Debug)]
pub struct Assembled {
    plan: StartupPlan,
}

/// A startup that lacks only the shutdown guard: the engine refers back to
/// the state processor, weakly, so that it does not keep it alive.
#[derive(Debug)]
pub struct Linked {
    plan: StartupPlan,
}

/// Where startup stands after a stage has been answered.
#[derive(Debug)]
pub enum Step {
    /// The stage completed and another is pending.
    Continue(Startup),
    /// The last stage completed. What is left cannot fail: the engine is
    /// linked to the state processor, then the shutdown guard is armed.
    Built(Assembled),
    /// The stage failed. Startup is refused with `error`, and `teardown`
    /// takes down what had been built.
    Refused { stage: Stage, error: Error, teardown: Vec<TeardownStep> },
}

impl Assembled {
    /// The plan that the startup followed.
    pub closed spec fn plan(self) -> StartupPlan {
        self.plan
    }

    /// Takes note that the engine was given its weak back-reference to the
    /// state processor.
    pub fn link_engine(self) -> (linked: Linked)
        ensures
            linked.plan() == self.plan(),
    {
        Linked { plan: self.plan }
    }

    /// Gives the startup up: the steps that take down all that was built.
    pub fn abandon(self) -> (teardown: Vec<TeardownStep>)
        ensures
            teardown@ == teardown_of(COMPONENTS as nat),
    {
        teardown_plan(COMPONENTS)
    }
}

impl Linked {
    /// The plan that the startup followed.
    pub closed spec fn plan(self) -> StartupPlan {
        self.plan
    }

    /// Takes note that the shutdown guard was armed, and hands over the
    /// service that the guard is bound to.
    pub fn arm_guard(self) -> (service: ClientService)
        ensures
            service.is_fresh(),
    {
        ClientService::assemble()
    }

    /// Gives the startup up: the steps that take down all that was built.
    pub fn abandon(self) -> (teardown: Vec<TeardownStep>)
        ensures
            teardown@ == teardown_of(COMPONENTS as nat),
    {
        teardown_plan(COMPONENTS)
    }
}

impl Startup {
    /// The plan that the startup follows.
    pub closed spec fn plan(self) -> StartupPlan {
        self.plan
    }

    /// The pending stage. The components of all earlier stages exist; no
    /// other does.
    pub closed spec fn stage(self) -> Stage {
        self.stage
    }

    /// Begins a startup: nothing is built, the runtime is to be started.
    pub fn begin(plan: StartupPlan) -> (startup: Startup)
        ensures
            startup.plan() == plan,
            startup.stage() == Stage::StartRuntime,
    {
        Startup { plan, stage: Stage::StartRuntime }
    }

    /// The pending stage.
    pub fn pending(&self) -> (stage: Stage)
        ensures
            stage == self.stage(),
    {
        self.stage
    }

    /// What is to be done now.
    pub fn action(&self) -> (action: Action)
        ensures
            action == self.stage().action(self.plan()),
    {
        match self.stage {
            Stage::StartRuntime => Action::StartRuntime,
            Stage::OpenStore => Action::OpenStore {
                config: self.plan.store,
                path: self.plan.client_path.clone(),
            },
            Stage::BuildClient => Action::BuildClient,
            Stage::BuildSnapshot => Action::BuildSnapshot { db_config: self.plan.store },
            Stage::BuildPrivateTx => Action::BuildPrivateTx,
            Stage::RegisterHandler => Action::RegisterHandler,
        }
    }

    /// Takes the answer to the pending stage: `Ok` where the step was done,
    /// `Err` with the reason where it failed.
    ///
    /// A completed stage leads to the next one, the last one to the assembled
    /// service. A failed stage refuses startup with the error of that stage
    /// and the teardown of exactly the components built before it.
    pub fn advance(self, outcome: Result<(), String>) -> (step: Step)
        ensures
            match outcome {
                Ok(_) => match self.stage().following() {
                    Some(next) => step matches Step::Continue(startup) && startup.plan()
                        == self.plan() && startup.stage() == next,
                    None => step matches Step::Built(assembled) && assembled.plan()
                        == self.plan(),
                },
                Err(message) => step matches Step::Refused { stage, error, teardown } && stage
                    == self.stage() && error == self.stage().failure(message) && teardown@
                    == teardown_of(self.stage().index()),
            },
    {
        let stage = self.stage;
        match outcome {
            Ok(_) => match stage.next() {
                Some(next) => Step::Continue(Startup { plan: self.plan, stage: next }),
                None => Step::Built(Assembled { plan: self.plan }),
            },
            Err(message) => Step::Refused {
                stage,
                error: stage.fail(message),
                teardown: teardown_plan(stage.position()),
            },
        }
    }

    /// Gives the startup up where it stands, on whatever way out: the steps
    /// that take down what has been built so far.
    pub fn abandon(self) -> (teardown: Vec<TeardownStep>)
        ensures
            teardown@ == teardown_of(self.stage().index()),
    {
        teardown_plan(self.stage.position())
    }
}

/// The components are pairwise distinct, and each stage builds the one at
/// its own position.
pub proof fn lemma_construction_order_is_distinct()
    ensures
        construction_order().len() == COMPONENTS,
        forall|i: int, j: int|
            0 <= i < j < COMPONENTS ==> construction_order()[i] != construction_order()[j],
        forall|stage: Stage| (#[trigger] stage.index()) < COMPONENTS,
        forall|stage: Stage|
            (#[trigger] stage.following()) matches Some(next) ==> next.index() == stage.index() + 1,
{
}

/// Startup builds bottom-up: whatever a stage builds on has been built by an
/// earlier stage.
pub proof fn lemma_stages_build_on_what_exists(stage: Stage, earlier: Stage)
    requires
        stage.builds_on().contains(earlier.builds()),
    ensures
        earlier.index() < stage.index(),
{
}

/// Taking down the first `built` components stops the runtime before
/// anything is released, then releases each of those components once, the
/// last built first, and releases nothing else. It takes one step more than
/// there are components to release.
pub proof fn lemma_teardown_stops_before_release(built: nat)
    requires
        0 < built <= COMPONENTS,
    ensures
        teardown_of(built).len() == built + 1,
        teardown_of(built)[0] == TeardownStep::StopRuntime,
        forall|i: int|
            0 < i <= built ==> #[trigger] teardown_of(built)[i] == TeardownStep::Release(
                construction_order()[built - i],
            ),
        forall|k: int|
            0 <= k < built ==> teardown_of(built)[built - k] == TeardownStep::Release(
                #[trigger] construction_order()[k],
            ),
        forall|i: int, k: int|
            0 <= i <= built && 0 <= k < COMPONENTS && #[trigger] teardown_of(built)[i]
                == TeardownStep::Release(#[trigger] construction_order()[k]) ==> k < built && i
                == built - k,
{
    lemma_construction_order_is_distinct();
    assert forall|i: int, k: int|
        0 <= i <= built && 0 <= k < COMPONENTS && #[trigger] teardown_of(built)[i]
            == TeardownStep::Release(#[trigger] construction_order()[k]) implies k < built && i
        == built - k by {
        if i > 0 {
            let j = built - i;
            assert(construction_order()[j] == construction_order()[k]);
            if j < k {
                assert(construction_order()[j] != construction_order()[k]);
            } else if k < j {
                assert(construction_order()[k] != construction_order()[j]);
            }
        }
    }
}

/// When startup is refused at `stage`, everything built before it is taken
/// down and nothing built is left: the teardown releases exactly the
/// components of the earlier stages. Refused at the state processor, it
/// stops the runtime, releases the store, and then the runtime.
pub proof fn lemma_refusal_leaves_nothing_built(stage: Stage)
    ensures
        forall|earlier: Stage|
            earlier.index() < stage.index() ==> teardown_of(stage.index()).contains(
                TeardownStep::Release(#[trigger] earlier.builds()),
            ),
        forall|later: Stage|
            later.index() >= stage.index() ==> !teardown_of(stage.index()).contains(
                TeardownStep::Release(#[trigger] later.builds()),
            ),
        stage.index() > 0 ==> teardown_of(stage.index())[0] == TeardownStep::StopRuntime,
        teardown_of(Stage::BuildClient.index()) == seq![
            TeardownStep::StopRuntime,
            TeardownStep::Release(Component::Database),
            TeardownStep::Release(Component::IoService),
        ],
{
    let built = stage.index();
    lemma_construction_order_is_distinct();
    if built > 0 {
        lemma_teardown_stops_before_release(built);
    }
    assert forall|earlier: Stage| earlier.index() < built implies teardown_of(built).contains(
        TeardownStep::Release(#[trigger] earlier.builds()),
    ) by {
        let k = earlier.index() as int;
        assert(teardown_of(built)[built - k] == TeardownStep::Release(construction_order()[k]));
    }
    assert forall|later: Stage| later.index() >= built implies !teardown_of(built).contains(
        TeardownStep::Release(#[trigger] later.builds()),
    ) by {
        let k = later.index() as int;
        if teardown_of(built).contains(TeardownStep::Release(later.builds())) {
            let i = choose|i: int|
                0 <= i < teardown_of(built).len() && teardown_of(built)[i]
                    == TeardownStep::Release(later.builds());
            assert(teardown_of(built)[i] == TeardownStep::Release(construction_order()[k]));
            assert(false);
        }
    }
    assert(teardown_of(Stage::BuildClient.index()) =~= seq![
        TeardownStep::StopRuntime,
        TeardownStep::Release(Component::Database),
        TeardownStep::Release(Component::IoService),
    ]);
}

} // verus!
