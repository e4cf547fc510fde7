use ethcore_service::config::{ClientSettings, CompactionProfile, StartupPlan, StoreConfig};
use ethcore_service::ownership::Ledger;
use ethcore_service::service::{ClientService, StartupOutcomes};
use ethcore_service::startup::{
    teardown_plan, Action, Component, Error, Stage, Startup, Step, TeardownStep, COMPONENTS,
};

fn settings() -> ClientSettings {
    ClientSettings {
        db_cache_size: Some(128),
        db_compaction: CompactionProfile {
            initial_file_size: 64 * 1024 * 1024,
            file_size_multiplier: 1,
            write_rate_limit: None,
        },
        db_wal: true,
    }
}

fn plan() -> StartupPlan {
    StartupPlan::derive(Some(8), &settings(), "client".to_string())
}

fn stages() -> Vec<Stage> {
    vec![
        Stage::StartRuntime,
        Stage::OpenStore,
        Stage::BuildClient,
        Stage::BuildSnapshot,
        Stage::BuildPrivateTx,
        Stage::RegisterHandler,
    ]
}

fn components() -> Vec<Component> {
    vec![
        Component::IoService,
        Component::Database,
        Component::Client,
        Component::Snapshot,
        Component::PrivateTx,
        Component::Handler,
    ]
}

fn failing_at(stage: Stage, reason: &str) -> StartupOutcomes {
    let mut outcomes = StartupOutcomes::completed();
    let failed: Result<(), String> = Err(reason.to_string());
    match stage {
        Stage::StartRuntime => outcomes.io_service = failed,
        Stage::OpenStore => outcomes.database = failed,
        Stage::BuildClient => outcomes.client = failed,
        Stage::BuildSnapshot => outcomes.snapshot = failed,
        Stage::BuildPrivateTx => outcomes.private_tx = failed,
        Stage::RegisterHandler => outcomes.handler = failed,
    }
    outcomes
}

fn started() -> ClientService {
    match ClientService::start(plan(), &StartupOutcomes::completed()) {
        Ok(service) => service,
        Err(error) => panic!("startup was refused: {:?}", error),
    }
}

fn full_teardown() -> Vec<TeardownStep> {
    vec![
        TeardownStep::StopRuntime,
        TeardownStep::Release(Component::Handler),
        TeardownStep::Release(Component::PrivateTx),
        TeardownStep::Release(Component::Snapshot),
        TeardownStep::Release(Component::Client),
        TeardownStep::Release(Component::Database),
        TeardownStep::Release(Component::IoService),
    ]
}

#[test]
fn it_can_be_started() {
    let service = ClientService::start(plan(), &StartupOutcomes::completed());
    assert!(service.is_ok());
    let teardown = service.unwrap().shutdown();
    assert_eq!(teardown.steps, full_teardown());
}

#[test]
fn store_config_takes_budget_compaction_and_wal_from_settings() {
    let config: StoreConfig = StoreConfig::derive(Some(8), &settings());
    assert_eq!(
        config,
        StoreConfig {
            columns: Some(8),
            memory_budget: Some(128),
            compaction: CompactionProfile {
                initial_file_size: 64 * 1024 * 1024,
                file_size_multiplier: 1,
                write_rate_limit: None,
            },
            wal: true,
        }
    );
    let mut bare = settings();
    bare.db_cache_size = None;
    bare.db_wal = false;
    let config: StoreConfig = StoreConfig::derive(None, &bare);
    assert_eq!(config.columns, None);
    assert_eq!(config.memory_budget, None);
    assert!(!config.wal);
}

#[test]
fn plan_keeps_the_store_config_and_the_path_of_the_store() {
    let plan = plan();
    assert_eq!(plan.store, StoreConfig::derive(Some(8), &settings()));
    assert_eq!(plan.client_path, "client");
}

#[test]
fn startup_asks_for_each_step_in_order() {
    let store = StoreConfig::derive(Some(8), &settings());
    let expected: Vec<Action> = vec![
        Action::StartRuntime,
        Action::OpenStore { config: store, path: "client".to_string() },
        Action::BuildClient,
        Action::BuildSnapshot { db_config: store },
        Action::BuildPrivateTx,
        Action::RegisterHandler,
    ];
    let mut startup = Startup::begin(plan());
    let mut seen: Vec<Action> = Vec::new();
    let mut pending: Vec<Stage> = Vec::new();
    let service = loop {
        seen.push(startup.action());
        pending.push(startup.pending());
        match startup.advance(Ok(())) {
            Step::Continue(next) => startup = next,
            Step::Built(assembled) => break assembled.link_engine().arm_guard(),
            Step::Refused { error, .. } => panic!("refused: {:?}", error),
        }
    };
    assert_eq!(seen, expected);
    assert_eq!(pending, stages());
    assert_eq!(service.ownership(), started().ownership());
}

#[test]
fn snapshot_service_gets_the_config_the_store_was_opened_with() {
    let mut startup = Startup::begin(plan());
    let mut opened: Option<StoreConfig> = None;
    let mut handed_on: Option<StoreConfig> = None;
    loop {
        match startup.action() {
            Action::OpenStore { config, .. } => opened = Some(config),
            Action::BuildSnapshot { db_config } => handed_on = Some(db_config),
            _ => {}
        }
        match startup.advance(Ok(())) {
            Step::Continue(next) => startup = next,
            _ => break,
        }
    }
    assert!(opened.is_some());
    assert_eq!(opened, handed_on);
}

#[test]
fn stages_follow_one_another() {
    let stages = stages();
    for (index, stage) in stages.iter().enumerate() {
        assert_eq!(stage.position(), index);
        assert_eq!(stage.next(), stages.get(index + 1).copied());
        assert_eq!(Component::at(index), Component::at(stage.position()));
    }
    assert_eq!(COMPONENTS, 6);
    assert_eq!(Component::at(0), Component::IoService);
    assert_eq!(Component::at(1), Component::Database);
    assert_eq!(Component::at(2), Component::Client);
    assert_eq!(Component::at(3), Component::Snapshot);
    assert_eq!(Component::at(4), Component::PrivateTx);
    assert_eq!(Component::at(5), Component::Handler);
}

#[test]
fn runtime_failure_is_an_io_error() {
    let result = ClientService::start(plan(), &failing_at(Stage::StartRuntime, "no threads"));
    assert_eq!(result.err(), Some(Error::Io("no threads".to_string())));
}

#[test]
fn store_failure_is_a_client_error() {
    let result = ClientService::start(plan(), &failing_at(Stage::OpenStore, "locked"));
    assert_eq!(result.err(), Some(Error::Client("locked".to_string())));
}

#[test]
fn state_processor_failure_is_a_client_error() {
    let result = ClientService::start(plan(), &failing_at(Stage::BuildClient, "bad genesis"));
    assert_eq!(result.err(), Some(Error::Client("bad genesis".to_string())));
}

#[test]
fn snapshot_failure_is_a_client_error() {
    let result = ClientService::start(plan(), &failing_at(Stage::BuildSnapshot, "no directory"));
    assert_eq!(result.err(), Some(Error::Client("no directory".to_string())));
}

#[test]
fn private_processor_failure_is_a_private_transactions_error() {
    let result = ClientService::start(plan(), &failing_at(Stage::BuildPrivateTx, "no key"));
    assert_eq!(result.err(), Some(Error::PrivateTransactions("no key".to_string())));
}

#[test]
fn handler_registration_failure_is_an_io_error() {
    let result = ClientService::start(plan(), &failing_at(Stage::RegisterHandler, "loop is gone"));
    assert_eq!(result.err(), Some(Error::Io("loop is gone".to_string())));
}

#[test]
fn first_failure_decides() {
    let mut outcomes = failing_at(Stage::BuildSnapshot, "first");
    outcomes.handler = Err("second".to_string());
    let result = ClientService::start(plan(), &outcomes);
    assert_eq!(result.err(), Some(Error::Client("first".to_string())));
}

#[test]
fn stage_turns_its_failure_into_the_error_of_startup() {
    assert_eq!(Stage::StartRuntime.fail("a".to_string()), Error::Io("a".to_string()));
    assert_eq!(Stage::OpenStore.fail("b".to_string()), Error::Client("b".to_string()));
    assert_eq!(Stage::BuildClient.fail("c".to_string()), Error::Client("c".to_string()));
    assert_eq!(Stage::BuildSnapshot.fail("d".to_string()), Error::Client("d".to_string()));
    assert_eq!(
        Stage::BuildPrivateTx.fail("e".to_string()),
        Error::PrivateTransactions("e".to_string())
    );
    assert_eq!(Stage::RegisterHandler.fail("f".to_string()), Error::Io("f".to_string()));
}

#[test]
fn outcomes_are_read_by_stage() {
    let outcomes = failing_at(Stage::BuildPrivateTx, "no key");
    for stage in stages() {
        let expected: Result<(), String> =
            if stage == Stage::BuildPrivateTx { Err("no key".to_string()) } else { Ok(()) };
        assert_eq!(outcomes.outcome(stage), expected);
    }
}

#[test]
fn refused_state_processor_leaves_no_store_behind() {
    let mut startup = Startup::begin(plan());
    for _ in 0..2 {
        startup = match startup.advance(Ok(())) {
            Step::Continue(next) => next,
            _ => panic!("startup ended early"),
        };
    }
    assert_eq!(startup.pending(), Stage::BuildClient);
    match startup.advance(Err("bad genesis".to_string())) {
        Step::Refused { stage, error, teardown } => {
            assert_eq!(stage, Stage::BuildClient);
            assert_eq!(error, Error::Client("bad genesis".to_string()));
            assert_eq!(
                teardown,
                vec![
                    TeardownStep::StopRuntime,
                    TeardownStep::Release(Component::Database),
                    TeardownStep::Release(Component::IoService),
                ]
            );
        }
        _ => panic!("a failed stage must refuse startup"),
    }
}

#[test]
fn refusal_takes_down_exactly_what_was_built() {
    for (built, stage) in stages().into_iter().enumerate() {
        let mut startup = Startup::begin(plan());
        for _ in 0..built {
            startup = match startup.advance(Ok(())) {
                Step::Continue(next) => next,
                _ => panic!("startup ended early"),
            };
        }
        match startup.advance(Err("refused".to_string())) {
            Step::Refused { stage: at, teardown, .. } => {
                assert_eq!(at, stage);
                assert_eq!(teardown, teardown_plan(built));
                if built == 0 {
                    assert!(teardown.is_empty());
                } else {
                    assert_eq!(teardown.len(), built + 1);
                    assert_eq!(teardown[0], TeardownStep::StopRuntime);
                    for (offset, step) in teardown[1..].iter().enumerate() {
                        assert_eq!(*step, TeardownStep::Release(Component::at(built - 1 - offset)));
                    }
                }
            }
            _ => panic!("a failed stage must refuse startup"),
        }
    }
}

#[test]
fn engine_is_linked_and_guard_armed_after_the_last_stage() {
    let mut startup = Startup::begin(plan());
    let assembled = loop {
        match startup.advance(Ok(())) {
            Step::Continue(next) => startup = next,
            Step::Built(assembled) => break assembled,
            Step::Refused { error, .. } => panic!("refused: {:?}", error),
        }
    };
    let service = assembled.link_engine().arm_guard();
    let ledger = service.ownership();
    assert!(ledger.live);
    assert!(ledger.engine_linked);
    assert_eq!(ledger, started().ownership());
}

#[test]
fn startup_abandoned_after_the_last_stage_takes_down_everything() {
    let assemble = || {
        let mut startup = Startup::begin(plan());
        loop {
            match startup.advance(Ok(())) {
                Step::Continue(next) => startup = next,
                Step::Built(assembled) => break assembled,
                Step::Refused { error, .. } => panic!("refused: {:?}", error),
            }
        }
    };
    assert_eq!(assemble().abandon(), full_teardown());
    assert_eq!(assemble().link_engine().abandon(), full_teardown());
}

#[test]
fn abandoned_startup_takes_down_what_was_built() {
    let startup = Startup::begin(plan());
    assert!(startup.abandon().is_empty());
    let startup = match Startup::begin(plan()).advance(Ok(())) {
        Step::Continue(next) => next,
        _ => panic!("startup ended early"),
    };
    assert_eq!(
        startup.abandon(),
        vec![TeardownStep::StopRuntime, TeardownStep::Release(Component::IoService)]
    );
}

#[test]
fn teardown_stops_the_runtime_before_any_release() {
    assert_eq!(teardown_plan(0), vec![]);
    assert_eq!(
        teardown_plan(1),
        vec![TeardownStep::StopRuntime, TeardownStep::Release(Component::IoService)]
    );
    assert_eq!(teardown_plan(6), full_teardown());
    for built in 1..=6usize {
        let steps = teardown_plan(built);
        assert_eq!(steps[0], TeardownStep::StopRuntime);
        assert!(steps[1..].iter().all(|step| matches!(step, TeardownStep::Release(_))));
    }
}

#[test]
fn started_service_holds_every_handle() {
    let service = started();
    let ledger: Ledger = service.ownership();
    assert!(ledger.live);
    assert!(ledger.engine_linked);
    assert_eq!(ledger.count_strong(Component::IoService), 1);
    assert_eq!(ledger.count_strong(Component::Client), 4);
    assert_eq!(ledger.count_strong(Component::Snapshot), 2);
    assert_eq!(ledger.count_strong(Component::PrivateTx), 2);
    assert_eq!(ledger.count_strong(Component::Database), 2);
    assert_eq!(ledger.count_weak(Component::Client), 1);
    assert_eq!(ledger.count_weak(Component::Database), 0);
    assert_eq!(ledger.count_weak(Component::IoService), 0);
    assert_eq!(ledger.count_strong(Component::Handler), 1);
    for component in components() {
        assert!(!ledger.released(component));
        assert_eq!(ledger.outstanding(component), 0);
    }
}

#[test]
fn accessors_hand_out_further_shares() {
    let mut service = started();
    let client = service.client();
    let snapshot = service.snapshot_service();
    let private_tx = service.private_tx_service();
    let io = service.io();
    let db = service.db();
    let second_db = service.db();
    assert_eq!(client.of(), Component::Client);
    assert_eq!(snapshot.of(), Component::Snapshot);
    assert_eq!(private_tx.of(), Component::PrivateTx);
    assert_eq!(io.of(), Component::IoService);
    assert_eq!(db.of(), Component::Database);
    assert_eq!(second_db.of(), Component::Database);
    let ledger = service.ownership();
    assert_eq!(ledger.outstanding(Component::Database), 2);
    assert_eq!(ledger.count_strong(Component::IoService), 2);
    assert_eq!(ledger.count_strong(Component::Client), 5);
    assert_eq!(ledger.count_strong(Component::Snapshot), 3);
    assert_eq!(ledger.count_strong(Component::PrivateTx), 3);
    assert_eq!(ledger.count_strong(Component::Database), 4);
    service.release(second_db);
    service.release(client);
    let ledger = service.ownership();
    assert_eq!(ledger.count_strong(Component::Database), 3);
    assert_eq!(ledger.count_strong(Component::Client), 4);
}

#[test]
fn dropping_the_service_releases_the_state_processor_despite_the_weak_link() {
    let teardown = started().shutdown();
    assert_eq!(teardown.steps, full_teardown());
    let ledger = teardown.ledger;
    assert!(!ledger.live);
    assert!(ledger.engine_linked);
    assert_eq!(ledger.count_weak(Component::Client), 1);
    for component in components() {
        assert_eq!(ledger.count_strong(component), 0);
        assert!(ledger.released(component));
    }
}

#[test]
fn engine_link_resolves_only_while_the_state_processor_lives() {
    let mut service = started();
    let client = service.client();
    let mut alive = service.ownership();
    let resolved = alive.resolve_engine_link();
    assert_eq!(resolved.map(|share| share.of()), Some(Component::Client));
    assert_eq!(alive.count_strong(Component::Client), 6);

    let mut ledger = service.shutdown().ledger;
    assert_eq!(ledger.count_strong(Component::Client), 1);
    let resolved = ledger.resolve_engine_link().expect("a share keeps the state processor alive");
    assert_eq!(ledger.count_strong(Component::Client), 2);
    ledger.release(resolved);
    ledger.release(client);
    assert!(ledger.released(Component::Client));
    assert_eq!(ledger.count_weak(Component::Client), 1);
    assert_eq!(ledger.resolve_engine_link(), None);
    assert!(ledger.released(Component::Client));

    let mut dropped = started().shutdown().ledger;
    assert_eq!(dropped.resolve_engine_link(), None);
}

#[test]
fn ledger_without_an_engine_link_resolves_nothing() {
    let mut ledger = Ledger { engine_linked: false, ..started().ownership() };
    assert_eq!(ledger.count_weak(Component::Client), 0);
    assert_eq!(ledger.resolve_engine_link(), None);
    assert_eq!(ledger.count_strong(Component::Client), 4);
}

#[test]
fn share_of_a_subsystem_keeps_what_it_is_built_on() {
    let mut service = started();
    let snapshot = service.snapshot_service();
    let teardown = service.shutdown();
    let mut ledger = teardown.ledger;
    assert!(ledger.released(Component::IoService));
    assert!(ledger.released(Component::PrivateTx));
    assert_eq!(ledger.count_strong(Component::Snapshot), 1);
    assert_eq!(ledger.count_strong(Component::Client), 1);
    assert_eq!(ledger.count_strong(Component::Database), 1);
    ledger.release(snapshot);
    assert!(ledger.released(Component::Snapshot));
    assert!(ledger.released(Component::Client));
    assert!(ledger.released(Component::Database));
}

#[test]
fn share_of_the_store_keeps_the_store_alone() {
    let mut service = started();
    let db = service.db();
    let mut ledger = service.shutdown().ledger;
    assert!(ledger.released(Component::Client));
    assert_eq!(ledger.count_strong(Component::Database), 1);
    ledger.release(db);
    assert!(ledger.released(Component::Database));
}

#[test]
fn giving_back_more_than_was_handed_out_changes_nothing() {
    let mut service = started();
    let io = service.io();
    let mut ledger = service.shutdown().ledger;
    let before = ledger;
    ledger.release(io);
    assert_eq!(ledger.outstanding(Component::IoService), 0);
    let mut other = started();
    let stray = other.io();
    ledger.release(stray);
    assert_eq!(ledger, Ledger { io_service: 0, ..before });
}

#[test]
fn further_handlers_stay_with_the_runtime_until_it_stops() {
    let mut service = started();
    assert_eq!(service.register_io_handler(Ok(())), Ok(()));
    assert_eq!(service.register_io_handler(Ok(())), Ok(()));
    assert_eq!(
        service.register_io_handler(Err("loop is gone".to_string())),
        Err(Error::Io("loop is gone".to_string()))
    );
    assert_eq!(service.ownership().handlers, 2);
    service.add_notify();
    assert_eq!(service.ownership().observers, 1);
    let ledger = service.shutdown().ledger;
    assert_eq!(ledger.handlers, 0);
    assert_eq!(ledger.observers, 1);
}
