//! The event dispatcher: what a timer expiry or an inbound message asks of
//! which subsystem, and what becomes of a failure.
//!
//! The dispatcher keeps no state of its own. It answers each event with one
//! [`Dispatch`], and each failure with at most one [`Notice`]: nothing that
//! goes wrong while an event is served reaches the event loop.

use vstd::prelude::*;
use ethcore_io::IoContext;
use crate::message::{Hash256, InboundMessage, Manifest, RestorationStatus};
use crate::ownership::Ledger;
use crate::runtime::{describe, register_timer};
use crate::startup::Component;
use crate::timer::{
    interval_of, registrations, registry, TimerToken, CLIENT_TICK_TIMER, SNAPSHOT_TICK_TIMER,
};

verus! {

/// One call into a subsystem, with the arguments decided.
#[derive(Clone, Debug, PartialEq, Eq)]
pub enum Operation {
    /// Periodic maintenance of the state processor, which is told whether a
    /// snapshot restoration is in flight.
    ClientTick { snapshot_restoration: bool },
    /// Periodic maintenance of the snapshot synchronizer.
    SnapshotTick,
    /// Import all verified blocks that the state processor has queued.
    ImportVerifiedBlocks,
    /// Import transactions into the queue, attributed to a peer.
    ImportQueuedTransactions { transactions: Vec<Vec<u8>>, peer_id: usize },
    /// Initialize a restoration from a manifest.
    InitRestore { manifest: Manifest, force: bool },
    /// Feed a state chunk into the restoration in progress.
    FeedStateChunk { hash: Hash256, chunk: Vec<u8> },
    /// Feed a block chunk into the restoration in progress.
    FeedBlockChunk { hash: Hash256, chunk: Vec<u8> },
    /// Capture a snapshot at a block number.
    TakeSnapshot { block_number: u64 },
    /// Hand a message to the consensus engine of the state processor.
    HandleEngineMessage { message: Vec<u8> },
    /// Tell the private-message processor that a private transaction is queued.
    PrivateTransactionQueued,
}

/// How severe a notice is.
#[derive(Clone, Copy, Debug, PartialEq, Eq, Structural)]
pub enum Level {
    Trace,
    Warn,
}

/// Something worth a line in the log.
#[derive(Clone, Copy, Debug, PartialEq, Eq)]
pub enum Notice {
    /// The runtime fired a timer that the dispatcher did not register.
    UnregisteredTimer(TimerToken),
    /// The restoration could not be initialized.
    RestorationNotInitialized,
    /// No thread could be started for the capture of a snapshot.
    SnapshotNotStarted { block_number: u64 },
    /// The capture of a snapshot failed.
    SnapshotFailed { block_number: u64 },
    /// The consensus engine rejected a message.
    EngineMessageRejected,
    /// The private-message processor could not handle the queued transaction.
    PrivateTransactionNotHandled,
}

/// What went wrong with an operation.
#[derive(Clone, Copy, Debug, PartialEq, Eq, Structural)]
pub enum Fault {
    /// The thread for the operation could not be started.
    NotStarted,
    /// The subsystem returned an error.
    Failed,
}

/// The dispatcher's answer to an event.
#[derive(Clone, Debug, PartialEq, Eq)]
pub enum Dispatch {
    /// Make the call before the callback returns.
    Call(Operation),
    /// Start a new thread that makes the call, and return at once: the call
    /// may run long, and no event waits for it.
    Spawn(Operation),
    /// Ask the snapshot synchronizer for its status; [`client_tick`] turns
    /// the answer into the call to make.
    QueryRestorationStatus,
    /// Log the notice; nothing else happens.
    Report(Notice),
    /// Nothing happens.
    Ignore,
}

/// A timer that the dispatcher needs and that is not registered.
#[derive(Clone, Debug, PartialEq, Eq)]
pub struct TimerNotRegistered {
    pub token: TimerToken,
    /// Why the runtime refused it; `None` where it was never asked.
    pub reason: Option<String>,
}

impl Operation {
    /// The subsystem on which the operation is called.
    pub open spec fn target(self) -> Component {
        match self {
            Operation::ClientTick { .. } => Component::Client,
            Operation::SnapshotTick => Component::Snapshot,
            Operation::ImportVerifiedBlocks => Component::Client,
            Operation::ImportQueuedTransactions { .. } => Component::Client,
            Operation::InitRestore { .. } => Component::Snapshot,
            Operation::FeedStateChunk { .. } => Component::Snapshot,
            Operation::FeedBlockChunk { .. } => Component::Snapshot,
            Operation::TakeSnapshot { .. } => Component::Snapshot,
            Operation::HandleEngineMessage { .. } => Component::Client,
            Operation::PrivateTransactionQueued => Component::PrivateTx,
        }
    }

    /// The notice that a fault of the operation is reported with, if any.
    /// Operations that report nothing back leave nothing to say.
    pub open spec fn reported(self, fault: Fault) -> Option<Notice> {
        match (self, fault) {
            (Operation::InitRestore { .. }, Fault::Failed) => Some(Notice::RestorationNotInitialized),
            (Operation::TakeSnapshot { block_number }, Fault::NotStarted) => Some(
                Notice::SnapshotNotStarted { block_number },
            ),
            (Operation::TakeSnapshot { block_number }, Fault::Failed) => Some(
                Notice::SnapshotFailed { block_number },
            ),
            (Operation::HandleEngineMessage { .. }, Fault::Failed) => Some(
                Notice::EngineMessageRejected,
            ),
            (Operation::PrivateTransactionQueued, Fault::Failed) => Some(
                Notice::PrivateTransactionNotHandled,
            ),
            _ => None,
        }
    }

    /// Finds the subsystem on which the operation is called.
    pub fn subsystem(&self) -> (component: Component)
        ensures
            component == self.target(),
    {
        match self {
            Operation::ClientTick { .. } => Component::Client,
            Operation::SnapshotTick => Component::Snapshot,
            Operation::ImportVerifiedBlocks => Component::Client,
            Operation::ImportQueuedTransactions { .. } => Component::Client,
            Operation::InitRestore { .. } => Component::Snapshot,
            Operation::FeedStateChunk { .. } => Component::Snapshot,
            Operation::FeedBlockChunk { .. } => Component::Snapshot,
            Operation::TakeSnapshot { .. } => Component::Snapshot,
            Operation::HandleEngineMessage { .. } => Component::Client,
            Operation::PrivateTransactionQueued => Component::PrivateTx,
        }
    }
}

impl Notice {
    /// How severe the notice is: a message that the engine rejects is
    /// routine, everything else is a warning.
    pub open spec fn severity(self) -> Level {
        match self {
            Notice::EngineMessageRejected => Level::Trace,
            _ => Level::Warn,
        }
    }

    /// The level at which the notice is logged.
    pub fn level(&self) -> (level: Level)
        ensures
            level == self.severity(),
    {
        match self {
            Notice::EngineMessageRejected => Level::Trace,
            _ => Level::Warn,
        }
    }
}

impl Dispatch {
    /// The subsystem that the answer reaches into, if any.
    pub open spec fn touches(self) -> Option<Component> {
        match self {
            Dispatch::Call(operation) => Some(operation.target()),
            Dispatch::Spawn(operation) => Some(operation.target()),
            Dispatch::QueryRestorationStatus => Some(Component::Snapshot),
            Dispatch::Report(_) => None,
            Dispatch::Ignore => None,
        }
    }
}

/// The answer to the expiry of the timer under `token`.
pub open spec fn timed_out(token: TimerToken) -> Dispatch {
    if token == CLIENT_TICK_TIMER {
        Dispatch::QueryRestorationStatus
    } else if token == SNAPSHOT_TICK_TIMER {
        Dispatch::Call(Operation::SnapshotTick)
    } else {
        Dispatch::Report(Notice::UnregisteredTimer(token))
    }
}

/// The answer to an inbound message.
pub open spec fn routed(message: InboundMessage) -> Dispatch {
    match message {
        InboundMessage::BlockVerified => Dispatch::Call(Operation::ImportVerifiedBlocks),
        InboundMessage::NewTransactions(transactions, peer_id) => Dispatch::Call(
            Operation::ImportQueuedTransactions { transactions, peer_id },
        ),
        InboundMessage::BeginRestoration(manifest) => Dispatch::Call(
            Operation::InitRestore { manifest, force: true },
        ),
        InboundMessage::FeedStateChunk(hash, chunk) => Dispatch::Call(
            Operation::FeedStateChunk { hash, chunk },
        ),
        InboundMessage::FeedBlockChunk(hash, chunk) => Dispatch::Call(
            Operation::FeedBlockChunk { hash, chunk },
        ),
        InboundMessage::TakeSnapshot(block_number) => Dispatch::Spawn(
            Operation::TakeSnapshot { block_number },
        ),
        InboundMessage::NewMessage(message) => Dispatch::Call(
            Operation::HandleEngineMessage { message },
        ),
        InboundMessage::NewPrivateTransaction => Dispatch::Call(Operation::PrivateTransactionQueued),
        InboundMessage::Other => Dispatch::Ignore,
    }
}

/// Whether the answers of the runtime leave the timer at position `index` of
/// the registry registered.
pub open spec fn is_registered(answers: Seq<Result<(), String>>, index: int) -> bool {
    index < answers.len() && answers[index] is Ok
}

/// Whether `index` is the first position of the registry whose timer is not
/// registered.
pub open spec fn first_unregistered(answers: Seq<Result<(), String>>, index: int) -> bool {
    &&& 0 <= index < registry().len()
    &&& !is_registered(answers, index)
    &&& forall|earlier: int| 0 <= earlier < index ==> is_registered(answers, earlier)
}

/// Decides whether the dispatcher may serve events, given what the runtime
/// answered to the registration of its timers: `answers[i]` is the answer
/// for the timer at position `i` of the registry.
///
/// The dispatcher may run only with its full set of timers. Where one is
/// missing, because the runtime refused it or was never asked, the first
/// such timer is named, with the runtime's reason if it gave one.
pub fn registered(answers: &Vec<Result<(), String>>) -> (verdict: Result<(), TimerNotRegistered>)
    ensures
        verdict is Ok <==> forall|i: int|
            0 <= i < registry().len() ==> #[trigger] is_registered(answers@, i),
        verdict matches Err(missing) ==> exists|i: int|
            #![trigger registry()[i]]
            first_unregistered(answers@, i) && missing.token == registry()[i].token
                && missing.reason == (if i < answers@.len() {
                Some(answers@[i]->Err_0)
            } else {
                None
            }),
{
    let timers = registrations();
    let mut index: usize = 0;
    while index < timers.len()
        invariant
            timers@ == registry(),
            index <= timers.len(),
            forall|i: int| 0 <= i < index ==> #[trigger] is_registered(answers@, i),
        decreases timers.len() - index,
    {
        let token = timers[index].token;
        if index < answers.len() {
            match &answers[index] {
                Ok(_) => {},
                Err(reason) => {
                    assert(first_unregistered(answers@, index as int));
                    return Err(TimerNotRegistered { token, reason: Some(reason.clone()) });
                },
            }
        } else {
            assert(first_unregistered(answers@, index as int));
            return Err(TimerNotRegistered { token, reason: None });
        }
        index = index + 1;
    }
    Ok(())
}

/// Registers the timers of the dispatcher with the runtime, in the order of
/// the registry, and stops at the first that the runtime refuses.
///
/// Whether the runtime takes a timer is its own affair. Whatever it
/// answers, the verdict is that of [`registered`] on its answers: the
/// dispatcher may run only if every timer was taken, and a refusal names a
/// timer of the registry and carries the runtime's reason.
pub fn initialize<Message: Send + Sync + 'static>(io: &IoContext<Message>) -> (verdict: Result<
    (),
    TimerNotRegistered,
>)
    ensures
        verdict matches Err(missing) ==> missing.reason is Some && exists|i: int|
            0 <= i < registry().len() && (#[trigger] registry()[i]).token == missing.token,
{
    let timers = registrations();
    let mut answers: Vec<Result<(), String>> = Vec::new();
    let mut index: usize = 0;
    while index < timers.len()
        invariant
            timers@ == registry(),
            index <= timers.len(),
            answers@.len() == index,
            forall|i: int| 0 <= i < index ==> #[trigger] is_registered(answers@, i),
        decreases timers.len() - index,
    {
        let ghost taken = answers@;
        match register_timer(io, timers[index].token, timers[index].interval_ms) {
            Ok(_) => {
                answers.push(Ok(()));
            },
            Err(error) => {
                answers.push(Err(describe(&error)));
                let verdict = registered(&answers);
                proof {
                    assert(!is_registered(answers@, index as int));
                    assert forall|i: int| 0 <= i < index implies is_registered(answers@, i) by {
                        assert(is_registered(taken, i));
                    }
                    let missing = verdict->Err_0;
                    let first = choose|i: int|
                        #![trigger registry()[i]]
                        first_unregistered(answers@, i) && missing.token == registry()[i].token
                            && missing.reason == (if i < answers@.len() {
                            Some(answers@[i]->Err_0)
                        } else {
                            None
                        });
                    assert(first == index) by {
                        if first < index {
                            assert(is_registered(answers@, first));
                        }
                    }
                }
                return verdict;
            },
        }
        proof {
            assert forall|i: int| 0 <= i < index + 1 implies #[trigger] is_registered(
                answers@,
                i,
            ) by {
                if i < index {
                    assert(is_registered(taken, i));
                }
            }
        }
        index = index + 1;
    }
    registered(&answers)
}

/// Answers the expiry of a timer.
///
/// The client tick asks for the status of the snapshot synchronizer first,
/// the snapshot tick calls its maintenance, and a token that was never
/// registered is reported and has no other effect.
pub fn timeout(token: TimerToken) -> (dispatch: Dispatch)
    ensures
        dispatch == timed_out(token),
        interval_of(token) is None ==> dispatch.touches() is None,
{
    if token == CLIENT_TICK_TIMER {
        Dispatch::QueryRestorationStatus
    } else if token == SNAPSHOT_TICK_TIMER {
        Dispatch::Call(Operation::SnapshotTick)
    } else {
        Dispatch::Report(Notice::UnregisteredTimer(token))
    }
}

/// Completes the client tick once the snapshot synchronizer has reported its
/// status: the state processor is told of a restoration exactly when one is
/// in flight.
pub fn client_tick(status: &RestorationStatus) -> (operation: Operation)
    ensures
        operation == (Operation::ClientTick { snapshot_restoration: *status is Ongoing }),
{
    Operation::ClientTick { snapshot_restoration: status.is_ongoing() }
}

/// Answers an inbound message.
///
/// Each message asks for one call, with the payload handed on as it came. A
/// restoration is always forced. The capture of a
/// snapshot alone is spawned. Any other message is ignored.
pub fn message(inbound: InboundMessage) -> (dispatch: Dispatch)
    ensures
        dispatch == routed(inbound),
{
    match inbound {
        InboundMessage::BlockVerified => Dispatch::Call(Operation::ImportVerifiedBlocks),
        InboundMessage::NewTransactions(transactions, peer_id) => Dispatch::Call(
            Operation::ImportQueuedTransactions { transactions, peer_id },
        ),
        InboundMessage::BeginRestoration(manifest) => Dispatch::Call(
            Operation::InitRestore { manifest, force: true },
        ),
        InboundMessage::FeedStateChunk(hash, chunk) => Dispatch::Call(
            Operation::FeedStateChunk { hash, chunk },
        ),
        InboundMessage::FeedBlockChunk(hash, chunk) => Dispatch::Call(
            Operation::FeedBlockChunk { hash, chunk },
        ),
        InboundMessage::TakeSnapshot(block_number) => Dispatch::Spawn(
            Operation::TakeSnapshot { block_number },
        ),
        InboundMessage::NewMessage(message) => Dispatch::Call(
            Operation::HandleEngineMessage { message },
        ),
        InboundMessage::NewPrivateTransaction => Dispatch::Call(Operation::PrivateTransactionQueued),
        InboundMessage::Other => Dispatch::Ignore,
    }
}

/// Decides what becomes of a fault: at most a notice. The event counts as
/// handled either way, and the next one is served as if nothing had happened.
pub fn failure(operation: &Operation, fault: Fault) -> (notice: Option<Notice>)
    ensures
        notice == operation.reported(fault),
{
    match operation {
        Operation::InitRestore { .. } => match fault {
            Fault::Failed => Some(Notice::RestorationNotInitialized),
            Fault::NotStarted => None,
        },
        Operation::TakeSnapshot { block_number } => match fault {
            Fault::NotStarted => Some(Notice::SnapshotNotStarted { block_number: *block_number }),
            Fault::Failed => Some(Notice::SnapshotFailed { block_number: *block_number }),
        },
        Operation::HandleEngineMessage { .. } => match fault {
            Fault::Failed => Some(Notice::EngineMessageRejected),
            Fault::NotStarted => None,
        },
        Operation::PrivateTransactionQueued => match fault {
            Fault::Failed => Some(Notice::PrivateTransactionNotHandled),
            Fault::NotStarted => None,
        },
        _ => None,
    }
}

/// A timer token that was never registered leads to a warning in the log
/// and to nothing else: no subsystem is reached.
pub proof fn lemma_unregistered_timer_only_reports(token: TimerToken)
    requires
        interval_of(token) is None,
    ensures
        timed_out(token) == Dispatch::Report(Notice::UnregisteredTimer(token)),
        timed_out(token).touches() is None,
        Notice::UnregisteredTimer(token).severity() == Level::Warn,
{
}

/// The capture of a snapshot is spawned, and it is the only thing that is:
/// every other message is answered by a call within the callback or is
/// ignored. The answer to a message depends on that message alone, so what
/// was spawned before has no bearing on it.
pub proof fn lemma_capture_alone_is_spawned(inbound: InboundMessage)
    ensures
        routed(inbound) is Spawn <==> inbound is TakeSnapshot,
        inbound matches InboundMessage::TakeSnapshot(block_number) ==> routed(inbound)
            == Dispatch::Spawn(Operation::TakeSnapshot { block_number }),
        !(routed(inbound) is QueryRestorationStatus) && !(routed(inbound) is Report),
        routed(inbound) is Ignore <==> inbound is Other,
{
}

/// The dispatcher reaches into the three subsystems of which it holds a
/// share, and into nothing else: never into the runtime or the store.
pub proof fn lemma_dispatcher_reaches_its_subsystems_only(token: TimerToken, inbound: InboundMessage)
    ensures
        timed_out(token).touches() matches Some(component) ==> Ledger::fresh().dispatcher_share(
            component,
        ) == 1,
        routed(inbound).touches() matches Some(component) ==> Ledger::fresh().dispatcher_share(
            component,
        ) == 1,
        Ledger::fresh().dispatcher_share(Component::IoService) == 0,
        Ledger::fresh().dispatcher_share(Component::Database) == 0,
{
}

/// A fault never becomes more than a notice. What the engine rejects is
/// routine; every other fault is a warning. Ticks, imports and the feeding
/// of chunks report nothing back, and only a spawned capture can fail to
/// start.
pub proof fn lemma_faults_end_as_notices(operation: Operation, fault: Fault)
    ensures
        operation.reported(fault) matches Some(notice) ==> (notice.severity() == Level::Trace
            <==> operation is HandleEngineMessage),
        operation.reported(Fault::NotStarted) is Some <==> operation is TakeSnapshot,
        operation.reported(Fault::Failed) is Some <==> operation is InitRestore || operation
            is TakeSnapshot || operation is HandleEngineMessage || operation
            is PrivateTransactionQueued,
{
}

} // verus!
