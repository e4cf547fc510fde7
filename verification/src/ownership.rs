//! Who owns the components of the service.
//!
//! The components are shared. The service holds one share of the runtime,
//! of the store and of each of the three subsystems while it lives. The
//! runtime holds the dispatcher while it runs, and it runs for as long as
//! the service lives. The dispatcher holds a share of each of the three
//! subsystems. The snapshot synchronizer and the private-message processor
//! each hold a share of the state processor, and the state processor holds
//! a share of the store, for as long as they exist themselves. The
//! accessors of the service hand out further shares. A component is
//! released when its last share is gone. The engine refers back to the
//! state processor without holding a share.

use vstd::prelude::*;
use crate::startup::Component;

verus! {

/// A share of a component that an accessor of the service has handed out.
#[derive(Debug, PartialEq, Eq)]
pub struct Share {
    component: Component,
}

impl Share {
    /// The component that the share is of.
    pub closed spec fn component(self) -> Component {
        self.component
    }

    /// Hands out a share of `component`.
    pub(crate) fn new(component: Component) -> (share: Share)
        ensures
            share.component() == component,
    {
        Share { component }
    }

    /// The component that the share is of.
    pub fn of(&self) -> (component: Component)
        ensures
            component == self.component(),
    {
        self.component
    }
}

/// Who holds the components at one moment.
#[derive(Clone, Copy, Debug, PartialEq, Eq)]
pub struct Ledger {
    /// Whether the service lives. While it does, it holds its own shares and
    /// the runtime runs, which keeps the dispatcher.
    pub live: bool,
    /// Whether the engine has its weak back-reference to the state processor.
    pub engine_linked: bool,
    /// Shares of the runtime that accessors have handed out.
    pub io_service: u32,
    /// Shares of the store that accessors have handed out.
    pub database: u32,
    /// Shares of the state processor that accessors have handed out.
    pub client: u32,
    /// Shares of the snapshot synchronizer that accessors have handed out.
    pub snapshot: u32,
    /// Shares of the private-message processor that accessors have handed out.
    pub private_tx: u32,
    /// Further handlers that the runtime has taken and keeps while it runs.
    pub handlers: u32,
    /// Observers of chain events attached to the state processor.
    pub observers: u32,
}

impl Ledger {
    /// The ledger of a service that has just started.
    pub open spec fn fresh() -> Ledger {
        Ledger {
            live: true,
            engine_linked: true,
            io_service: 0,
            database: 0,
            client: 0,
            snapshot: 0,
            private_tx: 0,
            handlers: 0,
            observers: 0,
        }
    }

    /// How many shares of `component` have been handed out and not given
    /// back. No accessor hands out the dispatcher.
    pub open spec fn shares(self, component: Component) -> nat {
        match component {
            Component::IoService => self.io_service as nat,
            Component::Database => self.database as nat,
            Component::Client => self.client as nat,
            Component::Snapshot => self.snapshot as nat,
            Component::PrivateTx => self.private_tx as nat,
            Component::Handler => 0,
        }
    }

    /// The share of `component` that the service itself holds while it lives:
    /// one of the runtime, of the store and of each subsystem.
    pub open spec fn service_share(self, component: Component) -> nat {
        if self.live && component != Component::Handler {
            1
        } else {
            0
        }
    }

    /// The share of `component` that the runtime holds while it runs: the
    /// dispatcher registered with it.
    pub open spec fn runtime_share(self, component: Component) -> nat {
        if self.live && component == Component::Handler {
            1
        } else {
            0
        }
    }

    /// The share of `component` that the dispatcher holds while the runtime
    /// keeps it: one of each of the three subsystems.
    pub open spec fn dispatcher_share(self, component: Component) -> nat {
        if self.runtime_share(Component::Handler) > 0 && (component == Component::Client
            || component == Component::Snapshot || component == Component::PrivateTx) {
            1
        } else {
            0
        }
    }

    /// The shares of `component` that the service, its runtime and its
    /// dispatcher hold between them.
    pub open spec fn own_shares(self, component: Component) -> nat {
        self.service_share(component) + self.runtime_share(component) + self.dispatcher_share(
            component,
        )
    }

    /// The shares of `component` that the subsystems built on it hold: the
    /// snapshot synchronizer and the private-message processor one of the
    /// state processor each, and the state processor one of the store, each
    /// while it has a holder itself.
    pub open spec fn dependent_shares(self, component: Component) -> nat {
        let snapshot: nat = if self.own_shares(Component::Snapshot) + self.shares(
            Component::Snapshot,
        ) > 0 {
            1
        } else {
            0
        };
        let private_tx: nat = if self.own_shares(Component::PrivateTx) + self.shares(
            Component::PrivateTx,
        ) > 0 {
            1
        } else {
            0
        };
        let client: nat = if self.own_shares(Component::Client) + snapshot + private_tx
            + self.shares(Component::Client) > 0 {
            1
        } else {
            0
        };
        match component {
            Component::Client => snapshot + private_tx,
            Component::Database => client,
            _ => 0,
        }
    }

    /// How many strong holders `component` has.
    pub open spec fn strong_count(self, component: Component) -> nat {
        self.own_shares(component) + self.dependent_shares(component) + self.shares(component)
    }

    /// How many weak references to `component` there are: the engine's to the
    /// state processor, and no other.
    pub open spec fn weak_count(self, component: Component) -> nat {
        if component == Component::Client && self.engine_linked {
            1
        } else {
            0
        }
    }

    /// Whether `component` has been released: it has no strong holder left.
    /// Weak references do not count.
    pub open spec fn is_released(self, component: Component) -> bool {
        self.strong_count(component) == 0
    }

    /// Whether the engine's back-reference still resolves: the engine has
    /// one, and the state processor has not been released.
    pub open spec fn engine_link_resolves(self) -> bool {
        self.engine_linked && !self.is_released(Component::Client)
    }

    /// The ledger with one more share of `component` handed out.
    pub open spec fn with_share(self, component: Component) -> Ledger
        recommends
            component != Component::Handler,
            self.shares(component) < u32::MAX,
    {
        match component {
            Component::IoService => Ledger { io_service: (self.io_service + 1) as u32, ..self },
            Component::Database => Ledger { database: (self.database + 1) as u32, ..self },
            Component::Client => Ledger { client: (self.client + 1) as u32, ..self },
            Component::Snapshot => Ledger { snapshot: (self.snapshot + 1) as u32, ..self },
            Component::PrivateTx => Ledger { private_tx: (self.private_tx + 1) as u32, ..self },
            Component::Handler => self,
        }
    }

    /// The ledger with one share of `component` given back. Where none is
    /// out, nothing changes.
    pub open spec fn without_share(self, component: Component) -> Ledger {
        if self.shares(component) == 0 {
            self
        } else {
            match component {
                Component::IoService => Ledger { io_service: (self.io_service - 1) as u32, ..self },
                Component::Database => Ledger { database: (self.database - 1) as u32, ..self },
                Component::Client => Ledger { client: (self.client - 1) as u32, ..self },
                Component::Snapshot => Ledger { snapshot: (self.snapshot - 1) as u32, ..self },
                Component::PrivateTx => Ledger {
                    private_tx: (self.private_tx - 1) as u32,
                    ..self
                },
                Component::Handler => self,
            }
        }
    }

    /// The ledger once the service is gone: the runtime is stopped, so the
    /// dispatcher and every further handler are gone too. The shares handed
    /// out, the observers and the engine's weak reference stay as they are.
    pub open spec fn torn_down(self) -> Ledger {
        Ledger { live: false, handlers: 0, ..self }
    }

    /// Counts the shares of `component` that are handed out.
    pub fn outstanding(&self, component: Component) -> (count: u32)
        ensures
            count == self.shares(component),
    {
        match component {
            Component::IoService => self.io_service,
            Component::Database => self.database,
            Component::Client => self.client,
            Component::Snapshot => self.snapshot,
            Component::PrivateTx => self.private_tx,
            Component::Handler => 0,
        }
    }

    /// Counts the strong holders of `component`.
    pub fn count_strong(&self, component: Component) -> (count: u64)
        ensures
            count == self.strong_count(component),
    {
        let own: u64 = if self.live { 1 } else { 0 };
        let snapshot: u64 = 2 * own + self.snapshot as u64;
        let private_tx: u64 = 2 * own + self.private_tx as u64;
        let snapshot_holds: u64 = if snapshot > 0 { 1 } else { 0 };
        let private_tx_holds: u64 = if private_tx > 0 { 1 } else { 0 };
        let client: u64 = 2 * own + snapshot_holds + private_tx_holds + self.client as u64;
        let client_holds: u64 = if client > 0 { 1 } else { 0 };
        match component {
            Component::IoService => own + self.io_service as u64,
            Component::Database => own + client_holds + self.database as u64,
            Component::Client => client,
            Component::Snapshot => snapshot,
            Component::PrivateTx => private_tx,
            Component::Handler => own,
        }
    }

    /// Counts the weak references to `component`.
    pub fn count_weak(&self, component: Component) -> (count: u64)
        ensures
            count == self.weak_count(component),
    {
        match component {
            Component::Client => if self.engine_linked { 1 } else { 0 },
            _ => 0,
        }
    }

    /// Tells whether `component` has been released.
    pub fn released(&self, component: Component) -> (released: bool)
        ensures
            released == self.is_released(component),
    {
        self.count_strong(component) == 0
    }

    /// Hands out one more share of `component`.
    pub(crate) fn acquire(&mut self, component: Component) -> (share: Share)
        requires
            component != Component::Handler,
            old(self).shares(component) < u32::MAX,
        ensures
            share.component() == component,
            *final(self) == old(self).with_share(component),
    {
        match component {
            Component::IoService => { self.io_service = self.io_service + 1; },
            Component::Database => { self.database = self.database + 1; },
            Component::Client => { self.client = self.client + 1; },
            Component::Snapshot => { self.snapshot = self.snapshot + 1; },
            Component::PrivateTx => { self.private_tx = self.private_tx + 1; },
            Component::Handler => {},
        }
        Share::new(component)
    }

    /// Resolves the engine's back-reference to the state processor, as the
    /// engine does when it has something to tell it. The reference resolves
    /// for as long as the state processor has a strong holder, and then
    /// yields a further share of it; once the state processor is released,
    /// it resolves no more.
    pub fn resolve_engine_link(&mut self) -> (share: Option<Share>)
        requires
            old(self).shares(Component::Client) < u32::MAX,
        ensures
            share is Some <==> old(self).engine_link_resolves(),
            match share {
                Some(share) => share.component() == Component::Client && *final(self) == old(
                    self,
                ).with_share(Component::Client),
                None => *final(self) == *old(self),
            },
    {
        if self.engine_linked && !self.released(Component::Client) {
            Some(self.acquire(Component::Client))
        } else {
            None
        }
    }

    /// Takes back a share that an accessor has handed out.
    pub fn release(&mut self, share: Share)
        ensures
            *final(self) == old(self).without_share(share.component()),
    {
        match share.of() {
            Component::IoService => if self.io_service > 0 {
                self.io_service = self.io_service - 1;
            },
            Component::Database => if self.database > 0 {
                self.database = self.database - 1;
            },
            Component::Client => if self.client > 0 {
                self.client = self.client - 1;
            },
            Component::Snapshot => if self.snapshot > 0 {
                self.snapshot = self.snapshot - 1;
            },
            Component::PrivateTx => if self.private_tx > 0 {
                self.private_tx = self.private_tx - 1;
            },
            Component::Handler => {},
        }
    }
}

/// While the service lives, none of its components is released, whatever
/// the accessors have handed out: the runtime and the dispatcher have one
/// holder, the store, the snapshot synchronizer and the private-message
/// processor two, the state processor four, beside the shares handed out.
pub proof fn lemma_live_service_holds_every_component(ledger: Ledger, component: Component)
    requires
        ledger.live,
    ensures
        !ledger.is_released(component),
        ledger.strong_count(component) == ledger.shares(component) + (match component {
            Component::IoService => 1nat,
            Component::Database => 2nat,
            Component::Client => 4nat,
            Component::Snapshot => 2nat,
            Component::PrivateTx => 2nat,
            Component::Handler => 1nat,
        }),
{
}

/// Once the service is shut down, a component lives on only through shares
/// that accessors have handed out: the runtime and the two subsystems built
/// on the state processor through shares of their own, the state processor
/// through a share of its own or of a subsystem built on it, the store
/// through a share of its own or of anything above it. The dispatcher and
/// every further handler are gone with the runtime.
pub proof fn lemma_shutdown_releases_what_is_not_shared(ledger: Ledger)
    ensures
        ledger.torn_down().is_released(Component::Handler),
        ledger.torn_down().handlers == 0,
        ledger.torn_down().is_released(Component::IoService) <==> ledger.shares(
            Component::IoService,
        ) == 0,
        ledger.torn_down().is_released(Component::Snapshot) <==> ledger.shares(
            Component::Snapshot,
        ) == 0,
        ledger.torn_down().is_released(Component::PrivateTx) <==> ledger.shares(
            Component::PrivateTx,
        ) == 0,
        ledger.torn_down().is_released(Component::Client) <==> ledger.shares(Component::Client)
            == 0 && ledger.shares(Component::Snapshot) == 0 && ledger.shares(Component::PrivateTx)
            == 0,
        ledger.torn_down().is_released(Component::Database) <==> ledger.shares(
            Component::Database,
        ) == 0 && ledger.torn_down().is_released(Component::Client),
        forall|component: Component|
            #[trigger] ledger.torn_down().shares(component) == ledger.shares(component)
                && ledger.torn_down().weak_count(component) == ledger.weak_count(component),
        ledger.torn_down().observers == ledger.observers,
{
}

/// The engine's weak back-reference keeps nothing alive: when the service is
/// shut down and no share is out, every component is released, the state
/// processor and the store with it. The engine still has its reference, and
/// it resolves no more.
pub proof fn lemma_weak_reference_keeps_nothing_alive(ledger: Ledger)
    requires
        ledger.engine_linked,
        forall|component: Component| #[trigger] ledger.shares(component) == 0,
    ensures
        ledger.torn_down().weak_count(Component::Client) == 1,
        forall|component: Component| #[trigger] ledger.torn_down().is_released(component),
        !ledger.torn_down().engine_link_resolves(),
{
    assert(ledger.shares(Component::IoService) == 0);
    assert(ledger.shares(Component::Database) == 0);
    assert(ledger.shares(Component::Client) == 0);
    assert(ledger.shares(Component::Snapshot) == 0);
    assert(ledger.shares(Component::PrivateTx) == 0);
    lemma_shutdown_releases_what_is_not_shared(ledger);
}

/// A share that is handed out adds one strong holder, and giving it back
/// leaves the ledger as it was.
pub proof fn lemma_share_round_trip(ledger: Ledger, component: Component)
    requires
        component != Component::Handler,
        ledger.shares(component) < u32::MAX,
    ensures
        ledger.with_share(component).shares(component) == ledger.shares(component) + 1,
        ledger.with_share(component).strong_count(component) == ledger.strong_count(component)
            + 1,
        ledger.with_share(component).without_share(component) == ledger,
{
}

} // verus!
