//! Which services a run needs, by the backend that was asked for.
use vstd::prelude::*;

verus! {

/// The wallet-facing backend of a devnet. Any identifier other than the two
/// recognised ones selects `NoBackend`: an unknown choice degrades to the
/// minimal network rather than being rejected.
#[derive(Clone, Copy, Debug, PartialEq, Eq, Structural)]
pub enum Backend {
    NoBackend,
    /// The wallet server, `"lwd"`.
    WalletServer,
    /// The experimental indexer, `"zaino"`.
    ZainoIndexer,
}

/// One service of the devnet, as the container runtime names it.
#[derive(Clone, Copy, Debug, PartialEq, Eq, Structural)]
pub enum Service {
    Node,
    Faucet,
    WalletServer,
    WalletIndexer,
}

/// The backend that an identifier stands for.
pub open spec fn backend_of(id: Seq<char>) -> Backend {
    if id == "lwd"@ {
        Backend::WalletServer
    } else if id == "zaino"@ {
        Backend::ZainoIndexer
    } else {
        Backend::NoBackend
    }
}

/// The services a backend needs, in the order they are handed to the runtime.
pub open spec fn topology(b: Backend) -> Seq<Service> {
    match b {
        Backend::NoBackend => seq![Service::Node, Service::Faucet],
        Backend::WalletServer => seq![Service::Node, Service::Faucet, Service::WalletServer],
        Backend::ZainoIndexer => seq![Service::Node, Service::Faucet, Service::WalletIndexer],
    }
}

/// The service that runs a backend, if any.
pub open spec fn backend_service(b: Backend) -> Option<Service> {
    match b {
        Backend::NoBackend => None,
        Backend::WalletServer => Some(Service::WalletServer),
        Backend::ZainoIndexer => Some(Service::WalletIndexer),
    }
}

/// The name under which the container runtime knows a service.
pub open spec fn compose_name_spec(s: Service) -> Seq<char> {
    match s {
        Service::Node => "zebra"@,
        Service::Faucet => "faucet"@,
        Service::WalletServer => "lightwalletd"@,
        Service::WalletIndexer => "zaino"@,
    }
}

/// The identifier a backend is chosen by, which the health prober is also
/// given; empty for `NoBackend`.
pub open spec fn backend_id_spec(b: Backend) -> Seq<char> {
    match b {
        Backend::NoBackend => ""@,
        Backend::WalletServer => "lwd"@,
        Backend::ZainoIndexer => "zaino"@,
    }
}

impl Backend {
    /// Reads a backend identifier; anything unrecognised is `NoBackend`.
    pub fn from_id(id: &str) -> (r: Backend)
        ensures
            r == backend_of(id@),
    {
        let s = id.to_owned();
        if s == "lwd".to_owned() {
            Backend::WalletServer
        } else if s == "zaino".to_owned() {
            Backend::ZainoIndexer
        } else {
            Backend::NoBackend
        }
    }

    /// The identifier this backend is chosen by.
    pub fn id(self) -> (r: &'static str)
        ensures
            r@ == backend_id_spec(self),
    {
        match self {
            Backend::NoBackend => "",
            Backend::WalletServer => "lwd",
            Backend::ZainoIndexer => "zaino",
        }
    }

    /// Whether a backend service is part of the run.
    pub fn is_some(self) -> (r: bool)
        ensures
            r == (self != Backend::NoBackend),
    {
        !matches!(self, Backend::NoBackend)
    }

    /// The services this backend needs, in start order.
    pub fn services(self) -> (r: Vec<Service>)
        ensures
            r@ == topology(self),
    {
        match self {
            Backend::NoBackend => vec![Service::Node, Service::Faucet],
            Backend::WalletServer => vec![Service::Node, Service::Faucet, Service::WalletServer],
            Backend::ZainoIndexer => vec![Service::Node, Service::Faucet, Service::WalletIndexer],
        }
    }
}

impl Service {
    /// The name under which the container runtime knows this service.
    pub fn compose_name(self) -> (r: &'static str)
        ensures
            r@ == compose_name_spec(self),
    {
        match self {
            Service::Node => "zebra",
            Service::Faucet => "faucet",
            Service::WalletServer => "lightwalletd",
            Service::WalletIndexer => "zaino",
        }
    }
}

/// Any identifier other than `"lwd"` and `"zaino"` needs exactly the node and
/// the faucet.
pub proof fn lemma_unrecognised_is_minimal(id: Seq<char>)
    requires
        id != "lwd"@,
        id != "zaino"@,
    ensures
        backend_of(id) == Backend::NoBackend,
        topology(backend_of(id)) == seq![Service::Node, Service::Faucet],
{
}

/// With a backend, the topology has three services: node, faucet, then the
/// backend's own.
pub proof fn lemma_backend_topology(b: Backend)
    requires
        b != Backend::NoBackend,
    ensures
        topology(b).len() == 3,
        topology(b)[0] == Service::Node,
        topology(b)[1] == Service::Faucet,
        backend_service(b) == Some(topology(b)[2]),
{
}

/// The services needed for a backend identifier, in start order. Node and
/// faucet always come first; an unrecognised identifier gets only those two.
pub fn select(backend_id: &str) -> (r: Vec<Service>)
    ensures
        r@ == topology(backend_of(backend_id@)),
{
    Backend::from_id(backend_id).services()
}

} // verus!
