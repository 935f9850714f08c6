//! The connection report printed once a run is ready.
use vstd::prelude::*;
use crate::topology::Backend;

verus! {

/// One service endpoint a developer can reach.
pub struct Endpoint {
    pub label: String,
    pub url: String,
    /// Set for a backend that is not yet considered stable.
    pub experimental: bool,
}

/// The endpoints of a ready devnet, followed by hints for what to run next.
pub struct ConnectionReport {
    pub endpoints: Vec<Endpoint>,
    pub hints: Vec<String>,
}

pub struct EndpointView {
    pub label: Seq<char>,
    pub url: Seq<char>,
    pub experimental: bool,
}

pub struct ReportView {
    pub endpoints: Seq<EndpointView>,
    pub hints: Seq<Seq<char>>,
}

impl View for Endpoint {
    type V = EndpointView;

    open spec fn view(&self) -> EndpointView {
        EndpointView { label: self.label@, url: self.url@, experimental: self.experimental }
    }
}

impl View for ConnectionReport {
    type V = ReportView;

    open spec fn view(&self) -> ReportView {
        ReportView {
            endpoints: self.endpoints@.map_values(|e: Endpoint| e@),
            hints: self.hints@.map_values(|h: String| h@),
        }
    }
}

pub open spec fn endpoint_spec(label: Seq<char>, url: Seq<char>, experimental: bool) -> EndpointView {
    EndpointView { label, url, experimental }
}

/// The node's RPC endpoint.
pub open spec fn node_endpoint() -> EndpointView {
    endpoint_spec("Zebra RPC:"@, "http://127.0.0.1:8232"@, false)
}

/// The faucet's API endpoint.
pub open spec fn faucet_endpoint() -> EndpointView {
    endpoint_spec("Faucet API:"@, "http://127.0.0.1:8080"@, false)
}

/// The endpoint of a backend, if one runs.
pub open spec fn backend_endpoint(b: Backend) -> Option<EndpointView> {
    match b {
        Backend::NoBackend => None,
        Backend::WalletServer => Some(endpoint_spec("LightwalletD:"@, "http://127.0.0.1:9067"@, false)),
        Backend::ZainoIndexer => Some(endpoint_spec("Zaino:"@, "http://127.0.0.1:9067"@, true)),
    }
}

/// Node, faucet, then the backend's endpoint when there is a backend.
pub open spec fn endpoints_for(b: Backend) -> Seq<EndpointView> {
    match backend_endpoint(b) {
        None => seq![node_endpoint(), faucet_endpoint()],
        Some(e) => seq![node_endpoint(), faucet_endpoint(), e],
    }
}

/// What to try once the devnet is up.
pub open spec fn next_step_hints() -> Seq<Seq<char>> {
    seq![
        "Test faucet: curl http://127.0.0.1:8080/stats"@,
        "Run tests: zecdev test"@,
        "Check status: zecdev status"@,
    ]
}

pub open spec fn report_for(b: Backend) -> ReportView {
    ReportView { endpoints: endpoints_for(b), hints: next_step_hints() }
}

fn endpoint(label: &str, url: &str, experimental: bool) -> (r: Endpoint)
    ensures
        r@ == endpoint_spec(label@, url@, experimental),
{
    Endpoint { label: label.to_owned(), url: url.to_owned(), experimental }
}

/// The report for a devnet that runs `backend`.
pub fn connection_report(backend: Backend) -> (r: ConnectionReport)
    ensures
        r@ == report_for(backend),
{
    let mut endpoints: Vec<Endpoint> = Vec::new();
    endpoints.push(endpoint("Zebra RPC:", "http://127.0.0.1:8232", false));
    endpoints.push(endpoint("Faucet API:", "http://127.0.0.1:8080", false));
    match backend {
        Backend::NoBackend => {},
        Backend::WalletServer => {
            endpoints.push(endpoint("LightwalletD:", "http://127.0.0.1:9067", false));
        },
        Backend::ZainoIndexer => {
            endpoints.push(endpoint("Zaino:", "http://127.0.0.1:9067", true));
        },
    }
    let mut hints: Vec<String> = Vec::new();
    hints.push("Test faucet: curl http://127.0.0.1:8080/stats".to_owned());
    hints.push("Run tests: zecdev test".to_owned());
    hints.push("Check status: zecdev status".to_owned());
    let r = ConnectionReport { endpoints, hints };
    assert(r@.endpoints =~= endpoints_for(backend));
    assert(r@.hints =~= next_step_hints());
    r
}

} // verus!
