//! The two read-only HTTP handlers: a liveness check and the static
//! configuration read, both bound to a small immutable context.

use vstd::prelude::*;

verus! {

/// Immutable context shared by all HTTP handler invocations: the identifier
/// naming the wallet contract. Created once at module construction.
#[derive(Debug, Clone)]
pub struct RouterCtx {
    pub wallet_cn: String,
}

/// The record served by the configuration endpoint.
#[derive(Debug, Clone, PartialEq, Eq)]
pub struct ConfigResponse {
    pub contract_name: String,
}

/// The fixed body of the liveness response.
pub open spec fn spec_health_body() -> Seq<char> {
    "OK"@
}

/// Liveness read: always succeeds with the fixed body; no side effects, no
/// state inspected.
pub fn health() -> (r: String)
    ensures
        r@ == spec_health_body(),
{
    String::from_str("OK")
}

/// Configuration read: always succeeds, exposing exactly the wallet contract
/// identifier of the context; no side effects.
pub fn get_config(ctx: &RouterCtx) -> (r: ConfigResponse)
    ensures
        r.contract_name@ == ctx.wallet_cn@,
{
    ConfigResponse { contract_name: ctx.wallet_cn.clone() }
}

/// Idempotence of the HTTP reads: with no intervening state change, any two
/// liveness responses are equal, and any two configuration responses for the
/// same context are equal.
pub proof fn lemma_http_reads_idempotent(
    h1: String,
    h2: String,
    ctx: &RouterCtx,
    c1: ConfigResponse,
    c2: ConfigResponse,
)
    requires
        h1@ == spec_health_body(),
        h2@ == spec_health_body(),
        c1.contract_name@ == ctx.wallet_cn@,
        c2.contract_name@ == ctx.wallet_cn@,
    ensures
        h1@ == h2@,
        c1.contract_name@ == c2.contract_name@,
{
}

} // verus!
