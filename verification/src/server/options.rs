//! How a server built for in-process tests is configured.

use vstd::prelude::*;
use crate::json::{owned, str_eq};

verus! {

/// How the test harness wants its server built.
#[derive(Clone, Debug)]
pub struct TestServerOptions {
    pub read_only: bool,
    /// TTL of the service-metadata cache, in milliseconds; zero disables it.
    pub metadata_cache_ttl_ms: u64,
    pub seed_kb: bool,
    pub embedding_dim: usize,
    pub agents_md: Option<String>,
}

impl Default for TestServerOptions {
    /// Read-only, a five-minute metadata cache, no knowledge-base seed, 64-wide
    /// embeddings, no AGENTS.md.
    fn default() -> (r: Self)
        ensures
            r.read_only,
            r.metadata_cache_ttl_ms == 300_000,
            !r.seed_kb,
            r.embedding_dim == 64,
            r.agents_md is None,
    {
        TestServerOptions {
            read_only: true,
            metadata_cache_ttl_ms: 300_000,
            seed_kb: false,
            embedding_dim: 64,
            agents_md: None,
        }
    }
}

/// Whether the server runs read-only: unless `--enable-writes` was given or the
/// `D365_AUTOMATE_ENABLE_WRITES` variable is exactly `1`.
pub fn read_only_mode(enable_writes: bool, env_flag: Option<&str>) -> (r: bool)
    ensures
        r == (!enable_writes && !(env_flag matches Some(v) && v@ == "1"@)),
{
    if enable_writes {
        return false;
    }
    match env_flag {
        Some(v) => !str_eq(v, "1"),
        None => true,
    }
}

/// A cache TTL given in seconds, in milliseconds (saturating at `u64::MAX`).
pub fn ttl_ms_from_secs(secs: u64) -> (r: u64)
    ensures
        secs * 1000 <= u64::MAX ==> r == secs * 1000,
        secs * 1000 > u64::MAX ==> r == u64::MAX,
{
    match secs.checked_mul(1000) {
        Some(ms) => ms,
        None => u64::MAX,
    }
}

/// The instructions the server announces: the loaded AGENTS.md, or a default
/// reminder of read-only mode and citations.
pub fn server_instructions(agents_md: Option<String>) -> (r: String)
    ensures
        r@ == match agents_md {
            Some(t) => t@,
            None => "D365-Automate MCP server. Read-only by default; cite every claim by source URI."@,
        },
{
    match agents_md {
        Some(t) => t,
        None => owned(
            "D365-Automate MCP server. Read-only by default; cite every claim by source URI.",
        ),
    }
}

/// How the server talks to its client.
#[derive(Debug, Clone, Copy, PartialEq, Eq, Structural)]
pub enum TransportKind {
    Stdio,
    Http,
}

/// The transport named by `--transport`: `stdio` or `http`; any other name is
/// refused with a message naming it.
pub fn parse_transport(name: &str) -> (r: Result<TransportKind, String>)
    ensures
        name@ == "stdio"@ ==> r == Ok::<TransportKind, String>(TransportKind::Stdio),
        name@ == "http"@ ==> r == Ok::<TransportKind, String>(TransportKind::Http),
        name@ != "stdio"@ && name@ != "http"@ ==> (r matches Err(m) && m@ == "unknown --transport '"@
            + name@ + "' (expected: stdio | http)"@),
{
    proof {
        reveal_strlit("stdio");
        reveal_strlit("http");
        assert("stdio"@[0] != "http"@[0]);
    }
    if str_eq(name, "stdio") {
        Ok(TransportKind::Stdio)
    } else if str_eq(name, "http") {
        Ok(TransportKind::Http)
    } else {
        let mut m = owned("unknown --transport '");
        m.append(name);
        m.append("' (expected: stdio | http)");
        Err(m)
    }
}

} // verus!
