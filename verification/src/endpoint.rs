//! Derivation of the per-window transport endpoint.
//!
//! The engine listens on a local endpoint named `<base path>_<window id>`.
//! Because the decimal text of the window identifier is injective, two
//! different windows can never be handed the same endpoint.

use vstd::prelude::*;
use vstd::string::StringExecFns;
use crate::numeral::{signed_dec, lemma_signed_dec_injective, lemma_prefix_cancel, i64_to_dec};

verus! {

broadcast use vstd::seq::group_seq_axioms;

/// The endpoint name derived from a base path and a window identifier.
pub open spec fn endpoint_text(base: Seq<char>, window_id: int) -> Seq<char> {
    base + seq!['_'] + signed_dec(window_id)
}

/// Distinct windows always derive distinct endpoints (for one base path).
pub proof fn lemma_endpoint_unique(base: Seq<char>, w1: int, w2: int)
    requires
        w1 != w2,
    ensures
        endpoint_text(base, w1) != endpoint_text(base, w2),
{
    if endpoint_text(base, w1) == endpoint_text(base, w2) {
        lemma_prefix_cancel(base + seq!['_'], signed_dec(w1), signed_dec(w2));
        lemma_signed_dec_injective(w1, w2);
        assert(false);
    }
}

/// Compose the endpoint path for one window.
pub fn endpoint_path(base: &str, window_id: i64) -> (r: String)
    ensures
        r@ == endpoint_text(base@, window_id as int),
{
    let mut s = String::from_str(base);
    s.append("_");
    let digits = i64_to_dec(window_id);
    s.append(digits.as_str());
    proof {
        reveal_strlit("_");
        assert("_"@ =~= seq!['_']);
    }
    s
}

/// The base endpoint path on platforms with filesystem domain sockets.
pub fn posix_base_path() -> (r: &'static str)
    ensures
        r@ == "/tmp/mpvsocket"@,
{
    "/tmp/mpvsocket"
}

/// The base endpoint path on platforms with named pipes.
pub fn pipe_base_path() -> (r: &'static str)
    ensures
        r@ == "\\\\.\\pipe\\mpvsocket"@,
{
    "\\\\.\\pipe\\mpvsocket"
}

} // verus!
