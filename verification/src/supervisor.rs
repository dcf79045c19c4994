//! The process supervisor: once per session it derives this window's
//! endpoint, stores it in the session state, and computes the argument list
//! that binds the external engine to the window and the endpoint.
//!
//! The shell then spawns the engine with exactly those arguments and starts
//! the event listener without waiting for it to connect.

use vstd::prelude::*;
use vstd::string::StringExecFns;
use crate::endpoint::{endpoint_text, endpoint_path};
use crate::numeral::{signed_dec, i64_to_dec};
use crate::session::{SessionState, SetupError};

verus! {

broadcast use vstd::seq::group_seq_axioms;

/// Everything the shell needs to launch the engine for one session.
pub struct LaunchPlan {
    /// The endpoint the engine is bound to; also stored in the session.
    pub endpoint: String,
    /// The engine's launch arguments.
    pub args: Vec<String>,
}

/// The launch arguments: attach to the window, serve control and
/// notifications on the endpoint, idle with no file loaded, no on-screen
/// controls, no window border, high-quality rendering profile.
pub open spec fn launch_args_text(window_id: int, endpoint: Seq<char>) -> Seq<Seq<char>> {
    seq![
        "--wid="@ + signed_dec(window_id),
        "--input-ipc-server="@ + endpoint,
        "--idle=yes"@,
        "--no-osc"@,
        "--no-border"@,
        "--profile=gpu-hq"@,
    ]
}

/// Derive this window's endpoint, store it in the session — exactly once;
/// a session already configured is refused unchanged — and produce the
/// launch plan for the shell.
pub fn setup_plan(state: &mut SessionState, base: &str, window_id: i64) -> (r: Result<
    LaunchPlan,
    SetupError,
>)
    ensures
        !old(state).configured() ==> (r matches Ok(plan) && plan.endpoint@ == endpoint_text(
            base@,
            window_id as int,
        ) && final(state).configured() && final(state).endpoint_text() == plan.endpoint@
            && plan.args@.len() == 6 && (forall|i: int|
            0 <= i < 6 ==> plan.args@[i]@ == launch_args_text(window_id as int, plan.endpoint@)[i])),
        old(state).configured() ==> (r matches Err(e) && e == SetupError::EndpointAlreadySet)
            && *final(state) == *old(state),
{
    let path = endpoint_path(base, window_id);
    let endpoint = path.clone();
    match state.set_endpoint(path) {
        Err(e) => Err(e),
        Ok(()) => {
            let mut args: Vec<String> = Vec::new();
            let mut wid = String::from_str("--wid=");
            let digits = i64_to_dec(window_id);
            wid.append(digits.as_str());
            args.push(wid);
            let mut server = String::from_str("--input-ipc-server=");
            server.append(endpoint.as_str());
            args.push(server);
            args.push(String::from_str("--idle=yes"));
            args.push(String::from_str("--no-osc"));
            args.push(String::from_str("--no-border"));
            args.push(String::from_str("--profile=gpu-hq"));
            proof {
                let la = launch_args_text(window_id as int, endpoint@);
                assert forall|i: int| 0 <= i < 6 implies args@[i]@ == la[i] by {
                    assert(args@[0]@ == la[0]);
                    assert(args@[1]@ == la[1]);
                    assert(args@[2]@ == la[2]);
                    assert(args@[3]@ == la[3]);
                    assert(args@[4]@ == la[4]);
                    assert(args@[5]@ == la[5]);
                }
            }
            Ok(LaunchPlan { endpoint, args })
        },
    }
}

} // verus!
