//! Native-shell library for a small GUI application: the greeting command and
//! the mock push-notification ("fcm") plugin state machine, with verified
//! contracts. The host-framework glue (plugin registration, event emission)
//! lives outside this crate and calls into it with plain values.

pub mod fcm;

use vstd::prelude::*;
use vstd::string::*;

verus! {

/// Builds the greeting returned by the `greet` command.
pub fn greet(name: &str) -> (r: String)
    ensures
        r@ == "Hello, "@ + name@ + "! You've been greeted from Rust!"@,
{
    let mut r = String::from_str("Hello, ");
    r.append(name);
    r.append("! You've been greeted from Rust!");
    r
}

} // verus!
