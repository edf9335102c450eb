//! The `vera serve` command.

use std::sync::Arc;
use vstd::prelude::*;

use crate::providers::evicting;
use crate::span::{max_nanos, Span};
use crate::startup::{ServeOptions, ServeOptionsView};
use crate::state::{optional_text, timeout_nanos, InferenceBackend};

verus! {

/// The idle timeout that a number of seconds on the command line stands for, in nanoseconds: -1
/// keeps models for ever, a positive number is taken as it is, and with any other models are
/// loaded for each request.
pub open spec fn timeout_of_secs(secs: int) -> Option<nat> {
    if secs == -1 {
        Some(max_nanos())
    } else if secs > 0 {
        Some((secs * 1_000_000_000) as nat)
    } else {
        None
    }
}

/// The idle timeout that a number of seconds on the command line stands for.
pub fn idle_timeout(secs: i64) -> (timeout: Option<Span>)
    ensures
        timeout_nanos(timeout) == timeout_of_secs(secs as int),
{
    if secs == -1 {
        Some(Span::max_value())
    } else if secs > 0 {
        Some(Span::from_secs(secs as u64))
    } else {
        None
    }
}

/// What the command `vera serve` starts the server with.
pub fn run<C>(
    host: &str,
    port: u16,
    api_key: Option<String>,
    backend: InferenceBackend,
    config: C,
    idle_timeout_secs: i64,
) -> (options: ServeOptions<C>)
    ensures
        options@ == (ServeOptionsView {
            host: host@,
            port,
            api_key: optional_text(api_key),
            config: Arc::new(config),
            backend,
            idle_timeout: timeout_of_secs(idle_timeout_secs as int),
        }),
{
    ServeOptions {
        host: host.to_string(),
        port,
        api_key,
        config: Arc::new(config),
        backend,
        idle_timeout: idle_timeout(idle_timeout_secs),
    }
}

/// A positive number of seconds never means for ever: models with such a timeout are dropped
/// when they go unused.
pub proof fn law_positive_seconds_are_a_limit(secs: i64)
    requires
        secs > 0,
    ensures
        evicting(timeout_of_secs(secs as int)),
        timeout_of_secs(secs as int)->0 / 1_000_000_000 == secs,
{
}

/// With any negative number but -1, models are loaded for each request, as with none.
pub proof fn law_other_negatives_disable_the_cache(secs: i64)
    requires
        secs < -1,
    ensures
        timeout_of_secs(secs as int) == timeout_of_secs(0),
{
}

/// The number of seconds decides the timeout: a positive one is that many seconds, to the
/// nanosecond, -1 is the longest span, and any other is none.
pub proof fn law_seconds_decide_the_timeout(secs: i64)
    ensures
        secs > 0 ==> timeout_of_secs(secs as int) == Some((secs as nat) * 1_000_000_000),
        secs == -1 ==> (timeout_of_secs(secs as int) matches Some(timeout) && timeout + 1
            == 0x1_0000_0000_0000_0000int * 1_000_000_000),
        secs == 0 || secs < -1 ==> timeout_of_secs(secs as int) is None,
{
}

} // verus!
