use vstd::prelude::*;
use crate::connection::{
    step, ConnectionModel, ConnectionState, Input, TimerCommand, TransportCommand,
};

verus! {

/// `n` calls of `open` in a row: the state after them, and how many transport
/// handles they asked to build.
pub open spec fn open_repeatedly(m: ConnectionModel, n: nat) -> (ConnectionModel, nat)
    decreases n,
{
    if n == 0 {
        (m, 0)
    } else {
        let first = step(m, Input::Open);
        let rest = open_repeatedly(first.0, (n - 1) as nat);
        (rest.0, rest.1 + if first.1.transport == TransportCommand::Connect {
            1nat
        } else {
            0nat
        })
    }
}

/// Opening is idempotent: while a handle is connecting, open or closing, any
/// number of further `open` calls builds no handle and changes nothing; from
/// closed, a run of one or more `open` calls builds exactly one handle.
pub proof fn lemma_open_idempotent(m: ConnectionModel, n: nat)
    requires
        m.wf(),
    ensures
        m.state != ConnectionState::Closed ==> open_repeatedly(m, n) == (m, 0nat),
        m.state == ConnectionState::Closed && n > 0 ==> open_repeatedly(m, n).1 == 1
            && open_repeatedly(m, n).0.state == ConnectionState::Connecting,
    decreases n,
{
    if n > 0 {
        let first = step(m, Input::Open);
        lemma_open_idempotent(first.0, (n - 1) as nat);
    }
}

/// Every step keeps the connection well formed, and a reconnect is only ever
/// scheduled when none is pending.
pub proof fn lemma_step_keeps_wf(m: ConnectionModel, input: Input)
    requires
        m.wf(),
    ensures
        step(m, input).0.wf(),
        step(m, input).1.timer is Schedule ==> !m.reconnect_pending,
{
}

/// `on_open` is asked for exactly when a step enters the open state (and the
/// callback is registered), `on_close` exactly when a step enters the closed
/// state; no step asks for both.
pub proof fn lemma_callbacks_once_per_transition(m: ConnectionModel, input: Input)
    requires
        m.wf(),
    ensures
        step(m, input).1.notify_open == (m.state != ConnectionState::Open && step(m, input).0.state
            == ConnectionState::Open && m.config.callbacks.on_open),
        step(m, input).1.notify_close == (m.state != ConnectionState::Closed && step(
            m,
            input,
        ).0.state == ConnectionState::Closed && m.config.callbacks.on_close),
        !(step(m, input).1.notify_open && step(m, input).1.notify_close),
{
}

/// A text frame becomes the latest text message, whatever was there; a
/// binary frame leaves the latest text message alone.
pub proof fn lemma_frames_fill_their_slot(m: ConnectionModel, text: Seq<char>, bytes: Seq<u8>)
    ensures
        step(m, Input::TextFrame(text)).0.latest_text == Some(text),
        step(m, Input::BinaryFrame(bytes)).0.latest_binary == Some(bytes),
        step(m, Input::BinaryFrame(bytes)).0.latest_text == m.latest_text,
        step(m, Input::TextFrame(text)).0.latest_binary == m.latest_binary,
{
}

/// A close that the caller asked for never leads to a reconnect.
pub proof fn lemma_graceful_close_never_reconnects(m: ConnectionModel)
    requires
        m.wf(),
        m.state == ConnectionState::Closing,
    ensures
        step(m, Input::TransportClosed).1.timer == TimerCommand::Nothing,
        step(m, Input::TransportError).1.timer == TimerCommand::Nothing,
        !step(m, Input::TransportClosed).0.reconnect_pending,
        !step(m, Input::TransportError).0.reconnect_pending,
{
}

/// Reaching the open state resets the reconnect count.
pub proof fn lemma_open_resets_attempts(m: ConnectionModel, input: Input)
    requires
        m.wf(),
        m.state != ConnectionState::Open,
        step(m, input).0.state == ConnectionState::Open,
    ensures
        step(m, input).0.attempts == 0,
        !step(m, input).0.exhausted,
{
}

/// One abrupt loss of the transport, followed by the reconnect timer firing:
/// the state after both, and whether a reconnect was scheduled.
pub open spec fn lose_and_wait(m: ConnectionModel) -> (ConnectionModel, bool) {
    let lost = step(m, Input::TransportClosed);
    let fired = step(lost.0, Input::ReconnectTimer);
    (fired.0, lost.1.timer is Schedule)
}

/// `n` such losses in a row: the state after them, and how many reconnects
/// were scheduled.
pub open spec fn lose_repeatedly(m: ConnectionModel, n: nat) -> (ConnectionModel, nat)
    decreases n,
{
    if n == 0 {
        (m, 0)
    } else {
        let first = lose_and_wait(m);
        let rest = lose_repeatedly(first.0, (n - 1) as nat);
        (rest.0, rest.1 + if first.1 {
            1nat
        } else {
            0nat
        })
    }
}

pub open spec fn min_nat(a: nat, b: nat) -> nat {
    if a <= b {
        a
    } else {
        b
    }
}

proof fn lemma_lost_for_good(m: ConnectionModel, n: nat)
    requires
        m.wf(),
        m.state == ConnectionState::Closed,
        !m.reconnect_pending,
    ensures
        lose_repeatedly(m, n) == (m, 0nat),
    decreases n,
{
    if n > 0 {
        lemma_lost_for_good(m, (n - 1) as nat);
    }
}

/// With a reconnect limit of `k`, a connection that keeps being lost before
/// it ever opens is tried again exactly `k` times in all (counting the
/// attempts it already made), and then stays closed with the limit reached.
pub proof fn lemma_reconnects_bounded(m: ConnectionModel, n: nat, k: u32)
    requires
        m.wf(),
        m.state == ConnectionState::Connecting,
        m.config.policy.enabled,
        m.config.policy.max_attempts == Some(k),
        m.attempts <= k,
    ensures
        lose_repeatedly(m, n).1 == min_nat(n, (k - m.attempts) as nat),
        n > k - m.attempts ==> lose_repeatedly(m, n).0.state == ConnectionState::Closed
            && lose_repeatedly(m, n).0.exhausted,
    decreases n,
{
    if n > 0 {
        let first = lose_and_wait(m);
        if m.attempts < k {
            lemma_reconnects_bounded(first.0, (n - 1) as nat, k);
        } else {
            lemma_lost_for_good(first.0, (n - 1) as nat);
        }
    }
}

} // verus!
