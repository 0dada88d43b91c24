//! The connection state of a connector over a whole history of calls.
//!
//! The functions of a connector say what one call does to the connection
//! state. This module says what follows for every sequence of calls on a
//! newly made connector.

use vstd::prelude::*;

verus! {

/// What a connector knows of its connection.
pub struct ConnectionState {
    /// The connection flag.
    pub connected: bool,
    /// Whether the outbound receiver is still in its slot, to be handed out.
    pub receiver_available: bool,
}

/// A call on a connector.
pub enum ConnectorCall {
    Connect,
    Disconnect,
    Send,
}

/// The state of a newly made connector: not connected, the receiver in its
/// slot.
pub open spec fn initial_state() -> ConnectionState {
    ConnectionState { connected: false, receiver_available: true }
}

/// Whether a call in this state gets past the connection check.
///
/// `connect` succeeds while the receiver is in its slot. `disconnect`
/// succeeds, and `send` goes on to the server, while the flag is set.
pub open spec fn accepted(state: ConnectionState, call: ConnectorCall) -> bool {
    match call {
        ConnectorCall::Connect => state.receiver_available,
        ConnectorCall::Disconnect => state.connected,
        ConnectorCall::Send => state.connected,
    }
}

/// The state after a call in this state.
///
/// A `connect` that succeeds empties the slot and sets the flag. A
/// `disconnect` leaves the flag clear. Nothing else changes the state, and
/// nothing ever refills the slot.
pub open spec fn after_call(state: ConnectionState, call: ConnectorCall) -> ConnectionState {
    match call {
        ConnectorCall::Connect => if state.receiver_available {
            ConnectionState { connected: true, receiver_available: false }
        } else {
            state
        },
        ConnectorCall::Disconnect => ConnectionState {
            connected: false,
            receiver_available: state.receiver_available,
        },
        ConnectorCall::Send => state,
    }
}

/// The state after a sequence of calls, made one after another.
pub open spec fn after_calls(state: ConnectionState, calls: Seq<ConnectorCall>) -> ConnectionState
    decreases calls.len(),
{
    if calls.len() == 0 {
        state
    } else {
        after_call(after_calls(state, calls.drop_last()), calls.last())
    }
}

/// Whether `calls` holds a `Connect`.
pub open spec fn has_connect(calls: Seq<ConnectorCall>) -> bool {
    exists|i: int| 0 <= i < calls.len() && calls[i] == ConnectorCall::Connect
}

/// Whether the call at `index` is the first `Connect` of `calls`.
pub open spec fn is_first_connect(calls: Seq<ConnectorCall>, index: int) -> bool {
    &&& 0 <= index < calls.len()
    &&& calls[index] == ConnectorCall::Connect
    &&& forall|j: int| 0 <= j < index ==> calls[j] != ConnectorCall::Connect
}

/// Whether the call at `index` is the last `Connect` of `calls`.
pub open spec fn is_last_connect(calls: Seq<ConnectorCall>, index: int) -> bool {
    &&& 0 <= index < calls.len()
    &&& calls[index] == ConnectorCall::Connect
    &&& forall|j: int| index < j < calls.len() ==> calls[j] != ConnectorCall::Connect
}

/// Whether `calls` holds no `Disconnect` after `index`.
pub open spec fn no_disconnect_since(calls: Seq<ConnectorCall>, index: int) -> bool {
    forall|j: int| index < j < calls.len() ==> calls[j] != ConnectorCall::Disconnect
}

/// Dropping the last call of a history leaves the calls before it where
/// they were.
proof fn lemma_drop_last_keeps_prefix(calls: Seq<ConnectorCall>)
    requires
        calls.len() > 0,
    ensures
        calls.drop_last().len() == calls.len() - 1,
        forall|j: int| 0 <= j < calls.len() - 1 ==> calls.drop_last()[j] == calls[j],
{
}

/// The receiver is in its slot exactly as long as `connect` has not been
/// called.
pub proof fn lemma_receiver_available_until_connect(calls: Seq<ConnectorCall>)
    ensures
        after_calls(initial_state(), calls).receiver_available <==> !has_connect(calls),
    decreases calls.len(),
{
    if calls.len() > 0 {
        let before = calls.drop_last();
        lemma_receiver_available_until_connect(before);
        lemma_drop_last_keeps_prefix(calls);
        if has_connect(before) {
            let i = choose|i: int| 0 <= i < before.len() && before[i] == ConnectorCall::Connect;
            assert(calls[i] == ConnectorCall::Connect);
        }
        if calls.last() == ConnectorCall::Connect {
            assert(calls[calls.len() - 1] == ConnectorCall::Connect);
        }
        if has_connect(calls) && calls.last() != ConnectorCall::Connect {
            let i = choose|i: int| 0 <= i < calls.len() && calls[i] == ConnectorCall::Connect;
            assert(before[i] == ConnectorCall::Connect);
        }
    }
}

/// After any history of calls on a new connector, a set connection flag
/// means that the receiver has left its slot: nobody is connected who was
/// not handed the receiver.
pub proof fn lemma_connected_only_after_handout(calls: Seq<ConnectorCall>)
    ensures
        after_calls(initial_state(), calls).connected ==> !after_calls(
            initial_state(),
            calls,
        ).receiver_available,
    decreases calls.len(),
{
    if calls.len() > 0 {
        lemma_connected_only_after_handout(calls.drop_last());
    }
}

/// After any history of calls on a new connector, the connection flag is
/// set exactly when `connect` has been called and `disconnect` has not been
/// called since the first such call. The first `connect` is the one that
/// succeeds.
pub proof fn lemma_connected_since_first_connect(calls: Seq<ConnectorCall>)
    ensures
        after_calls(initial_state(), calls).connected <==> exists|i: int|
            is_first_connect(calls, i) && no_disconnect_since(calls, i),
    decreases calls.len(),
{
    if calls.len() > 0 {
        let before = calls.drop_last();
        let last = calls.len() - 1;
        lemma_connected_since_first_connect(before);
        lemma_receiver_available_until_connect(before);
        lemma_drop_last_keeps_prefix(calls);
        let held = exists|i: int| is_first_connect(before, i) && no_disconnect_since(before, i);
        let holds = exists|i: int| is_first_connect(calls, i) && no_disconnect_since(calls, i);
        if holds {
            let i = choose|i: int| is_first_connect(calls, i) && no_disconnect_since(calls, i);
            if i < last {
                assert(calls[last] != ConnectorCall::Disconnect);
                assert(is_first_connect(before, i) && no_disconnect_since(before, i));
                assert(before[i] == ConnectorCall::Connect);
            } else {
                assert forall|j: int| 0 <= j < before.len() implies before[j]
                    != ConnectorCall::Connect by {
                    assert(calls[j] != ConnectorCall::Connect);
                }
            }
        }
        if held && calls.last() != ConnectorCall::Disconnect {
            let i = choose|i: int| is_first_connect(before, i) && no_disconnect_since(before, i);
            assert(is_first_connect(calls, i) && no_disconnect_since(calls, i));
        }
        if calls.last() == ConnectorCall::Connect && !has_connect(before) {
            assert forall|j: int| 0 <= j < last implies calls[j] != ConnectorCall::Connect by {
                assert(before[j] == calls[j]);
            }
            assert(is_first_connect(calls, last) && no_disconnect_since(calls, last));
        }
    }
}

/// In any history of calls on a new connector, a `connect` succeeds exactly
/// when no `connect` was called before it. So `connect` succeeds at most
/// once, and fails ever after, whatever was called in between.
pub proof fn lemma_connect_succeeds_once(calls: Seq<ConnectorCall>, index: int)
    requires
        0 <= index < calls.len(),
        calls[index] == ConnectorCall::Connect,
    ensures
        accepted(after_calls(initial_state(), calls.take(index)), calls[index])
            <==> is_first_connect(calls, index),
{
    let before = calls.take(index);
    lemma_receiver_available_until_connect(before);
    if has_connect(before) {
        let i = choose|i: int| 0 <= i < before.len() && before[i] == ConnectorCall::Connect;
        assert(calls[i] == ConnectorCall::Connect);
    }
    if !is_first_connect(calls, index) {
        let j = choose|j: int| 0 <= j < index && calls[j] == ConnectorCall::Connect;
        assert(before[j] == ConnectorCall::Connect);
    }
}

/// In any history of calls on a new connector, a `disconnect` succeeds, and
/// a `send` gets past the connection check, exactly when `connect` was
/// called before it and `disconnect` was not called between the first
/// `connect` and it.
pub proof fn lemma_accepted_while_connected(calls: Seq<ConnectorCall>, index: int)
    requires
        0 <= index < calls.len(),
        calls[index] != ConnectorCall::Connect,
    ensures
        accepted(after_calls(initial_state(), calls.take(index)), calls[index]) <==> exists|
            i: int,
        |
            is_first_connect(calls.take(index), i) && no_disconnect_since(calls.take(index), i),
{
    lemma_connected_since_first_connect(calls.take(index));
}

/// A history that holds a `Connect` holds a last one.
proof fn lemma_last_connect_exists(calls: Seq<ConnectorCall>)
    requires
        has_connect(calls),
    ensures
        exists|k: int| is_last_connect(calls, k),
    decreases calls.len(),
{
    let last = calls.len() - 1;
    if calls[last] == ConnectorCall::Connect {
        assert(is_last_connect(calls, last));
    } else {
        let before = calls.drop_last();
        let i = choose|i: int| 0 <= i < calls.len() && calls[i] == ConnectorCall::Connect;
        assert(before[i] == ConnectorCall::Connect);
        lemma_last_connect_exists(before);
        let k = choose|k: int| is_last_connect(before, k);
        assert(is_last_connect(calls, k)) by {
            assert forall|j: int| k < j < calls.len() implies calls[j]
                != ConnectorCall::Connect by {
                if j < last {
                    assert(before[j] != ConnectorCall::Connect);
                }
            }
        }
    }
}

/// In any history of calls on a new connector, a `disconnect` succeeds, and
/// a `send` gets past the connection check, exactly when the most recent
/// `connect` before it succeeded and `disconnect` was not called since.
///
/// A `connect` that fails does not disconnect the client. So this leaves out
/// the histories in which the most recent `connect` failed and the client
/// has been connected throughout, since an earlier `connect`.
pub proof fn lemma_accepted_since_latest_connect(calls: Seq<ConnectorCall>, index: int)
    requires
        0 <= index < calls.len(),
        calls[index] != ConnectorCall::Connect,
        !(after_calls(initial_state(), calls.take(index)).connected && exists|k: int|
            is_last_connect(calls.take(index), k) && !is_first_connect(calls.take(index), k)),
    ensures
        accepted(after_calls(initial_state(), calls.take(index)), calls[index]) <==> exists|
            k: int,
        |
            {
                &&& is_last_connect(calls.take(index), k)
                &&& is_first_connect(calls.take(index), k)
                &&& no_disconnect_since(calls.take(index), k)
            },
{
    let before = calls.take(index);
    lemma_connected_since_first_connect(before);
    if after_calls(initial_state(), before).connected {
        let first = choose|i: int| is_first_connect(before, i) && no_disconnect_since(before, i);
        assert(before[first] == ConnectorCall::Connect);
        lemma_last_connect_exists(before);
        let latest = choose|k: int| is_last_connect(before, k);
        assert(is_first_connect(before, latest));
        assert(latest == first) by {
            if latest < first {
                assert(before[latest] != ConnectorCall::Connect);
            }
            if first < latest {
                assert(before[first] != ConnectorCall::Connect);
            }
        }
    }
}

} // verus!
