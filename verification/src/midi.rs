use vstd::prelude::*;

verus! {

/// The MIDI input port to try next, given the index of the port in use
/// (if any) and the number of ports: the one after the current port, the
/// first port when none is in use, and none once the list is exhausted.
pub open spec fn next_port_spec(active: Option<usize>, port_count: usize) -> Option<usize> {
    match active {
        None => if 0 < port_count {
            Some(0usize)
        } else {
            None
        },
        Some(i) => if i + 1 < port_count {
            Some((i + 1) as usize)
        } else {
            None
        },
    }
}

/// Chooses the MIDI input port to connect to next.
pub fn next_port_index(active: Option<usize>, port_count: usize) -> (r: Option<usize>)
    ensures
        r == next_port_spec(active, port_count),
        r matches Some(j) ==> j < port_count,
{
    match active {
        None => if 0 < port_count {
            Some(0)
        } else {
            None
        },
        Some(i) => if i < port_count && i + 1 < port_count {
            Some(i + 1)
        } else {
            None
        },
    }
}

/// The port in use after `k` requests for the next port, starting with none.
pub open spec fn port_after_steps(k: nat, port_count: usize) -> Option<usize>
    decreases k,
{
    if k == 0 {
        None
    } else {
        next_port_spec(port_after_steps((k - 1) as nat, port_count), port_count)
    }
}

/// The first `k` requests for the next port, starting with none, lead to
/// ports `0` to `k - 1` in order.
pub proof fn lemma_ports_in_order(port_count: usize, k: nat)
    requires
        k <= port_count,
    ensures
        port_after_steps(k, port_count) == (if k == 0 {
            None
        } else {
            Some((k - 1) as usize)
        }),
    decreases k,
{
    if k > 0 {
        lemma_ports_in_order(port_count, (k - 1) as nat);
    }
}

/// Asking again and again for the next port, starting with none, visits the
/// ports in order, one per request, and after the last port comes back to none.
pub proof fn lemma_ports_cycle(port_count: usize, k: nat)
    requires
        k <= port_count,
    ensures
        port_after_steps(k, port_count) == (if k == 0 {
            None
        } else {
            Some((k - 1) as usize)
        }),
        port_after_steps((port_count + 1) as nat, port_count) is None,
{
    lemma_ports_in_order(port_count, k);
    lemma_ports_in_order(port_count, port_count as nat);
}

} // verus!
