//! Validation of a loaded configuration before the pipeline starts.

use vstd::prelude::*;
use crate::config::defs::{Config, ListenerType};

verus! {

/// A configuration rejected on logical grounds.
#[derive(Debug)]
pub enum LogicError {
    /// Two listeners were configured on the same port; carries that port.
    PortUsedTwice(u16),
    /// No listener was configured at all.
    AtLeastOneListener,
}

/// The ports of a listener list, in configuration order.
pub open spec fn spec_ports(listeners: Seq<ListenerType>) -> Seq<u16> {
    listeners.map_values(|l: ListenerType| l.spec_port())
}

/// The first port that repeats an earlier one, scanning from index `k` on.
pub open spec fn spec_first_dup_from(ports: Seq<u16>, k: int) -> Option<u16>
    decreases ports.len() - k,
{
    if k < 0 || k >= ports.len() {
        None
    } else if exists|j: int| 0 <= j < k && ports[j] == ports[k] {
        Some(ports[k])
    } else {
        spec_first_dup_from(ports, k + 1)
    }
}

/// The first port used twice, if any.
pub open spec fn spec_first_dup(ports: Seq<u16>) -> Option<u16> {
    spec_first_dup_from(ports, 0)
}

/// There is no duplicated port if and only if all ports are distinct.
pub proof fn lemma_first_dup_none_iff_distinct(ports: Seq<u16>)
    ensures
        spec_first_dup(ports) is None <==> (forall|i: int, j: int|
            0 <= i < j < ports.len() ==> ports[i] != ports[j]),
{
    lemma_first_dup_from_none_iff_distinct(ports, 0);
}

proof fn lemma_first_dup_from_none_iff_distinct(ports: Seq<u16>, k: int)
    requires
        0 <= k <= ports.len(),
    ensures
        spec_first_dup_from(ports, k) is None <==> (forall|i: int, j: int|
            0 <= i < j < ports.len() && k <= j ==> ports[i] != ports[j]),
    decreases ports.len() - k,
{
    if k < ports.len() {
        lemma_first_dup_from_none_iff_distinct(ports, k + 1);
    }
}

fn contains_port(seen: &Vec<u16>, p: u16) -> (r: bool)
    ensures
        r == seen@.contains(p),
{
    let mut i: usize = 0;
    while i < seen.len()
        invariant
            i <= seen.len(),
            forall|k: int| 0 <= k < i ==> seen@[k] != p,
        decreases seen.len() - i,
    {
        if seen[i] == p {
            return true;
        }
        i = i + 1;
    }
    assert(!seen@.contains(p));
    false
}

/// Checks that no port is used twice; reports the first port that repeats.
pub fn listeners_no_same_ports(listeners_config: &Vec<ListenerType>) -> (r: Result<
    (),
    LogicError,
>)
    ensures
        r == match spec_first_dup(spec_ports(listeners_config@)) {
            Option::None => Result::<(), LogicError>::Ok(()),
            Option::Some(p) => Result::<(), LogicError>::Err(LogicError::PortUsedTwice(p)),
        },
        r is Ok <==> (forall|i: int, j: int|
            0 <= i < j < listeners_config@.len() ==> spec_ports(listeners_config@)[i]
                != spec_ports(listeners_config@)[j]),
{
    let ghost ports = spec_ports(listeners_config@);
    proof {
        lemma_first_dup_none_iff_distinct(ports);
    }
    let mut seen: Vec<u16> = Vec::new();
    let mut i: usize = 0;
    while i < listeners_config.len()
        invariant
            i <= listeners_config.len(),
            ports == spec_ports(listeners_config@),
            ports.len() == listeners_config.len(),
            seen@ =~= ports.take(i as int),
            spec_first_dup(ports) == spec_first_dup_from(ports, i as int),
        decreases listeners_config.len() - i,
    {
        let port = listeners_config[i].port();
        assert(port == ports[i as int]);
        if contains_port(&seen, port) {
            proof {
                let j = choose|j: int| 0 <= j < seen@.len() && seen@[j] == port;
                assert(ports[j] == ports[i as int]);
            }
            return Err(LogicError::PortUsedTwice(port));
        }
        proof {
            assert(!seen@.contains(port));
            assert forall|j: int| 0 <= j < i implies ports[j] != ports[i as int] by {
                assert(seen@[j] == ports.take(i as int)[j]);
                assert(seen@[j] != port);
            }
        }
        seen.push(port);
        proof {
            assert(seen@ =~= ports.take(i + 1));
        }
        i = i + 1;
    }
    Ok(())
}

/// Checks that at least one listener is configured.
pub fn listeners_at_least_one(listeners_config: &Vec<ListenerType>) -> (r: Result<(), LogicError>)
    ensures
        r == if listeners_config@.len() == 0 {
            Result::<(), LogicError>::Err(LogicError::AtLeastOneListener)
        } else {
            Result::<(), LogicError>::Ok(())
        },
{
    if listeners_config.len() == 0 {
        return Err(LogicError::AtLeastOneListener);
    }
    Ok(())
}

/// Runs every validation over a configuration: there must be at least one
/// listener, and no port may be used twice. The first failed check's error is
/// returned.
pub fn run_validation_chain(config: &Config) -> (r: Result<(), LogicError>)
    ensures
        r == if config.listeners@.len() == 0 {
            Result::<(), LogicError>::Err(LogicError::AtLeastOneListener)
        } else {
            match spec_first_dup(spec_ports(config.listeners@)) {
                Option::None => Result::<(), LogicError>::Ok(()),
                Option::Some(p) => Result::<(), LogicError>::Err(LogicError::PortUsedTwice(p)),
            }
        },
{
    match listeners_at_least_one(&config.listeners) {
        Err(e) => Err(e),
        Ok(_) => match listeners_no_same_ports(&config.listeners) {
            Err(e) => Err(e),
            Ok(_) => Ok(()),
        },
    }
}

} // verus!
