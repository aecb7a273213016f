//! The capabilities that upstream and downstream role types expose.
//!
//! "No upstream configured" is not a type of its own here: code that may run
//! without a parent connection holds an `Option` of its upstream and checks
//! it before use.
use crate::capability::{check_pairing, pairable, CommonDownstreamData, PairSettings, Protocol};
use crate::request_id_mapper::RequestIdMapper;
use vstd::prelude::*;

verus! {

/// Adds `to_add` to an accumulated hash rate, saturating at `u64::MAX`
/// rather than wrapping, so that an overflow never makes the total small.
pub fn accumulate_hash_rate(total: u64, to_add: u64) -> (r: u64)
    ensures
        r == saturating_sum(total, to_add),
{
    total.saturating_add(to_add)
}

/// `total + to_add`, or `u64::MAX` where the sum does not fit.
pub open spec fn saturating_sum(total: u64, to_add: u64) -> u64 {
    if total + to_add > u64::MAX {
        u64::MAX
    } else {
        (total + to_add) as u64
    }
}

/// Properties that every upstream of the protocol has. `Sel` is the
/// registry that tracks the downstreams paired with this upstream.
pub trait IsUpstream<Down: IsDownstream, Sel: ?Sized> {
    /// The protocol version this upstream declares.
    spec fn declared_version(&self) -> u16;

    /// The setup flags this upstream declares.
    spec fn declared_flags(&self) -> u32;

    /// The identifier of this upstream.
    spec fn upstream_id(&self) -> u32;

    fn get_version(&self) -> (r: u16)
        ensures
            r == self.declared_version(),
    ;

    fn get_flags(&self) -> (r: u32)
        ensures
            r == self.declared_flags(),
    ;

    fn get_supported_protocols(&self) -> Vec<Protocol>;

    /// Whether a candidate presenting `pair_settings` may pair with this
    /// upstream: the declared version lies in the requested range and the
    /// requested flags are compatible with the declared ones.
    fn is_pairable(&self, pair_settings: &PairSettings) -> (r: bool)
        ensures
            r == pairable(self.declared_version(), self.declared_flags(), *pair_settings),
    {
        let version = self.get_version();
        let flags = self.get_flags();
        check_pairing(version, flags, pair_settings).is_ok()
    }

    fn get_id(&self) -> (r: u32)
        ensures
            r == self.upstream_id(),
    ;

    /// The table that rewrites request ids, present only where this upstream
    /// is a proxy that forwards requests to a further upstream.
    fn get_mapper(&mut self) -> Option<&mut RequestIdMapper>;

    fn get_remote_selector(&mut self) -> &mut Sel;
}

/// Properties that every mining upstream has besides those of
/// [`IsUpstream`]: an accumulated hash-rate estimate.
pub trait IsMiningUpstream<Down: IsMiningDownstream, Sel: ?Sized>: IsUpstream<Down, Sel> {
    /// The accumulated hash-rate estimate.
    spec fn hash_rate(&self) -> u64;

    fn total_hash_rate(&self) -> (r: u64)
        ensures
            r == self.hash_rate(),
    ;

    /// Adds `to_add` to the estimate, saturating at `u64::MAX`.
    fn add_hash_rate(&mut self, to_add: u64)
        ensures
            final(self).hash_rate() == saturating_sum(old(self).hash_rate(), to_add),
    ;
}

/// Properties that every downstream of the protocol has.
pub trait IsDownstream {
    fn get_downstream_mining_data(&self) -> CommonDownstreamData;
}

/// Marks the downstream types that take part in mining.
pub trait IsMiningDownstream: IsDownstream {

}

} // verus!
