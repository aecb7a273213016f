//! Peer-capability negotiation and request-identifier remapping for the
//! roles of a Stratum V2 mining protocol stack.

pub mod capability;
pub mod request_id_mapper;
pub mod roles;

pub use capability::{
    check_pairing, is_pairable, CommonDownstreamData, PairSettings, PairingError, Protocol,
};
pub use request_id_mapper::{MapperState, RequestIdMapper, UnknownRequestId};
pub use roles::{
    accumulate_hash_rate, IsDownstream, IsMiningDownstream, IsMiningUpstream, IsUpstream,
};
