//! What peers declare about themselves, and the check that decides whether
//! an upstream and a candidate may pair.
use vstd::prelude::*;

verus! {

/// What defines a mining downstream node at the very basic level: the
/// capabilities it declared when its connection was set up.
#[derive(Debug, PartialEq, Eq, Structural, Hash, Copy, Clone)]
pub struct CommonDownstreamData {
    pub id: u32,
    pub header_only: bool,
    pub work_selection: bool,
    pub version_rolling: bool,
}

/// The Stratum V2 sub-protocols a connection can be set up for.
#[derive(Debug, PartialEq, Eq, Structural, Copy, Clone)]
pub enum Protocol {
    MiningProtocol,
    JobDeclarationProtocol,
    TemplateDistributionProtocol,
}

/// The parts of a connection-setup request that pairing looks at.
#[derive(Debug, Copy, Clone)]
pub struct PairSettings {
    pub protocol: Protocol,
    pub min_v: u16,
    pub max_v: u16,
    pub flags: u32,
}

/// Why a candidate cannot pair with an upstream.
#[derive(Debug, PartialEq, Eq, Structural, Copy, Clone)]
pub enum PairingError {
    /// The upstream's version lies outside the requested range.
    VersionMismatch,
    /// The requested flags are not compatible with the upstream's flags.
    FlagsMismatch,
}

/// Whether the setup flags `available_flags` are supported by a peer that
/// declares `required_flags`, for the given sub-protocol. Bit 0 of mining
/// flags asks for standard jobs, bit 1 for work selection, bit 2 for version
/// rolling; bit 0 of job-declaration flags asks for full-template mode.
/// Template distribution defines no setup flags and never accepts.
pub open spec fn flags_compatible(protocol: Protocol, available_flags: u32, required_flags: u32) -> bool {
    match protocol {
        Protocol::MiningProtocol => {
            &&& (available_flags & 3u32 == 0 || required_flags & 3u32 != 0)
            &&& (available_flags & 7u32 == 0 || required_flags & 7u32 != 0)
        },
        Protocol::JobDeclarationProtocol => available_flags & 1u32 == 0 || required_flags & 1u32
            != 0,
        Protocol::TemplateDistributionProtocol => false,
    }
}

/// Whether `version` lies in the closed range the settings ask for.
pub open spec fn version_in_range(version: u16, settings: PairSettings) -> bool {
    settings.min_v <= version <= settings.max_v
}

/// Whether an upstream declaring `version` and `flags` may pair with a
/// candidate presenting `settings`.
pub open spec fn pairable(version: u16, flags: u32, settings: PairSettings) -> bool {
    version_in_range(version, settings) && flags_compatible(settings.protocol, settings.flags, flags)
}

/// Relies on common_messages_sv2::SetupConnection::check_flags, which
/// decides per sub-protocol whether `available_flags` support
/// `required_flags` by the rule that `flags_compatible` states.
#[verifier::external_body]
fn check_flags(protocol: Protocol, available_flags: u32, required_flags: u32) -> (r: bool)
    ensures
        r == flags_compatible(protocol, available_flags, required_flags),
{
    let protocol = match protocol {
        Protocol::MiningProtocol => common_messages_sv2::Protocol::MiningProtocol,
        Protocol::JobDeclarationProtocol => common_messages_sv2::Protocol::JobDeclarationProtocol,
        Protocol::TemplateDistributionProtocol => {
            common_messages_sv2::Protocol::TemplateDistributionProtocol
        },
    };
    common_messages_sv2::SetupConnection::check_flags(protocol, available_flags, required_flags)
}

/// Decides whether an upstream declaring `version` and `flags` may pair with
/// a candidate presenting `settings`, and if not, why: the version range is
/// checked first, then the flags.
pub fn check_pairing(version: u16, flags: u32, settings: &PairSettings) -> (r: Result<(), PairingError>)
    ensures
        r is Ok <==> pairable(version, flags, *settings),
        r == Err::<(), PairingError>(PairingError::VersionMismatch) <==> !version_in_range(
            version,
            *settings,
        ),
        r == Err::<(), PairingError>(PairingError::FlagsMismatch) <==> version_in_range(
            version,
            *settings,
        ) && !flags_compatible(settings.protocol, settings.flags, flags),
{
    if version < settings.min_v || version > settings.max_v {
        Err(PairingError::VersionMismatch)
    } else if !check_flags(settings.protocol, settings.flags, flags) {
        Err(PairingError::FlagsMismatch)
    } else {
        Ok(())
    }
}

/// Whether an upstream declaring `version` and `flags` may pair with a
/// candidate presenting `settings`.
pub fn is_pairable(version: u16, flags: u32, settings: &PairSettings) -> (r: bool)
    ensures
        r == pairable(version, flags, *settings),
{
    check_pairing(version, flags, settings).is_ok()
}

/// When the flags are compatible, pairing succeeds exactly when the
/// upstream's version lies in the requested closed range.
pub proof fn lemma_pairable_iff_version_in_range(version: u16, flags: u32, settings: PairSettings)
    requires
        flags_compatible(settings.protocol, settings.flags, flags),
    ensures
        pairable(version, flags, settings) <==> settings.min_v <= version <= settings.max_v,
{
}

/// A version just below or just above the requested range never pairs,
/// whatever the flags.
pub proof fn lemma_pairable_rejects_adjacent_versions(version: u16, flags: u32, settings: PairSettings)
    requires
        version == settings.min_v - 1 || version == settings.max_v + 1,
    ensures
        !pairable(version, flags, settings),
{
}

} // verus!
