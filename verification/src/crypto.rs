//! Provides primitives for cryptographic validation of PTP messages

use vstd::prelude::*;

use crate::datastructures::{common::PortIdentity, messages::MessageType};

verus! {

/// Error representing a Mac running out of space for its output
#[derive(Debug, Copy, Clone, PartialEq, Eq)]
pub struct NoSpaceError;

/// Message authentication code provider
pub trait Mac {
    /// Size of the output
    fn output_size(&self) -> usize;

    /// Verify that the given mac represents a signature for the given data
    fn verify(&self, data: &[u8], mac: &[u8]) -> bool;

    /// Sign the given data
    fn sign(&self, data: &[u8], output_buffer: &mut [u8]) -> Result<usize, NoSpaceError>;
}

/// Policy data for a ptp security association (see IEEE1588-2019 section 16.14)
#[derive(Debug, Clone, Copy, PartialEq, Eq)]
pub struct SecurityPolicy {
    /// Whether or not the correction field is signed
    pub ignore_correction: bool,
}

/// Identification of a sender for sequence id generation
#[derive(Debug, Clone, Copy, PartialEq, Eq, PartialOrd, Ord, Hash)]
pub struct SenderIdentificaton {
    pub(crate) message_type: MessageType,
    pub(crate) source_port_id: PortIdentity,
}

/// Data for a ptp security association (see IEEE1588-2019 section 16.14)
pub trait SecurityAssociation {
    /// Security policy for the assocation
    fn policy_data(&self) -> SecurityPolicy;

    /// Lookup a specific key for the association
    fn mac(&self, key_id: u32) -> Option<&dyn Mac>;

    /// Register an observed message sequence id, returning whether it
    /// is acceptable for further processing.
    ///
    /// Per the specification, once a sequence_id has been seen for a
    /// combination of sender and key_id, only higher sequence_id's must be
    /// accepted, allowing for rollover of the sequence id.
    fn register_sequence_id(
        &mut self,
        key_id: u32,
        sender: SenderIdentificaton,
        sequence_id: u16,
    ) -> bool;

    /// Get key that should be used for signing
    fn signing_mac(&self) -> (u32, &dyn Mac);
}

/// Interface to the database of security associations
pub trait SecurityAssociationProvider {
    /// Type used for the security assocations
    type Association<'a>: SecurityAssociation where Self: 'a;

    /// Lookup a specific security association
    fn lookup(&self, spp: u8) -> Option<Self::Association<'_>>;
}

} // verus!
