//! Typed errors for the cluster tooling.
//!
//! Every failure is reported through one of these enums, so a caller can
//! always decide between retry and abort from the variant alone.

use vstd::prelude::*;

verus! {

/// Why a node identity token could not be produced.
#[derive(Debug, Clone, Copy, PartialEq, Eq, Structural)]
pub enum EncodeError {
    /// A field is too long for its four-byte length prefix, or the record
    /// as a whole cannot be held in one allocation.
    FieldTooLong,
}

/// The stage at which decoding a node identity token failed.
#[derive(Debug, Clone, Copy, PartialEq, Eq, Structural)]
pub enum DecodeError {
    /// A character outside the base-58 alphabet, or an odd-length token.
    Base58,
    /// The compressed byte stream is malformed.
    Decompress,
    /// The decompressed bytes do not lay out the expected fields.
    Layout,
}

/// Why a storage path could not be parsed back into a node identity.
#[derive(Debug, Clone, Copy, PartialEq, Eq, Structural)]
pub enum ParseError {
    /// The path has no file name to parse.
    MissingFileName,
    /// The file name does not split into exactly a machine id and a token.
    SeparatorCount,
    /// The token failed to decode, at the carried stage.
    Token(DecodeError),
}

/// The first cluster-specification invariant found violated.
#[derive(Debug, Clone, Copy, PartialEq, Eq, Structural)]
pub enum ValidationError {
    /// The cluster id is empty.
    IdEmpty,
    /// The cluster id exceeds the cloud tag-length limit of 28 characters.
    IdTooLong,
    /// Cloud resources are configured without a region.
    RegionEmpty,
    /// A backup region or key is configured without a backup bucket.
    DbBackupBucketMissing,
    /// A backup bucket is configured without a backup key.
    DbBackupKeyMissing,
    /// A backup bucket is configured without a backup region.
    DbBackupRegionMissing,
    /// Fewer non-anchor nodes than the minimum.
    NonAnchorNodesTooFew,
    /// More non-anchor nodes than the maximum.
    NonAnchorNodesTooMany,
    /// The agent binary path does not exist.
    AvalanchedBinMissing,
    /// The node binary path does not exist.
    AvalanchegoBinMissing,
    /// A plugin directory is configured but does not exist.
    PluginsDirMissing,
    /// A genesis template is given for a well-known network.
    GenesisOnKnownNetwork,
    /// Anchor nodes are requested for a well-known network.
    AnchorNodesOnKnownNetwork,
    /// A custom network lacks its genesis template.
    GenesisMissingForCustomNetwork,
    /// A custom network has no anchor nodes.
    AnchorNodesZeroForCustomNetwork,
    /// More anchor nodes than the maximum.
    AnchorNodesTooMany,
}

} // verus!
