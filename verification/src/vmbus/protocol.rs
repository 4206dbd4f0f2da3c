//! Identifiers of the VMBus protocol, and what a server supports of it.

use vstd::prelude::*;

verus! {

/// A GUID, as the number that its sixteen bytes make up.
#[derive(Clone, Copy, Debug, PartialEq, Eq, Structural)]
pub struct Guid(pub u128);

impl Guid {
    /// The GUID with all bits clear.
    pub fn zero() -> (guid: Guid)
        ensures
            guid == Guid(0),
    {
        Guid(0)
    }
}

/// A channel ID, as the guest knows it. Valid IDs start at 1.
#[derive(Clone, Copy, Debug, PartialEq, Eq, Structural)]
pub struct ChannelId(pub u32);

/// A GPADL ID, chosen by the guest.
#[derive(Clone, Copy, Debug, PartialEq, Eq, Structural)]
pub struct GpadlId(pub u32);

/// The index of a channel's bit in the monitor pages.
#[derive(Clone, Copy, Debug, PartialEq, Eq, Structural)]
pub struct MonitorId(pub u8);

/// What identifies an offer across a save and a restore.
#[derive(Clone, Copy, Debug, PartialEq, Eq, Structural)]
pub struct OfferKey {
    pub interface_id: Guid,
    pub instance_id: Guid,
    pub subchannel_index: u16,
}

/// A protocol version, by its number on the wire. Later versions have larger numbers.
#[derive(Clone, Copy, Debug, PartialEq, Eq, Structural)]
pub struct Version(pub u32);

/// A set of optional protocol features, one bit each.
#[derive(Clone, Copy, Debug, PartialEq, Eq, Structural)]
pub struct FeatureFlags(pub u32);

impl FeatureFlags {
    /// Every feature in `flags` is in `self`.
    pub open spec fn spec_contains(self, flags: FeatureFlags) -> bool {
        self.0 & flags.0 == flags.0
    }

    /// `self` with the features of `flags` all added (`on`) or all taken out.
    pub open spec fn spec_with(self, flags: FeatureFlags, on: bool) -> FeatureFlags {
        if on {
            FeatureFlags(self.0 | flags.0)
        } else {
            FeatureFlags(self.0 & !flags.0)
        }
    }

    /// Tells whether every feature in `flags` is in `self`.
    pub fn contains(self, flags: FeatureFlags) -> (contained: bool)
        ensures
            contained == self.spec_contains(flags),
    {
        self.0 & flags.0 == flags.0
    }

    /// Adds (`on`) or takes out the features of `flags`.
    pub fn with(self, flags: FeatureFlags, on: bool) -> (changed: FeatureFlags)
        ensures
            changed == self.spec_with(flags, on),
    {
        if on {
            FeatureFlags(self.0 | flags.0)
        } else {
            FeatureFlags(self.0 & !flags.0)
        }
    }
}

/// A negotiated version and the features negotiated with it.
#[derive(Clone, Copy, Debug, PartialEq, Eq, Structural)]
pub struct VersionInfo {
    pub version: Version,
    pub feature_flags: FeatureFlags,
}

/// What a server supports of the protocol.
#[derive(Debug)]
pub struct Protocol {
    /// The versions that can be negotiated.
    pub supported_versions: Vec<Version>,
    /// The features that can be negotiated. Whether `confidential_channels` is among them is
    /// decided for each connection.
    pub supported_feature_flags: FeatureFlags,
    /// The feature that is supported on trusted connections only.
    pub confidential_channels: FeatureFlags,
    /// The first version in which a channel can be reserved.
    pub first_reserve_version: Version,
    /// The size of the largest message that can be sent to the guest, in bytes.
    pub max_message_size: usize,
}

/// The model of a [`Protocol`].
pub struct ProtocolView {
    pub supported_versions: Seq<Version>,
    pub supported_feature_flags: FeatureFlags,
    pub confidential_channels: FeatureFlags,
    pub first_reserve_version: Version,
    pub max_message_size: usize,
}

impl ProtocolView {
    /// The features supported on a connection: the confidential one exactly if it is trusted.
    pub open spec fn feature_flags(self, trusted: bool) -> FeatureFlags {
        self.supported_feature_flags.spec_with(self.confidential_channels, trusted)
    }

    /// `info` could have been negotiated on a connection that is `trusted` or not.
    pub open spec fn supports(self, info: VersionInfo, trusted: bool) -> bool {
        &&& self.supported_versions.contains(info.version)
        &&& self.feature_flags(trusted).spec_contains(info.feature_flags)
    }
}

impl View for Protocol {
    type V = ProtocolView;

    open spec fn view(&self) -> ProtocolView {
        ProtocolView {
            supported_versions: self.supported_versions@,
            supported_feature_flags: self.supported_feature_flags,
            confidential_channels: self.confidential_channels,
            first_reserve_version: self.first_reserve_version,
            max_message_size: self.max_message_size,
        }
    }
}

impl Protocol {
    /// Tells whether `version` is one of the supported versions.
    pub fn supports_version(&self, version: Version) -> (supported: bool)
        ensures
            supported == self@.supported_versions.contains(version),
    {
        for candidate in it: &self.supported_versions
            invariant
                it.seq() == self.supported_versions@.as_ref(),
                forall|i: int| 0 <= i < it.index() ==> self.supported_versions@[i] != version,
        {
            if *candidate == version {
                assert(self.supported_versions@[it.index() as int] == version);
                return true;
            }
        }
        false
    }

    /// Returns the features supported on a connection that is `trusted` or not.
    pub fn feature_flags(&self, trusted: bool) -> (flags: FeatureFlags)
        ensures
            flags == self@.feature_flags(trusted),
    {
        self.supported_feature_flags.with(self.confidential_channels, trusted)
    }
}

} // verus!
