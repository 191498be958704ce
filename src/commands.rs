//! Command and network-parameter identifiers of the deCONZ serial protocol.

use vstd::prelude::*;

verus! {

/// Command identifiers.
#[derive(Debug, Clone, Copy, PartialEq, Eq, Structural)]
pub enum CommandId {
    /// Confirmation of an APS data request.
    ApsDataConfirm,
    /// Query of the device state.
    DeviceState,
    /// Change of network state.
    ChangeNetworkState,
    /// Read of a network parameter.
    ReadParameter,
    /// Write of a network parameter.
    WriteParameter,
    /// Firmware version query.
    Version,
    /// Unsolicited device state notification.
    DeviceStateChanged,
    /// Outgoing APS data.
    ApsDataRequest,
    /// Incoming APS data.
    ApsDataIndication,
    /// Green Power data.
    GreenPower,
    /// MAC poll indication.
    MacPoll,
    /// Neighbour table update.
    NeighborUpdate,
    /// MAC beacon indication.
    MacBeaconIndication,
}

/// The wire byte of each command.
pub open spec fn command_byte(c: CommandId) -> u8 {
    match c {
        CommandId::ApsDataConfirm => 0x04,
        CommandId::DeviceState => 0x07,
        CommandId::ChangeNetworkState => 0x08,
        CommandId::ReadParameter => 0x0A,
        CommandId::WriteParameter => 0x0B,
        CommandId::Version => 0x0D,
        CommandId::DeviceStateChanged => 0x0E,
        CommandId::ApsDataRequest => 0x12,
        CommandId::ApsDataIndication => 0x17,
        CommandId::GreenPower => 0x19,
        CommandId::MacPoll => 0x1C,
        CommandId::NeighborUpdate => 0x1D,
        CommandId::MacBeaconIndication => 0x1F,
    }
}

/// The command a wire byte names, if any.
pub open spec fn command_of_byte(b: u8) -> Option<CommandId> {
    if b == 0x04 {
        Some(CommandId::ApsDataConfirm)
    } else if b == 0x07 {
        Some(CommandId::DeviceState)
    } else if b == 0x08 {
        Some(CommandId::ChangeNetworkState)
    } else if b == 0x0A {
        Some(CommandId::ReadParameter)
    } else if b == 0x0B {
        Some(CommandId::WriteParameter)
    } else if b == 0x0D {
        Some(CommandId::Version)
    } else if b == 0x0E {
        Some(CommandId::DeviceStateChanged)
    } else if b == 0x12 {
        Some(CommandId::ApsDataRequest)
    } else if b == 0x17 {
        Some(CommandId::ApsDataIndication)
    } else if b == 0x19 {
        Some(CommandId::GreenPower)
    } else if b == 0x1C {
        Some(CommandId::MacPoll)
    } else if b == 0x1D {
        Some(CommandId::NeighborUpdate)
    } else if b == 0x1F {
        Some(CommandId::MacBeaconIndication)
    } else {
        None
    }
}

/// Every command's byte names that command again.
pub proof fn lemma_command_byte_round_trip(c: CommandId)
    ensures
        command_of_byte(command_byte(c)) == Some(c),
{
}

impl CommandId {
    /// The command named by a wire byte.
    pub fn from_u8(value: u8) -> (r: Option<CommandId>)
        ensures
            r == command_of_byte(value),
    {
        match value {
            0x04 => Some(CommandId::ApsDataConfirm),
            0x07 => Some(CommandId::DeviceState),
            0x08 => Some(CommandId::ChangeNetworkState),
            0x0A => Some(CommandId::ReadParameter),
            0x0B => Some(CommandId::WriteParameter),
            0x0D => Some(CommandId::Version),
            0x0E => Some(CommandId::DeviceStateChanged),
            0x12 => Some(CommandId::ApsDataRequest),
            0x17 => Some(CommandId::ApsDataIndication),
            0x19 => Some(CommandId::GreenPower),
            0x1C => Some(CommandId::MacPoll),
            0x1D => Some(CommandId::NeighborUpdate),
            0x1F => Some(CommandId::MacBeaconIndication),
            _ => None,
        }
    }

    /// The wire byte of this command.
    pub fn to_u8(&self) -> (r: u8)
        ensures
            r == command_byte(*self),
    {
        match self {
            CommandId::ApsDataConfirm => 0x04,
            CommandId::DeviceState => 0x07,
            CommandId::ChangeNetworkState => 0x08,
            CommandId::ReadParameter => 0x0A,
            CommandId::WriteParameter => 0x0B,
            CommandId::Version => 0x0D,
            CommandId::DeviceStateChanged => 0x0E,
            CommandId::ApsDataRequest => 0x12,
            CommandId::ApsDataIndication => 0x17,
            CommandId::GreenPower => 0x19,
            CommandId::MacPoll => 0x1C,
            CommandId::NeighborUpdate => 0x1D,
            CommandId::MacBeaconIndication => 0x1F,
        }
    }
}

/// Network parameters that can be read or written.
#[derive(Debug, Clone, Copy, PartialEq, Eq, Structural)]
pub enum NetworkParameter {
    /// IEEE address of the coordinator (8 bytes).
    MacAddress,
    /// PAN identifier (2 bytes).
    NwkPanId,
    /// Short network address (2 bytes).
    NwkAddress,
    /// Extended PAN identifier (8 bytes).
    NwkExtendedPanId,
    /// Whether the device is the coordinator (1 byte).
    ApsDesignedCoordinator,
    /// Channel mask (4 bytes).
    ChannelMask,
    /// APS extended PAN identifier (8 bytes).
    ApsExtendedPanId,
    /// Trust centre address (8 bytes).
    TrustCenterAddress,
    /// Security mode (1 byte).
    SecurityMode,
    /// Predefined PAN identifier flag (1 byte).
    PredefinedNwkPanId,
    /// Network key (16 bytes).
    NetworkKey,
    /// Link key (16 bytes).
    LinkKey,
    /// Current channel (1 byte).
    CurrentChannel,
    /// Permit-join duration (1 byte).
    PermitJoin,
    /// Protocol version (2 bytes).
    ProtocolVersion,
    /// Network update identifier (1 byte).
    NwkUpdateId,
    /// Watchdog time to live (4 bytes).
    WatchdogTtl,
}

/// The wire byte of each parameter.
pub open spec fn parameter_byte(p: NetworkParameter) -> u8 {
    match p {
        NetworkParameter::MacAddress => 0x01,
        NetworkParameter::NwkPanId => 0x05,
        NetworkParameter::NwkAddress => 0x07,
        NetworkParameter::NwkExtendedPanId => 0x08,
        NetworkParameter::ApsDesignedCoordinator => 0x09,
        NetworkParameter::ChannelMask => 0x0A,
        NetworkParameter::ApsExtendedPanId => 0x0B,
        NetworkParameter::TrustCenterAddress => 0x0E,
        NetworkParameter::SecurityMode => 0x10,
        NetworkParameter::PredefinedNwkPanId => 0x15,
        NetworkParameter::NetworkKey => 0x18,
        NetworkParameter::LinkKey => 0x19,
        NetworkParameter::CurrentChannel => 0x1C,
        NetworkParameter::PermitJoin => 0x21,
        NetworkParameter::ProtocolVersion => 0x22,
        NetworkParameter::NwkUpdateId => 0x24,
        NetworkParameter::WatchdogTtl => 0x26,
    }
}

/// The fixed length of each parameter's value.
pub open spec fn parameter_length(p: NetworkParameter) -> usize {
    match p {
        NetworkParameter::ApsDesignedCoordinator | NetworkParameter::SecurityMode
        | NetworkParameter::PredefinedNwkPanId | NetworkParameter::CurrentChannel
        | NetworkParameter::PermitJoin | NetworkParameter::NwkUpdateId => 1,
        NetworkParameter::NwkPanId | NetworkParameter::NwkAddress
        | NetworkParameter::ProtocolVersion => 2,
        NetworkParameter::ChannelMask | NetworkParameter::WatchdogTtl => 4,
        NetworkParameter::MacAddress | NetworkParameter::NwkExtendedPanId
        | NetworkParameter::ApsExtendedPanId | NetworkParameter::TrustCenterAddress => 8,
        NetworkParameter::NetworkKey | NetworkParameter::LinkKey => 16,
    }
}

impl NetworkParameter {
    /// The parameter named by a wire byte.
    pub fn from_u8(value: u8) -> (r: Option<NetworkParameter>)
        ensures
            r matches Some(p) ==> parameter_byte(p) == value,
            r is None <==> !(exists|p: NetworkParameter| parameter_byte(p) == value),
    {
        let r = match value {
            0x01 => Some(NetworkParameter::MacAddress),
            0x05 => Some(NetworkParameter::NwkPanId),
            0x07 => Some(NetworkParameter::NwkAddress),
            0x08 => Some(NetworkParameter::NwkExtendedPanId),
            0x09 => Some(NetworkParameter::ApsDesignedCoordinator),
            0x0A => Some(NetworkParameter::ChannelMask),
            0x0B => Some(NetworkParameter::ApsExtendedPanId),
            0x0E => Some(NetworkParameter::TrustCenterAddress),
            0x10 => Some(NetworkParameter::SecurityMode),
            0x15 => Some(NetworkParameter::PredefinedNwkPanId),
            0x18 => Some(NetworkParameter::NetworkKey),
            0x19 => Some(NetworkParameter::LinkKey),
            0x1C => Some(NetworkParameter::CurrentChannel),
            0x21 => Some(NetworkParameter::PermitJoin),
            0x22 => Some(NetworkParameter::ProtocolVersion),
            0x24 => Some(NetworkParameter::NwkUpdateId),
            0x26 => Some(NetworkParameter::WatchdogTtl),
            _ => None,
        };
        proof {
            if r is None {
                assert forall|p: NetworkParameter| parameter_byte(p) != value by {
                    match p {
                        _ => {},
                    }
                }
            } else {
                let p = r->Some_0;
                assert(parameter_byte(p) == value);
            }
        }
        r
    }

    /// The wire byte of this parameter.
    pub fn to_u8(&self) -> (r: u8)
        ensures
            r == parameter_byte(*self),
    {
        match self {
            NetworkParameter::MacAddress => 0x01,
            NetworkParameter::NwkPanId => 0x05,
            NetworkParameter::NwkAddress => 0x07,
            NetworkParameter::NwkExtendedPanId => 0x08,
            NetworkParameter::ApsDesignedCoordinator => 0x09,
            NetworkParameter::ChannelMask => 0x0A,
            NetworkParameter::ApsExtendedPanId => 0x0B,
            NetworkParameter::TrustCenterAddress => 0x0E,
            NetworkParameter::SecurityMode => 0x10,
            NetworkParameter::PredefinedNwkPanId => 0x15,
            NetworkParameter::NetworkKey => 0x18,
            NetworkParameter::LinkKey => 0x19,
            NetworkParameter::CurrentChannel => 0x1C,
            NetworkParameter::PermitJoin => 0x21,
            NetworkParameter::ProtocolVersion => 0x22,
            NetworkParameter::NwkUpdateId => 0x24,
            NetworkParameter::WatchdogTtl => 0x26,
        }
    }

    /// The expected length of this parameter's value, in bytes.
    pub fn value_length(&self) -> (r: usize)
        ensures
            r == parameter_length(*self),
    {
        match self {
            NetworkParameter::ApsDesignedCoordinator | NetworkParameter::SecurityMode
            | NetworkParameter::PredefinedNwkPanId | NetworkParameter::CurrentChannel
            | NetworkParameter::PermitJoin | NetworkParameter::NwkUpdateId => 1,
            NetworkParameter::NwkPanId | NetworkParameter::NwkAddress
            | NetworkParameter::ProtocolVersion => 2,
            NetworkParameter::ChannelMask | NetworkParameter::WatchdogTtl => 4,
            NetworkParameter::MacAddress | NetworkParameter::NwkExtendedPanId
            | NetworkParameter::ApsExtendedPanId | NetworkParameter::TrustCenterAddress => 8,
            NetworkParameter::NetworkKey | NetworkParameter::LinkKey => 16,
        }
    }
}

/// Network state change requests.
#[derive(Debug, Clone, Copy, PartialEq, Eq, Structural)]
pub enum NetworkStateCommand {
    /// Take the network offline.
    Offline,
    /// Bring the network up.
    Online,
}

impl NetworkStateCommand {
    /// The wire byte of this request.
    pub fn to_u8(&self) -> (r: u8)
        ensures
            r == (match self {
                NetworkStateCommand::Offline => 0x00u8,
                NetworkStateCommand::Online => 0x02u8,
            }),
    {
        match self {
            NetworkStateCommand::Offline => 0x00,
            NetworkStateCommand::Online => 0x02,
        }
    }
}

} // verus!
