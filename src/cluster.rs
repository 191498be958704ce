//! ZCL cluster identifiers, attributes and command enumerations.

use vstd::prelude::*;

verus! {

/// Cluster identifier.
pub const CLUSTER_BASIC: u16 = 0x0000;

/// Cluster identifier.
pub const CLUSTER_POWER_CONFIG: u16 = 0x0001;

/// Cluster identifier.
pub const CLUSTER_DEVICE_TEMP: u16 = 0x0002;

/// Cluster identifier.
pub const CLUSTER_IDENTIFY: u16 = 0x0003;

/// Cluster identifier.
pub const CLUSTER_GROUPS: u16 = 0x0004;

/// Cluster identifier.
pub const CLUSTER_SCENES: u16 = 0x0005;

/// Cluster identifier.
pub const CLUSTER_ON_OFF: u16 = 0x0006;

/// Cluster identifier.
pub const CLUSTER_ON_OFF_SWITCH_CONFIG: u16 = 0x0007;

/// Cluster identifier.
pub const CLUSTER_LEVEL_CONTROL: u16 = 0x0008;

/// Cluster identifier.
pub const CLUSTER_ALARMS: u16 = 0x0009;

/// Cluster identifier.
pub const CLUSTER_TIME: u16 = 0x000A;

/// Cluster identifier.
pub const CLUSTER_COLOR_CONTROL: u16 = 0x0300;

/// Cluster identifier.
pub const CLUSTER_BALLAST_CONFIG: u16 = 0x0301;

/// Cluster identifier.
pub const CLUSTER_ILLUMINANCE_MEASUREMENT: u16 = 0x0400;

/// Cluster identifier.
pub const CLUSTER_ILLUMINANCE_LEVEL_SENSING: u16 = 0x0401;

/// Cluster identifier.
pub const CLUSTER_TEMPERATURE_MEASUREMENT: u16 = 0x0402;

/// Cluster identifier.
pub const CLUSTER_PRESSURE_MEASUREMENT: u16 = 0x0403;

/// Cluster identifier.
pub const CLUSTER_FLOW_MEASUREMENT: u16 = 0x0404;

/// Cluster identifier.
pub const CLUSTER_HUMIDITY_MEASUREMENT: u16 = 0x0405;

/// Cluster identifier.
pub const CLUSTER_OCCUPANCY_SENSING: u16 = 0x0406;

/// Cluster identifier.
pub const CLUSTER_IAS_ZONE: u16 = 0x0500;

/// Cluster identifier.
pub const CLUSTER_IAS_ACE: u16 = 0x0501;

/// Cluster identifier.
pub const CLUSTER_IAS_WD: u16 = 0x0502;

/// Cluster identifier.
pub const CLUSTER_THERMOSTAT: u16 = 0x0201;

/// Cluster identifier.
pub const CLUSTER_FAN_CONTROL: u16 = 0x0202;

/// Cluster identifier.
pub const CLUSTER_DOOR_LOCK: u16 = 0x0101;

/// Cluster identifier.
pub const CLUSTER_WINDOW_COVERING: u16 = 0x0102;

/// Cluster identifier.
pub const CLUSTER_METERING: u16 = 0x0702;

/// Cluster identifier.
pub const CLUSTER_ELECTRICAL_MEASUREMENT: u16 = 0x0B04;

/// Basic cluster attribute.
pub const BASIC_ATTR_ZCL_VERSION: u16 = 0x0000;

/// Basic cluster attribute.
pub const BASIC_ATTR_APPLICATION_VERSION: u16 = 0x0001;

/// Basic cluster attribute.
pub const BASIC_ATTR_STACK_VERSION: u16 = 0x0002;

/// Basic cluster attribute.
pub const BASIC_ATTR_HW_VERSION: u16 = 0x0003;

/// Basic cluster attribute.
pub const BASIC_ATTR_MANUFACTURER_NAME: u16 = 0x0004;

/// Basic cluster attribute.
pub const BASIC_ATTR_MODEL_IDENTIFIER: u16 = 0x0005;

/// Basic cluster attribute.
pub const BASIC_ATTR_DATE_CODE: u16 = 0x0006;

/// Basic cluster attribute.
pub const BASIC_ATTR_POWER_SOURCE: u16 = 0x0007;

/// Basic cluster attribute.
pub const BASIC_ATTR_SW_BUILD_ID: u16 = 0x4000;

/// On/Off cluster commands.
#[derive(Debug, Clone, Copy, PartialEq, Eq, Structural)]
pub enum OnOffCommand {
    Off,
    On,
    Toggle,
}

/// The wire value of each OnOffCommand variant.
pub open spec fn on_off_command_byte(v: OnOffCommand) -> u8 {
    match v {
        OnOffCommand::Off => 0x00,
        OnOffCommand::On => 0x01,
        OnOffCommand::Toggle => 0x02,
    }
}

impl OnOffCommand {
    /// The wire value.
    pub fn to_u8(&self) -> (r: u8)
        ensures
            r == on_off_command_byte(*self),
    {
        match self {
            OnOffCommand::Off => 0x00,
            OnOffCommand::On => 0x01,
            OnOffCommand::Toggle => 0x02,
        }
    }
}

/// Level Control cluster commands.
#[derive(Debug, Clone, Copy, PartialEq, Eq, Structural)]
pub enum LevelCommand {
    MoveToLevel { level: u8, transition_time: u16 },
    Move { mode: u8, rate: u8 },
    Step { mode: u8, step_size: u8, transition_time: u16 },
    Stop,
    MoveToLevelWithOnOff { level: u8, transition_time: u16 },
}

/// Color Control cluster commands.
#[derive(Debug, Clone, Copy, PartialEq, Eq, Structural)]
pub enum ColorCommand {
    MoveToHue { hue: u8, direction: u8, transition_time: u16 },
    MoveToSaturation { saturation: u8, transition_time: u16 },
    MoveToHueAndSaturation { hue: u8, saturation: u8, transition_time: u16 },
    MoveToColor { x: u16, y: u16, transition_time: u16 },
    MoveToColorTemperature { color_temp_mireds: u16, transition_time: u16 },
}

/// ZCL frame types.
#[derive(Debug, Clone, Copy, PartialEq, Eq, Structural)]
pub enum FrameType {
    Global,
    ClusterSpecific,
}

/// The wire value of each FrameType variant.
pub open spec fn frame_type_byte(v: FrameType) -> u8 {
    match v {
        FrameType::Global => 0x00,
        FrameType::ClusterSpecific => 0x01,
    }
}

impl FrameType {
    /// The wire value.
    pub fn to_u8(&self) -> (r: u8)
        ensures
            r == frame_type_byte(*self),
    {
        match self {
            FrameType::Global => 0x00,
            FrameType::ClusterSpecific => 0x01,
        }
    }
}

/// ZCL directions.
#[derive(Debug, Clone, Copy, PartialEq, Eq, Structural)]
pub enum Direction {
    ClientToServer,
    ServerToClient,
}

/// The wire value of each Direction variant.
pub open spec fn direction_byte(v: Direction) -> u8 {
    match v {
        Direction::ClientToServer => 0x00,
        Direction::ServerToClient => 0x01,
    }
}

impl Direction {
    /// The wire value.
    pub fn to_u8(&self) -> (r: u8)
        ensures
            r == direction_byte(*self),
    {
        match self {
            Direction::ClientToServer => 0x00,
            Direction::ServerToClient => 0x01,
        }
    }
}

/// ZCL global commands.
#[derive(Debug, Clone, Copy, PartialEq, Eq, Structural)]
pub enum GlobalCommand {
    ReadAttributes,
    ReadAttributesResponse,
    WriteAttributes,
    WriteAttributesUndivided,
    WriteAttributesResponse,
    WriteAttributesNoResponse,
    ConfigureReporting,
    ConfigureReportingResponse,
    ReadReportingConfig,
    ReadReportingConfigResponse,
    ReportAttributes,
    DefaultResponse,
    DiscoverAttributes,
    DiscoverAttributesResponse,
}

/// The wire value of each GlobalCommand variant.
pub open spec fn global_command_byte(v: GlobalCommand) -> u8 {
    match v {
        GlobalCommand::ReadAttributes => 0x00,
        GlobalCommand::ReadAttributesResponse => 0x01,
        GlobalCommand::WriteAttributes => 0x02,
        GlobalCommand::WriteAttributesUndivided => 0x03,
        GlobalCommand::WriteAttributesResponse => 0x04,
        GlobalCommand::WriteAttributesNoResponse => 0x05,
        GlobalCommand::ConfigureReporting => 0x06,
        GlobalCommand::ConfigureReportingResponse => 0x07,
        GlobalCommand::ReadReportingConfig => 0x08,
        GlobalCommand::ReadReportingConfigResponse => 0x09,
        GlobalCommand::ReportAttributes => 0x0A,
        GlobalCommand::DefaultResponse => 0x0B,
        GlobalCommand::DiscoverAttributes => 0x0C,
        GlobalCommand::DiscoverAttributesResponse => 0x0D,
    }
}

impl GlobalCommand {
    /// The wire value.
    pub fn to_u8(&self) -> (r: u8)
        ensures
            r == global_command_byte(*self),
    {
        match self {
            GlobalCommand::ReadAttributes => 0x00,
            GlobalCommand::ReadAttributesResponse => 0x01,
            GlobalCommand::WriteAttributes => 0x02,
            GlobalCommand::WriteAttributesUndivided => 0x03,
            GlobalCommand::WriteAttributesResponse => 0x04,
            GlobalCommand::WriteAttributesNoResponse => 0x05,
            GlobalCommand::ConfigureReporting => 0x06,
            GlobalCommand::ConfigureReportingResponse => 0x07,
            GlobalCommand::ReadReportingConfig => 0x08,
            GlobalCommand::ReadReportingConfigResponse => 0x09,
            GlobalCommand::ReportAttributes => 0x0A,
            GlobalCommand::DefaultResponse => 0x0B,
            GlobalCommand::DiscoverAttributes => 0x0C,
            GlobalCommand::DiscoverAttributesResponse => 0x0D,
        }
    }
}

/// ZCL data types.
#[derive(Debug, Clone, Copy, PartialEq, Eq, Structural)]
pub enum DataType {
    NoData,
    Data8,
    Data16,
    Data24,
    Data32,
    Boolean,
    Bitmap8,
    Bitmap16,
    Bitmap24,
    Bitmap32,
    Uint8,
    Uint16,
    Uint24,
    Uint32,
    Int8,
    Int16,
    Int24,
    Int32,
    Enum8,
    Enum16,
    Float16,
    Float32,
    Float64,
    String,
    Array,
    Struct,
    Ieee,
}

/// The wire value of each DataType variant.
pub open spec fn data_type_byte(v: DataType) -> u8 {
    match v {
        DataType::NoData => 0x00,
        DataType::Data8 => 0x08,
        DataType::Data16 => 0x09,
        DataType::Data24 => 0x0A,
        DataType::Data32 => 0x0B,
        DataType::Boolean => 0x10,
        DataType::Bitmap8 => 0x18,
        DataType::Bitmap16 => 0x19,
        DataType::Bitmap24 => 0x1A,
        DataType::Bitmap32 => 0x1B,
        DataType::Uint8 => 0x20,
        DataType::Uint16 => 0x21,
        DataType::Uint24 => 0x22,
        DataType::Uint32 => 0x23,
        DataType::Int8 => 0x28,
        DataType::Int16 => 0x29,
        DataType::Int24 => 0x2A,
        DataType::Int32 => 0x2B,
        DataType::Enum8 => 0x30,
        DataType::Enum16 => 0x31,
        DataType::Float16 => 0x38,
        DataType::Float32 => 0x39,
        DataType::Float64 => 0x3A,
        DataType::String => 0x42,
        DataType::Array => 0x48,
        DataType::Struct => 0x4C,
        DataType::Ieee => 0xF0,
    }
}

impl DataType {
    /// The wire value.
    pub fn to_u8(&self) -> (r: u8)
        ensures
            r == data_type_byte(*self),
    {
        match self {
            DataType::NoData => 0x00,
            DataType::Data8 => 0x08,
            DataType::Data16 => 0x09,
            DataType::Data24 => 0x0A,
            DataType::Data32 => 0x0B,
            DataType::Boolean => 0x10,
            DataType::Bitmap8 => 0x18,
            DataType::Bitmap16 => 0x19,
            DataType::Bitmap24 => 0x1A,
            DataType::Bitmap32 => 0x1B,
            DataType::Uint8 => 0x20,
            DataType::Uint16 => 0x21,
            DataType::Uint24 => 0x22,
            DataType::Uint32 => 0x23,
            DataType::Int8 => 0x28,
            DataType::Int16 => 0x29,
            DataType::Int24 => 0x2A,
            DataType::Int32 => 0x2B,
            DataType::Enum8 => 0x30,
            DataType::Enum16 => 0x31,
            DataType::Float16 => 0x38,
            DataType::Float32 => 0x39,
            DataType::Float64 => 0x3A,
            DataType::String => 0x42,
            DataType::Array => 0x48,
            DataType::Struct => 0x4C,
            DataType::Ieee => 0xF0,
        }
    }
}

} // verus!
