//! Command set of the 5.83" panel controller.
use vstd::prelude::*;

verus! {

/// Commands understood by the panel controller.
#[derive(Debug, Clone, Copy, PartialEq, Eq, Structural)]
pub enum Command {
    PanelSetting,
    PowerSetting,
    PowerOff,
    PowerOffSequenceSetting,
    PowerOn,
    BoosterSoftStart,
    DeepSleep,
    DataStartTransmission1,
    DataStartTransmission2,
    DataStop,
    DisplayRefresh,
    DualSPI,
    PllControl,
    TemperatureSensorCalibration,
    TemperatureSensorSelection,
    TemperatureSensorWrite,
    TemperatureSensorRead,
    VcomAndDataIntervalSetting,
    LowPowerDetection,
    TconSetting,
    TconResolution,
    Revision,
    GetStatus,
    AutoMeasurementVcom,
    ReadVcomValue,
    VcmDcSetting,
    PartialWindow,
    PartialIn,
    PartialOut,
}

/// The register address of each command, as the controller's data sheet gives it.
pub open spec fn address_of(c: Command) -> u8 {
    match c {
        Command::PanelSetting => 0x00,
        Command::PowerSetting => 0x01,
        Command::PowerOff => 0x02,
        Command::PowerOffSequenceSetting => 0x03,
        Command::PowerOn => 0x04,
        Command::BoosterSoftStart => 0x06,
        Command::DeepSleep => 0x07,
        Command::DataStartTransmission1 => 0x10,
        Command::DataStartTransmission2 => 0x13,
        Command::DataStop => 0x11,
        Command::DisplayRefresh => 0x12,
        Command::DualSPI => 0x15,
        Command::PllControl => 0x30,
        Command::TemperatureSensorCalibration => 0x40,
        Command::TemperatureSensorSelection => 0x41,
        Command::TemperatureSensorWrite => 0x42,
        Command::TemperatureSensorRead => 0x43,
        Command::VcomAndDataIntervalSetting => 0x50,
        Command::LowPowerDetection => 0x51,
        Command::TconSetting => 0x60,
        Command::TconResolution => 0x61,
        Command::Revision => 0x70,
        Command::GetStatus => 0x71,
        Command::AutoMeasurementVcom => 0x80,
        Command::ReadVcomValue => 0x81,
        Command::VcmDcSetting => 0x82,
        Command::PartialWindow => 0x90,
        Command::PartialIn => 0x91,
        Command::PartialOut => 0x92,
    }
}

impl Command {
    /// Returns the address of the command.
    pub fn address(self) -> (r: u8)
        ensures
            r == address_of(self),
    {
        match self {
            Command::PanelSetting => 0x00,
            Command::PowerSetting => 0x01,
            Command::PowerOff => 0x02,
            Command::PowerOffSequenceSetting => 0x03,
            Command::PowerOn => 0x04,
            Command::BoosterSoftStart => 0x06,
            Command::DeepSleep => 0x07,
            Command::DataStartTransmission1 => 0x10,
            Command::DataStartTransmission2 => 0x13,
            Command::DataStop => 0x11,
            Command::DisplayRefresh => 0x12,
            Command::DualSPI => 0x15,
            Command::PllControl => 0x30,
            Command::TemperatureSensorCalibration => 0x40,
            Command::TemperatureSensorSelection => 0x41,
            Command::TemperatureSensorWrite => 0x42,
            Command::TemperatureSensorRead => 0x43,
            Command::VcomAndDataIntervalSetting => 0x50,
            Command::LowPowerDetection => 0x51,
            Command::TconSetting => 0x60,
            Command::TconResolution => 0x61,
            Command::Revision => 0x70,
            Command::GetStatus => 0x71,
            Command::AutoMeasurementVcom => 0x80,
            Command::ReadVcomValue => 0x81,
            Command::VcmDcSetting => 0x82,
            Command::PartialWindow => 0x90,
            Command::PartialIn => 0x91,
            Command::PartialOut => 0x92,
        }
    }
}

} // verus!
