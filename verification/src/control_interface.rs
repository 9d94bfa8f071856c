//! What the radio link hands to the core: the pilot's input and the state of
//! the link.

use vstd::prelude::*;
use crate::safety::ArmStatus;

verus! {

/// The position of the input mode switch.
#[derive(Clone, Copy, Debug, PartialEq, Eq, Structural)]
pub enum InputModeSwitch {
    /// Acro mode.
    Acro,
    /// Attitude mode, or command mode if an autopilot behaviour is on.
    AttitudeCommand,
}

impl Default for InputModeSwitch {
    fn default() -> (r: Self)
        ensures
            r == InputModeSwitch::Acro,
    {
        InputModeSwitch::Acro
    }
}

/// The channels of the radio link as they arrive: four 10-bit channels, the
/// arm switch, and seven auxiliary channels of 6 or 7 bits.
#[derive(Clone, Copy, Debug, PartialEq, Eq, Structural)]
pub struct ElrsChannelData {
    pub channel_1: u16,
    pub channel_2: u16,
    pub channel_3: u16,
    pub channel_4: u16,
    /// The arm switch.
    pub aux1: ArmStatus,
    pub aux_2: u8,
    pub aux_3: u8,
    pub aux_4: u8,
    pub aux_5: u8,
    pub aux_6: u8,
    pub aux_7: u8,
    pub aux_8: u8,
}

impl Default for ElrsChannelData {
    fn default() -> (r: Self)
        ensures
            r == (ElrsChannelData {
                channel_1: 0,
                channel_2: 0,
                channel_3: 0,
                channel_4: 0,
                aux1: ArmStatus::Disarmed,
                aux_2: 0,
                aux_3: 0,
                aux_4: 0,
                aux_5: 0,
                aux_6: 0,
                aux_7: 0,
                aux_8: 0,
            }),
    {
        ElrsChannelData {
            channel_1: 0,
            channel_2: 0,
            channel_3: 0,
            channel_4: 0,
            aux1: ArmStatus::Disarmed,
            aux_2: 0,
            aux_3: 0,
            aux_4: 0,
            aux_5: 0,
            aux_6: 0,
            aux_7: 0,
            aux_8: 0,
        }
    }
}

/// The pilot's input in the units of the control loops: pitch, roll and yaw
/// from -1 to 1, throttle from 0 to 1, and the two switches.
#[derive(Clone, Copy, Debug, PartialEq, Eq, Structural)]
pub struct ChannelData {
    pub roll: i64,
    pub pitch: i64,
    pub throttle: i64,
    pub yaw: i64,
    pub arm_status: ArmStatus,
    pub input_mode: InputModeSwitch,
}

impl Default for ChannelData {
    fn default() -> (r: Self)
        ensures
            r == (ChannelData {
                roll: 0,
                pitch: 0,
                throttle: 0,
                yaw: 0,
                arm_status: ArmStatus::Disarmed,
                input_mode: InputModeSwitch::Acro,
            }),
    {
        ChannelData {
            roll: 0,
            pitch: 0,
            throttle: 0,
            yaw: 0,
            arm_status: ArmStatus::Disarmed,
            input_mode: InputModeSwitch::Acro,
        }
    }
}

/// Statistics of the radio link, as the receiver reports them.
#[derive(Clone, Copy, Debug, PartialEq, Eq, Structural)]
pub struct LinkStats {
    /// When these statistics were recorded.
    pub timestamp: u32,
    /// Received signal strength on antenna 1.
    pub uplink_rssi_1: u8,
    /// Received signal strength on antenna 2.
    pub uplink_rssi_2: u8,
    /// Valid packets out of the last 100.
    pub uplink_link_quality: u8,
    /// Signal-to-noise ratio.
    pub uplink_snr: i8,
    /// The antenna in use, 0 or 1.
    pub active_antenna: u8,
    pub rf_mode: u8,
    pub uplink_tx_power: u8,
    pub downlink_rssi: u8,
    pub downlink_link_quality: u8,
    pub downlink_snr: i8,
}

impl Default for LinkStats {
    fn default() -> (r: Self)
        ensures
            r == (LinkStats {
                timestamp: 0,
                uplink_rssi_1: 0,
                uplink_rssi_2: 0,
                uplink_link_quality: 0,
                uplink_snr: 0,
                active_antenna: 0,
                rf_mode: 0,
                uplink_tx_power: 0,
                downlink_rssi: 0,
                downlink_link_quality: 0,
                downlink_snr: 0,
            }),
    {
        LinkStats {
            timestamp: 0,
            uplink_rssi_1: 0,
            uplink_rssi_2: 0,
            uplink_link_quality: 0,
            uplink_snr: 0,
            active_antenna: 0,
            rf_mode: 0,
            uplink_tx_power: 0,
            downlink_rssi: 0,
            downlink_link_quality: 0,
            downlink_snr: 0,
        }
    }
}

} // verus!
