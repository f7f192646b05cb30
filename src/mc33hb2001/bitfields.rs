use vstd::prelude::*;

verus! {

/// Bit `pos` of `bits`.
pub open spec fn bit_of(bits: u16, pos: u16) -> bool {
    (bits >> pos) & 1 != 0
}

/// `bits` with bit `pos` set to `v`.
pub open spec fn with_bit(bits: u16, pos: u16, v: bool) -> u16 {
    if v {
        bits | (1u16 << pos)
    } else {
        bits & !(1u16 << pos)
    }
}

/// The field of `bits` at `pos` selected by `mask` (mask aligned at bit 0).
pub open spec fn field_of(bits: u16, pos: u16, mask: u16) -> u16 {
    (bits >> pos) & mask
}

/// `bits` with the field at `pos` selected by `mask` replaced by `v`.
pub open spec fn with_field(bits: u16, pos: u16, mask: u16, v: u16) -> u16 {
    (bits & !(mask << pos)) | ((v & mask) << pos)
}

fn get_bit(bits: u16, pos: u16) -> (r: bool)
    requires
        pos < 16,
    ensures
        r == bit_of(bits, pos),
{
    (bits >> pos) & 1 != 0
}

fn put_bit(bits: u16, pos: u16, v: bool) -> (r: u16)
    requires
        pos < 16,
    ensures
        r == with_bit(bits, pos, v),
        bit_of(r, pos) == v,
{
    if v {
        let r = bits | (1u16 << pos);
        assert((r >> pos) & 1 != 0) by (bit_vector)
            requires
                pos < 16,
                r == bits | (1u16 << pos),
        ;
        r
    } else {
        let r = bits & !(1u16 << pos);
        assert((r >> pos) & 1 == 0) by (bit_vector)
            requires
                pos < 16,
                r == bits & !(1u16 << pos),
        ;
        r
    }
}

fn get_field(bits: u16, pos: u16, mask: u16) -> (r: u16)
    requires
        pos < 16,
    ensures
        r == field_of(bits, pos, mask),
        r <= mask,
{
    let r = (bits >> pos) & mask;
    assert(r <= mask) by (bit_vector)
        requires
            r == (bits >> pos) & mask,
    ;
    r
}

fn put_field(bits: u16, pos: u16, mask: u16, v: u16) -> (r: u16)
    requires
        pos < 16,
        mask == 1 || mask == 3 || mask == 7,
        pos <= 13,
    ensures
        r == with_field(bits, pos, mask, v),
        v <= mask ==> field_of(r, pos, mask) == v,
{
    let r = (bits & !(mask << pos)) | ((v & mask) << pos);
    assert(v <= mask ==> (r >> pos) & mask == v) by (bit_vector)
        requires
            pos <= 13,
            mask == 1 || mask == 3 || mask == 7,
            r == (bits & !(mask << pos)) | ((v & mask) << pos),
    ;
    r
}

/// Current limit values. Units of Amperes.
#[derive(Clone, Copy, Debug, PartialEq, Eq, Structural)]
pub enum CurrentLimit {
    /// Limit to 5.4A.
    Lim5_4,
    /// Limit to 7.0A.
    Lim7_0,
    /// Limit to 8.8A.
    Lim8_8,
    /// Limit to 10.7A.
    Lim10_7,
}

/// The register encoding of a [`CurrentLimit`].
pub open spec fn current_limit_bits(v: CurrentLimit) -> u8 {
    match v {
        CurrentLimit::Lim5_4 => 0,
        CurrentLimit::Lim7_0 => 1,
        CurrentLimit::Lim8_8 => 2,
        CurrentLimit::Lim10_7 => 3,
    }
}

impl CurrentLimit {
    /// The value's 2-bit register encoding.
    pub fn into_bits(self) -> (r: u8)
        ensures
            r == current_limit_bits(self),
            r < 4,
    {
        match self {
            CurrentLimit::Lim5_4 => 0,
            CurrentLimit::Lim7_0 => 1,
            CurrentLimit::Lim8_8 => 2,
            CurrentLimit::Lim10_7 => 3,
        }
    }

    /// The value that register encoding `value` stands for.
    pub fn from_bits(value: u8) -> (r: Self)
        requires
            value < 4,
        ensures
            current_limit_bits(r) == value,
    {
        if value == 0 {
            CurrentLimit::Lim5_4
        } else if value == 1 {
            CurrentLimit::Lim7_0
        } else if value == 2 {
            CurrentLimit::Lim8_8
        } else {
            CurrentLimit::Lim10_7
        }
    }
}

/// Slew rate values. Units of volts per microsecond.
#[derive(Clone, Copy, Debug, PartialEq, Eq, Structural)]
pub enum SlewRate {
    /// Bypass slew rate control.
    Bypass,
    /// 16.0 V/us.
    Sr16_0,
    /// 8.0 V/us.
    Sr8_0,
    /// 4.0 V/us.
    Sr4_0,
    /// 2.0 V/us.
    Sr2_0,
    /// 1.0 V/us.
    Sr1_0,
    /// 0.5 V/us.
    Sr0_5,
    /// 0.25 V/us.
    Sr0_25,
}

/// The register encoding of a [`SlewRate`].
pub open spec fn slew_rate_bits(v: SlewRate) -> u8 {
    match v {
        SlewRate::Bypass => 0,
        SlewRate::Sr16_0 => 1,
        SlewRate::Sr8_0 => 2,
        SlewRate::Sr4_0 => 3,
        SlewRate::Sr2_0 => 4,
        SlewRate::Sr1_0 => 5,
        SlewRate::Sr0_5 => 6,
        SlewRate::Sr0_25 => 7,
    }
}

impl SlewRate {
    /// The value's 3-bit register encoding.
    pub fn into_bits(self) -> (r: u8)
        ensures
            r == slew_rate_bits(self),
            r < 8,
    {
        match self {
            SlewRate::Bypass => 0,
            SlewRate::Sr16_0 => 1,
            SlewRate::Sr8_0 => 2,
            SlewRate::Sr4_0 => 3,
            SlewRate::Sr2_0 => 4,
            SlewRate::Sr1_0 => 5,
            SlewRate::Sr0_5 => 6,
            SlewRate::Sr0_25 => 7,
        }
    }

    /// The value that register encoding `value` stands for.
    pub fn from_bits(value: u8) -> (r: Self)
        requires
            value < 8,
        ensures
            slew_rate_bits(r) == value,
    {
        if value == 0 {
            SlewRate::Bypass
        } else if value == 1 {
            SlewRate::Sr16_0
        } else if value == 2 {
            SlewRate::Sr8_0
        } else if value == 3 {
            SlewRate::Sr4_0
        } else if value == 4 {
            SlewRate::Sr2_0
        } else if value == 5 {
            SlewRate::Sr1_0
        } else if value == 6 {
            SlewRate::Sr0_5
        } else {
            SlewRate::Sr0_25
        }
    }
}

/// Input bridge mode.
#[derive(Clone, Copy, Debug, PartialEq, Eq, Structural)]
pub enum BridgeMode {
    /// Half-bridge control mode.
    HalfBridge,
    /// H-bridge control mode.
    HBridge,
}

/// The register encoding of a [`BridgeMode`].
pub open spec fn bridge_mode_bits(v: BridgeMode) -> u8 {
    match v {
        BridgeMode::HalfBridge => 0,
        BridgeMode::HBridge => 1,
    }
}

impl BridgeMode {
    /// The value's 1-bit register encoding.
    pub fn into_bits(self) -> (r: u8)
        ensures
            r == bridge_mode_bits(self),
            r < 2,
    {
        match self {
            BridgeMode::HalfBridge => 0,
            BridgeMode::HBridge => 1,
        }
    }

    /// The value that register encoding `value` stands for.
    pub fn from_bits(value: u8) -> (r: Self)
        requires
            value < 2,
        ensures
            bridge_mode_bits(r) == value,
    {
        if value == 0 {
            BridgeMode::HalfBridge
        } else {
            BridgeMode::HBridge
        }
    }
}

/// Input control mode.
#[derive(Clone, Copy, Debug, PartialEq, Eq, Structural)]
pub enum ControlMode {
    /// Parallel pin control, SPI virtual inputs disabled.
    Parallel,
    /// SPI virtual control, parallel pins disabled.
    Spi,
}

/// The register encoding of a [`ControlMode`].
pub open spec fn control_mode_bits(v: ControlMode) -> u8 {
    match v {
        ControlMode::Parallel => 0,
        ControlMode::Spi => 1,
    }
}

impl ControlMode {
    /// The value's 1-bit register encoding.
    pub fn into_bits(self) -> (r: u8)
        ensures
            r == control_mode_bits(self),
            r < 2,
    {
        match self {
            ControlMode::Parallel => 0,
            ControlMode::Spi => 1,
        }
    }

    /// The value that register encoding `value` stands for.
    pub fn from_bits(value: u8) -> (r: Self)
        requires
            value < 2,
        ensures
            control_mode_bits(r) == value,
    {
        if value == 0 {
            ControlMode::Parallel
        } else {
            ControlMode::Spi
        }
    }
}

/// The logic value of a driver input.
#[derive(Clone, Copy, Debug, PartialEq, Eq, Structural)]
pub enum Input {
    /// Logic low.
    Low,
    /// Logic high.
    High,
}

/// The register encoding of a [`Input`].
pub open spec fn input_bits(v: Input) -> u8 {
    match v {
        Input::Low => 0,
        Input::High => 1,
    }
}

impl Input {
    /// The value's 1-bit register encoding.
    pub fn into_bits(self) -> (r: u8)
        ensures
            r == input_bits(self),
            r < 2,
    {
        match self {
            Input::Low => 0,
            Input::High => 1,
        }
    }

    /// The value that register encoding `value` stands for.
    pub fn from_bits(value: u8) -> (r: Self)
        requires
            value < 2,
        ensures
            input_bits(r) == value,
    {
        if value == 0 {
            Input::Low
        } else {
            Input::High
        }
    }
}

/// Configuration and control register. Fields are laid out from the most significant bit down.
#[derive(Clone, Copy, Debug, PartialEq, Eq, Structural)]
pub struct Configuration {
    bits: u16,
}

impl Configuration {
    /// The register's 16 bits.
    pub closed spec fn value(&self) -> u16 {
        self.bits
    }

    /// The register with every field at its default value.
    pub fn new() -> (r: Self)
        ensures
            r.value() == 0x0d98,
    {
        Configuration { bits: 0x0d98 }
    }

    /// The register holding `bits`.
    pub fn from_bits(bits: u16) -> (r: Self)
        ensures
            r.value() == bits,
    {
        Configuration { bits }
    }

    /// The register's 16 bits.
    pub fn into_bits(self) -> (r: u16)
        ensures
            r == self.value(),
    {
        self.bits
    }

    /// Check for open load (in full-bridge standby mode). When this becomes true and the driver is in standby, a test runs at once; the test also runs on the transition from standby to normal mode.
    pub fn check_for_open_load(&self) -> (r: bool)
        ensures
            r == bit_of(self.value(), 12),
    {
        get_bit(self.bits, 12)
    }

    /// This register with `check_for_open_load` set to `v`.
    pub fn with_check_for_open_load(self, v: bool) -> (r: Self)
        ensures
            r.value() == with_bit(self.value(), 12, v),
            bit_of(r.value(), 12) == v,
    {
        Configuration { bits: put_bit(self.bits, 12, v) }
    }

    /// Change the current limit frequency when in the over-temperature warning state.
    pub fn enable_thermal_management(&self) -> (r: bool)
        ensures
            r == bit_of(self.value(), 11),
    {
        get_bit(self.bits, 11)
    }

    /// This register with `enable_thermal_management` set to `v`.
    pub fn with_enable_thermal_management(self, v: bool) -> (r: Self)
        ensures
            r.value() == with_bit(self.value(), 11, v),
            bit_of(r.value(), 11) == v,
    {
        Configuration { bits: put_bit(self.bits, 11, v) }
    }

    /// Enable active current limiting once the threshold is exceeded. When disabled the overcurrent flag can still be set, but outputs are not changed.
    pub fn enable_active_current_limit(&self) -> (r: bool)
        ensures
            r == bit_of(self.value(), 10),
    {
        get_bit(self.bits, 10)
    }

    /// This register with `enable_active_current_limit` set to `v`.
    pub fn with_enable_active_current_limit(self, v: bool) -> (r: Self)
        ensures
            r.value() == with_bit(self.value(), 10, v),
            bit_of(r.value(), 10) == v,
    {
        Configuration { bits: put_bit(self.bits, 10, v) }
    }

    /// Active current limit value.
    pub fn current_limit(&self) -> (r: CurrentLimit)
        ensures
            current_limit_bits(r) as u16 == field_of(self.value(), 8, 0x3),
    {
        CurrentLimit::from_bits(get_field(self.bits, 8, 0x3) as u8)
    }

    /// This register with `current_limit` set to `v`.
    pub fn with_current_limit(self, v: CurrentLimit) -> (r: Self)
        ensures
            r.value() == with_field(self.value(), 8, 0x3, current_limit_bits(v) as u16),
            field_of(r.value(), 8, 0x3) == current_limit_bits(v) as u16,
    {
        Configuration { bits: put_field(self.bits, 8, 0x3, v.into_bits() as u16) }
    }

    /// Slew rate value.
    pub fn slew_rate(&self) -> (r: SlewRate)
        ensures
            slew_rate_bits(r) as u16 == field_of(self.value(), 5, 0x7),
    {
        SlewRate::from_bits(get_field(self.bits, 5, 0x7) as u8)
    }

    /// This register with `slew_rate` set to `v`.
    pub fn with_slew_rate(self, v: SlewRate) -> (r: Self)
        ensures
            r.value() == with_field(self.value(), 5, 0x7, slew_rate_bits(v) as u16),
            field_of(r.value(), 5, 0x7) == slew_rate_bits(v) as u16,
    {
        Configuration { bits: put_field(self.bits, 5, 0x7, v.into_bits() as u16) }
    }

    /// Enable output control when the ENBL pin is high and the DIS pin is low.
    pub fn enable(&self) -> (r: bool)
        ensures
            r == bit_of(self.value(), 4),
    {
        get_bit(self.bits, 4)
    }

    /// This register with `enable` set to `v`.
    pub fn with_enable(self, v: bool) -> (r: Self)
        ensures
            r.value() == with_bit(self.value(), 4, v),
            bit_of(r.value(), 4) == v,
    {
        Configuration { bits: put_bit(self.bits, 4, v) }
    }

    /// Input bridge mode.
    pub fn bridge_mode(&self) -> (r: BridgeMode)
        ensures
            bridge_mode_bits(r) as u16 == field_of(self.value(), 3, 0x1),
    {
        BridgeMode::from_bits(get_field(self.bits, 3, 0x1) as u8)
    }

    /// This register with `bridge_mode` set to `v`.
    pub fn with_bridge_mode(self, v: BridgeMode) -> (r: Self)
        ensures
            r.value() == with_field(self.value(), 3, 0x1, bridge_mode_bits(v) as u16),
            field_of(r.value(), 3, 0x1) == bridge_mode_bits(v) as u16,
    {
        Configuration { bits: put_field(self.bits, 3, 0x1, v.into_bits() as u16) }
    }

    /// Input control mode.
    pub fn control_mode(&self) -> (r: ControlMode)
        ensures
            control_mode_bits(r) as u16 == field_of(self.value(), 2, 0x1),
    {
        ControlMode::from_bits(get_field(self.bits, 2, 0x1) as u8)
    }

    /// This register with `control_mode` set to `v`.
    pub fn with_control_mode(self, v: ControlMode) -> (r: Self)
        ensures
            r.value() == with_field(self.value(), 2, 0x1, control_mode_bits(v) as u16),
            field_of(r.value(), 2, 0x1) == control_mode_bits(v) as u16,
    {
        Configuration { bits: put_field(self.bits, 2, 0x1, v.into_bits() as u16) }
    }

    /// Virtual input 2.
    pub fn virtual_input_2(&self) -> (r: Input)
        ensures
            input_bits(r) as u16 == field_of(self.value(), 1, 0x1),
    {
        Input::from_bits(get_field(self.bits, 1, 0x1) as u8)
    }

    /// This register with `virtual_input_2` set to `v`.
    pub fn with_virtual_input_2(self, v: Input) -> (r: Self)
        ensures
            r.value() == with_field(self.value(), 1, 0x1, input_bits(v) as u16),
            field_of(r.value(), 1, 0x1) == input_bits(v) as u16,
    {
        Configuration { bits: put_field(self.bits, 1, 0x1, v.into_bits() as u16) }
    }

    /// Virtual input 1.
    pub fn virtual_input_1(&self) -> (r: Input)
        ensures
            input_bits(r) as u16 == field_of(self.value(), 0, 0x1),
    {
        Input::from_bits(get_field(self.bits, 0, 0x1) as u8)
    }

    /// This register with `virtual_input_1` set to `v`.
    pub fn with_virtual_input_1(self, v: Input) -> (r: Self)
        ensures
            r.value() == with_field(self.value(), 0, 0x1, input_bits(v) as u16),
            field_of(r.value(), 0, 0x1) == input_bits(v) as u16,
    {
        Configuration { bits: put_field(self.bits, 0, 0x1, v.into_bits() as u16) }
    }

}

/// Status register. Fields are laid out from the most significant bit down.
#[derive(Clone, Copy, Debug, PartialEq, Eq, Structural)]
pub struct Status {
    bits: u16,
}

impl Status {
    /// The register's 16 bits.
    pub closed spec fn value(&self) -> u16 {
        self.bits
    }

    /// The register with every field at its default value.
    pub fn new() -> (r: Self)
        ensures
            r.value() == 0x0000,
    {
        Status { bits: 0x0000 }
    }

    /// The register holding `bits`.
    pub fn from_bits(bits: u16) -> (r: Self)
        ensures
            r.value() == bits,
    {
        Status { bits }
    }

    /// The register's 16 bits.
    pub fn into_bits(self) -> (r: u16)
        ensures
            r == self.value(),
    {
        self.bits
    }

    /// An SPI framing error has occurred.
    pub fn spi_framing_error(&self) -> (r: bool)
        ensures
            r == bit_of(self.value(), 11),
    {
        get_bit(self.bits, 11)
    }

    /// This register with `spi_framing_error` set to `v`.
    pub fn with_spi_framing_error(self, v: bool) -> (r: Self)
        ensures
            r.value() == with_bit(self.value(), 11, v),
            bit_of(r.value(), 11) == v,
    {
        Status { bits: put_bit(self.bits, 11, v) }
    }

    /// Charge pump over-voltage has occurred.
    pub fn charge_pump_overvoltage(&self) -> (r: bool)
        ensures
            r == bit_of(self.value(), 10),
    {
        get_bit(self.bits, 10)
    }

    /// This register with `charge_pump_overvoltage` set to `v`.
    pub fn with_charge_pump_overvoltage(self, v: bool) -> (r: Self)
        ensures
            r.value() == with_bit(self.value(), 10, v),
            bit_of(r.value(), 10) == v,
    {
        Status { bits: put_bit(self.bits, 10, v) }
    }

    /// Main power under-voltage has occurred.
    pub fn vpwr_undervoltage(&self) -> (r: bool)
        ensures
            r == bit_of(self.value(), 9),
    {
        get_bit(self.bits, 9)
    }

    /// This register with `vpwr_undervoltage` set to `v`.
    pub fn with_vpwr_undervoltage(self, v: bool) -> (r: Self)
        ensures
            r.value() == with_bit(self.value(), 9, v),
            bit_of(r.value(), 9) == v,
    {
        Status { bits: put_bit(self.bits, 9, v) }
    }

    /// Main power over-voltage has occurred.
    pub fn vpwr_overvoltage(&self) -> (r: bool)
        ensures
            r == bit_of(self.value(), 8),
    {
        get_bit(self.bits, 8)
    }

    /// This register with `vpwr_overvoltage` set to `v`.
    pub fn with_vpwr_overvoltage(self, v: bool) -> (r: Self)
        ensures
            r.value() == with_bit(self.value(), 8, v),
            bit_of(r.value(), 8) == v,
    {
        Status { bits: put_bit(self.bits, 8, v) }
    }

    /// Short-circuit to power on output 2 has occurred.
    pub fn sc_power_output_2(&self) -> (r: bool)
        ensures
            r == bit_of(self.value(), 7),
    {
        get_bit(self.bits, 7)
    }

    /// This register with `sc_power_output_2` set to `v`.
    pub fn with_sc_power_output_2(self, v: bool) -> (r: Self)
        ensures
            r.value() == with_bit(self.value(), 7, v),
            bit_of(r.value(), 7) == v,
    {
        Status { bits: put_bit(self.bits, 7, v) }
    }

    /// Short-circuit to power on output 1 has occurred.
    pub fn sc_power_output_1(&self) -> (r: bool)
        ensures
            r == bit_of(self.value(), 6),
    {
        get_bit(self.bits, 6)
    }

    /// This register with `sc_power_output_1` set to `v`.
    pub fn with_sc_power_output_1(self, v: bool) -> (r: Self)
        ensures
            r.value() == with_bit(self.value(), 6, v),
            bit_of(r.value(), 6) == v,
    {
        Status { bits: put_bit(self.bits, 6, v) }
    }

    /// Short-circuit to ground on output 2 has occurred.
    pub fn sc_ground_output_2(&self) -> (r: bool)
        ensures
            r == bit_of(self.value(), 5),
    {
        get_bit(self.bits, 5)
    }

    /// This register with `sc_ground_output_2` set to `v`.
    pub fn with_sc_ground_output_2(self, v: bool) -> (r: Self)
        ensures
            r.value() == with_bit(self.value(), 5, v),
            bit_of(r.value(), 5) == v,
    {
        Status { bits: put_bit(self.bits, 5, v) }
    }

    /// Short-circuit to ground on output 1 has occurred.
    pub fn sc_ground_output_1(&self) -> (r: bool)
        ensures
            r == bit_of(self.value(), 4),
    {
        get_bit(self.bits, 4)
    }

    /// This register with `sc_ground_output_1` set to `v`.
    pub fn with_sc_ground_output_1(self, v: bool) -> (r: Self)
        ensures
            r.value() == with_bit(self.value(), 4, v),
            bit_of(r.value(), 4) == v,
    {
        Status { bits: put_bit(self.bits, 4, v) }
    }

    /// The output is open-loaded.
    pub fn open_load(&self) -> (r: bool)
        ensures
            r == bit_of(self.value(), 3),
    {
        get_bit(self.bits, 3)
    }

    /// This register with `open_load` set to `v`.
    pub fn with_open_load(self, v: bool) -> (r: Self)
        ensures
            r.value() == with_bit(self.value(), 3, v),
            bit_of(r.value(), 3) == v,
    {
        Status { bits: put_bit(self.bits, 3, v) }
    }

    /// The current limit has been activated.
    pub fn overcurrent(&self) -> (r: bool)
        ensures
            r == bit_of(self.value(), 2),
    {
        get_bit(self.bits, 2)
    }

    /// This register with `overcurrent` set to `v`.
    pub fn with_overcurrent(self, v: bool) -> (r: Self)
        ensures
            r.value() == with_bit(self.value(), 2, v),
            bit_of(r.value(), 2) == v,
    {
        Status { bits: put_bit(self.bits, 2, v) }
    }

    /// A thermal warning has occurred.
    pub fn thermal_warning(&self) -> (r: bool)
        ensures
            r == bit_of(self.value(), 1),
    {
        get_bit(self.bits, 1)
    }

    /// This register with `thermal_warning` set to `v`.
    pub fn with_thermal_warning(self, v: bool) -> (r: Self)
        ensures
            r.value() == with_bit(self.value(), 1, v),
            bit_of(r.value(), 1) == v,
    {
        Status { bits: put_bit(self.bits, 1, v) }
    }

    /// Shutdown due to over-temperature has occurred.
    pub fn overtemperature_shutdown(&self) -> (r: bool)
        ensures
            r == bit_of(self.value(), 0),
    {
        get_bit(self.bits, 0)
    }

    /// This register with `overtemperature_shutdown` set to `v`.
    pub fn with_overtemperature_shutdown(self, v: bool) -> (r: Self)
        ensures
            r.value() == with_bit(self.value(), 0, v),
            bit_of(r.value(), 0) == v,
    {
        Status { bits: put_bit(self.bits, 0, v) }
    }

}

/// Status mask register. Fields are laid out from the most significant bit down.
#[derive(Clone, Copy, Debug, PartialEq, Eq, Structural)]
pub struct StatusMask {
    bits: u16,
}

impl StatusMask {
    /// The register's 16 bits.
    pub closed spec fn value(&self) -> u16 {
        self.bits
    }

    /// The register with every field at its default value.
    pub fn new() -> (r: Self)
        ensures
            r.value() == 0x0000,
    {
        StatusMask { bits: 0x0000 }
    }

    /// The register holding `bits`.
    pub fn from_bits(bits: u16) -> (r: Self)
        ensures
            r.value() == bits,
    {
        StatusMask { bits }
    }

    /// The register's 16 bits.
    pub fn into_bits(self) -> (r: u16)
        ensures
            r == self.value(),
    {
        self.bits
    }

    /// Disable overvoltage protection; the overvoltage flag becomes a warning only.
    pub fn disable_overvoltage(&self) -> (r: bool)
        ensures
            r == bit_of(self.value(), 12),
    {
        get_bit(self.bits, 12)
    }

    /// This register with `disable_overvoltage` set to `v`.
    pub fn with_disable_overvoltage(self, v: bool) -> (r: Self)
        ensures
            r.value() == with_bit(self.value(), 12, v),
            bit_of(r.value(), 12) == v,
    {
        StatusMask { bits: put_bit(self.bits, 12, v) }
    }

    /// Mask of the SPI framing error flag.
    pub fn spi_framing_error(&self) -> (r: bool)
        ensures
            r == bit_of(self.value(), 11),
    {
        get_bit(self.bits, 11)
    }

    /// This register with `spi_framing_error` set to `v`.
    pub fn with_spi_framing_error(self, v: bool) -> (r: Self)
        ensures
            r.value() == with_bit(self.value(), 11, v),
            bit_of(r.value(), 11) == v,
    {
        StatusMask { bits: put_bit(self.bits, 11, v) }
    }

    /// Mask of the charge pump over-voltage flag.
    pub fn charge_pump_overvoltage(&self) -> (r: bool)
        ensures
            r == bit_of(self.value(), 10),
    {
        get_bit(self.bits, 10)
    }

    /// This register with `charge_pump_overvoltage` set to `v`.
    pub fn with_charge_pump_overvoltage(self, v: bool) -> (r: Self)
        ensures
            r.value() == with_bit(self.value(), 10, v),
            bit_of(r.value(), 10) == v,
    {
        StatusMask { bits: put_bit(self.bits, 10, v) }
    }

    /// Mask of the main power under-voltage flag.
    pub fn vpwr_undervoltage(&self) -> (r: bool)
        ensures
            r == bit_of(self.value(), 9),
    {
        get_bit(self.bits, 9)
    }

    /// This register with `vpwr_undervoltage` set to `v`.
    pub fn with_vpwr_undervoltage(self, v: bool) -> (r: Self)
        ensures
            r.value() == with_bit(self.value(), 9, v),
            bit_of(r.value(), 9) == v,
    {
        StatusMask { bits: put_bit(self.bits, 9, v) }
    }

    /// Mask of the main power over-voltage flag.
    pub fn vpwr_overvoltage(&self) -> (r: bool)
        ensures
            r == bit_of(self.value(), 8),
    {
        get_bit(self.bits, 8)
    }

    /// This register with `vpwr_overvoltage` set to `v`.
    pub fn with_vpwr_overvoltage(self, v: bool) -> (r: Self)
        ensures
            r.value() == with_bit(self.value(), 8, v),
            bit_of(r.value(), 8) == v,
    {
        StatusMask { bits: put_bit(self.bits, 8, v) }
    }

    /// Mask of the short-circuit to power on output 2 flag.
    pub fn sc_power_output_2(&self) -> (r: bool)
        ensures
            r == bit_of(self.value(), 7),
    {
        get_bit(self.bits, 7)
    }

    /// This register with `sc_power_output_2` set to `v`.
    pub fn with_sc_power_output_2(self, v: bool) -> (r: Self)
        ensures
            r.value() == with_bit(self.value(), 7, v),
            bit_of(r.value(), 7) == v,
    {
        StatusMask { bits: put_bit(self.bits, 7, v) }
    }

    /// Mask of the short-circuit to power on output 1 flag.
    pub fn sc_power_output_1(&self) -> (r: bool)
        ensures
            r == bit_of(self.value(), 6),
    {
        get_bit(self.bits, 6)
    }

    /// This register with `sc_power_output_1` set to `v`.
    pub fn with_sc_power_output_1(self, v: bool) -> (r: Self)
        ensures
            r.value() == with_bit(self.value(), 6, v),
            bit_of(r.value(), 6) == v,
    {
        StatusMask { bits: put_bit(self.bits, 6, v) }
    }

    /// Mask of the short-circuit to ground on output 2 flag.
    pub fn sc_ground_output_2(&self) -> (r: bool)
        ensures
            r == bit_of(self.value(), 5),
    {
        get_bit(self.bits, 5)
    }

    /// This register with `sc_ground_output_2` set to `v`.
    pub fn with_sc_ground_output_2(self, v: bool) -> (r: Self)
        ensures
            r.value() == with_bit(self.value(), 5, v),
            bit_of(r.value(), 5) == v,
    {
        StatusMask { bits: put_bit(self.bits, 5, v) }
    }

    /// Mask of the short-circuit to ground on output 1 flag.
    pub fn sc_ground_output_1(&self) -> (r: bool)
        ensures
            r == bit_of(self.value(), 4),
    {
        get_bit(self.bits, 4)
    }

    /// This register with `sc_ground_output_1` set to `v`.
    pub fn with_sc_ground_output_1(self, v: bool) -> (r: Self)
        ensures
            r.value() == with_bit(self.value(), 4, v),
            bit_of(r.value(), 4) == v,
    {
        StatusMask { bits: put_bit(self.bits, 4, v) }
    }

    /// Mask of the open load flag.
    pub fn open_load(&self) -> (r: bool)
        ensures
            r == bit_of(self.value(), 3),
    {
        get_bit(self.bits, 3)
    }

    /// This register with `open_load` set to `v`.
    pub fn with_open_load(self, v: bool) -> (r: Self)
        ensures
            r.value() == with_bit(self.value(), 3, v),
            bit_of(r.value(), 3) == v,
    {
        StatusMask { bits: put_bit(self.bits, 3, v) }
    }

    /// Mask of the overcurrent flag.
    pub fn overcurrent(&self) -> (r: bool)
        ensures
            r == bit_of(self.value(), 2),
    {
        get_bit(self.bits, 2)
    }

    /// This register with `overcurrent` set to `v`.
    pub fn with_overcurrent(self, v: bool) -> (r: Self)
        ensures
            r.value() == with_bit(self.value(), 2, v),
            bit_of(r.value(), 2) == v,
    {
        StatusMask { bits: put_bit(self.bits, 2, v) }
    }

    /// Mask of the thermal warning flag.
    pub fn thermal_warning(&self) -> (r: bool)
        ensures
            r == bit_of(self.value(), 1),
    {
        get_bit(self.bits, 1)
    }

    /// This register with `thermal_warning` set to `v`.
    pub fn with_thermal_warning(self, v: bool) -> (r: Self)
        ensures
            r.value() == with_bit(self.value(), 1, v),
            bit_of(r.value(), 1) == v,
    {
        StatusMask { bits: put_bit(self.bits, 1, v) }
    }

    /// Mask of the over-temperature shutdown flag.
    pub fn overtemperature_shutdown(&self) -> (r: bool)
        ensures
            r == bit_of(self.value(), 0),
    {
        get_bit(self.bits, 0)
    }

    /// This register with `overtemperature_shutdown` set to `v`.
    pub fn with_overtemperature_shutdown(self, v: bool) -> (r: Self)
        ensures
            r.value() == with_bit(self.value(), 0, v),
            bit_of(r.value(), 0) == v,
    {
        StatusMask { bits: put_bit(self.bits, 0, v) }
    }

}

} // verus!
