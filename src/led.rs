//! The embedded controller's LED and charge registers: the byte sequences
//! that set them. The host performs the port operations in order.
use vstd::prelude::*;

verus! {

/// A register of the embedded controller.
#[derive(Clone, Copy, Debug, PartialEq, Eq, Structural)]
pub enum Setting {
    CycleCount,
    ControlBoard,
    Charge,
    ChargeMode,
    LEDStatus,
    LEDBreathing,
    FanSpeed,
}

/// Values of the control board register.
#[derive(Clone, Copy, Debug, PartialEq, Eq, Structural)]
pub enum ControlBoard {
    Enable,
    Disable,
}

/// Values of the charge mode register.
#[derive(Clone, Copy, Debug, PartialEq, Eq, Structural)]
pub enum ChargeMode {
    Normal,
    Discharge,
    Idle,
}

/// Values of the charge register.
#[derive(Clone, Copy, Debug, PartialEq, Eq, Structural)]
pub enum Charge {
    Enable,
    Disable,
}

impl Setting {
    pub open spec fn spec_code(self) -> u8 {
        match self {
            Setting::CycleCount => 0x32,
            Setting::ControlBoard => 0x6C,
            Setting::Charge => 0xA6,
            Setting::ChargeMode => 0x76,
            Setting::LEDStatus => 199,
            Setting::LEDBreathing => 0x63,
            Setting::FanSpeed => 0x2c,
        }
    }

    /// The register's address.
    pub fn code(&self) -> (r: u8)
        ensures
            r == self.spec_code(),
    {
        match self {
            Setting::CycleCount => 0x32,
            Setting::ControlBoard => 0x6C,
            Setting::Charge => 0xA6,
            Setting::ChargeMode => 0x76,
            Setting::LEDStatus => 199,
            Setting::LEDBreathing => 0x63,
            Setting::FanSpeed => 0x2c,
        }
    }
}

impl ControlBoard {
    pub fn code(&self) -> (r: u8)
        ensures
            r == match *self {
                ControlBoard::Enable => 0xAAu8,
                ControlBoard::Disable => 0xABu8,
            },
    {
        match self {
            ControlBoard::Enable => 0xAA,
            ControlBoard::Disable => 0xAB,
        }
    }
}

impl ChargeMode {
    pub fn code(&self) -> (r: u8)
        ensures
            r == match *self {
                ChargeMode::Normal => 0u8,
                ChargeMode::Discharge => 0x42u8,
                ChargeMode::Idle => 0x45u8,
            },
    {
        match self {
            ChargeMode::Normal => 0,
            ChargeMode::Discharge => 0x42,
            ChargeMode::Idle => 0x45,
        }
    }
}

impl Charge {
    pub fn code(&self) -> (r: u8)
        ensures
            r == match *self {
                Charge::Enable => 0u8,
                Charge::Disable => 4u8,
            },
    {
        match self {
            Charge::Enable => 0,
            Charge::Disable => 4,
        }
    }
}

/// Command/status port of the embedded controller.
pub const COMMAND_PORT: u64 = 0x6c;
/// Data port of the embedded controller.
pub const DATA_PORT: u64 = 0x68;
/// Command byte that starts a register write.
pub const WRITE_COMMAND: u8 = 0x81;
/// How many status reads a wait makes at most.
pub const WAIT_POLLS: u32 = 0x1ffff;

/// One operation on the controller's I/O ports.
#[derive(Clone, Copy, Debug, PartialEq, Eq, Structural)]
pub enum PortOp {
    Write { port: u64, value: u8 },
    /// Poll the status port until the controller takes input.
    WaitForWrite,
    /// Poll the status port until the controller has output.
    WaitForRead,
    Read { port: u64 },
}

/// The operations that write `val` to register `reg`.
pub open spec fn write2_ops(reg: u8, val: u8) -> Seq<PortOp> {
    seq![
        PortOp::Write { port: COMMAND_PORT, value: WRITE_COMMAND },
        PortOp::WaitForWrite,
        PortOp::Write { port: DATA_PORT, value: reg },
        PortOp::WaitForWrite,
        PortOp::Write { port: DATA_PORT, value: val },
    ]
}

/// Writes `val` to register `reg`.
pub fn write2(reg: u8, val: u8) -> (r: Vec<PortOp>)
    ensures
        r@ == write2_ops(reg, val),
{
    let mut ops: Vec<PortOp> = Vec::new();
    ops.push(PortOp::Write { port: COMMAND_PORT, value: WRITE_COMMAND });
    ops.push(PortOp::WaitForWrite);
    ops.push(PortOp::Write { port: DATA_PORT, value: reg });
    ops.push(PortOp::WaitForWrite);
    ops.push(PortOp::Write { port: DATA_PORT, value: val });
    assert(ops@ =~= seq![
        PortOp::Write { port: COMMAND_PORT, value: WRITE_COMMAND },
        PortOp::WaitForWrite,
        PortOp::Write { port: DATA_PORT, value: reg },
        PortOp::WaitForWrite,
        PortOp::Write { port: DATA_PORT, value: val },
    ]);
    ops
}

/// Selects register `reg` and reads its value back.
pub fn write_read(reg: u8) -> (r: Vec<PortOp>)
    ensures
        r@ == seq![
            PortOp::Write { port: COMMAND_PORT, value: WRITE_COMMAND },
            PortOp::WaitForWrite,
            PortOp::Write { port: DATA_PORT, value: reg },
            PortOp::WaitForRead,
            PortOp::Read { port: DATA_PORT },
        ],
{
    let mut ops: Vec<PortOp> = Vec::new();
    ops.push(PortOp::Write { port: COMMAND_PORT, value: WRITE_COMMAND });
    ops.push(PortOp::WaitForWrite);
    ops.push(PortOp::Write { port: DATA_PORT, value: reg });
    ops.push(PortOp::WaitForRead);
    ops.push(PortOp::Read { port: DATA_PORT });
    assert(ops@ =~= seq![
        PortOp::Write { port: COMMAND_PORT, value: WRITE_COMMAND },
        PortOp::WaitForWrite,
        PortOp::Write { port: DATA_PORT, value: reg },
        PortOp::WaitForRead,
        PortOp::Read { port: DATA_PORT },
    ]);
    ops
}

/// The LED status byte: the top bit, then one bit per colour.
pub open spec fn led_payload(red: bool, green: bool, blue: bool) -> u8 {
    (0x80 + (if red { 1int } else { 0 }) + (if green { 2int } else { 0 }) + (if blue {
        4int
    } else {
        0
    })) as u8
}

/// Sets the LEDs; the green line drives the white LED on this hardware.
pub fn set_led(red_unused: bool, green_aka_white: bool, blue_unused: bool) -> (r: Vec<PortOp>)
    ensures
        r@ == write2_ops(
            Setting::LEDStatus.spec_code(),
            led_payload(red_unused, green_aka_white, blue_unused),
        ),
{
    let mut payload: u8 = 0x80;
    if red_unused {
        payload = payload + 1;
    }
    if green_aka_white {
        payload = payload + 2;
    }
    if blue_unused {
        payload = payload + 4;
    }
    write2(Setting::LEDStatus.code(), payload)
}

/// Writes `mode` to register `setting`.
pub fn set(setting: Setting, mode: u8) -> (r: Vec<PortOp>)
    ensures
        r@ == write2_ops(setting.spec_code(), mode),
{
    write2(setting.code(), mode)
}

/// Whether a wait for the controller to take input goes on after `polls`
/// status reads, the last of which gave `status`: while the input-full bit
/// is set, at most [`WAIT_POLLS`] times.
pub fn wait_ready_for_write(polls: u32, status: u8) -> (r: bool)
    ensures
        r == (polls < WAIT_POLLS && status & 2 != 0),
{
    polls < WAIT_POLLS && status & 2 != 0
}

/// Whether a wait for the controller's output goes on after `polls` status
/// reads, the last of which gave `status`: while the output-full bit is
/// clear, at most [`WAIT_POLLS`] times.
pub fn wait_ready_for_read(polls: u32, status: u8) -> (r: bool)
    ensures
        r == (polls < WAIT_POLLS && status & 1 == 0),
{
    polls < WAIT_POLLS && status & 1 == 0
}

} // verus!
