use tiliqua_ui::i2c::ErrorKind;
use tiliqua_ui::i2c::I2cBus;
use tiliqua_ui::i2c::Operation;
use tiliqua_ui::si5351::ClockOutput;
use tiliqua_ui::si5351::CrystalLoad;
use tiliqua_ui::si5351::Current;
use tiliqua_ui::si5351::Error;
use tiliqua_ui::si5351::FeedbackMultisynth;
use tiliqua_ui::si5351::Multisynth;
use tiliqua_ui::si5351::OutputDivider;
use tiliqua_ui::si5351::PLL;
use tiliqua_ui::si5351::Register;
use tiliqua_ui::si5351::Si5351;
use tiliqua_ui::si5351::Si5351Device;
use tiliqua_ui::si5351::SimpleMultisynth;

/// A bus double: accepts every transaction and records it.
struct MockBus {
    writes: Vec<(u8, Vec<Operation>)>,
}

impl MockBus {
    fn new() -> MockBus {
        MockBus { writes: Vec::new() }
    }
}

impl I2cBus for MockBus {
    fn transaction(
        &mut self,
        address: u8,
        operations: &mut Vec<Operation>,
    ) -> Result<(), ErrorKind> {
        // a read answers zeroes, which also reads as "initialization done"
        for op in operations.iter_mut() {
            if let Operation::Read(b) = op {
                for x in b.iter_mut() {
                    *x = 0;
                }
            }
        }
        self.writes.push((address, operations.clone()));
        Ok(())
    }
}

fn sent(op: &Operation) -> &Vec<u8> {
    match op {
        Operation::Write(b) => b,
        Operation::Read(b) => b,
    }
}

fn dev() -> Si5351Device<MockBus> {
    Si5351Device::new_adafruit_module(MockBus::new())
}

#[test]
fn register_addresses() {
    assert_eq!(Register::DeviceStatus.addr(), 0);
    assert_eq!(Register::OutputEnable.addr(), 3);
    assert_eq!(Register::Clk0.addr(), 16);
    assert_eq!(Register::Clk5PhOff.addr(), 170);
    assert_eq!(Register::PLLReset.addr(), 177);
    assert_eq!(Register::CrystalLoad.addr(), 183);
}

#[test]
fn multisynth_addressing() {
    assert_eq!(PLL::A.multisynth(), FeedbackMultisynth::MSNA);
    assert_eq!(PLL::B.multisynth(), FeedbackMultisynth::MSNB);
    assert_eq!(SimpleMultisynth::MS6.base_addr(), 90);
    assert_eq!(SimpleMultisynth::MS7.base_addr(), 91);
}

#[test]
fn divider_stages() {
    assert_eq!(OutputDivider::min_divider(0), Ok(OutputDivider::Div1));
    assert_eq!(OutputDivider::min_divider(1), Ok(OutputDivider::Div1));
    assert_eq!(OutputDivider::min_divider(2), Ok(OutputDivider::Div2));
    assert_eq!(OutputDivider::min_divider(3), Ok(OutputDivider::Div4));
    assert_eq!(OutputDivider::min_divider(64), Ok(OutputDivider::Div64));
    assert_eq!(OutputDivider::min_divider(65), Ok(OutputDivider::Div128));
    assert_eq!(OutputDivider::min_divider(128), Ok(OutputDivider::Div128));
    assert_eq!(OutputDivider::min_divider(129), Err(Error::InvalidParameter));
    assert_eq!(OutputDivider::Div32.denominator_u8(), 32);
    assert_eq!(OutputDivider::Div128.bits(), 7);
}

#[test]
fn device_addressing() {
    let d = dev();
    assert_eq!(d.address, 0x60);
    assert_eq!(d.xtal_freq, 25_000_000);
    let d2: Si5351Device<MockBus> = Si5351Device::new(MockBus::new(), true, 10_000_000);
    assert_eq!(d2.address, 0x61);
}

#[test]
fn write_register_frames_address_and_byte() {
    let mut d = dev();
    assert!(d.write_register(Register::PLLReset, 0x20).is_ok());
    assert_eq!(d.i2c.writes.len(), 1);
    let (addr, ops) = &d.i2c.writes[0];
    assert_eq!(*addr, 0x60);
    assert_eq!(sent(&ops[0]), &vec![177, 0x20]);
}

#[test]
fn read_register_is_a_write_then_read() {
    let mut d = dev();
    let r = d.read_register(Register::DeviceStatus);
    assert_eq!(r, Ok(0));
    let (_, ops) = &d.i2c.writes[0];
    assert_eq!(ops.len(), 2);
    assert_eq!(sent(&ops[0]), &vec![0]);
    assert_eq!(sent(&ops[1]).len(), 1);
}

#[test]
fn ms_config_rejects_bad_fractions() {
    let mut d = dev();
    assert_eq!(
        d.write_ms_config(Multisynth::MS0, 36, 0, 0, OutputDivider::Div1),
        Err(Error::InvalidParameter)
    );
    assert_eq!(
        d.write_ms_config(Multisynth::MS0, 36, 0x100000, 1, OutputDivider::Div1),
        Err(Error::InvalidParameter)
    );
    assert_eq!(
        d.write_ms_config(Multisynth::MS0, 36, 1, 0x100000, OutputDivider::Div1),
        Err(Error::InvalidParameter)
    );
    assert!(d.i2c.writes.is_empty());
}

#[test]
fn integer_pll_setup_writes_expected_bytes() {
    // mult = 32: P1 = 128*32 - 512 = 3584 = 0x0E00, P2 = 0, P3 = 1
    let mut d = dev();
    assert!(d.setup_pll_int(PLL::A, 32).is_ok());
    let (_, ops) = &d.i2c.writes[0];
    assert_eq!(sent(&ops[0]), &vec![26, 0x00, 0x01, 0x00, 0x0E, 0x00, 0x00, 0x00, 0x00]);
    // integer mode recorded for the feedback multisynth of PLL A
    assert_eq!(d.ms_int_mode_mask, 6);
}

#[test]
fn pll_multiplier_window_enforced() {
    let mut d = dev();
    assert_eq!(d.setup_pll_int(PLL::A, 14), Err(Error::InvalidParameter));
    assert_eq!(d.setup_pll_int(PLL::A, 91), Err(Error::InvalidParameter));
    assert!(d.i2c.writes.is_empty());
}

#[test]
fn multisynth_divider_window_enforced() {
    let mut d = dev();
    assert_eq!(
        d.setup_multisynth_int(Multisynth::MS0, 5, OutputDivider::Div1),
        Err(Error::InvalidParameter)
    );
    assert_eq!(
        d.setup_multisynth_int(Multisynth::MS0, 1801, OutputDivider::Div1),
        Err(Error::InvalidParameter)
    );
}

#[test]
fn clock_enable_mask_and_flush() {
    let mut d = dev();
    d.set_clock_enabled(ClockOutput::Clk3, true);
    assert_eq!(d.clk_enabled_mask, 0x08);
    assert!(d.flush_output_enabled().is_ok());
    let (_, ops) = &d.i2c.writes[0];
    assert_eq!(sent(&ops[0]), &vec![3, 0xF7]);
    d.set_clock_enabled(ClockOutput::Clk3, false);
    assert_eq!(d.clk_enabled_mask, 0x00);
}

#[test]
fn clock_control_byte_reflects_masks() {
    let mut d = dev();
    d.set_clock_enabled(ClockOutput::Clk0, true);
    d.select_clock_pll(ClockOutput::Clk0, PLL::B);
    assert!(d.flush_clock_control(ClockOutput::Clk0).is_ok());
    let (_, ops) = &d.i2c.writes[0];
    // enabled (no power-down), fractional mode, PLL B source, MS source,
    // full drive: 0x20 | 0x0C | 0x03
    assert_eq!(sent(&ops[0]), &vec![16, 0x2F]);
}

#[test]
fn phase_offset_limits() {
    let mut d = dev();
    assert_eq!(d.set_phase_offset(ClockOutput::Clk6, 2), Err(Error::InvalidParameter));
    assert_eq!(d.set_phase_offset(ClockOutput::Clk1, 3), Err(Error::InvalidParameter));
    assert!(d.set_phase_offset(ClockOutput::Clk1, 4).is_ok());
    let (_, ops) = &d.i2c.writes[0];
    assert_eq!(sent(&ops[0]), &vec![166, 4]);
}

#[test]
fn current_setting_writes_drive_bits() {
    let mut d = dev();
    assert!(d.set_current(ClockOutput::Clk2, Current::Output8mA).is_ok());
    let (_, ops) = &d.i2c.writes[0];
    assert_eq!(sent(&ops[0]), &vec![18, 3]);
}

#[test]
fn init_polls_then_programs() {
    let mut d = dev();
    assert!(d.init(CrystalLoad::_10).is_ok());
    // one status poll (the double answers zero at once), the output
    // enable flush, eight clock power-downs, the crystal load
    assert_eq!(d.i2c.writes.len(), 11);
    let (_, ops) = &d.i2c.writes[1];
    assert_eq!(sent(&ops[0]), &vec![3, 0xFF]);
    let (_, ops) = &d.i2c.writes[2];
    assert_eq!(sent(&ops[0]), &vec![16, 0x80]);
    let (_, ops) = &d.i2c.writes[10];
    assert_eq!(sent(&ops[0]), &vec![183, 0x12 | 0xC0]);
}

#[test]
fn set_frequency_programs_the_whole_chain() {
    let mut d = dev();
    assert!(d.set_frequency(PLL::A, ClockOutput::Clk0, 14_175_000).is_ok());
    assert_eq!(d.i2c.writes.len(), 5);
    // PLL A feedback: mult 35, num 161480 of 1048575:
    // P1 = 128*35 + 19 - 512 = 3987, P2 = 128*161480 - 1048575*19 = 746515
    let (_, ops) = &d.i2c.writes[0];
    assert_eq!(sent(&ops[0]), &vec![26, 0xFF, 0xFF, 0x00, 0x0F, 0x93, 0xFB, 0x64, 0x13]);
    // output multisynth: integer divider 62: P1 = 128*62 - 512 = 7424
    let (_, ops) = &d.i2c.writes[1];
    assert_eq!(sent(&ops[0]), &vec![42, 0x00, 0x01, 0x00, 0x1D, 0x00, 0x00, 0x00, 0x00]);
    // clock control: enabled, PLL A, MS source, full drive (the integer
    // mode bookkeeping keeps the ms0 flag at bit position zero, so the
    // MS_INT bit stays clear here)
    let (_, ops) = &d.i2c.writes[2];
    assert_eq!(sent(&ops[0]), &vec![16, 0x0F]);
    // PLL A reset
    let (_, ops) = &d.i2c.writes[3];
    assert_eq!(sent(&ops[0]), &vec![177, 0x20]);
    // output enable flush with clock 0 live
    let (_, ops) = &d.i2c.writes[4];
    assert_eq!(sent(&ops[0]), &vec![3, 0xFE]);
    assert_eq!(d.clk_enabled_mask, 0x01);
}

#[test]
fn set_frequency_rejects_simple_outputs() {
    let mut d = dev();
    assert_eq!(
        d.set_frequency(PLL::A, ClockOutput::Clk6, 14_175_000),
        Err(Error::InvalidParameter)
    );
    assert!(d.i2c.writes.is_empty());
}

/// A bus double that refuses every transaction.
struct DeadBus;

impl I2cBus for DeadBus {
    fn transaction(
        &mut self,
        _address: u8,
        _operations: &mut Vec<Operation>,
    ) -> Result<(), ErrorKind> {
        Err(ErrorKind::Other)
    }
}

#[test]
fn bus_failures_surface_as_communication_errors() {
    let mut d: Si5351Device<DeadBus> = Si5351Device::new_adafruit_module(DeadBus);
    assert_eq!(d.write_register(Register::PLLReset, 0x20), Err(Error::CommunicationError));
    assert_eq!(d.read_register(Register::DeviceStatus), Err(Error::CommunicationError));
    assert_eq!(d.setup_pll_int(PLL::A, 32), Err(Error::CommunicationError));
    assert_eq!(d.init(CrystalLoad::_8), Err(Error::CommunicationError));
    assert_eq!(
        d.set_frequency(PLL::A, ClockOutput::Clk0, 14_175_000),
        Err(Error::CommunicationError)
    );
}

#[test]
fn error_messages() {
    assert_eq!(Error::CommunicationError.message(), "Communication Error");
    assert_eq!(Error::InvalidParameter.message(), "Invalid Parameter");
}
