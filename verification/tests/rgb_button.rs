use hydro_sense::bus::BusError;
use hydro_sense::bus::I2cBus;
use hydro_sense::df0991::DFRobotRGBButton;
use hydro_sense::df0991::GeneralRGBColor;
use hydro_sense::df0991::RGBBUTTON_BUTTON_SIGNAL_REG;
use hydro_sense::df0991::RGBBUTTON_DEFAULT_I2C_ADDR;
use hydro_sense::df0991::RGBBUTTON_I2C_ADDR_REG;
use hydro_sense::df0991::RGBBUTTON_PART_ID;
use hydro_sense::df0991::RGBBUTTON_PID_MSB_REG;
use hydro_sense::df0991::RGBBUTTON_RED_REG;
use hydro_sense::df0991::build_register_payload;
use hydro_sense::df0991::button_pressed_from_raw;
use hydro_sense::df0991::color_channel_bytes;
use hydro_sense::df0991::color_rgb;
use hydro_sense::df0991::is_expected_part_id;
use hydro_sense::df0991::u16_from_be_bytes;

/// Scripted transport: records writes and register selections, hands out
/// prepared one- and two-byte read-backs front-first.
struct MockBus {
    writes: Vec<(u8, Vec<u8>)>,
    selected: Vec<u8>,
    reads1: Vec<u8>,
    reads2: Vec<(u8, u8)>,
}

impl MockBus {
    fn new() -> MockBus {
        MockBus { writes: Vec::new(), selected: Vec::new(), reads1: Vec::new(), reads2: Vec::new() }
    }
}

impl I2cBus for MockBus {
    fn bus_write(&mut self, addr: u8, bytes: &Vec<u8>) -> Result<(), BusError> {
        self.writes.push((addr, bytes.clone()));
        Ok(())
    }

    fn bus_write_read1(&mut self, _addr: u8, reg: u8) -> Result<u8, BusError> {
        self.selected.push(reg);
        if self.reads1.is_empty() {
            Err(BusError::Other)
        } else {
            Ok(self.reads1.remove(0))
        }
    }

    fn bus_write_read2(&mut self, _addr: u8, reg: u8) -> Result<(u8, u8), BusError> {
        self.selected.push(reg);
        if self.reads2.is_empty() {
            Err(BusError::Other)
        } else {
            Ok(self.reads2.remove(0))
        }
    }

    fn sleep_ms(&mut self, _ms: u64) {}
}

#[test]
fn test_begin_detects_documented_part_id() {
    let mut bus = MockBus::new();
    bus.reads2.push((0x43, 0xDF));
    let mut button = DFRobotRGBButton::new(bus, RGBBUTTON_DEFAULT_I2C_ADDR).unwrap();
    assert_eq!(button.begin(), Ok(true));
    let bus = button.into_inner();
    assert_eq!(bus.selected, vec![RGBBUTTON_PID_MSB_REG]);
}

#[test]
fn test_begin_rejects_foreign_part_id() {
    let mut bus = MockBus::new();
    bus.reads2.push((0x12, 0x34));
    let mut button = DFRobotRGBButton::new(bus, RGBBUTTON_DEFAULT_I2C_ADDR).unwrap();
    assert_eq!(button.begin(), Ok(false));
}

#[test]
fn test_set_rgb_color_writes_three_channels() {
    let bus = MockBus::new();
    let mut button = DFRobotRGBButton::new(bus, RGBBUTTON_DEFAULT_I2C_ADDR).unwrap();
    button.set_rgb_color(0x11, 0x22, 0x33).unwrap();
    let bus = button.into_inner();
    assert_eq!(
        bus.writes,
        vec![(RGBBUTTON_DEFAULT_I2C_ADDR, vec![RGBBUTTON_RED_REG, 0x11, 0x22, 0x33])]
    );
}

#[test]
fn test_set_rgb_color_enum_expands_channels() {
    let bus = MockBus::new();
    let mut button = DFRobotRGBButton::new(bus, RGBBUTTON_DEFAULT_I2C_ADDR).unwrap();
    button.set_rgb_color_enum(GeneralRGBColor::Orange).unwrap();
    button.set_rgb_color_enum(GeneralRGBColor::Purple).unwrap();
    let bus = button.into_inner();
    assert_eq!(
        bus.writes,
        vec![
            (RGBBUTTON_DEFAULT_I2C_ADDR, vec![RGBBUTTON_RED_REG, 0xFF, 0x7F, 0x00]),
            (RGBBUTTON_DEFAULT_I2C_ADDR, vec![RGBBUTTON_RED_REG, 0x8B, 0x00, 0xFF]),
        ]
    );
}

#[test]
fn test_get_button_status_reads_signal_register() {
    let mut bus = MockBus::new();
    bus.reads1.push(0x00);
    bus.reads1.push(0x01);
    bus.reads1.push(0x5A);
    let mut button = DFRobotRGBButton::new(bus, RGBBUTTON_DEFAULT_I2C_ADDR).unwrap();
    assert_eq!(button.get_button_status(), Ok(false));
    assert_eq!(button.get_button_status(), Ok(true));
    assert_eq!(button.get_button_status(), Ok(true));
    let bus = button.into_inner();
    assert_eq!(bus.selected, vec![RGBBUTTON_BUTTON_SIGNAL_REG; 3]);
}

#[test]
fn test_get_pid_and_addr_read_back() {
    let mut bus = MockBus::new();
    bus.reads1.push(RGBBUTTON_DEFAULT_I2C_ADDR);
    bus.reads2.push((0x43, 0xDF));
    let mut button = DFRobotRGBButton::new(bus, RGBBUTTON_DEFAULT_I2C_ADDR).unwrap();
    assert_eq!(button.get_i2c_addr(), Ok(RGBBUTTON_DEFAULT_I2C_ADDR));
    assert_eq!(button.get_pid(), Ok(RGBBUTTON_PART_ID));
    let bus = button.into_inner();
    assert_eq!(bus.selected, vec![RGBBUTTON_I2C_ADDR_REG, RGBBUTTON_PID_MSB_REG]);
}

#[test]
fn test_bus_failure_propagates() {
    // An empty script makes every read fail; the error surfaces verbatim.
    let bus = MockBus::new();
    let mut button = DFRobotRGBButton::new(bus, RGBBUTTON_DEFAULT_I2C_ADDR).unwrap();
    assert_eq!(button.begin(), Err(BusError::Other));
    assert_eq!(button.get_button_status(), Err(BusError::Other));
}

#[test]
fn test_payload_builders() {
    assert_eq!(color_channel_bytes(0x11, 0x22, 0x33), vec![0x11, 0x22, 0x33]);
    assert_eq!(
        build_register_payload(RGBBUTTON_RED_REG, &vec![0xFF, 0x7F, 0x00]),
        vec![RGBBUTTON_RED_REG, 0xFF, 0x7F, 0x00]
    );
    assert_eq!(build_register_payload(0x04, &vec![]), vec![0x04]);
}

#[test]
fn test_pure_helpers() {
    assert_eq!(u16_from_be_bytes(0x43, 0xDF), 0x43DF);
    assert_eq!(u16_from_be_bytes(0x00, 0x00), 0);
    assert_eq!(u16_from_be_bytes(0xFF, 0xFF), 0xFFFF);
    assert!(is_expected_part_id(0x43DF));
    assert!(!is_expected_part_id(0x43DE));
    assert!(!button_pressed_from_raw(0));
    assert!(button_pressed_from_raw(200));
    assert_eq!(color_rgb(GeneralRGBColor::Red), (0xFF, 0x00, 0x00));
    assert_eq!(color_rgb(GeneralRGBColor::Yellow), (0xFF, 0xFF, 0x00));
    assert_eq!(color_rgb(GeneralRGBColor::Cyan), (0x00, 0xFF, 0xFF));
    assert_eq!(color_rgb(GeneralRGBColor::Black), (0x00, 0x00, 0x00));
    assert_eq!(color_rgb(GeneralRGBColor::White), (0xFF, 0xFF, 0xFF));
}
