use presto::st7701::commands::LcdCommand;
use presto::st7701::frames::{
    command_bytes, command_frame, data_bytes, data_frame, data_frames, MAX_DATA_FRAMES,
};
use presto::st7701::init::{init_sequence, InitStep};
use presto::st7701::{
    backlight_pwm_config, line_loop_count, parallel_clock_divider, Width,
};

#[test]
fn command_codes() {
    assert_eq!(LcdCommand::SWRESET.code(), 0x01);
    assert_eq!(LcdCommand::SLPOUT.code(), 0x11);
    assert_eq!(LcdCommand::COLMOD.code(), 0x3A);
    assert_eq!(LcdCommand::PVGAMCTRL.code(), 0xB0);
    assert_eq!(LcdCommand::CND2BKxSEL.code(), 0xFF);
    assert_eq!(LcdCommand::FORBIDDEN12.code(), 0xED);
}

#[test]
fn command_frame_has_flag_clear() {
    assert_eq!(command_frame(LcdCommand::DISPON), 0x029);
    assert_eq!(command_frame(LcdCommand::CND2BKxSEL), 0x0FF);
}

#[test]
fn data_frame_has_flag_set() {
    assert_eq!(data_frame(0x00), 0x100);
    assert_eq!(data_frame(0x77), 0x177);
    assert_eq!(data_frame(0xFF), 0x1FF);
}

#[test]
fn data_frames_one_per_byte() {
    assert_eq!(data_frames(&[0x77, 0x01, 0x10]), vec![0x177, 0x101, 0x110]);
    assert_eq!(data_frames(&[]), Vec::<u16>::new());
    assert_eq!(data_frames(&[0xAB; MAX_DATA_FRAMES]).len(), MAX_DATA_FRAMES);
}

#[test]
fn command_bytes_in_machine_order() {
    let bytes = command_bytes(LcdCommand::SLPOUT);
    assert_eq!(bytes, 0x011u16.to_ne_bytes().to_vec());
}

#[test]
fn data_bytes_in_machine_order() {
    let bytes = data_bytes(&[0x3B, 0x00]);
    let mut expected = 0x13Bu16.to_ne_bytes().to_vec();
    expected.extend_from_slice(&0x100u16.to_ne_bytes());
    assert_eq!(bytes, expected);
}

#[test]
fn init_sequence_shape() {
    let steps = init_sequence();
    assert_eq!(steps.len(), 42);
    match &steps[0] {
        InitStep::Command { command, data } => {
            assert_eq!(*command, LcdCommand::SWRESET);
            assert!(data.is_none());
        }
        _ => panic!("the script starts with a software reset"),
    }
    match &steps[1] {
        InitStep::Delay { millis } => assert_eq!(*millis, 150),
        _ => panic!("the reset is followed by a wait"),
    }
    match &steps[2] {
        InitStep::Command { command, data } => {
            assert_eq!(*command, LcdCommand::CND2BKxSEL);
            assert_eq!(data.as_deref(), Some(&[0x77u8, 0x01, 0x00, 0x00, 0x10][..]));
        }
        _ => panic!("bank 0 is selected next"),
    }
    match &steps[41] {
        InitStep::Backlight { percent } => assert_eq!(*percent, 100),
        _ => panic!("the script ends with the backlight on"),
    }
}

#[test]
fn init_sequence_payloads_fit_one_transfer() {
    for step in init_sequence() {
        if let InitStep::Command { data: Some(data), .. } = step {
            assert!(data.len() <= MAX_DATA_FRAMES);
            assert_eq!(data_bytes(&data).len(), 2 * data.len());
        }
    }
}

#[test]
fn init_sequence_delays() {
    let delays: Vec<u64> = init_sequence()
        .iter()
        .filter_map(|s| match s {
            InitStep::Delay { millis } => Some(*millis),
            _ => None,
        })
        .collect();
    assert_eq!(delays, vec![150, 1, 120, 50]);
}

#[test]
fn width_pixels() {
    assert_eq!(Width::W240.number(), 240);
    assert_eq!(Width::W480.number(), 480);
}

#[test]
fn clock_divider_rounds_up() {
    assert_eq!(parallel_clock_divider(150_000_000, Width::W240), 5 * 256);
    assert_eq!(parallel_clock_divider(150_000_000, Width::W480), 2 * 256);
    assert_eq!(parallel_clock_divider(136_000_000, Width::W240), 4 * 256);
    assert_eq!(parallel_clock_divider(136_000_001, Width::W240), 5 * 256);
    assert_eq!(parallel_clock_divider(200_000_000, Width::W480), 3 * 256);
}

#[test]
fn clock_divider_matches_fixed_point() {
    let bits = parallel_clock_divider(150_000_000, Width::W240);
    assert_eq!(fixed::types::U24F8::from_bits(bits), fixed::types::U24F8::from_num(5));
}

#[test]
fn line_loop_counts() {
    assert_eq!(line_loop_count(Width::W240), 119);
    assert_eq!(line_loop_count(Width::W480), 239);
}

#[test]
fn backlight_pwm_settings() {
    let config = backlight_pwm_config();
    assert_eq!(config.top, 6_200);
    assert_eq!(config.divider_bits, 256);
    assert_eq!(
        fixed::FixedU16::<fixed::types::extra::U4>::from_bits(config.divider_bits),
        fixed::FixedU16::<fixed::types::extra::U4>::from_num(16)
    );
}
