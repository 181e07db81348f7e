use ati_sensor::{Command, Exchange, Reply, FRAME_LEN};

#[test]
fn read_force_frame_is_twenty_zero_bytes() {
    assert_eq!(Command::ReadForce.encode(), [0u8; 20]);
}

#[test]
fn reset_force_frame_is_nineteen_zero_bytes_then_one() {
    let frame = Command::ResetForce.encode();
    assert_eq!(
        frame,
        [0u8, 0, 0, 0, 0, 0, 0, 0, 0, 0, 0, 0, 0, 0, 0, 0, 0, 0, 0, 1]
    );
    assert!(frame[..19].iter().all(|byte| *byte == 0));
    assert_eq!(frame[19], 0x01);
}

#[test]
fn read_calibration_info_frame_is_one_then_nineteen_zero_bytes() {
    let frame = Command::ReadCalibrationInfo.encode();
    assert_eq!(
        frame,
        [1u8, 0, 0, 0, 0, 0, 0, 0, 0, 0, 0, 0, 0, 0, 0, 0, 0, 0, 0, 0]
    );
    assert_eq!(frame[0], 0x01);
    assert!(frame[1..].iter().all(|byte| *byte == 0));
}

#[test]
fn every_frame_has_the_frame_length() {
    assert_eq!(FRAME_LEN, 20);
    assert_eq!(Command::ReadForce.encode().len(), FRAME_LEN);
    assert_eq!(Command::ResetForce.encode().len(), FRAME_LEN);
    assert_eq!(Command::ReadCalibrationInfo.encode().len(), FRAME_LEN);
}

#[test]
fn encoding_a_command_twice_gives_the_same_bytes() {
    for command in [Command::ReadCalibrationInfo, Command::ReadForce, Command::ResetForce] {
        assert_eq!(command.encode(), command.encode());
    }
}

#[test]
fn no_two_commands_share_a_frame() {
    let commands = [Command::ReadCalibrationInfo, Command::ReadForce, Command::ResetForce];
    for a in commands {
        for b in commands {
            assert_eq!(a.encode() == b.encode(), a == b);
        }
    }
}

#[test]
fn reset_and_calibration_frames_differ_in_where_the_one_stands() {
    let reset = Command::ResetForce.encode();
    let info = Command::ReadCalibrationInfo.encode();
    assert_eq!(reset.iter().position(|byte| *byte == 1), Some(19));
    assert_eq!(info.iter().position(|byte| *byte == 1), Some(0));
}

#[test]
fn each_command_names_its_reply() {
    assert_eq!(Command::ResetForce.reply(), Reply::Nothing);
    assert_eq!(Command::ReadForce.reply(), Reply::Sample);
    assert_eq!(Command::ReadCalibrationInfo.reply(), Reply::Raw);
}

#[test]
fn only_the_reset_reply_is_not_read() {
    assert!(!Reply::Nothing.is_read());
    assert!(Reply::Raw.is_read());
    assert!(Reply::Sample.is_read());
}

#[test]
fn a_sample_reply_is_read_until_sixteen_bytes_have_arrived() {
    assert!(Reply::Sample.reads_again(1, 1));
    assert!(Reply::Sample.reads_again(7, 15));
    assert!(Reply::Sample.reads_again(15, 15));
    assert!(!Reply::Sample.reads_again(1, 16));
    assert!(!Reply::Sample.reads_again(16, 16));
    assert!(!Reply::Sample.reads_again(17, 17));
    assert!(!Reply::Sample.reads_again(32, 32));
    assert!(!Reply::Sample.reads_again(usize::MAX, usize::MAX));
}

#[test]
fn a_sample_reply_is_not_read_past_the_end_of_the_stream() {
    assert!(!Reply::Sample.reads_again(0, 0));
    assert!(!Reply::Sample.reads_again(0, 8));
    assert!(!Reply::Sample.reads_again(0, 15));
    assert!(!Reply::Sample.reads_again(0, 16));
}

#[test]
fn a_raw_reply_is_read_once() {
    assert!(!Reply::Raw.reads_again(0, 0));
    assert!(!Reply::Raw.reads_again(1, 1));
    assert!(!Reply::Raw.reads_again(32, 32));
    assert!(!Reply::Nothing.reads_again(0, 0));
    assert!(!Reply::Nothing.reads_again(1, 1));
}

#[test]
fn an_exchange_carries_the_frame_and_the_reply() {
    for command in [Command::ReadCalibrationInfo, Command::ReadForce, Command::ResetForce] {
        let exchange = command.exchange();
        assert_eq!(
            exchange,
            Exchange { request: command.encode(), reply: command.reply() }
        );
    }
}
