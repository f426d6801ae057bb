use synthahol_dx7::{checksum, Bank, DecodeError, OperatorMode, Waveform};

const SLOT_LEN: usize = 128;

/// A bank holding `slots` first and zero-filled presets after them, with a
/// valid checksum.
fn bank(slots: &[[u8; SLOT_LEN]]) -> Vec<u8> {
    let mut body = vec![0u8; 4096];
    for (index, slot) in slots.iter().enumerate() {
        body[index * SLOT_LEN..(index + 1) * SLOT_LEN].copy_from_slice(slot);
    }
    let sum = body.iter().fold(0u8, |sum, c| sum.wrapping_sub(*c)) & 0x7F;
    let mut data = vec![0xF0, 0x43, 0x00, 0x09, 0x20, 0x00];
    data.extend_from_slice(&body);
    data.push(sum);
    data.push(0xF7);
    data
}

/// A first preset shaped like the factory "BRASS 1": algorithm 22, a sine
/// LFO, and every operator's detune stored at its centre, 7.
fn brass_slot() -> [u8; SLOT_LEN] {
    let mut slot = [0u8; SLOT_LEN];
    for operator in 0..6 {
        let record = &mut slot[operator * 17..(operator + 1) * 17];
        record[0..4].copy_from_slice(&[72, 76, 99, 71]);
        record[4..8].copy_from_slice(&[99, 88, 96, 0]);
        record[12] = 7 << 3;
        record[14] = 98;
        record[15] = 1 << 1;
    }
    slot[102..110].copy_from_slice(&[84, 95, 95, 60, 50, 50, 50, 50]);
    slot[110] = 21;
    slot[111] = 0b1111;
    slot[112] = 37;
    slot[116] = (4 << 1) | 1;
    slot[117] = 24;
    slot[118..127].copy_from_slice(b"BRASS   1");
    slot
}

#[test]
fn checksums() {
    assert_eq!(0, checksum(&[]));
    assert_eq!(0, checksum(&[0,]));
    assert_eq!(86, checksum(&[42,]));
    assert_eq!(113, checksum(&[1, 2, 3, 4, 5,]));
    assert_eq!(94, checksum(&[100, 20, 30, 40, 100,]));
}

#[test]
fn checksum_is_seven_bits() {
    assert_eq!(127, checksum(&[1]));
    assert_eq!(0, checksum(&[128]));
    assert_eq!(1, checksum(&[255]));
    let long = vec![255u8; 4096];
    assert!(checksum(&long) < 128);
    assert_eq!(0, checksum(&long));
}

#[test]
fn factory_bank() {
    let presets = Bank::read(&bank(&[brass_slot()])).unwrap();
    assert_eq!(presets.len(), 32);

    let preset = presets.first().unwrap();
    assert_eq!("BRASS   1", preset.name.to_string());
    assert_eq!(21, preset.algorithm_id);
    assert_eq!(Waveform::Sine, preset.lfo_waveform);

    let op1 = preset.operators[0];
    assert_eq!(0, op1.detune);

    let op6 = preset.operators[5];
    assert_eq!(0, op6.detune);
}

#[test]
fn decoding_is_deterministic() {
    let data = bank(&[brass_slot(), brass_slot()]);
    let first = Bank::read(&data).unwrap();
    let second = Bank::read(&data).unwrap();
    assert_eq!(first, second);
    assert_eq!(first[0], first[1]);
    assert_eq!("", first[2].name.to_string());
}

#[test]
fn trailing_bytes_are_ignored() {
    let mut data = bank(&[brass_slot()]);
    data.extend_from_slice(&[1, 2, 3]);
    assert_eq!(32, Bank::read(&data).unwrap().len());
}

#[test]
fn fields_unpacked_and_normalized() {
    let mut slot = [0u8; SLOT_LEN];
    // Operator 1 is the last record.
    slot[85..102].copy_from_slice(&[
        1, 2, 3, 4, 5, 6, 7, 120, 9, 10, 11, 0b1110, (3 << 3) | 5, (6 << 2) | 2, 77, (17 << 1) | 1,
        42,
    ]);
    // Operator 6 is the first record.
    slot[14] = 50;
    slot[102..110].copy_from_slice(&[10, 11, 12, 13, 14, 15, 16, 120]);
    slot[110] = 45;
    slot[111] = 0b1000 | 5;
    slot[112..116].copy_from_slice(&[30, 40, 50, 60]);
    slot[116] = (3 << 4) | (2 << 1) | 1;
    slot[117] = 60;
    slot[118..127].copy_from_slice(&[b'a', 0x07, 0xC2, b' ', b' ', b' ', b' ', b' ', b' ']);

    let presets = Bank::read(&bank(&[slot])).unwrap();
    let preset = &presets[0];
    let op1 = preset.operators[0];
    assert_eq!([1, 2, 3, 4], op1.envelope.rates);
    assert_eq!([5, 6, 7, 99], op1.envelope.levels);
    assert_eq!(9, op1.scaling_break_point);
    assert_eq!(10, op1.scaling_left_depth);
    assert_eq!(11, op1.scaling_right_depth);
    assert_eq!(2, op1.scaling_left_curve);
    assert_eq!(3, op1.scaling_right_curve);
    assert_eq!(0, op1.detune);
    assert_eq!(5, op1.rate_scaling);
    assert_eq!(6, op1.velocity_sensitivity);
    assert_eq!(2, op1.modulation_sensitivity);
    assert_eq!(77, op1.output_level);
    assert_eq!(OperatorMode::Ratio, op1.mode);
    assert_eq!(17, op1.frequency_course);
    assert_eq!(42, op1.frequency_fine);

    let op6 = preset.operators[5];
    assert_eq!(50, op6.output_level);
    assert_eq!(OperatorMode::Fixed, op6.mode);
    assert_eq!(0, preset.operators[1].output_level);

    assert_eq!([10, 11, 12, 13], preset.pitch_envelope.rates);
    assert_eq!([14, 15, 16, 99], preset.pitch_envelope.levels);
    assert_eq!(31, preset.algorithm_id);
    assert!(preset.oscillator_key_sync);
    assert_eq!(5, preset.feedback_level);
    assert_eq!(30, preset.lfo_speed);
    assert_eq!(40, preset.lfo_delay);
    assert_eq!(50, preset.lfo_pitch_mod_depth);
    assert_eq!(60, preset.lfo_amplitude_mod_depth);
    assert_eq!(3, preset.lfo_pitch_mod_sensitivity);
    assert_eq!(Waveform::SawUp, preset.lfo_waveform);
    assert!(preset.lfo_key_sync);
    assert_eq!(48, preset.transpose);
    assert_eq!("a B", preset.name.to_string());
}

#[test]
fn short_input_is_truncated() {
    let data = bank(&[brass_slot()]);
    assert_eq!(Err(DecodeError::TruncatedInput), Bank::read(&data[..3]));
    assert_eq!(Err(DecodeError::TruncatedInput), Bank::read(&[]));
    assert_eq!(Err(DecodeError::TruncatedInput), Bank::read(&data[..100]));
    assert_eq!(Err(DecodeError::TruncatedInput), Bank::read(&data[..4102]));
    assert_eq!(Err(DecodeError::TruncatedInput), Bank::read(&data[..4103]));
}

#[test]
fn wrong_header() {
    let mut data = bank(&[brass_slot()]);
    data[1] = 0x44;
    assert_eq!(Err(DecodeError::InvalidHeader), Bank::read(&data));
    assert_eq!(Err(DecodeError::InvalidHeader), Bank::read(&[0xF0, 0x43, 0x00, 0x09, 0x20, 0x01]));
}

#[test]
fn wrong_checksum() {
    let mut data = bank(&[brass_slot()]);
    let computed = data[4102];
    let expected = (computed + 1) & 0x7F;
    data[4102] = expected;
    assert_eq!(
        Err(DecodeError::ChecksumMismatch { expected, computed }),
        Bank::read(&data)
    );
}

#[test]
fn missing_terminator() {
    let mut data = bank(&[brass_slot()]);
    data[4103] = 0x00;
    assert_eq!(Err(DecodeError::MissingTerminator), Bank::read(&data));
}

#[test]
fn invalid_waveform() {
    let mut third = brass_slot();
    third[116] = 6 << 1;
    let mut fifth = brass_slot();
    fifth[116] = 7 << 1;
    let data = bank(&[brass_slot(), brass_slot(), third, brass_slot(), fifth]);
    assert_eq!(Err(DecodeError::InvalidWaveform { value: 6 }), Bank::read(&data));
}
