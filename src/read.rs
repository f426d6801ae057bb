use vstd::arithmetic::div_mod::{lemma_mod_mod, lemma_sub_mod_noop};
use vstd::prelude::*;

use crate::{
    clamped, lossy_name, waveform_of_code, DecodeError, Envelope, Operator, OperatorMode, Preset,
    PresetName, Waveform, OPERATOR_COUNT, SYSEX_HEADER,
};

verus! {

/// Length of the signature that opens a bank.
pub const HEADER_LEN: usize = 6;

/// Length of the packed voice data of a bank.
pub const BODY_LEN: usize = 4096;

/// Number of presets in a bank.
pub const PRESET_COUNT: usize = 32;

/// Length of one packed preset.
pub const PRESET_LEN: usize = 128;

/// Length of one packed operator.
pub const OPERATOR_LEN: usize = 17;

/// Position of the checksum byte in a bank.
pub const CHECKSUM_OFFSET: usize = HEADER_LEN + BODY_LEN;

/// Position of the terminator byte in a bank.
pub const TERMINATOR_OFFSET: usize = CHECKSUM_OFFSET + 1;

/// Length of a whole bank.
pub const BANK_LEN: usize = TERMINATOR_OFFSET + 1;

/// The end-of-exclusive marker that closes a bank.
pub const END_OF_EXCLUSIVE: u8 = 0xF7;

/// Within a packed preset: where the name starts and ends.
pub const NAME_START: usize = 118;

pub const NAME_END: usize = 127;

/// Within a packed preset: where the pitch envelope rates start, followed by
/// its levels.
pub const PITCH_ENVELOPE_START: usize = 102;

/// Within a packed preset: the algorithm byte, followed by the byte holding
/// oscillator key sync and feedback, then the four plain LFO bytes.
pub const ALGORITHM_OFFSET: usize = 110;

/// Within a packed preset: the byte holding LFO pitch modulation
/// sensitivity (bits 4 to 6), waveform (bits 1 to 3) and key sync (bit 0).
pub const LFO_PACKED_OFFSET: usize = 116;

/// Within a packed preset: the transpose byte.
pub const TRANSPOSE_OFFSET: usize = 117;

/// Sum of the bytes of `s`.
pub open spec fn byte_sum(s: Seq<u8>) -> int
    decreases s.len(),
{
    if s.len() == 0 {
        0
    } else {
        byte_sum(s.drop_last()) + s.last()
    }
}

/// The seven-bit two's complement checksum of `s`: minus the sum of its
/// bytes, modulo 128.
pub open spec fn checksum_of(s: Seq<u8>) -> u8 {
    ((0 - byte_sum(s)) % 128) as u8
}

/// Computes the masked two's complement checksum of `data`.
pub fn checksum(data: &[u8]) -> (r: u8)
    ensures
        r == checksum_of(data@),
        r < 128,
{
    let mut sum: u8 = 0;
    let mut i: usize = 0;
    while i < data.len()
        invariant
            i <= data@.len(),
            sum as int == (0 - byte_sum(data@.take(i as int))) % 256,
        decreases data@.len() - i,
    {
        let ghost before = byte_sum(data@.take(i as int));
        let c = data[i];
        sum = sum.wrapping_sub(c);
        i += 1;
        proof {
            assert(data@.take(i as int).drop_last() =~= data@.take(i - 1));
            assert(byte_sum(data@.take(i as int)) == before + c);
            lemma_sub_mod_noop(0 - before, c as int, 256);
        }
    }
    assert(data@.take(i as int) =~= data@);
    let r = sum & 0x7f;
    proof {
        assert(sum & 0x7f == sum % 128) by (bit_vector);
        lemma_mod_mod(0 - byte_sum(data@), 128, 2);
    }
    r
}

/// The bytes of operator record `k` of a packed preset, in storage order.
pub open spec fn operator_bytes(slot: Seq<u8>, k: int) -> Seq<u8> {
    slot.subrange(k * OPERATOR_LEN, k * OPERATOR_LEN + OPERATOR_LEN)
}

/// The operator that a packed operator record holds, before normalization.
pub open spec fn unpack_operator(b: Seq<u8>) -> Operator {
    Operator {
        envelope: Envelope { rates: [b[0], b[1], b[2], b[3]], levels: [b[4], b[5], b[6], b[7]] },
        scaling_break_point: b[8],
        scaling_left_depth: b[9],
        scaling_right_depth: b[10],
        scaling_left_curve: b[11] & 3,
        scaling_right_curve: (b[11] >> 2) & 3,
        detune: (0 - ((b[12] >> 3) & 15)) as i8,
        rate_scaling: b[12] & 7,
        velocity_sensitivity: (b[13] >> 2) & 7,
        modulation_sensitivity: b[13] & 3,
        output_level: b[14],
        mode: if b[15] & 1 == 0 {
            OperatorMode::Fixed
        } else {
            OperatorMode::Ratio
        },
        frequency_course: (b[15] >> 1) & 31,
        frequency_fine: b[16],
    }
}

/// The LFO waveform code of a packed preset.
pub open spec fn waveform_code(slot: Seq<u8>) -> u8 {
    (slot[LFO_PACKED_OFFSET as int] >> 1) & 7
}

/// The preset that a packed preset holds, before normalization, named
/// `name`. Operators are stored last first.
pub open spec fn unpack_preset(slot: Seq<u8>, name: PresetName) -> Preset {
    let p = PITCH_ENVELOPE_START as int;
    let a = ALGORITHM_OFFSET as int;
    let lfo = slot[LFO_PACKED_OFFSET as int];
    Preset {
        name,
        operators: [
            unpack_operator(operator_bytes(slot, 5)),
            unpack_operator(operator_bytes(slot, 4)),
            unpack_operator(operator_bytes(slot, 3)),
            unpack_operator(operator_bytes(slot, 2)),
            unpack_operator(operator_bytes(slot, 1)),
            unpack_operator(operator_bytes(slot, 0)),
        ],
        pitch_envelope: Envelope {
            rates: [slot[p], slot[p + 1], slot[p + 2], slot[p + 3]],
            levels: [slot[p + 4], slot[p + 5], slot[p + 6], slot[p + 7]],
        },
        algorithm_id: slot[a] as usize,
        oscillator_key_sync: (slot[a + 1] >> 3) & 1 == 1,
        feedback_level: slot[a + 1] & 7,
        lfo_speed: slot[a + 2],
        lfo_delay: slot[a + 3],
        lfo_pitch_mod_depth: slot[a + 4],
        lfo_amplitude_mod_depth: slot[a + 5],
        lfo_pitch_mod_sensitivity: (lfo >> 4) & 7,
        lfo_waveform: waveform_of_code(waveform_code(slot)).unwrap(),
        lfo_key_sync: lfo & 1 == 1,
        transpose: slot[TRANSPOSE_OFFSET as int],
    }
}

impl Preset {
    /// `self` is the normalized preset that the packed preset `slot` holds.
    pub open spec fn decoded_from(self, slot: Seq<u8>) -> bool {
        &&& self.name@ == lossy_name(slot.subrange(NAME_START as int, NAME_END as int))
        &&& self == unpack_preset(slot, self.name).normalized()
    }
}

/// The packed preset `i` of a bank.
pub open spec fn preset_bytes(data: Seq<u8>, i: int) -> Seq<u8> {
    data.subrange(HEADER_LEN + i * PRESET_LEN, HEADER_LEN + i * PRESET_LEN + PRESET_LEN)
}

/// The error of the first packed preset from `k` on whose waveform code
/// names no waveform.
pub open spec fn waveform_error_from(data: Seq<u8>, k: int) -> Option<DecodeError>
    decreases PRESET_COUNT - k,
{
    if k < 0 || k >= PRESET_COUNT {
        None
    } else if waveform_of_code(waveform_code(preset_bytes(data, k))) is None {
        Some(DecodeError::InvalidWaveform { value: waveform_code(preset_bytes(data, k)) })
    } else {
        waveform_error_from(data, k + 1)
    }
}

/// Whether `data` starts with the bulk dump signature.
pub open spec fn has_signature(data: Seq<u8>) -> bool {
    data.len() >= HEADER_LEN && data.take(HEADER_LEN as int) == SYSEX_HEADER@
}

/// Why `data` is not a bank, checked in the order in which it is read; `None`
/// where it is one.
pub open spec fn bank_error(data: Seq<u8>) -> Option<DecodeError> {
    let body = data.subrange(HEADER_LEN as int, CHECKSUM_OFFSET as int);
    if data.len() < HEADER_LEN {
        Some(DecodeError::TruncatedInput)
    } else if !has_signature(data) {
        Some(DecodeError::InvalidHeader)
    } else if data.len() <= CHECKSUM_OFFSET {
        Some(DecodeError::TruncatedInput)
    } else if data[CHECKSUM_OFFSET as int] != checksum_of(body) {
        Some(
            DecodeError::ChecksumMismatch {
                expected: data[CHECKSUM_OFFSET as int],
                computed: checksum_of(body),
            },
        )
    } else if data.len() <= TERMINATOR_OFFSET {
        Some(DecodeError::TruncatedInput)
    } else if data[TERMINATOR_OFFSET as int] != END_OF_EXCLUSIVE {
        Some(DecodeError::MissingTerminator)
    } else {
        waveform_error_from(data, 0)
    }
}

/// What decoding `data` gives: the first error, or the 32 presets it holds.
pub open spec fn decodes_to(data: Seq<u8>, r: Result<Vec<Preset>, DecodeError>) -> bool {
    match r {
        Ok(presets) => {
            &&& bank_error(data) is None
            &&& presets@.len() == PRESET_COUNT
            &&& forall|i: int|
                0 <= i < PRESET_COUNT ==> #[trigger] presets@[i].decoded_from(preset_bytes(data, i))
        },
        Err(e) => bank_error(data) == Some(e),
    }
}

/// Decodes one packed operator record.
fn unpack_operator_record(b: &[u8]) -> (r: Operator)
    requires
        b@.len() == OPERATOR_LEN,
    ensures
        r == unpack_operator(b@),
{
    let tuning = b[12];
    let coarse_detune: u8 = (tuning >> 3) & 15;
    assert((tuning >> 3) & 15 <= 15) by (bit_vector);
    let envelope = Envelope::from_rates_and_levels([b[0], b[1], b[2], b[3]], [b[4], b[5], b[6], b[7]]);
    Operator {
        envelope,
        scaling_break_point: b[8],
        scaling_left_depth: b[9],
        scaling_right_depth: b[10],
        scaling_left_curve: b[11] & 3,
        scaling_right_curve: (b[11] >> 2) & 3,
        detune: 0i8 - coarse_detune as i8,
        rate_scaling: tuning & 7,
        velocity_sensitivity: (b[13] >> 2) & 7,
        modulation_sensitivity: b[13] & 3,
        output_level: b[14],
        mode: if b[15] & 1 == 0 {
            OperatorMode::Fixed
        } else {
            OperatorMode::Ratio
        },
        frequency_course: (b[15] >> 1) & 31,
        frequency_fine: b[16],
    }
}

/// Decodes and normalizes one packed preset.
fn decode_preset(slot: &[u8]) -> (r: Result<Preset, DecodeError>)
    requires
        slot@.len() == PRESET_LEN,
    ensures
        match r {
            Ok(p) => waveform_of_code(waveform_code(slot@)) is Some && p.decoded_from(slot@),
            Err(e) => waveform_of_code(waveform_code(slot@)) is None && e == (
            DecodeError::InvalidWaveform { value: waveform_code(slot@) }),
        },
{
    let lfo = slot[LFO_PACKED_OFFSET];
    let lfo_waveform = match Waveform::try_from((lfo >> 1) & 7) {
        Ok(w) => w,
        Err(e) => return Err(e),
    };
    let name = PresetName::from_lossy(&slot[NAME_START..NAME_END]);
    // Operators are stored last first.
    let operators: [Operator; OPERATOR_COUNT] = [
        unpack_operator_record(&slot[85..102]),
        unpack_operator_record(&slot[68..85]),
        unpack_operator_record(&slot[51..68]),
        unpack_operator_record(&slot[34..51]),
        unpack_operator_record(&slot[17..34]),
        unpack_operator_record(&slot[0..17]),
    ];
    let p = PITCH_ENVELOPE_START;
    let pitch_envelope = Envelope::from_rates_and_levels(
        [slot[p], slot[p + 1], slot[p + 2], slot[p + 3]],
        [slot[p + 4], slot[p + 5], slot[p + 6], slot[p + 7]],
    );
    let a = ALGORITHM_OFFSET;
    let raw = Preset {
        name,
        operators,
        pitch_envelope,
        algorithm_id: slot[a] as usize,
        oscillator_key_sync: (slot[a + 1] >> 3) & 1 == 1,
        feedback_level: slot[a + 1] & 7,
        lfo_speed: slot[a + 2],
        lfo_delay: slot[a + 3],
        lfo_pitch_mod_depth: slot[a + 4],
        lfo_amplitude_mod_depth: slot[a + 5],
        lfo_pitch_mod_sensitivity: (lfo >> 4) & 7,
        lfo_waveform,
        lfo_key_sync: lfo & 1 == 1,
        transpose: slot[TRANSPOSE_OFFSET],
    };
    proof {
        assert(raw.operators =~= unpack_preset(slot@, raw.name).operators);
    }
    Ok(raw.normalize())
}

/// A bank is a collection of presets.
pub struct Bank;

impl Bank {
    /// Decodes a 32-voice bulk dump: the signature, 4096 bytes of packed
    /// presets, their checksum and the end-of-exclusive marker. Fails with
    /// the first error met while reading in that order; bytes after the
    /// marker are ignored.
    pub fn read(data: &[u8]) -> (r: Result<Vec<Preset>, DecodeError>)
        ensures
            decodes_to(data@, r),
    {
        if data.len() < HEADER_LEN {
            return Err(DecodeError::TruncatedInput);
        }
        let mut i: usize = 0;
        while i < HEADER_LEN
            invariant
                data@.len() >= HEADER_LEN,
                i <= HEADER_LEN,
                forall|j: int| 0 <= j < i ==> data@[j] == SYSEX_HEADER@[j],
            decreases HEADER_LEN - i,
        {
            if data[i] != SYSEX_HEADER[i] {
                assert(data@.take(HEADER_LEN as int)[i as int] != SYSEX_HEADER@[i as int]);
                return Err(DecodeError::InvalidHeader);
            }
            i += 1;
        }
        assert(data@.take(HEADER_LEN as int) =~= SYSEX_HEADER@);
        if data.len() <= CHECKSUM_OFFSET {
            return Err(DecodeError::TruncatedInput);
        }
        let expected = data[CHECKSUM_OFFSET];
        let computed = checksum(&data[HEADER_LEN..CHECKSUM_OFFSET]);
        if computed != expected {
            return Err(DecodeError::ChecksumMismatch { expected, computed });
        }
        if data.len() <= TERMINATOR_OFFSET {
            return Err(DecodeError::TruncatedInput);
        }
        if data[TERMINATOR_OFFSET] != END_OF_EXCLUSIVE {
            return Err(DecodeError::MissingTerminator);
        }
        let mut presets: Vec<Preset> = Vec::new();
        let mut k: usize = 0;
        while k < PRESET_COUNT
            invariant
                data@.len() > TERMINATOR_OFFSET,
                k <= PRESET_COUNT,
                presets@.len() == k,
                bank_error(data@) == waveform_error_from(data@, k as int),
                forall|j: int|
                    0 <= j < k ==> #[trigger] presets@[j].decoded_from(preset_bytes(data@, j)),
            decreases PRESET_COUNT - k,
        {
            let start = HEADER_LEN + k * PRESET_LEN;
            match decode_preset(&data[start..start + PRESET_LEN]) {
                Ok(p) => presets.push(p),
                Err(e) => return Err(e),
            }
            k += 1;
        }
        Ok(presets)
    }
}


/// Decoding is a function of the input: two decodings of the same bytes fail
/// with the same error, or both give 32 presets that are the same voice by
/// voice (names equal by content, every other field equal). Input without
/// an error gives 32 presets.
pub proof fn lemma_decode_deterministic(
    data: Seq<u8>,
    a: Result<Vec<Preset>, DecodeError>,
    b: Result<Vec<Preset>, DecodeError>,
)
    requires
        decodes_to(data, a),
        decodes_to(data, b),
    ensures
        bank_error(data) is None ==> a is Ok,
        a is Ok <==> b is Ok,
        a is Err ==> a == b,
        a matches Ok(x) ==> b matches Ok(y) && x@.len() == PRESET_COUNT && y@.len() == PRESET_COUNT
            && forall|i: int| 0 <= i < PRESET_COUNT ==> #[trigger] x@[i].same_voice(y@[i]),
{
    if a is Ok && b is Ok {
        let x = a->Ok_0;
        let y = b->Ok_0;
        assert forall|i: int| 0 <= i < PRESET_COUNT implies #[trigger] x@[i].same_voice(y@[i]) by {
            let slot = preset_bytes(data, i);
            assert(x@[i].decoded_from(slot));
            assert(y@[i].decoded_from(slot));
        }
    }
}

/// Fewer bytes than the signature, such as the first three of a bank, are
/// neither recognized as the format nor decoded: decoding reports truncated
/// input.
pub proof fn lemma_short_input_truncated(data: Seq<u8>, r: Result<Vec<Preset>, DecodeError>)
    requires
        data.len() < HEADER_LEN,
        decodes_to(data, r),
    ensures
        !has_signature(data),
        r == Err::<Vec<Preset>, DecodeError>(DecodeError::TruncatedInput),
{
}

} // verus!
