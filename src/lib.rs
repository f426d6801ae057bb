//! Decoder for the 32-voice bulk dump of the Yamaha DX7 FM synthesizer, and
//! the table of its 32 operator routings.
use vstd::prelude::*;
use vstd::string::*;

pub use algorithms::{
    lemma_routing_well_formed, output_of, routing_table, Algorithm, Algorithms, Output,
    ALGORITHM_COUNT,
};
pub use envelope::{Envelope, MAX_SEGMENT_VALUE, SEGMENT_COUNT};
pub use format::Format;
pub use read::{
    bank_error, byte_sum, checksum, checksum_of, decodes_to, has_signature,
    lemma_decode_deterministic, lemma_short_input_truncated, operator_bytes, preset_bytes,
    unpack_operator, unpack_preset, waveform_code, waveform_error_from, Bank, BANK_LEN, BODY_LEN,
    CHECKSUM_OFFSET, END_OF_EXCLUSIVE, HEADER_LEN, PRESET_COUNT, PRESET_LEN, TERMINATOR_OFFSET,
};

mod algorithms;
mod envelope;
mod format;
mod read;

verus! {

/// The signature that opens a 32-voice bulk dump.
pub const SYSEX_HEADER: [u8; 6] = [0xF0, 0x43, 0x00, 0x09, 0x20, 0x00];

/// `x`, lowered to `hi` where it exceeds it.
pub open spec fn clamped(x: u8, hi: u8) -> u8 {
    if x > hi {
        hi
    } else {
        x
    }
}

/// Why a bank could not be decoded.
#[derive(Clone, Copy, Debug, Eq, PartialEq)]
pub enum DecodeError {
    /// The input does not start with the bulk dump signature.
    InvalidHeader,
    /// The input ends before a fixed-length part of the bank.
    TruncatedInput,
    /// The checksum stored after the body is not the one computed from it.
    ChecksumMismatch { expected: u8, computed: u8 },
    /// The byte after the checksum is not the end-of-exclusive marker.
    MissingTerminator,
    /// A preset holds an LFO waveform code without a waveform.
    InvalidWaveform { value: u8 },
    /// Envelope rates or levels were not given for exactly four segments.
    LengthMismatch,
}


/// Longest name a preset can have, in characters.
pub const MAX_NAME_LENGTH: usize = 10;

/// The ASCII space.
pub const SPACE: u8 = 0x20;

/// A name byte as it is shown: its low seven bits where they are printable
/// ASCII, else a space.
pub open spec fn printable_byte(b: u8) -> u8 {
    let c = b & 0x7f;
    if SPACE <= c && c < 0x7f {
        c
    } else {
        SPACE
    }
}

/// `s` without the spaces at its end.
pub open spec fn without_trailing_spaces(s: Seq<u8>) -> Seq<u8>
    decreases s.len(),
{
    if s.len() > 0 && s.last() == SPACE {
        without_trailing_spaces(s.drop_last())
    } else {
        s
    }
}

/// The characters of the name stored in `data`: its first ten bytes made
/// printable, with trailing spaces removed.
pub open spec fn lossy_name(data: Seq<u8>) -> Seq<char> {
    let kept = if data.len() > MAX_NAME_LENGTH {
        data.take(MAX_NAME_LENGTH as int)
    } else {
        data
    };
    without_trailing_spaces(kept.map_values(|b: u8| printable_byte(b))).map_values(|b: u8| b as char)
}

/// Relies on `String::push`: the character is appended to the string.
#[verifier::external_body]
fn push_char(s: &mut String, c: char)
    ensures
        final(s)@ == old(s)@.push(c),
{
    s.push(c)
}

/// The name of a preset: at most ten printable ASCII characters, the last of
/// which is not a space.
#[derive(Clone, Debug, Eq, PartialEq)]
pub struct PresetName(String);

impl View for PresetName {
    type V = Seq<char>;

    closed spec fn view(&self) -> Seq<char> {
        self.0@
    }
}

impl PresetName {
    /// Normalizes and trims a stored name. Bytes that are not printable
    /// ASCII once their high bit is cleared become spaces.
    pub fn from_lossy(data: &[u8]) -> (r: PresetName)
        ensures
            r@ == lossy_name(data@),
    {
        let n: usize = if data.len() > MAX_NAME_LENGTH {
            MAX_NAME_LENGTH
        } else {
            data.len()
        };
        let ghost kept = if data@.len() > MAX_NAME_LENGTH {
            data@.take(MAX_NAME_LENGTH as int)
        } else {
            data@
        };
        let ghost mapped = kept.map_values(|b: u8| printable_byte(b));
        let mut bytes: Vec<u8> = Vec::new();
        let mut i: usize = 0;
        while i < n
            invariant
                n <= data.len(),
                n == kept.len(),
                kept == data@.take(n as int),
                mapped == kept.map_values(|b: u8| printable_byte(b)),
                i <= n,
                bytes@ == mapped.take(i as int),
            decreases n - i,
        {
            let c: u8 = data[i] & 0x7f;
            let shown: u8 = if SPACE <= c && c < 0x7f {
                c
            } else {
                SPACE
            };
            bytes.push(shown);
            i += 1;
            assert(bytes@ =~= mapped.take(i as int));
        }
        assert(bytes@ =~= mapped);
        let mut end: usize = n;
        while end > 0 && bytes[end - 1] == SPACE
            invariant
                end <= bytes@.len(),
                bytes@ == mapped,
                without_trailing_spaces(bytes@.take(end as int)) == without_trailing_spaces(mapped),
            decreases end,
        {
            assert(bytes@.take(end as int).drop_last() =~= bytes@.take(end - 1));
            end -= 1;
        }
        let ghost trimmed = bytes@.take(end as int);
        assert(without_trailing_spaces(trimmed) == trimmed);
        let mut name = String::new();
        let mut k: usize = 0;
        while k < end
            invariant
                end <= bytes@.len(),
                trimmed == bytes@.take(end as int),
                k <= end,
                name@ == trimmed.take(k as int).map_values(|b: u8| b as char),
            decreases end - k,
        {
            push_char(&mut name, bytes[k] as char);
            k += 1;
            assert(name@ =~= trimmed.take(k as int).map_values(|b: u8| b as char));
        }
        assert(name@ =~= trimmed.map_values(|b: u8| b as char));
        PresetName(name)
    }

    /// A copy of the name.
    fn clone_name(&self) -> (r: PresetName)
        ensures
            r == *self,
    {
        PresetName(self.0.clone())
    }

    /// The name as a string.
    pub fn to_string(&self) -> (r: String)
        ensures
            r@ == self@,
    {
        self.0.clone()
    }
}

impl Default for PresetName {
    fn default() -> (r: Self)
        ensures
            r@ == "INIT VOICE"@,
    {
        PresetName(String::from_str("INIT VOICE"))
    }
}


/// Number of operators of a voice.
pub const OPERATOR_COUNT: usize = 6;

/// Shape of the low frequency oscillator.
#[derive(Copy, Clone, Debug, Eq, PartialEq)]
pub enum Waveform {
    Triangle,
    SawDown,
    SawUp,
    Square,
    Sine,
    SampleAndHold,
}

/// The waveform that a stored code selects, if any.
pub open spec fn waveform_of_code(value: u8) -> Option<Waveform> {
    if value == 0 {
        Some(Waveform::Triangle)
    } else if value == 1 {
        Some(Waveform::SawDown)
    } else if value == 2 {
        Some(Waveform::SawUp)
    } else if value == 3 {
        Some(Waveform::Square)
    } else if value == 4 {
        Some(Waveform::Sine)
    } else if value == 5 {
        Some(Waveform::SampleAndHold)
    } else {
        None
    }
}

impl Waveform {
    /// The waveform stored as `value`; codes 6 and up have none.
    pub fn try_from(value: u8) -> (r: Result<Waveform, DecodeError>)
        ensures
            waveform_of_code(value) matches Some(w) ==> r == Ok::<Waveform, DecodeError>(w),
            waveform_of_code(value) is None ==> r == Err::<Waveform, DecodeError>(
                DecodeError::InvalidWaveform { value },
            ),
    {
        match value {
            0 => Ok(Waveform::Triangle),
            1 => Ok(Waveform::SawDown),
            2 => Ok(Waveform::SawUp),
            3 => Ok(Waveform::Square),
            4 => Ok(Waveform::Sine),
            5 => Ok(Waveform::SampleAndHold),
            _ => Err(DecodeError::InvalidWaveform { value }),
        }
    }
}

/// How the frequency of an operator is set.
#[derive(Copy, Clone, Debug, Eq, Hash, PartialEq)]
pub enum OperatorMode {
    Fixed,
    Ratio,
}

impl OperatorMode {
    /// The mode's display name.
    pub fn as_str(&self) -> (r: &'static str)
        ensures
            *self == OperatorMode::Fixed ==> r@ == "Fixed"@,
            *self == OperatorMode::Ratio ==> r@ == "Ratio"@,
    {
        match self {
            OperatorMode::Fixed => "Fixed",
            OperatorMode::Ratio => "Ratio",
        }
    }
}

/// `x` lowered to `hi` where it exceeds it.
fn clamp(x: u8, hi: u8) -> (r: u8)
    ensures
        r == clamped(x, hi),
{
    if x > hi {
        hi
    } else {
        x
    }
}

/// A detune value held to the stored range 0 to 14.
pub open spec fn clamped_detune(d: i8) -> i8 {
    if d < 0 {
        0
    } else if d > 14 {
        14
    } else {
        d
    }
}

/// One modulator or carrier unit of a voice.
#[derive(Clone, Copy, Debug, Eq, Hash, PartialEq)]
pub struct Operator {
    pub envelope: Envelope,
    pub scaling_break_point: u8,
    pub scaling_left_depth: u8,
    pub scaling_right_depth: u8,
    pub scaling_left_curve: u8,
    pub scaling_right_curve: u8,
    /// -7 to 7, stored as 0 to 14.
    pub detune: i8,
    pub rate_scaling: u8,
    pub velocity_sensitivity: u8,
    pub modulation_sensitivity: u8,
    pub output_level: u8,
    pub mode: OperatorMode,
    pub frequency_course: u8,
    pub frequency_fine: u8,
}

/// The operator of an initialized voice.
pub open spec fn init_operator() -> Operator {
    Operator {
        envelope: Envelope { rates: [99, 99, 99, 99], levels: [99, 99, 99, 0] },
        scaling_break_point: 39,
        scaling_left_depth: 0,
        scaling_right_depth: 0,
        scaling_left_curve: 0,
        scaling_right_curve: 0,
        detune: 0,
        rate_scaling: 0,
        velocity_sensitivity: 0,
        modulation_sensitivity: 0,
        output_level: 0,
        mode: OperatorMode::Fixed,
        frequency_course: 1,
        frequency_fine: 0,
    }
}

impl Operator {
    /// The operator with every parameter clamped to its valid range.
    pub open spec fn normalized(self) -> Operator {
        Operator {
            envelope: self.envelope.normalized(),
            scaling_break_point: clamped(self.scaling_break_point, 99),
            scaling_left_depth: clamped(self.scaling_left_depth, 99),
            scaling_right_depth: clamped(self.scaling_right_depth, 99),
            scaling_left_curve: clamped(self.scaling_left_curve, 3),
            scaling_right_curve: clamped(self.scaling_right_curve, 3),
            detune: clamped_detune(self.detune),
            rate_scaling: clamped(self.rate_scaling, 7),
            velocity_sensitivity: clamped(self.velocity_sensitivity, 7),
            modulation_sensitivity: clamped(self.modulation_sensitivity, 3),
            output_level: clamped(self.output_level, 99),
            mode: self.mode,
            frequency_course: clamped(self.frequency_course, 31),
            frequency_fine: clamped(self.frequency_fine, 99),
        }
    }

    /// Clamps all parameters to valid ranges.
    pub fn normalize(&self) -> (r: Self)
        ensures
            r == self.normalized(),
    {
        let detune: i8 = if self.detune < 0 {
            0
        } else if self.detune > 14 {
            14
        } else {
            self.detune
        };
        Operator {
            envelope: self.envelope.normalize(),
            scaling_break_point: clamp(self.scaling_break_point, 99),
            scaling_left_depth: clamp(self.scaling_left_depth, 99),
            scaling_right_depth: clamp(self.scaling_right_depth, 99),
            scaling_left_curve: clamp(self.scaling_left_curve, 3),
            scaling_right_curve: clamp(self.scaling_right_curve, 3),
            detune,
            rate_scaling: clamp(self.rate_scaling, 7),
            velocity_sensitivity: clamp(self.velocity_sensitivity, 7),
            modulation_sensitivity: clamp(self.modulation_sensitivity, 3),
            output_level: clamp(self.output_level, 99),
            mode: self.mode,
            frequency_course: clamp(self.frequency_course, 31),
            frequency_fine: clamp(self.frequency_fine, 99),
        }
    }
}

impl Default for Operator {
    /// The last envelope segment has level zero, as on the DX7 II.
    fn default() -> (r: Self)
        ensures
            r == init_operator(),
    {
        let mut envelope = Envelope::default();
        envelope.levels[3] = 0;
        assert(envelope.levels =~= init_operator().envelope.levels);
        assert(envelope.rates =~= init_operator().envelope.rates);
        Operator {
            envelope,
            scaling_break_point: 39,
            scaling_left_depth: 0,
            scaling_right_depth: 0,
            scaling_left_curve: 0,
            scaling_right_curve: 0,
            detune: 0,
            rate_scaling: 0,
            velocity_sensitivity: 0,
            modulation_sensitivity: 0,
            output_level: 0,
            mode: OperatorMode::Fixed,
            frequency_course: 1,
            frequency_fine: 0,
        }
    }
}


/// Index of an operator within a voice, 0 to 5.
pub type OperatorId = u8;

/// Index of an operator routing, 0 to 31.
pub type AlgorithmId = usize;

/// Highest algorithm index.
pub const MAX_ALGORITHM_ID: usize = 31;

/// Facts about the instrument itself.
pub struct Hardware;

impl Hardware {
    /// The DX7 had 16 voice polyphony.
    pub const POLYPHONY: u32 = 16;
}

/// One complete voice.
#[derive(Clone, Debug, Eq, PartialEq)]
pub struct Preset {
    pub name: PresetName,
    /// Operators 1 to 6, in that order.
    pub operators: [Operator; OPERATOR_COUNT],
    pub pitch_envelope: Envelope,
    pub algorithm_id: AlgorithmId,
    pub oscillator_key_sync: bool,
    pub feedback_level: u8,
    pub lfo_speed: u8,
    pub lfo_delay: u8,
    pub lfo_pitch_mod_depth: u8,
    pub lfo_pitch_mod_sensitivity: u8,
    pub lfo_amplitude_mod_depth: u8,
    pub lfo_waveform: Waveform,
    pub lfo_key_sync: bool,
    pub transpose: u8,
}

impl Preset {
    /// The preset with every parameter clamped to its valid range.
    pub open spec fn normalized(self) -> Preset {
        Preset {
            name: self.name,
            operators: [
                self.operators[0].normalized(),
                self.operators[1].normalized(),
                self.operators[2].normalized(),
                self.operators[3].normalized(),
                self.operators[4].normalized(),
                self.operators[5].normalized(),
            ],
            pitch_envelope: self.pitch_envelope.normalized(),
            algorithm_id: if self.algorithm_id > MAX_ALGORITHM_ID {
                MAX_ALGORITHM_ID
            } else {
                self.algorithm_id
            },
            oscillator_key_sync: self.oscillator_key_sync,
            feedback_level: clamped(self.feedback_level, 7),
            lfo_speed: clamped(self.lfo_speed, 99),
            lfo_delay: clamped(self.lfo_delay, 99),
            lfo_pitch_mod_depth: clamped(self.lfo_pitch_mod_depth, 99),
            lfo_pitch_mod_sensitivity: clamped(self.lfo_pitch_mod_sensitivity, 99),
            lfo_amplitude_mod_depth: clamped(self.lfo_amplitude_mod_depth, 99),
            lfo_waveform: self.lfo_waveform,
            lfo_key_sync: self.lfo_key_sync,
            transpose: clamped(self.transpose, 48),
        }
    }

    /// `self` and `other` are the same voice: equal names, by content, and
    /// equal in every other field.
    pub open spec fn same_voice(self, other: Preset) -> bool {
        &&& self.name@ == other.name@
        &&& self == (Preset { name: self.name, ..other })
    }

    /// The values of the initialized voice: named "INIT VOICE", only the first
    /// operator audible, every pitch envelope segment at rate 99 and level 50.
    pub open spec fn is_init_voice(self) -> bool {
        &&& self.name@ == "INIT VOICE"@
        &&& self.operators[0] == (Operator { output_level: 99, ..init_operator() })
        &&& forall|i: int| 1 <= i < 6 ==> self.operators[i] == init_operator()
        &&& self.pitch_envelope == (Envelope { rates: [99, 99, 99, 99], levels: [50, 50, 50, 50] })
        &&& self.algorithm_id == 0
        &&& self.oscillator_key_sync
        &&& self.feedback_level == 0
        &&& self.lfo_speed == 35
        &&& self.lfo_delay == 0
        &&& self.lfo_pitch_mod_depth == 0
        &&& self.lfo_pitch_mod_sensitivity == 3
        &&& self.lfo_amplitude_mod_depth == 0
        &&& self.lfo_waveform == Waveform::Triangle
        &&& self.lfo_key_sync
        &&& self.transpose == 24
    }

    /// Clamps all parameters to valid ranges.
    pub fn normalize(&self) -> (r: Self)
        ensures
            r == self.normalized(),
    {
        let algorithm_id: usize = if self.algorithm_id > MAX_ALGORITHM_ID {
            MAX_ALGORITHM_ID
        } else {
            self.algorithm_id
        };
        Preset {
            name: self.name.clone_name(),
            operators: [
                self.operators[0].normalize(),
                self.operators[1].normalize(),
                self.operators[2].normalize(),
                self.operators[3].normalize(),
                self.operators[4].normalize(),
                self.operators[5].normalize(),
            ],
            pitch_envelope: self.pitch_envelope.normalize(),
            algorithm_id,
            oscillator_key_sync: self.oscillator_key_sync,
            feedback_level: clamp(self.feedback_level, 7),
            lfo_speed: clamp(self.lfo_speed, 99),
            lfo_delay: clamp(self.lfo_delay, 99),
            lfo_pitch_mod_depth: clamp(self.lfo_pitch_mod_depth, 99),
            lfo_pitch_mod_sensitivity: clamp(self.lfo_pitch_mod_sensitivity, 99),
            lfo_amplitude_mod_depth: clamp(self.lfo_amplitude_mod_depth, 99),
            lfo_waveform: self.lfo_waveform,
            lfo_key_sync: self.lfo_key_sync,
            transpose: clamp(self.transpose, 48),
        }
    }
}

impl Default for Preset {
    fn default() -> (r: Self)
        ensures
            r.is_init_voice(),
    {
        let mut operators: [Operator; 6] = [
            Operator::default(),
            Operator::default(),
            Operator::default(),
            Operator::default(),
            Operator::default(),
            Operator::default(),
        ];
        let mut first = Operator::default();
        first.output_level = 99;
        operators[0] = first;
        let pitch_envelope = Envelope::from_rate_and_level(99, 50);
        assert(pitch_envelope.rates =~= [99u8, 99, 99, 99]);
        assert(pitch_envelope.levels =~= [50u8, 50, 50, 50]);
        Preset {
            name: PresetName::default(),
            operators,
            pitch_envelope,
            algorithm_id: 0,
            oscillator_key_sync: true,
            feedback_level: 0,
            lfo_speed: 35,
            lfo_delay: 0,
            lfo_pitch_mod_depth: 0,
            lfo_pitch_mod_sensitivity: 3,
            lfo_amplitude_mod_depth: 0,
            lfo_waveform: Waveform::Triangle,
            lfo_key_sync: true,
            transpose: 24,
        }
    }
}

/// Normalizing twice gives what normalizing once gives.
pub proof fn lemma_normalize_idempotent(p: Preset)
    ensures
        p.normalized().normalized() == p.normalized(),
{
    let n = p.normalized();
    lemma_envelope_normalize_idempotent(p.pitch_envelope);
    lemma_operator_normalize_idempotent(p.operators[0]);
    lemma_operator_normalize_idempotent(p.operators[1]);
    lemma_operator_normalize_idempotent(p.operators[2]);
    lemma_operator_normalize_idempotent(p.operators[3]);
    lemma_operator_normalize_idempotent(p.operators[4]);
    lemma_operator_normalize_idempotent(p.operators[5]);
    assert(n.normalized().operators =~= n.operators);
}

proof fn lemma_envelope_normalize_idempotent(e: Envelope)
    ensures
        e.normalized().normalized() == e.normalized(),
{
    assert(e.normalized().normalized().rates =~= e.normalized().rates);
    assert(e.normalized().normalized().levels =~= e.normalized().levels);
}

proof fn lemma_operator_normalize_idempotent(o: Operator)
    ensures
        o.normalized().normalized() == o.normalized(),
{
    lemma_envelope_normalize_idempotent(o.envelope);
}

/// The initialized voice is already within every range: normalizing it
/// changes nothing.
pub proof fn lemma_init_voice_normalized(p: Preset)
    requires
        p.is_init_voice(),
    ensures
        p.normalized() == p,
{
    assert(p.pitch_envelope.normalized().rates =~= p.pitch_envelope.rates);
    assert(p.pitch_envelope.normalized().levels =~= p.pitch_envelope.levels);
    assert forall|i: int| 0 <= i < 6 implies #[trigger] p.operators[i].normalized()
        == p.operators[i] by {
        let e = p.operators[i].envelope;
        assert(e.normalized().rates =~= e.rates);
        assert(e.normalized().levels =~= e.levels);
    }
    assert(p.normalized().operators =~= p.operators);
}

} // verus!
