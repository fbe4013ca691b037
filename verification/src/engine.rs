//! Software CRC engine: the hardware-independent reference that every
//! hardware result is compared against. Each input step is pre-reflected at
//! its own width according to the configured input-reflection mode,
//! serialized most-significant byte first, and digested by a canonical CRC
//! engine; the accumulated value is then passed through the output-reflection
//! transform if that is enabled.

use vstd::prelude::*;

use crate::model::{BitReversal, CrcCalculation, CrcConfig, Polynomial, Step};
use crate::reflect::{reflect16, reflect32, reflect8, spec_reflect16, spec_reflect32, spec_reflect8};

verus! {

/// A 32-bit value with exactly the low `bits` bits set.
pub open spec fn spec_mask(bits: u8) -> u32
    recommends
        1 <= bits <= 32,
{
    0xFFFF_FFFFu32 >> ((32 - bits) as u32)
}

/// The value that a canonical CRC engine (polynomial `poly` of width `bits`,
/// initial value `init`, no built-in reflection, no final xor) accumulates
/// over `data`. Named rather than spelled out: the polynomial-division
/// algorithm is the outside engine's own, and it depends on these arguments
/// alone.
pub uninterp spec fn crc_of(poly: u32, bits: u8, init: u32, data: Seq<u8>) -> u32;

/// Result read back from the canonical CRC engine: with no data digested it
/// is the initial value masked to the polynomial width, otherwise the
/// accumulated checksum [`crc_of`].
pub open spec fn spec_crc_result(poly: u32, bits: u8, init: u32, data: Seq<u8>) -> u32 {
    if data.len() == 0 {
        init & spec_mask(bits)
    } else {
        crc_of(poly, bits, init, data)
    }
}

/// Relies on `crc_any::CRCu32`: `create_crc(poly, bits, init, 0, false)`
/// builds a checksum engine over the given polynomial, width and initial
/// value, with no built-in reflection and no final xor; `digest` feeds bytes;
/// `get_crc` reads the accumulated value, a deterministic function of those
/// arguments alone. Its register starts as the initial value left-aligned to
/// the width and is read back right-aligned and masked to the width, so with
/// no bytes digested the result is the initial value masked to the width.
/// `create_crc` accepts widths of 1 through 32 bits only.
#[verifier::external_body]
fn crc_u32_checksum(poly: u32, bits: u8, init: u32, data: &Vec<u8>) -> (r: u32)
    requires
        1 <= bits <= 32,
    ensures
        r == spec_crc_result(poly, bits, init, data@),
        data@.len() > 0 ==> r == crc_of(poly, bits, init, data@),
{
    let mut crc = crc_any::CRCu32::create_crc(poly, bits, init, 0, false);
    crc.digest(data);
    crc.get_crc()
}

/// An 8-bit step's value after input reflection at the step's own width.
pub open spec fn spec_input_reflect8(mode: BitReversal, v: u8) -> u8 {
    match mode {
        BitReversal::Disabled => v,
        BitReversal::By8Bits => spec_reflect8(v as u32) as u8,
        BitReversal::By16Bits => spec_reflect8(v as u32) as u8,
        BitReversal::By32Bits => spec_reflect8(v as u32) as u8,
    }
}

/// A 16-bit step's value after input reflection at the step's own width.
pub open spec fn spec_input_reflect16(mode: BitReversal, v: u16) -> u16 {
    match mode {
        BitReversal::Disabled => v,
        BitReversal::By8Bits => spec_reflect8(v as u32) as u16,
        BitReversal::By16Bits => spec_reflect16(v as u32) as u16,
        BitReversal::By32Bits => spec_reflect16(v as u32) as u16,
    }
}

/// A 32-bit step's value after input reflection at the step's own width.
pub open spec fn spec_input_reflect32(mode: BitReversal, v: u32) -> u32 {
    match mode {
        BitReversal::Disabled => v,
        BitReversal::By8Bits => spec_reflect8(v),
        BitReversal::By16Bits => spec_reflect16(v),
        BitReversal::By32Bits => spec_reflect32(v),
    }
}

impl BitReversal {
    /// Applies this input-reflection mode to a 32-bit step value.
    pub fn reflect32(&self, v: u32) -> (r: u32)
        ensures
            r == spec_input_reflect32(*self, v),
    {
        match self {
            BitReversal::Disabled => v,
            BitReversal::By8Bits => reflect8(v),
            BitReversal::By16Bits => reflect16(v),
            BitReversal::By32Bits => reflect32(v),
        }
    }

    /// Applies this input-reflection mode to a 16-bit step value.
    pub fn reflect16(&self, v: u16) -> (r: u16)
        ensures
            r == spec_input_reflect16(*self, v),
    {
        match self {
            BitReversal::Disabled => v,
            BitReversal::By8Bits => reflect8(v as u32) as u16,
            BitReversal::By16Bits | BitReversal::By32Bits => reflect16(v as u32) as u16,
        }
    }

    /// Applies this input-reflection mode to an 8-bit step value.
    pub fn reflect8(&self, v: u8) -> (r: u8)
        ensures
            r == spec_input_reflect8(*self, v),
    {
        match self {
            BitReversal::Disabled => v,
            BitReversal::By8Bits | BitReversal::By16Bits | BitReversal::By32Bits => reflect8(
                v as u32,
            ) as u8,
        }
    }
}

/// The bytes one step contributes to the digest: the step's value after input
/// reflection at the step's width, most-significant byte first.
pub open spec fn spec_step_bytes(mode: BitReversal, step: Step) -> Seq<u8> {
    match step {
        Step::Data8(v) => seq![spec_input_reflect8(mode, v)],
        Step::Data16(v) => {
            let w = spec_input_reflect16(mode, v);
            seq![(w >> 8) as u8, w as u8]
        },
        Step::Data32(v) => {
            let w = spec_input_reflect32(mode, v);
            seq![(w >> 24) as u8, (w >> 16) as u8, (w >> 8) as u8, w as u8]
        },
    }
}

/// The full byte sequence that an ordered sequence of steps contributes to
/// the digest.
pub open spec fn spec_serialize(mode: BitReversal, steps: Seq<Step>) -> Seq<u8>
    decreases steps.len(),
{
    if steps.len() == 0 {
        Seq::empty()
    } else {
        spec_serialize(mode, steps.drop_last()) + spec_step_bytes(mode, steps.last())
    }
}

/// What the software engine returns for a configuration and an ordered
/// sequence of steps: the canonical engine's value over the serialized,
/// input-reflected bytes, passed through the output-reflection transform if
/// that is enabled.
pub open spec fn spec_software_result(config: CrcConfig, steps: Seq<Step>) -> u32 {
    let raw = spec_crc_result(
        config.polynomial.spec_value(),
        config.polynomial.spec_bits(),
        config.initial_value,
        spec_serialize(config.reflect_input, steps),
    );
    if config.reflect_output {
        config.polynomial.spec_reflect_output(raw)
    } else {
        raw
    }
}

impl Polynomial {
    /// The output-reflection transform at this polynomial's width. A 7-bit
    /// result is reflected as if it were 8 bits wide and then shifted right
    /// by one bit to re-align the reflected value into the 7-bit field; the
    /// other widths reflect exactly at their own width.
    pub open spec fn spec_reflect_output(self, output: u32) -> u32 {
        match self {
            Polynomial::Crc7(_) => spec_reflect8(output) >> 1u32,
            Polynomial::Crc8(_) => spec_reflect8(output),
            Polynomial::Crc16(_) => spec_reflect16(output),
            Polynomial::Crc32(_) => spec_reflect32(output),
        }
    }

    /// Applies the output-reflection transform at this polynomial's width.
    pub fn reflect_output(&self, output: u32) -> (r: u32)
        ensures
            r == self.spec_reflect_output(output),
    {
        match self {
            Polynomial::Crc7(_) => reflect8(output) >> 1,
            Polynomial::Crc8(_) => reflect8(output),
            Polynomial::Crc16(_) => reflect16(output),
            Polynomial::Crc32(_) => reflect32(output),
        }
    }
}

impl CrcCalculation {
    /// Software reference engine. Pure: the result is a function of the
    /// configuration and the steps alone, so repeated runs on one calculation
    /// return the same value.
    pub fn run_software(&self) -> (r: u32)
        ensures
            r == spec_software_result(self.config, self.steps@),
    {
        let mut bytes: Vec<u8> = Vec::new();
        let mode = self.config.reflect_input;
        let n = self.steps.len();
        for i in 0..n
            invariant
                n == self.steps.len(),
                mode == self.config.reflect_input,
                bytes@ == spec_serialize(mode, self.steps@.take(i as int)),
        {
            match self.steps[i] {
                Step::Data8(v) => {
                    let w = mode.reflect8(v);
                    bytes.push(w);
                },
                Step::Data16(v) => {
                    let w = mode.reflect16(v);
                    bytes.push((w >> 8) as u8);
                    bytes.push(w as u8);
                },
                Step::Data32(v) => {
                    let w = mode.reflect32(v);
                    bytes.push((w >> 24) as u8);
                    bytes.push((w >> 16) as u8);
                    bytes.push((w >> 8) as u8);
                    bytes.push(w as u8);
                },
            }
            proof {
                assert(self.steps@.take(i as int + 1).drop_last() =~= self.steps@.take(i as int));
                assert(bytes@ =~= spec_serialize(mode, self.steps@.take(i as int + 1)));
            }
        }
        proof {
            assert(self.steps@.take(n as int) =~= self.steps@);
        }
        let raw = crc_u32_checksum(
            self.config.polynomial.value(),
            self.config.polynomial.bits(),
            self.config.initial_value,
            &bytes,
        );
        if self.config.reflect_output {
            self.config.polynomial.reflect_output(raw)
        } else {
            raw
        }
    }
}

proof fn lemma_serialize_push(mode: BitReversal, s: Seq<Step>, x: Step)
    ensures
        spec_serialize(mode, s.push(x)) == spec_serialize(mode, s) + spec_step_bytes(mode, x),
{
    assert(s.push(x).drop_last() =~= s);
    assert(s.push(x).last() == x);
}

proof fn lemma_serialize_singleton(mode: BitReversal, a: Step)
    ensures
        spec_serialize(mode, seq![a]) == spec_step_bytes(mode, a),
{
    let e = Seq::<Step>::empty();
    assert(seq![a] =~= e.push(a));
    lemma_serialize_push(mode, e, a);
    assert(spec_serialize(mode, e) == Seq::<u8>::empty());
    assert(Seq::<u8>::empty() + spec_step_bytes(mode, a) =~= spec_step_bytes(mode, a));
}

proof fn lemma_serialize_two(mode: BitReversal, a: Step, b: Step)
    ensures
        spec_serialize(mode, seq![a, b]) == spec_step_bytes(mode, a) + spec_step_bytes(mode, b),
{
    assert(seq![a, b] =~= seq![a].push(b));
    lemma_serialize_singleton(mode, a);
    lemma_serialize_push(mode, seq![a], b);
}

proof fn lemma_serialize_four(mode: BitReversal, a: Step, b: Step, c: Step, d: Step)
    ensures
        spec_serialize(mode, seq![a, b, c, d]) == spec_step_bytes(mode, a) + spec_step_bytes(
            mode,
            b,
        ) + spec_step_bytes(mode, c) + spec_step_bytes(mode, d),
{
    assert(seq![a, b, c] =~= seq![a, b].push(c));
    assert(seq![a, b, c, d] =~= seq![a, b, c].push(d));
    lemma_serialize_two(mode, a, b);
    lemma_serialize_push(mode, seq![a, b], c);
    lemma_serialize_push(mode, seq![a, b, c], d);
}

/// Law: one 32-bit step yields the same result as its two halfwords fed high
/// half first, and as its four bytes fed most-significant first, whenever the
/// input-reflection mode works within byte boundaries (`Disabled` or
/// `By8Bits`). The halfword and word modes reorder bytes across a step's full
/// width, so under those modes a narrower feed of the same word digests a
/// different byte sequence.
pub proof fn lemma_width_splitting(config: CrcConfig, v: u32)
    requires
        config.reflect_input == BitReversal::Disabled || config.reflect_input
            == BitReversal::By8Bits,
    ensures
        spec_software_result(config, seq![Step::Data32(v)]) == spec_software_result(
            config,
            seq![Step::Data16((v >> 16) as u16), Step::Data16(v as u16)],
        ),
        spec_software_result(config, seq![Step::Data32(v)]) == spec_software_result(
            config,
            seq![
                Step::Data8((v >> 24) as u8),
                Step::Data8((v >> 16) as u8),
                Step::Data8((v >> 8) as u8),
                Step::Data8(v as u8),
            ],
        ),
{
    let mode = config.reflect_input;
    match mode {
        BitReversal::Disabled => {
            assert(((v >> 16) as u16 >> 8) as u8 == (v >> 24) as u8) by (bit_vector);
            assert(((v >> 16) as u16) as u8 == (v >> 16) as u8) by (bit_vector);
            assert((v as u16 >> 8) as u8 == (v >> 8) as u8) by (bit_vector);
            assert((v as u16) as u8 == v as u8) by (bit_vector);
        },
        BitReversal::By8Bits => {
            assert((spec_reflect8(v) >> 24) as u8 == (spec_reflect8(
                ((v >> 16) as u16) as u32,
            ) as u16 >> 8) as u8) by (bit_vector);
            assert((spec_reflect8(v) >> 16) as u8 == (spec_reflect8(
                ((v >> 16) as u16) as u32,
            ) as u16) as u8) by (bit_vector);
            assert((spec_reflect8(v) >> 8) as u8 == (spec_reflect8((v as u16) as u32) as u16
                >> 8) as u8) by (bit_vector);
            assert(spec_reflect8(v) as u8 == (spec_reflect8((v as u16) as u32) as u16) as u8)
                by (bit_vector);
            assert((spec_reflect8(v) >> 24) as u8 == spec_reflect8(((v >> 24) as u8) as u32) as u8)
                by (bit_vector);
            assert((spec_reflect8(v) >> 16) as u8 == spec_reflect8(((v >> 16) as u8) as u32) as u8)
                by (bit_vector);
            assert((spec_reflect8(v) >> 8) as u8 == spec_reflect8(((v >> 8) as u8) as u32) as u8)
                by (bit_vector);
            assert(spec_reflect8(v) as u8 == spec_reflect8((v as u8) as u32) as u8)
                by (bit_vector);
        },
        BitReversal::By16Bits => {
        },
        BitReversal::By32Bits => {
        },
    }
    lemma_serialize_singleton(mode, Step::Data32(v));
    lemma_serialize_two(mode, Step::Data16((v >> 16) as u16), Step::Data16(v as u16));
    lemma_serialize_four(
        mode,
        Step::Data8((v >> 24) as u8),
        Step::Data8((v >> 16) as u8),
        Step::Data8((v >> 8) as u8),
        Step::Data8(v as u8),
    );
    assert(spec_serialize(mode, seq![Step::Data32(v)]) =~= spec_serialize(
        mode,
        seq![Step::Data16((v >> 16) as u16), Step::Data16(v as u16)],
    ));
    assert(spec_serialize(mode, seq![Step::Data32(v)]) =~= spec_serialize(
        mode,
        seq![
            Step::Data8((v >> 24) as u8),
            Step::Data8((v >> 16) as u8),
            Step::Data8((v >> 8) as u8),
            Step::Data8(v as u8),
        ],
    ));
}

/// Law: with an empty step sequence the result is the initial value, passed
/// through the output-reflection transform if that is enabled. It holds for
/// every initial value that fits within the polynomial's width; a wider
/// initial value is masked down to the width by the engine's read-back.
pub proof fn lemma_empty_input(config: CrcConfig)
    requires
        config.initial_value & spec_mask(config.polynomial.spec_bits()) == config.initial_value,
    ensures
        spec_software_result(config, Seq::<Step>::empty()) == if config.reflect_output {
            config.polynomial.spec_reflect_output(config.initial_value)
        } else {
            config.initial_value
        },
{
}

} // verus!
