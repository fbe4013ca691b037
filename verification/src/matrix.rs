//! Validation matrix: the finite cross-product of polynomials,
//! input-reflection modes, output-reflection flags, initial values and step
//! sequences, enumerated in a fixed nested order; the per-case comparison of
//! a hardware result against the software engine; and the running pass/fail
//! tally that the summary record is built from.

use vstd::arithmetic::div_mod::lemma_fundamental_div_mod_converse;
use vstd::prelude::*;

use crate::engine::spec_software_result;
use crate::model::{BitReversal, CrcCalculation, CrcConfig, Polynomial, Step};

verus! {

/// The polynomials of the validation matrix, in enumeration order.
pub open spec fn spec_polynomials() -> Seq<Polynomial> {
    seq![
        Polynomial::Crc7(0x9),
        Polynomial::Crc8(0x7),
        Polynomial::Crc16(0x8005),
        Polynomial::Crc32(0x1EDC6F41),
        Polynomial::Crc32(0x04C11DB7),
    ]
}

/// The input-reflection modes, in enumeration (declaration) order.
pub open spec fn spec_bit_reversals() -> Seq<BitReversal> {
    seq![
        BitReversal::Disabled,
        BitReversal::By8Bits,
        BitReversal::By16Bits,
        BitReversal::By32Bits,
    ]
}

/// The initial values of the validation matrix, in enumeration order.
pub open spec fn spec_initial_values() -> Seq<u32> {
    seq![0x0000_0000u32, 0xFFFF_FFFFu32, 0x0000_00FFu32]
}

/// The step sequences of the validation matrix, in enumeration order: empty
/// input, single steps of each width, and the same four bytes fed as bytes,
/// halfwords and one word, plus a two-word sequence.
pub open spec fn spec_step_sequences() -> Seq<Seq<Step>> {
    seq![
        Seq::<Step>::empty(),
        seq![Step::Data8(0x42)],
        seq![Step::Data16(0x4232)],
        seq![Step::Data8(0x42), Step::Data8(0x32), Step::Data8(0x68), Step::Data8(0xA4)],
        seq![Step::Data16(0x4232), Step::Data16(0x68A4)],
        seq![Step::Data32(0x423268A4)],
        seq![Step::Data32(0x423268A4), Step::Data32(0xAD91FE38)],
    ]
}

/// The polynomials under test.
pub fn polynomials() -> (r: Vec<Polynomial>)
    ensures
        r@ == spec_polynomials(),
{
    let mut v: Vec<Polynomial> = Vec::new();
    v.push(Polynomial::Crc7(0x9));
    v.push(Polynomial::Crc8(0x7));
    v.push(Polynomial::Crc16(0x8005));
    v.push(Polynomial::Crc32(0x1EDC6F41));
    v.push(Polynomial::Crc32(0x04C11DB7));
    proof {
        assert(v@ =~= spec_polynomials());
    }
    v
}

/// All input-reflection modes, in enumeration order.
pub fn bit_reversals() -> (r: Vec<BitReversal>)
    ensures
        r@ == spec_bit_reversals(),
{
    let mut v: Vec<BitReversal> = Vec::new();
    v.push(BitReversal::Disabled);
    v.push(BitReversal::By8Bits);
    v.push(BitReversal::By16Bits);
    v.push(BitReversal::By32Bits);
    proof {
        assert(v@ =~= spec_bit_reversals());
    }
    v
}

/// The initial values under test.
pub fn initial_values() -> (r: Vec<u32>)
    ensures
        r@ == spec_initial_values(),
{
    let mut v: Vec<u32> = Vec::new();
    v.push(0x0000_0000);
    v.push(0xFFFF_FFFF);
    v.push(0x0000_00FF);
    proof {
        assert(v@ =~= spec_initial_values());
    }
    v
}

/// Builds the step sequence at one position of the enumeration.
pub fn step_sequence(index: usize) -> (r: Vec<Step>)
    requires
        index < 7,
    ensures
        r@ == spec_step_sequences()[index as int],
{
    let mut v: Vec<Step> = Vec::new();
    if index == 1 {
        v.push(Step::Data8(0x42));
    } else if index == 2 {
        v.push(Step::Data16(0x4232));
    } else if index == 3 {
        v.push(Step::Data8(0x42));
        v.push(Step::Data8(0x32));
        v.push(Step::Data8(0x68));
        v.push(Step::Data8(0xA4));
    } else if index == 4 {
        v.push(Step::Data16(0x4232));
        v.push(Step::Data16(0x68A4));
    } else if index == 5 {
        v.push(Step::Data32(0x423268A4));
    } else if index == 6 {
        v.push(Step::Data32(0x423268A4));
        v.push(Step::Data32(0xAD91FE38));
    }
    proof {
        assert(v@ =~= spec_step_sequences()[index as int]);
    }
    v
}

/// All step sequences under test, in enumeration order.
pub fn steps() -> (r: Vec<Vec<Step>>)
    ensures
        r@.len() == spec_step_sequences().len(),
        forall|i: int|
            0 <= i < r@.len() ==> (#[trigger] r@[i])@ == spec_step_sequences()[i],
{
    let mut v: Vec<Vec<Step>> = Vec::new();
    let mut i: usize = 0;
    while i < 7
        invariant
            i <= 7,
            v@.len() == i as int,
            forall|j: int| 0 <= j < i as int ==> (#[trigger] v@[j])@ == spec_step_sequences()[j],
        decreases 7 - i,
    {
        v.push(step_sequence(i));
        i = i + 1;
    }
    v
}

/// Law: every polynomial of the validation matrix is well formed — each
/// coefficient fits within its declared width class.
pub proof fn lemma_matrix_polynomials_wf()
    ensures
        forall|i: int|
            0 <= i < spec_polynomials().len() ==> (#[trigger] spec_polynomials()[i]).wf(),
{
}

/// The configuration of the validation case at position `j` of the fixed
/// enumeration order: polynomial outermost, then input-reflection mode, then
/// output-reflection flag, then initial value, then step sequence.
pub open spec fn spec_case_config(j: int) -> CrcConfig {
    CrcConfig {
        reflect_input: spec_bit_reversals()[(j % 168) / 42],
        reflect_output: ((j % 168) % 42) / 21 == 1,
        initial_value: spec_initial_values()[(((j % 168) % 42) % 21) / 7],
        polynomial: spec_polynomials()[j / 168],
    }
}

/// The step sequence of the validation case at position `j`.
pub open spec fn spec_case_steps(j: int) -> Seq<Step> {
    spec_step_sequences()[(((j % 168) % 42) % 21) % 7]
}

proof fn lemma_case_index(p: int, r: int, o: int, vi: int, s: int)
    requires
        0 <= p < 5,
        0 <= r < 4,
        0 <= o < 2,
        0 <= vi < 3,
        0 <= s < 7,
    ensures
        ({
            let j = p * 168 + r * 42 + o * 21 + vi * 7 + s;
            j / 168 == p && (j % 168) / 42 == r && ((j % 168) % 42) / 21 == o && (((j % 168) % 42)
                % 21) / 7 == vi && (((j % 168) % 42) % 21) % 7 == s
        }),
{
    let j = p * 168 + r * 42 + o * 21 + vi * 7 + s;
    let t1 = r * 42 + o * 21 + vi * 7 + s;
    let t2 = o * 21 + vi * 7 + s;
    let t3 = vi * 7 + s;
    lemma_fundamental_div_mod_converse(j, 168, p, t1);
    lemma_fundamental_div_mod_converse(t1, 42, r, t2);
    lemma_fundamental_div_mod_converse(t2, 21, o, t3);
    lemma_fundamental_div_mod_converse(t3, 7, vi, s);
}

/// Enumerates the full validation matrix, in the fixed nested order that the
/// report follows: 5 polynomials x 4 input-reflection modes x 2
/// output-reflection flags x 3 initial values x 7 step sequences, 840 cases.
pub fn enumerate_cases() -> (cases: Vec<CrcCalculation>)
    ensures
        cases@.len() == 840,
        forall|j: int|
            0 <= j < 840 ==> (#[trigger] cases@[j]).config == spec_case_config(j)
                && cases@[j].steps@ == spec_case_steps(j),
{
    let polys = polynomials();
    let reversals = bit_reversals();
    let inits = initial_values();
    let mut cases: Vec<CrcCalculation> = Vec::new();
    let mut p: usize = 0;
    while p < 5
        invariant
            p <= 5,
            polys@ == spec_polynomials(),
            reversals@ == spec_bit_reversals(),
            inits@ == spec_initial_values(),
            cases@.len() == p * 168,
            forall|j: int|
                0 <= j < cases@.len() ==> (#[trigger] cases@[j]).config == spec_case_config(j)
                    && cases@[j].steps@ == spec_case_steps(j),
        decreases 5 - p,
    {
        let mut r: usize = 0;
        while r < 4
            invariant
                p < 5,
                r <= 4,
                polys@ == spec_polynomials(),
                reversals@ == spec_bit_reversals(),
                inits@ == spec_initial_values(),
                cases@.len() == p * 168 + r * 42,
                forall|j: int|
                    0 <= j < cases@.len() ==> (#[trigger] cases@[j]).config == spec_case_config(j)
                        && cases@[j].steps@ == spec_case_steps(j),
            decreases 4 - r,
        {
            let mut o: usize = 0;
            while o < 2
                invariant
                    p < 5,
                    r < 4,
                    o <= 2,
                    polys@ == spec_polynomials(),
                    reversals@ == spec_bit_reversals(),
                    inits@ == spec_initial_values(),
                    cases@.len() == p * 168 + r * 42 + o * 21,
                    forall|j: int|
                        0 <= j < cases@.len() ==> (#[trigger] cases@[j]).config
                            == spec_case_config(j) && cases@[j].steps@ == spec_case_steps(j),
                decreases 2 - o,
            {
                let mut vi: usize = 0;
                while vi < 3
                    invariant
                        p < 5,
                        r < 4,
                        o < 2,
                        vi <= 3,
                        polys@ == spec_polynomials(),
                        reversals@ == spec_bit_reversals(),
                        inits@ == spec_initial_values(),
                        cases@.len() == p * 168 + r * 42 + o * 21 + vi * 7,
                        forall|j: int|
                            0 <= j < cases@.len() ==> (#[trigger] cases@[j]).config
                                == spec_case_config(j) && cases@[j].steps@ == spec_case_steps(j),
                    decreases 3 - vi,
                {
                    let mut s: usize = 0;
                    while s < 7
                        invariant
                            p < 5,
                            r < 4,
                            o < 2,
                            vi < 3,
                            s <= 7,
                            polys@ == spec_polynomials(),
                            reversals@ == spec_bit_reversals(),
                            inits@ == spec_initial_values(),
                            cases@.len() == p * 168 + r * 42 + o * 21 + vi * 7 + s,
                            forall|j: int|
                                0 <= j < cases@.len() ==> (#[trigger] cases@[j]).config
                                    == spec_case_config(j) && cases@[j].steps@ == spec_case_steps(
                                    j,
                                ),
                        decreases 7 - s,
                    {
                        let calculation = CrcCalculation {
                            config: CrcConfig {
                                reflect_input: reversals[r],
                                reflect_output: o == 1,
                                initial_value: inits[vi],
                                polynomial: polys[p],
                            },
                            steps: step_sequence(s),
                        };
                        proof {
                            lemma_case_index(p as int, r as int, o as int, vi as int, s as int);
                        }
                        cases.push(calculation);
                        s = s + 1;
                    }
                    vi = vi + 1;
                }
                o = o + 1;
            }
            r = r + 1;
        }
        p = p + 1;
    }
    cases
}

/// Compares one hardware result against the software reference for the same
/// calculation: the case passes exactly when the two results are equal.
pub fn evaluate_case(calculation: &CrcCalculation, hardware_result: u32) -> (pass: bool)
    ensures
        pass == (hardware_result == spec_software_result(calculation.config, calculation.steps@)),
{
    let expected = calculation.run_software();
    hardware_result == expected
}

/// How many outcomes of the sequence passed.
pub open spec fn spec_passed_count(outcomes: Seq<bool>) -> int
    decreases outcomes.len(),
{
    if outcomes.len() == 0 {
        0
    } else {
        spec_passed_count(outcomes.drop_last()) + if outcomes.last() {
            1int
        } else {
            0int
        }
    }
}

/// How many outcomes of the sequence failed.
pub open spec fn spec_failed_count(outcomes: Seq<bool>) -> int
    decreases outcomes.len(),
{
    if outcomes.len() == 0 {
        0
    } else {
        spec_failed_count(outcomes.drop_last()) + if outcomes.last() {
            0int
        } else {
            1int
        }
    }
}

/// Running pass/fail counters of a validation run. The sequence of recorded
/// outcomes rides along as a ghost companion, so that the counters are pinned
/// to it.
pub struct TestTally {
    pub passed: u32,
    pub failed: u32,
    pub outcomes: Ghost<Seq<bool>>,
}

impl TestTally {
    /// The counters agree with the recorded outcome sequence.
    pub open spec fn wf(self) -> bool {
        self.passed == spec_passed_count(self.outcomes@) && self.failed == spec_failed_count(
            self.outcomes@,
        )
    }

    /// A fresh tally with nothing recorded.
    pub fn new() -> (r: TestTally)
        ensures
            r.wf(),
            r.outcomes@ == Seq::<bool>::empty(),
            r.passed == 0,
            r.failed == 0,
    {
        TestTally { passed: 0, failed: 0, outcomes: Ghost(Seq::empty()) }
    }

    /// Records one case outcome, stepping the matching counter.
    pub fn record(&mut self, pass: bool)
        requires
            old(self).wf(),
            old(self).passed < 0xFFFF_FFFFu32,
            old(self).failed < 0xFFFF_FFFFu32,
        ensures
            final(self).wf(),
            final(self).outcomes@ == old(self).outcomes@.push(pass),
            pass ==> final(self).passed == old(self).passed + 1 && final(self).failed == old(
                self,
            ).failed,
            !pass ==> final(self).failed == old(self).failed + 1 && final(self).passed == old(
                self,
            ).passed,
    {
        if pass {
            self.passed = self.passed + 1;
        } else {
            self.failed = self.failed + 1;
        }
        self.outcomes = Ghost(self.outcomes@.push(pass));
        proof {
            assert(self.outcomes@.drop_last() =~= old(self).outcomes@);
        }
    }

    /// True exactly when no recorded case failed.
    pub fn is_ok(&self) -> (r: bool)
        ensures
            r == (self.failed == 0),
    {
        self.failed == 0
    }
}

/// Law: a run in which every recorded outcome passed counts every case as
/// passed and none as failed.
pub proof fn lemma_all_pass(outcomes: Seq<bool>)
    requires
        forall|i: int| 0 <= i < outcomes.len() ==> outcomes[i],
    ensures
        spec_passed_count(outcomes) == outcomes.len(),
        spec_failed_count(outcomes) == 0,
    decreases outcomes.len(),
{
    if outcomes.len() > 0 {
        assert(forall|i: int|
            0 <= i < outcomes.drop_last().len() ==> #[trigger] outcomes.drop_last()[i]);
        lemma_all_pass(outcomes.drop_last());
    }
}

/// The outcome of each case when hardware result `hardware[i]` is compared
/// against the software engine on `cases[i]`.
pub open spec fn spec_outcomes(cases: Seq<CrcCalculation>, hardware: Seq<u32>) -> Seq<bool> {
    Seq::new(
        cases.len(),
        |i: int| hardware[i] == spec_software_result(cases[i].config, cases[i].steps@),
    )
}

/// Law: against a correct hardware adapter — one whose result equals the
/// software engine's on every enumerated case — a full run counts every case
/// as passed and none as failed, so the summary reports "ok".
pub proof fn lemma_matrix_acceptance(cases: Seq<CrcCalculation>, hardware: Seq<u32>)
    requires
        hardware.len() == cases.len(),
        forall|i: int|
            0 <= i < cases.len() ==> hardware[i] == spec_software_result(
                (#[trigger] cases[i]).config,
                cases[i].steps@,
            ),
    ensures
        spec_passed_count(spec_outcomes(cases, hardware)) == cases.len(),
        spec_failed_count(spec_outcomes(cases, hardware)) == 0,
{
    let outcomes = spec_outcomes(cases, hardware);
    assert(forall|i: int| 0 <= i < outcomes.len() ==> #[trigger] outcomes[i]);
    lemma_all_pass(outcomes);
}

impl Polynomial {
    /// Width-class label of a report row.
    pub fn label(&self) -> (r: &'static str)
        ensures
            self is Crc7 ==> r@ == "Crc7"@,
            self is Crc8 ==> r@ == "Crc8"@,
            self is Crc16 ==> r@ == "Crc16"@,
            self is Crc32 ==> r@ == "Crc32"@,
    {
        match self {
            Polynomial::Crc7(_) => "Crc7",
            Polynomial::Crc8(_) => "Crc8",
            Polynomial::Crc16(_) => "Crc16",
            Polynomial::Crc32(_) => "Crc32",
        }
    }
}

impl BitReversal {
    /// Input-reflection label of a report row.
    pub fn label(&self) -> (r: &'static str)
        ensures
            *self is Disabled ==> r@ == "Disabled"@,
            *self is By8Bits ==> r@ == "By8Bits"@,
            *self is By16Bits ==> r@ == "By16Bits"@,
            *self is By32Bits ==> r@ == "By32Bits"@,
    {
        match self {
            BitReversal::Disabled => "Disabled",
            BitReversal::By8Bits => "By8Bits",
            BitReversal::By16Bits => "By16Bits",
            BitReversal::By32Bits => "By32Bits",
        }
    }
}

/// Output-reflection label of a report row.
pub fn to_enabled_disabled(v: bool) -> (r: &'static str)
    ensures
        v ==> r@ == "Enabled"@,
        !v ==> r@ == "Disabled"@,
{
    if v {
        "Enabled"
    } else {
        "Disabled"
    }
}

/// Overall status word of the summary record: "ok" exactly when no case
/// failed.
pub fn summary_status(failed: u32) -> (r: &'static str)
    ensures
        failed == 0 ==> r@ == "ok"@,
        failed != 0 ==> r@ == "FAILED"@,
{
    if failed == 0 {
        "ok"
    } else {
        "FAILED"
    }
}

} // verus!

