use crc_check::matrix::{
    bit_reversals, enumerate_cases, evaluate_case, initial_values, polynomials, step_sequence,
    steps, summary_status, to_enabled_disabled, TestTally,
};
use crc_check::model::{BitReversal, CrcCalculation, CrcConfig, Polynomial, Step};
use crc_check::reflect::{reflect16, reflect32, reflect8};

fn config(
    reflect_input: BitReversal,
    reflect_output: bool,
    initial_value: u32,
    polynomial: Polynomial,
) -> CrcConfig {
    CrcConfig { reflect_input, reflect_output, initial_value, polynomial }
}

fn run(cfg: CrcConfig, steps: Vec<Step>) -> u32 {
    CrcCalculation { config: cfg, steps }.run_software()
}

#[test]
fn reflect8_concrete() {
    assert_eq!(reflect8(0x00000001), 0x00000080);
    assert_eq!(reflect8(0x12345678), 0x482C6A1E);
    assert_eq!(reflect8(0xFF000000), 0xFF000000);
}

#[test]
fn reflect16_concrete() {
    assert_eq!(reflect16(0x00000001), 0x00008000);
    assert_eq!(reflect16(0x0000AABB), 0x0000DD55);
}

#[test]
fn reflect32_concrete() {
    assert_eq!(reflect32(0x00000001), 0x80000000);
    assert_eq!(reflect32(0x80000000), 0x00000001);
}

#[test]
fn reflect_involutions_concrete() {
    for v in [0x00000000u32, 0xFFFFFFFF, 0x12345678, 0xDEADBEEF, 0x00000001] {
        assert_eq!(reflect8(reflect8(v)), v);
        assert_eq!(reflect16(reflect16(v)), v);
        assert_eq!(reflect32(reflect32(v)), v);
    }
}

#[test]
fn crc7_output_reflect_is_not_an_involution() {
    let p = Polynomial::Crc7(0x9);
    let once = p.reflect_output(0xFF);
    assert_eq!(once, 0x7F);
    let twice = p.reflect_output(once);
    assert_eq!(twice, 0x7F);
    assert_ne!(twice, 0xFF);
}

#[test]
fn output_reflect_at_each_width() {
    assert_eq!(Polynomial::Crc8(0x07).reflect_output(0xAB), 0xD5);
    assert_eq!(Polynomial::Crc16(0x8005).reflect_output(0x8005), 0xA001);
    assert_eq!(Polynomial::Crc32(0x04C11DB7).reflect_output(0x00000001), 0x80000000);
}

#[test]
fn input_reflection_methods() {
    assert_eq!(BitReversal::Disabled.reflect8(0x42), 0x42);
    assert_eq!(BitReversal::By8Bits.reflect8(0x01), 0x80);
    assert_eq!(BitReversal::By16Bits.reflect8(0x01), 0x80);
    assert_eq!(BitReversal::Disabled.reflect16(0xAABB), 0xAABB);
    assert_eq!(BitReversal::By8Bits.reflect16(0xAABB), 0x55DD);
    assert_eq!(BitReversal::By16Bits.reflect16(0x0001), 0x8000);
    assert_eq!(BitReversal::By32Bits.reflect16(0x0001), 0x8000);
    assert_eq!(BitReversal::Disabled.reflect32(0xAABBCCDD), 0xAABBCCDD);
    assert_eq!(BitReversal::By8Bits.reflect32(0xAABBCCDD), 0x55DD33BB);
    assert_eq!(BitReversal::By16Bits.reflect32(0x00010001), 0x80008000);
    assert_eq!(BitReversal::By32Bits.reflect32(0x00000001), 0x80000000);
}

#[test]
fn polynomial_getters() {
    let p7 = Polynomial::Crc7(0x9);
    assert_eq!(p7.bits(), 7);
    assert_eq!(p7.value(), 0x9);
    assert_eq!(p7.poly_size(), 3);
    let p8 = Polynomial::Crc8(0x7);
    assert_eq!(p8.bits(), 8);
    assert_eq!(p8.value(), 0x7);
    assert_eq!(p8.poly_size(), 2);
    let p16 = Polynomial::Crc16(0x8005);
    assert_eq!(p16.bits(), 16);
    assert_eq!(p16.value(), 0x8005);
    assert_eq!(p16.poly_size(), 1);
    let p32 = Polynomial::Crc32(0x04C11DB7);
    assert_eq!(p32.bits(), 32);
    assert_eq!(p32.value(), 0x04C11DB7);
    assert_eq!(p32.poly_size(), 0);
}

#[test]
fn concrete_vector_crc8_single_byte() {
    let cfg = config(BitReversal::Disabled, false, 0x00000000, Polynomial::Crc8(0x07));
    assert_eq!(run(cfg, vec![Step::Data8(0x42)]), 0xC9);
}

#[test]
fn concrete_vector_crc32_mpeg2_style() {
    // Polynomial 0x04C11DB7, initial value 0xFFFFFFFF, no reflection:
    // the catalogue check value of the nine ASCII digits "123456789".
    let cfg = config(BitReversal::Disabled, false, 0xFFFFFFFF, Polynomial::Crc32(0x04C11DB7));
    let data: Vec<Step> = b"123456789".iter().map(|&b| Step::Data8(b)).collect();
    assert_eq!(run(cfg, data), 0x0376E6E7);
}

#[test]
fn software_engine_is_pure() {
    let cfg = config(BitReversal::By16Bits, true, 0xFFFFFFFF, Polynomial::Crc16(0x8005));
    let calc = CrcCalculation {
        config: cfg,
        steps: vec![Step::Data16(0x4232), Step::Data16(0x68A4)],
    };
    let first = calc.run_software();
    for _ in 0..4 {
        assert_eq!(calc.run_software(), first);
    }
}

#[test]
fn empty_input_yields_initial_value() {
    let cfg = config(BitReversal::By32Bits, false, 0xAB, Polynomial::Crc8(0x07));
    assert_eq!(run(cfg, vec![]), 0xAB);
    let cfg = config(BitReversal::Disabled, true, 0xAB, Polynomial::Crc8(0x07));
    assert_eq!(run(cfg, vec![]), 0xD5);
    let cfg = config(BitReversal::Disabled, false, 0x00000000, Polynomial::Crc32(0x04C11DB7));
    assert_eq!(run(cfg, vec![]), 0x00000000);
}

#[test]
fn empty_input_masks_wide_initial_values() {
    // An initial value wider than the polynomial is masked down to the width.
    let cfg = config(BitReversal::Disabled, false, 0xFFFFFFFF, Polynomial::Crc7(0x9));
    assert_eq!(run(cfg, vec![]), 0x7F);
    let cfg = config(BitReversal::Disabled, false, 0xFFFFFFFF, Polynomial::Crc16(0x8005));
    assert_eq!(run(cfg, vec![]), 0xFFFF);
}

#[test]
fn width_splitting_no_reflection() {
    let cfg = config(BitReversal::Disabled, false, 0x00000000, Polynomial::Crc16(0x8005));
    let whole = run(cfg.clone(), vec![Step::Data32(0xAABBCCDD)]);
    let halves = run(cfg.clone(), vec![Step::Data16(0xAABB), Step::Data16(0xCCDD)]);
    let bytes = run(
        cfg,
        vec![Step::Data8(0xAA), Step::Data8(0xBB), Step::Data8(0xCC), Step::Data8(0xDD)],
    );
    assert_eq!(whole, halves);
    assert_eq!(whole, bytes);
}

#[test]
fn width_splitting_byte_reflection() {
    let cfg = config(BitReversal::By8Bits, true, 0xFFFFFFFF, Polynomial::Crc32(0x1EDC6F41));
    let whole = run(cfg.clone(), vec![Step::Data32(0xAABBCCDD)]);
    let halves = run(cfg.clone(), vec![Step::Data16(0xAABB), Step::Data16(0xCCDD)]);
    let bytes = run(
        cfg,
        vec![Step::Data8(0xAA), Step::Data8(0xBB), Step::Data8(0xCC), Step::Data8(0xDD)],
    );
    assert_eq!(whole, halves);
    assert_eq!(whole, bytes);
}

#[test]
fn matrix_lists() {
    assert_eq!(polynomials().len(), 5);
    assert_eq!(polynomials()[0], Polynomial::Crc7(0x9));
    assert_eq!(polynomials()[4], Polynomial::Crc32(0x04C11DB7));
    assert_eq!(
        bit_reversals(),
        vec![
            BitReversal::Disabled,
            BitReversal::By8Bits,
            BitReversal::By16Bits,
            BitReversal::By32Bits,
        ]
    );
    assert_eq!(initial_values(), vec![0x00000000, 0xFFFFFFFF, 0x000000FF]);
    let sequences = steps();
    assert_eq!(sequences.len(), 7);
    assert_eq!(sequences[0], vec![]);
    assert_eq!(sequences[3].len(), 4);
    assert_eq!(step_sequence(5), vec![Step::Data32(0x423268A4)]);
}

#[test]
fn enumeration_order() {
    let cases = enumerate_cases();
    assert_eq!(cases.len(), 840);
    let first = &cases[0];
    assert_eq!(first.config.polynomial, Polynomial::Crc7(0x9));
    assert_eq!(first.config.reflect_input, BitReversal::Disabled);
    assert!(!first.config.reflect_output);
    assert_eq!(first.config.initial_value, 0x00000000);
    assert!(first.steps.is_empty());
    // Innermost dimension steps first, then initial value, output flag,
    // input-reflection mode, and polynomial outermost.
    assert_eq!(cases[1].steps, vec![Step::Data8(0x42)]);
    assert_eq!(cases[7].config.initial_value, 0xFFFFFFFF);
    assert!(cases[21].config.reflect_output);
    assert_eq!(cases[42].config.reflect_input, BitReversal::By8Bits);
    assert_eq!(cases[168].config.polynomial, Polynomial::Crc8(0x7));
    let last = &cases[839];
    assert_eq!(last.config.polynomial, Polynomial::Crc32(0x04C11DB7));
    assert_eq!(last.config.reflect_input, BitReversal::By32Bits);
    assert!(last.config.reflect_output);
    assert_eq!(last.config.initial_value, 0x000000FF);
    assert_eq!(last.steps.len(), 2);
}

#[test]
fn evaluate_case_compares_exactly() {
    let calc = CrcCalculation {
        config: config(BitReversal::Disabled, false, 0x00000000, Polynomial::Crc8(0x07)),
        steps: vec![Step::Data8(0x42)],
    };
    assert!(evaluate_case(&calc, 0xC9));
    assert!(!evaluate_case(&calc, 0xC8));
}

#[test]
fn tally_counts_outcomes() {
    let mut tally = TestTally::new();
    assert_eq!(tally.passed, 0);
    assert_eq!(tally.failed, 0);
    assert!(tally.is_ok());
    tally.record(true);
    tally.record(false);
    tally.record(true);
    assert_eq!(tally.passed, 2);
    assert_eq!(tally.failed, 1);
    assert!(!tally.is_ok());
    assert_eq!(summary_status(tally.failed), "FAILED");
}

#[test]
fn full_matrix_against_correct_adapter() {
    // With a correct adapter every enumerated case passes: here the software
    // engine itself stands in for the hardware.
    let mut tally = TestTally::new();
    for case in enumerate_cases() {
        let hardware_result = case.run_software();
        let pass = evaluate_case(&case, hardware_result);
        tally.record(pass);
    }
    assert_eq!(tally.passed, 840);
    assert_eq!(tally.failed, 0);
    assert!(tally.is_ok());
    assert_eq!(summary_status(tally.failed), "ok");
}

#[test]
fn report_labels() {
    assert_eq!(Polynomial::Crc7(0x9).label(), "Crc7");
    assert_eq!(Polynomial::Crc8(0x7).label(), "Crc8");
    assert_eq!(Polynomial::Crc16(0x8005).label(), "Crc16");
    assert_eq!(Polynomial::Crc32(0x04C11DB7).label(), "Crc32");
    assert_eq!(BitReversal::Disabled.label(), "Disabled");
    assert_eq!(BitReversal::By32Bits.label(), "By32Bits");
    assert_eq!(to_enabled_disabled(true), "Enabled");
    assert_eq!(to_enabled_disabled(false), "Disabled");
    assert_eq!(summary_status(0), "ok");
    assert_eq!(summary_status(3), "FAILED");
}
