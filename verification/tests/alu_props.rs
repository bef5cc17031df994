//! Exhaustive checks of the add-with-carry core: the add/subtract
//! round-trip duality and the flag outputs, over every 8-bit input.

use mos6502::alu::{adc, sbc};

#[test]
fn adc_flags_match_reference_over_all_inputs() {
    for a in 0..=255u8 {
        for b in 0..=255u8 {
            for cin in [false, true] {
                let (r, carry, over) = adc(a, b, cin);
                let sum = a as u32 + b as u32 + cin as u32;
                assert_eq!(r as u32, sum % 256);
                assert_eq!(carry, sum > 255);
                let ssum = (a as i8) as i32 + (b as i8) as i32 + cin as i32;
                assert_eq!(over, ssum < -128 || ssum > 127);
            }
        }
    }
}

#[test]
fn sbc_subtracts_with_borrow_over_all_inputs() {
    for a in 0..=255u8 {
        for b in 0..=255u8 {
            for cin in [false, true] {
                let (r, carry, _) = sbc(a, b, cin);
                let diff = a as i32 - b as i32 - (1 - cin as i32);
                assert_eq!(r as i32, diff.rem_euclid(256));
                assert_eq!(carry, diff >= 0);
            }
        }
    }
}

#[test]
fn adc_then_sbc_round_trip_when_carry_flips() {
    // The duality holds exactly when the carry-out is the complement of
    // the carry-in; when it repeats the carry-in the round trip lands
    // one off. a=1, b=1, carry-in clear is such an off-by-one input.
    for a in 0..=255u8 {
        for b in 0..=255u8 {
            for cin in [false, true] {
                let (r, cout, _) = adc(a, b, cin);
                let (back, _, _) = sbc(r, b, cout);
                if cout != cin {
                    assert_eq!(back, a);
                } else if cin {
                    assert_eq!(back, a.wrapping_add(1));
                } else {
                    assert_eq!(back, a.wrapping_sub(1));
                }
            }
        }
    }
    let (r, cout, _) = adc(1, 1, false);
    assert_eq!((r, cout), (2, false));
    assert_eq!(sbc(2, 1, false).0, 0);
}
