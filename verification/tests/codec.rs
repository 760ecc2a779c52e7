use hydro_sense::ads1115::DataRate;
use hydro_sense::ads1115::Mode;
use hydro_sense::ads1115::Mux;
use hydro_sense::ads1115::Pga;
use hydro_sense::ads1115::decode_config;
use hydro_sense::ads1115::encode_config;
use hydro_sense::ads1115::pga_to_microvolts;

const ALL_MUX: [Mux; 4] = [Mux::Ain0Gnd, Mux::Ain1Gnd, Mux::Ain2Gnd, Mux::Ain3Gnd];
const ALL_PGA: [Pga; 6] = [
    Pga::Gain6_144V,
    Pga::Gain4_096V,
    Pga::Gain2_048V,
    Pga::Gain1_024V,
    Pga::Gain0_512V,
    Pga::Gain0_256V,
];
const ALL_MODE: [Mode; 2] = [Mode::Continuous, Mode::SingleShot];
const ALL_RATE: [DataRate; 8] = [
    DataRate::Sps8,
    DataRate::Sps16,
    DataRate::Sps32,
    DataRate::Sps64,
    DataRate::Sps128,
    DataRate::Sps250,
    DataRate::Sps475,
    DataRate::Sps860,
];

#[test]
fn test_gain_fullscale_exact_constants() {
    assert_eq!(pga_to_microvolts(Pga::Gain6_144V), 6_144_000);
    assert_eq!(pga_to_microvolts(Pga::Gain4_096V), 4_096_000);
    assert_eq!(pga_to_microvolts(Pga::Gain2_048V), 2_048_000);
    assert_eq!(pga_to_microvolts(Pga::Gain1_024V), 1_024_000);
    assert_eq!(pga_to_microvolts(Pga::Gain0_512V), 512_000);
    assert_eq!(pga_to_microvolts(Pga::Gain0_256V), 256_000);
    // As volts, within floating-point tolerance of the documented constants.
    let volts: [f32; 6] = [6.144, 4.096, 2.048, 1.024, 0.512, 0.256];
    for (i, pga) in ALL_PGA.iter().enumerate() {
        let uv = pga_to_microvolts(*pga) as f32 / 1.0e6;
        assert!((uv - volts[i]).abs() < 1.0e-6);
    }
}

#[test]
fn test_gain_fullscale_injective() {
    for a in ALL_PGA.iter() {
        for b in ALL_PGA.iter() {
            if a != b {
                assert_ne!(pga_to_microvolts(*a), pga_to_microvolts(*b));
            }
        }
    }
}

#[test]
fn test_encode_default_config_bytes() {
    // Channel 0, full-scale 6.144 V, single-shot, 128 SPS: the start flag,
    // channel pattern 0b100, gain pattern 0b000, mode bit 1; rate pattern
    // 0b100 and the comparator disabled.
    let (msb, lsb) = encode_config(Mux::Ain0Gnd, Pga::Gain6_144V, Mode::SingleShot, DataRate::Sps128);
    assert_eq!(msb, 0b1100_0001);
    assert_eq!(lsb, 0b1000_0011);
}

#[test]
fn test_encode_each_field_position() {
    // Every bit of each field lands in its documented position.
    let (msb, lsb) = encode_config(Mux::Ain3Gnd, Pga::Gain0_256V, Mode::Continuous, DataRate::Sps860);
    assert_eq!(msb, 0b1111_1010);
    assert_eq!(lsb, 0b1110_0011);
    let (msb, lsb) = encode_config(Mux::Ain1Gnd, Pga::Gain4_096V, Mode::SingleShot, DataRate::Sps8);
    assert_eq!(msb, 0b1101_0011);
    assert_eq!(lsb, 0b0000_0011);
}

#[test]
fn test_encode_decode_round_trip_all_tuples() {
    for mux in ALL_MUX.iter() {
        for pga in ALL_PGA.iter() {
            for mode in ALL_MODE.iter() {
                for rate in ALL_RATE.iter() {
                    let (msb, lsb) = encode_config(*mux, *pga, *mode, *rate);
                    assert_eq!(decode_config(msb, lsb), Some((*mux, *pga, *mode, *rate)));
                }
            }
        }
    }
}

#[test]
fn test_decode_rejects_unused_patterns() {
    // Channel patterns 0b000..0b011 select differential pairs, unused here.
    for sel in 0u8..4u8 {
        let msb = 0x80 | (sel << 4) | 0x01;
        assert_eq!(decode_config(msb, 0x83), None);
    }
    // Gain patterns 0b110 and 0b111 are outside the six selectors.
    for sel in 6u8..8u8 {
        let msb = 0x80 | 0x40 | (sel << 1) | 0x01;
        assert_eq!(decode_config(msb, 0x83), None);
    }
}

#[test]
fn test_encode_field_isolation() {
    // Two configurations differing in exactly one field differ in exactly
    // the bit positions owned by that field.
    for a in ALL_MUX.iter() {
        for b in ALL_MUX.iter() {
            let (msb_a, lsb_a) = encode_config(*a, Pga::Gain2_048V, Mode::SingleShot, DataRate::Sps128);
            let (msb_b, lsb_b) = encode_config(*b, Pga::Gain2_048V, Mode::SingleShot, DataRate::Sps128);
            assert_eq!((msb_a ^ msb_b) & 0b1000_1111, 0);
            assert_eq!(lsb_a, lsb_b);
            if a != b {
                assert_ne!(msb_a, msb_b);
            }
        }
    }
    for a in ALL_PGA.iter() {
        for b in ALL_PGA.iter() {
            let (msb_a, lsb_a) = encode_config(Mux::Ain2Gnd, *a, Mode::Continuous, DataRate::Sps32);
            let (msb_b, lsb_b) = encode_config(Mux::Ain2Gnd, *b, Mode::Continuous, DataRate::Sps32);
            assert_eq!((msb_a ^ msb_b) & 0b1111_0001, 0);
            assert_eq!(lsb_a, lsb_b);
            if a != b {
                assert_ne!(msb_a, msb_b);
            }
        }
    }
    for a in ALL_MODE.iter() {
        for b in ALL_MODE.iter() {
            let (msb_a, lsb_a) = encode_config(Mux::Ain0Gnd, Pga::Gain1_024V, *a, DataRate::Sps250);
            let (msb_b, lsb_b) = encode_config(Mux::Ain0Gnd, Pga::Gain1_024V, *b, DataRate::Sps250);
            assert_eq!((msb_a ^ msb_b) & 0b1111_1110, 0);
            assert_eq!(lsb_a, lsb_b);
            if a != b {
                assert_ne!(msb_a, msb_b);
            }
        }
    }
    for a in ALL_RATE.iter() {
        for b in ALL_RATE.iter() {
            let (msb_a, lsb_a) = encode_config(Mux::Ain1Gnd, Pga::Gain0_512V, Mode::SingleShot, *a);
            let (msb_b, lsb_b) = encode_config(Mux::Ain1Gnd, Pga::Gain0_512V, Mode::SingleShot, *b);
            assert_eq!(msb_a, msb_b);
            assert_eq!((lsb_a ^ lsb_b) & 0b0001_1111, 0);
            if a != b {
                assert_ne!(lsb_a, lsb_b);
            }
        }
    }
}
