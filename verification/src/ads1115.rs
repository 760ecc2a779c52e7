//! Register codec and acquisition cycle of the ADS1115 16-bit
//! analog-to-digital converter.
//!
//! The codec maps the logical acquisition parameters — input channel, gain
//! range, conversion mode, sample rate — to the converter's two-byte
//! configuration word and back, bit-for-bit against the hardware register
//! map. The driver owns a bus transport and the parameters, triggers a
//! single-shot conversion, waits out a fixed settle time, reads the
//! conversion register back, and scales the raw two's-complement sample into
//! a voltage.
//!
//! Voltages are carried as integer microvolts: every full-scale constant of
//! the gain ranges is exact in that unit, and the linear scaling
//! `raw * fullscale / 32768` loses less than one microvolt to truncation.

use vstd::prelude::*;

use crate::bus::BusError;
use crate::bus::I2cBus;

verus! {

/// Default bus address of the converter with its address pin tied low.
pub const ADS1115_ADDR_A: u8 = 0x48;

/// Default bus address of the converter with its address pin tied high.
pub const ADS1115_ADDR_B: u8 = 0x49;

/// Register offset of the configuration register.
pub const CONFIG_REG: u8 = 0x01;

/// Register offset of the conversion-result register.
pub const CONVERSION_REG: u8 = 0x00;

/// Comparator-disable pattern, fixed into the two lowest bits of the low
/// configuration byte.
pub const COMP_QUE_DISABLE: u8 = 0b11;

/// Start-conversion flag: the highest bit of the high configuration byte.
pub const OS_SINGLE_CONVERSION: u8 = 0x80;

/// Settle time waited out after triggering a conversion, in milliseconds.
/// At the fixed 128-samples-per-second rate a conversion completes within
/// about 8 ms; the margin is deliberate, since the converter's ready bit is
/// not polled in this design.
pub const SETTLE_DELAY_MS: u64 = 10;

/// Input-channel selector: which single-ended input pin is measured against
/// ground.
#[derive(Clone, Copy, PartialEq, Eq, Structural, Debug)]
pub enum Mux {
    Ain0Gnd,
    Ain1Gnd,
    Ain2Gnd,
    Ain3Gnd,
}

/// Programmable-gain selector: the full-scale input voltage window.
#[derive(Clone, Copy, PartialEq, Eq, Structural, Debug)]
pub enum Pga {
    Gain6_144V,
    Gain4_096V,
    Gain2_048V,
    Gain1_024V,
    Gain0_512V,
    Gain0_256V,
}

/// Operating mode: free-running or one conversion on command.
#[derive(Clone, Copy, PartialEq, Eq, Structural, Debug)]
pub enum Mode {
    Continuous,
    SingleShot,
}

/// Sample-rate selector, in samples per second.
#[derive(Clone, Copy, PartialEq, Eq, Structural, Debug)]
pub enum DataRate {
    Sps8,
    Sps16,
    Sps32,
    Sps64,
    Sps128,
    Sps250,
    Sps475,
    Sps860,
}

/// Three-bit field value of an input-channel selector (single-ended inputs
/// occupy the patterns `0b100` through `0b111`).
pub open spec fn spec_mux_sel(mux: Mux) -> u8 {
    match mux {
        Mux::Ain0Gnd => 4,
        Mux::Ain1Gnd => 5,
        Mux::Ain2Gnd => 6,
        Mux::Ain3Gnd => 7,
    }
}

/// Three-bit field value of a gain selector (`0b000` through `0b101`).
pub open spec fn spec_pga_sel(pga: Pga) -> u8 {
    match pga {
        Pga::Gain6_144V => 0,
        Pga::Gain4_096V => 1,
        Pga::Gain2_048V => 2,
        Pga::Gain1_024V => 3,
        Pga::Gain0_512V => 4,
        Pga::Gain0_256V => 5,
    }
}

/// One-bit field value of the operating mode.
pub open spec fn spec_mode_bit(mode: Mode) -> u8 {
    match mode {
        Mode::Continuous => 0,
        Mode::SingleShot => 1,
    }
}

/// Three-bit field value of a sample-rate selector.
pub open spec fn spec_rate_sel(rate: DataRate) -> u8 {
    match rate {
        DataRate::Sps8 => 0,
        DataRate::Sps16 => 1,
        DataRate::Sps32 => 2,
        DataRate::Sps64 => 3,
        DataRate::Sps128 => 4,
        DataRate::Sps250 => 5,
        DataRate::Sps475 => 6,
        DataRate::Sps860 => 7,
    }
}

/// The high configuration byte:
/// `[start-conversion][3-bit channel][3-bit gain][1-bit mode]`.
pub open spec fn spec_config_msb(mux: Mux, pga: Pga, mode: Mode) -> u8 {
    OS_SINGLE_CONVERSION | (spec_mux_sel(mux) << 4) | (spec_pga_sel(pga) << 1)
        | spec_mode_bit(mode)
}

/// The low configuration byte:
/// `[3-bit sample rate][three bits left clear][2-bit comparator disable]`.
pub open spec fn spec_config_lsb(rate: DataRate) -> u8 {
    (spec_rate_sel(rate) << 5) | COMP_QUE_DISABLE
}

/// Full-scale voltage of each gain selector, in microvolts. Each of the six
/// documented constants (6.144 V down to 0.256 V) is exact in this unit.
pub open spec fn spec_pga_microvolts(pga: Pga) -> u32 {
    match pga {
        Pga::Gain6_144V => 6_144_000,
        Pga::Gain4_096V => 4_096_000,
        Pga::Gain2_048V => 2_048_000,
        Pga::Gain1_024V => 1_024_000,
        Pga::Gain0_512V => 512_000,
        Pga::Gain0_256V => 256_000,
    }
}

/// Exec mirror of [`spec_mux_sel`].
pub fn mux_sel(mux: Mux) -> (sel: u8)
    ensures
        sel == spec_mux_sel(mux),
{
    match mux {
        Mux::Ain0Gnd => 4,
        Mux::Ain1Gnd => 5,
        Mux::Ain2Gnd => 6,
        Mux::Ain3Gnd => 7,
    }
}

/// Exec mirror of [`spec_pga_sel`].
pub fn pga_sel(pga: Pga) -> (sel: u8)
    ensures
        sel == spec_pga_sel(pga),
{
    match pga {
        Pga::Gain6_144V => 0,
        Pga::Gain4_096V => 1,
        Pga::Gain2_048V => 2,
        Pga::Gain1_024V => 3,
        Pga::Gain0_512V => 4,
        Pga::Gain0_256V => 5,
    }
}

/// Exec mirror of [`spec_mode_bit`].
pub fn mode_bit(mode: Mode) -> (bit: u8)
    ensures
        bit == spec_mode_bit(mode),
{
    match mode {
        Mode::Continuous => 0,
        Mode::SingleShot => 1,
    }
}

/// Exec mirror of [`spec_rate_sel`].
pub fn rate_sel(rate: DataRate) -> (sel: u8)
    ensures
        sel == spec_rate_sel(rate),
{
    match rate {
        DataRate::Sps8 => 0,
        DataRate::Sps16 => 1,
        DataRate::Sps32 => 2,
        DataRate::Sps64 => 3,
        DataRate::Sps128 => 4,
        DataRate::Sps250 => 5,
        DataRate::Sps475 => 6,
        DataRate::Sps860 => 7,
    }
}

/// Full-scale voltage of a gain selector, in microvolts.
pub fn pga_to_microvolts(pga: Pga) -> (fullscale: u32)
    ensures
        fullscale == spec_pga_microvolts(pga),
{
    match pga {
        Pga::Gain6_144V => 6_144_000,
        Pga::Gain4_096V => 4_096_000,
        Pga::Gain2_048V => 2_048_000,
        Pga::Gain1_024V => 1_024_000,
        Pga::Gain0_512V => 512_000,
        Pga::Gain0_256V => 256_000,
    }
}

/// No two gain selectors share a full-scale constant: the map from selector
/// to full-scale voltage is injective.
pub proof fn lemma_pga_fullscale_injective(a: Pga, b: Pga)
    ensures
        spec_pga_microvolts(a) == spec_pga_microvolts(b) ==> a == b,
{
}

/// Pack the acquisition parameters into the two configuration-register
/// bytes, each field shifted into its documented position.
pub fn encode_config(mux: Mux, pga: Pga, mode: Mode, rate: DataRate) -> (bytes: (u8, u8))
    ensures
        bytes.0 == spec_config_msb(mux, pga, mode),
        bytes.1 == spec_config_lsb(rate),
{
    let msb: u8 = OS_SINGLE_CONVERSION | (mux_sel(mux) << 4) | (pga_sel(pga) << 1)
        | mode_bit(mode);
    let lsb: u8 = (rate_sel(rate) << 5) | COMP_QUE_DISABLE;
    (msb, lsb)
}

/// Input-channel selector from its three-bit field value; the patterns below
/// `0b100` select differential pairs, which this design does not use.
pub open spec fn spec_mux_from_sel(sel: u8) -> Option<Mux> {
    if sel == 4 {
        Some(Mux::Ain0Gnd)
    } else if sel == 5 {
        Some(Mux::Ain1Gnd)
    } else if sel == 6 {
        Some(Mux::Ain2Gnd)
    } else if sel == 7 {
        Some(Mux::Ain3Gnd)
    } else {
        None
    }
}

/// Gain selector from its three-bit field value; `0b110` and `0b111` are not
/// among the six selectors of this design.
pub open spec fn spec_pga_from_sel(sel: u8) -> Option<Pga> {
    if sel == 0 {
        Some(Pga::Gain6_144V)
    } else if sel == 1 {
        Some(Pga::Gain4_096V)
    } else if sel == 2 {
        Some(Pga::Gain2_048V)
    } else if sel == 3 {
        Some(Pga::Gain1_024V)
    } else if sel == 4 {
        Some(Pga::Gain0_512V)
    } else if sel == 5 {
        Some(Pga::Gain0_256V)
    } else {
        None
    }
}

/// Operating mode from its field bit.
pub open spec fn spec_mode_from_bit(bit: u8) -> Mode {
    if bit == 0 {
        Mode::Continuous
    } else {
        Mode::SingleShot
    }
}

/// Sample-rate selector from its three-bit field value (all eight patterns
/// are in use).
pub open spec fn spec_rate_from_sel(sel: u8) -> DataRate {
    if sel == 0 {
        DataRate::Sps8
    } else if sel == 1 {
        DataRate::Sps16
    } else if sel == 2 {
        DataRate::Sps32
    } else if sel == 3 {
        DataRate::Sps64
    } else if sel == 4 {
        DataRate::Sps128
    } else if sel == 5 {
        DataRate::Sps250
    } else if sel == 6 {
        DataRate::Sps475
    } else {
        DataRate::Sps860
    }
}

/// Unpack a two-byte configuration word into the acquisition parameters,
/// reading each field from its documented bit range and ignoring the
/// start-conversion and comparator fields. `None` exactly when the channel
/// or gain field holds a pattern outside this design's selectors.
pub open spec fn spec_decode_config(msb: u8, lsb: u8) -> Option<(Mux, Pga, Mode, DataRate)> {
    let mux_field = (msb >> 4) & 7;
    let pga_field = (msb >> 1) & 7;
    let mode_field = msb & 1;
    let rate_field = (lsb >> 5) & 7;
    match (spec_mux_from_sel(mux_field), spec_pga_from_sel(pga_field)) {
        (Some(mux), Some(pga)) => Some(
            (mux, pga, spec_mode_from_bit(mode_field), spec_rate_from_sel(rate_field)),
        ),
        _ => None,
    }
}

/// Exec mirror of [`spec_decode_config`].
pub fn decode_config(msb: u8, lsb: u8) -> (params: Option<(Mux, Pga, Mode, DataRate)>)
    ensures
        params == spec_decode_config(msb, lsb),
{
    let mux_field: u8 = (msb >> 4) & 7;
    let pga_field: u8 = (msb >> 1) & 7;
    let mode_field: u8 = msb & 1;
    let rate_field: u8 = (lsb >> 5) & 7;

    let mux: Mux = if mux_field == 4 {
        Mux::Ain0Gnd
    } else if mux_field == 5 {
        Mux::Ain1Gnd
    } else if mux_field == 6 {
        Mux::Ain2Gnd
    } else if mux_field == 7 {
        Mux::Ain3Gnd
    } else {
        return None;
    };
    let pga: Pga = if pga_field == 0 {
        Pga::Gain6_144V
    } else if pga_field == 1 {
        Pga::Gain4_096V
    } else if pga_field == 2 {
        Pga::Gain2_048V
    } else if pga_field == 3 {
        Pga::Gain1_024V
    } else if pga_field == 4 {
        Pga::Gain0_512V
    } else if pga_field == 5 {
        Pga::Gain0_256V
    } else {
        return None;
    };
    let mode: Mode = if mode_field == 0 {
        Mode::Continuous
    } else {
        Mode::SingleShot
    };
    let rate: DataRate = if rate_field == 0 {
        DataRate::Sps8
    } else if rate_field == 1 {
        DataRate::Sps16
    } else if rate_field == 2 {
        DataRate::Sps32
    } else if rate_field == 3 {
        DataRate::Sps64
    } else if rate_field == 4 {
        DataRate::Sps128
    } else if rate_field == 5 {
        DataRate::Sps250
    } else if rate_field == 6 {
        DataRate::Sps475
    } else {
        DataRate::Sps860
    };
    Some((mux, pga, mode, rate))
}

/// Round-trip law of the codec: decoding an encoded configuration word
/// recovers exactly the encoded parameters, for every valid tuple.
pub proof fn lemma_encode_decode_round_trip(mux: Mux, pga: Pga, mode: Mode, rate: DataRate)
    ensures
        spec_decode_config(spec_config_msb(mux, pga, mode), spec_config_lsb(rate))
            == Some((mux, pga, mode, rate)),
{
    let ms = spec_mux_sel(mux);
    let ps = spec_pga_sel(pga);
    let mb = spec_mode_bit(mode);
    let rs = spec_rate_sel(rate);
    let msb = spec_config_msb(mux, pga, mode);
    let lsb = spec_config_lsb(rate);
    assert(4 <= ms && ms <= 7);
    assert(ps <= 5);
    assert(mb <= 1);
    assert(rs <= 7);
    assert((msb >> 4) & 7 == ms && (msb >> 1) & 7 == ps && msb & 1 == mb) by (bit_vector)
        requires
            msb == 0x80u8 | (ms << 4) | (ps << 1) | mb,
            4 <= ms,
            ms <= 7,
            ps <= 5,
            mb <= 1,
    ;
    assert((lsb >> 5) & 7 == rs) by (bit_vector)
        requires
            lsb == (rs << 5) | 0x3u8,
            rs <= 7,
    ;
    assert(spec_mux_from_sel(ms) == Some(mux));
    assert(spec_pga_from_sel(ps) == Some(pga));
    assert(spec_mode_from_bit(mb) == mode);
    assert(spec_rate_from_sel(rs) == rate);
}

/// The codec is injective: configurations that encode to the same two bytes
/// are the same configuration. A corollary of the round-trip law.
pub proof fn lemma_encode_injective(
    m1: Mux,
    p1: Pga,
    md1: Mode,
    r1: DataRate,
    m2: Mux,
    p2: Pga,
    md2: Mode,
    r2: DataRate,
)
    requires
        spec_config_msb(m1, p1, md1) == spec_config_msb(m2, p2, md2),
        spec_config_lsb(r1) == spec_config_lsb(r2),
    ensures
        m1 == m2 && p1 == p2 && md1 == md2 && r1 == r2,
{
    lemma_encode_decode_round_trip(m1, p1, md1, r1);
    lemma_encode_decode_round_trip(m2, p2, md2, r2);
}

/// Field isolation, channel: two configurations differing only in the
/// input-channel selector produce high bytes that agree outside the
/// channel field (bits 6-4) and differ within it; the low byte does not
/// depend on the channel at all, as [`spec_config_lsb`]'s arguments show.
pub proof fn lemma_mux_field_isolation(m1: Mux, m2: Mux, pga: Pga, mode: Mode)
    ensures
        (spec_config_msb(m1, pga, mode) ^ spec_config_msb(m2, pga, mode)) & 0x8F == 0,
        m1 != m2 ==> spec_config_msb(m1, pga, mode) != spec_config_msb(m2, pga, mode),
{
    let s1 = spec_mux_sel(m1);
    let s2 = spec_mux_sel(m2);
    let ps = spec_pga_sel(pga);
    let mb = spec_mode_bit(mode);
    let b1 = spec_config_msb(m1, pga, mode);
    let b2 = spec_config_msb(m2, pga, mode);
    assert(4 <= s1 && s1 <= 7 && 4 <= s2 && s2 <= 7 && ps <= 5 && mb <= 1);
    assert(m1 != m2 ==> s1 != s2);
    assert((b1 ^ b2) & 0x8F == 0 && (s1 != s2 ==> b1 != b2)) by (bit_vector)
        requires
            b1 == 0x80u8 | (s1 << 4) | (ps << 1) | mb,
            b2 == 0x80u8 | (s2 << 4) | (ps << 1) | mb,
            4 <= s1,
            s1 <= 7,
            4 <= s2,
            s2 <= 7,
            ps <= 5,
            mb <= 1,
    ;
}

/// Field isolation, gain: two configurations differing only in the gain
/// selector produce high bytes that agree outside the gain field (bits 3-1)
/// and differ within it.
pub proof fn lemma_pga_field_isolation(p1: Pga, p2: Pga, mux: Mux, mode: Mode)
    ensures
        (spec_config_msb(mux, p1, mode) ^ spec_config_msb(mux, p2, mode)) & 0xF1 == 0,
        p1 != p2 ==> spec_config_msb(mux, p1, mode) != spec_config_msb(mux, p2, mode),
{
    let s1 = spec_pga_sel(p1);
    let s2 = spec_pga_sel(p2);
    let ms = spec_mux_sel(mux);
    let mb = spec_mode_bit(mode);
    let b1 = spec_config_msb(mux, p1, mode);
    let b2 = spec_config_msb(mux, p2, mode);
    assert(4 <= ms && ms <= 7 && s1 <= 5 && s2 <= 5 && mb <= 1);
    assert(p1 != p2 ==> s1 != s2);
    assert((b1 ^ b2) & 0xF1 == 0 && (s1 != s2 ==> b1 != b2)) by (bit_vector)
        requires
            b1 == 0x80u8 | (ms << 4) | (s1 << 1) | mb,
            b2 == 0x80u8 | (ms << 4) | (s2 << 1) | mb,
            4 <= ms,
            ms <= 7,
            s1 <= 5,
            s2 <= 5,
            mb <= 1,
    ;
}

/// Field isolation, mode: two configurations differing only in the mode
/// produce high bytes that agree outside the mode bit (bit 0) and differ in
/// it.
pub proof fn lemma_mode_field_isolation(md1: Mode, md2: Mode, mux: Mux, pga: Pga)
    ensures
        (spec_config_msb(mux, pga, md1) ^ spec_config_msb(mux, pga, md2)) & 0xFE == 0,
        md1 != md2 ==> spec_config_msb(mux, pga, md1) != spec_config_msb(mux, pga, md2),
{
    let s1 = spec_mode_bit(md1);
    let s2 = spec_mode_bit(md2);
    let ms = spec_mux_sel(mux);
    let ps = spec_pga_sel(pga);
    let b1 = spec_config_msb(mux, pga, md1);
    let b2 = spec_config_msb(mux, pga, md2);
    assert(4 <= ms && ms <= 7 && ps <= 5 && s1 <= 1 && s2 <= 1);
    assert(md1 != md2 ==> s1 != s2);
    assert((b1 ^ b2) & 0xFE == 0 && (s1 != s2 ==> b1 != b2)) by (bit_vector)
        requires
            b1 == 0x80u8 | (ms << 4) | (ps << 1) | s1,
            b2 == 0x80u8 | (ms << 4) | (ps << 1) | s2,
            4 <= ms,
            ms <= 7,
            ps <= 5,
            s1 <= 1,
            s2 <= 1,
    ;
}

/// Field isolation, sample rate: two configurations differing only in the
/// rate selector produce low bytes that agree outside the rate field (bits
/// 7-5) and differ within it; the high byte does not depend on the rate at
/// all, as [`spec_config_msb`]'s arguments show.
pub proof fn lemma_rate_field_isolation(r1: DataRate, r2: DataRate)
    ensures
        (spec_config_lsb(r1) ^ spec_config_lsb(r2)) & 0x1F == 0,
        r1 != r2 ==> spec_config_lsb(r1) != spec_config_lsb(r2),
{
    let s1 = spec_rate_sel(r1);
    let s2 = spec_rate_sel(r2);
    let b1 = spec_config_lsb(r1);
    let b2 = spec_config_lsb(r2);
    assert(s1 <= 7 && s2 <= 7);
    assert(r1 != r2 ==> s1 != s2);
    assert((b1 ^ b2) & 0x1F == 0 && (s1 != s2 ==> b1 != b2)) by (bit_vector)
        requires
            b1 == (s1 << 5) | 0x3u8,
            b2 == (s2 << 5) | 0x3u8,
            s1 <= 7,
            s2 <= 7,
    ;
}

/// The signed 16-bit sample carried big-endian in the two bytes of the
/// conversion register (two's complement; the decode must treat the word as
/// signed even though single-ended inputs never read negative in practice).
pub open spec fn spec_sample_from_bytes(hi: u8, lo: u8) -> int {
    if hi >= 0x80 {
        (hi * 0x100 + lo) - 0x10000
    } else {
        hi * 0x100 + lo
    }
}

/// Raw sample linearly scaled by `fullscale / 32768`, truncated toward zero.
pub open spec fn spec_scaled_microvolts(raw: int, fullscale_uv: int) -> int {
    if raw >= 0 {
        (raw * fullscale_uv) / 32768
    } else {
        -(((-raw) * fullscale_uv) / 32768)
    }
}

/// Voltage decoded from the two conversion-register bytes under a gain
/// selector, in microvolts.
pub open spec fn spec_decoded_microvolts(hi: u8, lo: u8, pga: Pga) -> int {
    spec_scaled_microvolts(spec_sample_from_bytes(hi, lo), spec_pga_microvolts(pga) as int)
}

/// Scale a raw two's-complement sample to microvolts:
/// `raw * fullscale / 32768`, the product taken before the division so no
/// precision is lost ahead of the multiply.
pub fn adc_to_microvolts(raw: i16, fullscale_uv: u32) -> (microvolts: i64)
    requires
        fullscale_uv <= 6_144_000,
    ensures
        microvolts == spec_scaled_microvolts(raw as int, fullscale_uv as int),
        -6_144_000 <= microvolts <= 6_144_000,
{
    if raw >= 0 {
        proof {
            assert(raw * fullscale_uv <= 32767 * 6_144_000) by (nonlinear_arith)
                requires
                    0 <= raw <= 32767,
                    fullscale_uv <= 6_144_000,
            ;
        }
        let product: u64 = (raw as u64) * (fullscale_uv as u64);
        assert(product / 32768 <= 6_144_000);
        (product / 32768) as i64
    } else {
        let magnitude: u64 = (-(raw as i64)) as u64;
        proof {
            assert(magnitude * fullscale_uv <= 32768 * 6_144_000) by (nonlinear_arith)
                requires
                    0 <= magnitude <= 32768,
                    fullscale_uv <= 6_144_000,
            ;
        }
        let product: u64 = magnitude * (fullscale_uv as u64);
        assert(product / 32768 <= 6_144_000);
        -((product / 32768) as i64)
    }
}

/// Interpret the two conversion-register bytes under a gain selector as a
/// voltage in microvolts. This is the whole numeric path of an acquisition
/// after the bus traffic, with an exact contract, so the scaling can be
/// checked independently of any transport.
pub fn decode_sample_microvolts(hi: u8, lo: u8, pga: Pga) -> (microvolts: i64)
    ensures
        microvolts == spec_decoded_microvolts(hi, lo, pga),
        -6_144_000 <= microvolts <= 6_144_000,
{
    let word: u16 = (hi as u16) * 0x100 + (lo as u16);
    let raw: i16 = if hi >= 0x80 {
        ((word as i32) - 0x10000) as i16
    } else {
        word as i16
    };
    adc_to_microvolts(raw, pga_to_microvolts(pga))
}

/// Determinism of the numeric path: equal read-back bytes decode, under the
/// same gain selector, to equal voltages. The scaling has no state and no
/// side effect, so two acquisitions whose transports return the same bytes
/// report the same voltage.
pub proof fn lemma_decode_deterministic(hi1: u8, lo1: u8, hi2: u8, lo2: u8, pga: Pga)
    requires
        hi1 == hi2,
        lo1 == lo2,
    ensures
        spec_decoded_microvolts(hi1, lo1, pga) == spec_decoded_microvolts(hi2, lo2, pga),
{
}

/// Driver for one converter on a bus transport: the transport handle, the
/// device address, and the acquisition parameters, fixed at construction.
pub struct AdsSensor<T> {
    /// The owned bus transport.
    pub i2c: T,
    /// Bus address of the converter.
    pub addr: u8,
    /// Input-channel selector.
    pub mux: Mux,
    /// Gain selector.
    pub pga: Pga,
    /// Operating mode (fixed to single-shot by the constructor).
    pub mode: Mode,
    /// Sample-rate selector (fixed to 128 samples per second by the
    /// constructor).
    pub dr: DataRate,
    /// Friendly sensor name.
    pub name: &'static str,
    /// Units of the derived measurement, e.g. "Celsius".
    pub units: &'static str,
}

impl<T: I2cBus> AdsSensor<T> {
    /// Build a driver over `i2c` for the device at `addr`, measuring the
    /// channel `mux` with gain `pga`, in single-shot mode at the fixed
    /// 128-samples-per-second rate. Never fails.
    pub fn new(
        i2c: T,
        addr: u8,
        mux: Mux,
        pga: Pga,
        name: &'static str,
        units: &'static str,
    ) -> (sensor: Result<AdsSensor<T>, BusError>)
        ensures
            sensor is Ok,
            sensor matches Ok(s) ==> s.i2c == i2c && s.addr == addr && s.mux == mux
                && s.pga == pga && s.mode == Mode::SingleShot && s.dr == DataRate::Sps128
                && s.name == name && s.units == units,
    {
        Ok(
            AdsSensor {
                i2c,
                addr,
                mux,
                pga,
                mode: Mode::SingleShot,
                dr: DataRate::Sps128,
                name,
                units,
            },
        )
    }

    /// The register-select-plus-payload transaction that configures and
    /// triggers a conversion: the configuration register offset followed by
    /// the encoded configuration word.
    fn build_config_bytes(&self) -> (bytes: Vec<u8>)
        ensures
            bytes@.len() == 3,
            bytes@[0] == CONFIG_REG,
            bytes@[1] == spec_config_msb(self.mux, self.pga, self.mode),
            bytes@[2] == spec_config_lsb(self.dr),
    {
        let (msb, lsb) = encode_config(self.mux, self.pga, self.mode, self.dr);
        let mut bytes: Vec<u8> = Vec::new();
        bytes.push(CONFIG_REG);
        bytes.push(msb);
        bytes.push(lsb);
        bytes
    }

    /// One full single-shot conversion cycle: write the configuration with
    /// the start flag set, wait out the settle time, select the conversion
    /// register, read two bytes back, and scale them.
    ///
    /// The acquisition parameters are untouched whatever happens. Any bus
    /// failure aborts the cycle and is returned as-is. On success the value
    /// is exactly the decoded voltage of some byte pair the transport
    /// returned — the numeric path is [`decode_sample_microvolts`], whose
    /// contract is exact.
    pub fn get_voltage_microvolts(&mut self) -> (voltage: Result<i64, BusError>)
        ensures
            final(self).addr == old(self).addr,
            final(self).mux == old(self).mux,
            final(self).pga == old(self).pga,
            final(self).mode == old(self).mode,
            final(self).dr == old(self).dr,
            final(self).name == old(self).name,
            final(self).units == old(self).units,
            voltage matches Ok(v) ==> exists|hi: u8, lo: u8|
                v == spec_decoded_microvolts(hi, lo, old(self).pga),
            voltage matches Ok(v) ==> -6_144_000 <= v <= 6_144_000,
    {
        let config = self.build_config_bytes();
        match self.i2c.bus_write(self.addr, &config) {
            Ok(_) => {},
            Err(e) => {
                return Err(e);
            },
        }

        self.i2c.sleep_ms(SETTLE_DELAY_MS);

        let mut pointer: Vec<u8> = Vec::new();
        pointer.push(CONVERSION_REG);
        match self.i2c.bus_write(self.addr, &pointer) {
            Ok(_) => {},
            Err(e) => {
                return Err(e);
            },
        }

        match self.i2c.bus_write_read2(self.addr, CONVERSION_REG) {
            Ok((hi, lo)) => {
                let v = decode_sample_microvolts(hi, lo, self.pga);
                Ok(v)
            },
            Err(e) => Err(e),
        }
    }

    /// Release the underlying bus transport back to the caller.
    pub fn release(self) -> (i2c: T)
        ensures
            i2c == self.i2c,
    {
        self.i2c
    }
}

} // verus!
