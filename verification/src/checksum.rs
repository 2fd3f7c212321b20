//! The CRC-8 checksum (polynomial 0x07, initial value 0, no reflection, no final xor)
//! that guards every message, computed with a 256-entry lookup table.

use vstd::prelude::*;

verus! {

/// Lookup table of the checksum: entry `i` is the state reached by feeding the byte `i`
/// into a zero state.
pub const CRC8_TABLE: [u8; 256] = [
    0x00, 0x07, 0x0E, 0x09, 0x1C, 0x1B, 0x12, 0x15, 0x38, 0x3F, 0x36, 0x31, 0x24, 0x23, 0x2A, 0x2D,
    0x70, 0x77, 0x7E, 0x79, 0x6C, 0x6B, 0x62, 0x65, 0x48, 0x4F, 0x46, 0x41, 0x54, 0x53, 0x5A, 0x5D,
    0xE0, 0xE7, 0xEE, 0xE9, 0xFC, 0xFB, 0xF2, 0xF5, 0xD8, 0xDF, 0xD6, 0xD1, 0xC4, 0xC3, 0xCA, 0xCD,
    0x90, 0x97, 0x9E, 0x99, 0x8C, 0x8B, 0x82, 0x85, 0xA8, 0xAF, 0xA6, 0xA1, 0xB4, 0xB3, 0xBA, 0xBD,
    0xC7, 0xC0, 0xC9, 0xCE, 0xDB, 0xDC, 0xD5, 0xD2, 0xFF, 0xF8, 0xF1, 0xF6, 0xE3, 0xE4, 0xED, 0xEA,
    0xB7, 0xB0, 0xB9, 0xBE, 0xAB, 0xAC, 0xA5, 0xA2, 0x8F, 0x88, 0x81, 0x86, 0x93, 0x94, 0x9D, 0x9A,
    0x27, 0x20, 0x29, 0x2E, 0x3B, 0x3C, 0x35, 0x32, 0x1F, 0x18, 0x11, 0x16, 0x03, 0x04, 0x0D, 0x0A,
    0x57, 0x50, 0x59, 0x5E, 0x4B, 0x4C, 0x45, 0x42, 0x6F, 0x68, 0x61, 0x66, 0x73, 0x74, 0x7D, 0x7A,
    0x89, 0x8E, 0x87, 0x80, 0x95, 0x92, 0x9B, 0x9C, 0xB1, 0xB6, 0xBF, 0xB8, 0xAD, 0xAA, 0xA3, 0xA4,
    0xF9, 0xFE, 0xF7, 0xF0, 0xE5, 0xE2, 0xEB, 0xEC, 0xC1, 0xC6, 0xCF, 0xC8, 0xDD, 0xDA, 0xD3, 0xD4,
    0x69, 0x6E, 0x67, 0x60, 0x75, 0x72, 0x7B, 0x7C, 0x51, 0x56, 0x5F, 0x58, 0x4D, 0x4A, 0x43, 0x44,
    0x19, 0x1E, 0x17, 0x10, 0x05, 0x02, 0x0B, 0x0C, 0x21, 0x26, 0x2F, 0x28, 0x3D, 0x3A, 0x33, 0x34,
    0x4E, 0x49, 0x40, 0x47, 0x52, 0x55, 0x5C, 0x5B, 0x76, 0x71, 0x78, 0x7F, 0x6A, 0x6D, 0x64, 0x63,
    0x3E, 0x39, 0x30, 0x37, 0x22, 0x25, 0x2C, 0x2B, 0x06, 0x01, 0x08, 0x0F, 0x1A, 0x1D, 0x14, 0x13,
    0xAE, 0xA9, 0xA0, 0xA7, 0xB2, 0xB5, 0xBC, 0xBB, 0x96, 0x91, 0x98, 0x9F, 0x8A, 0x8D, 0x84, 0x83,
    0xDE, 0xD9, 0xD0, 0xD7, 0xC2, 0xC5, 0xCC, 0xCB, 0xE6, 0xE1, 0xE8, 0xEF, 0xFA, 0xFD, 0xF4, 0xF3,
];

/// One step of the table-driven checksum: the state after feeding `byte` into `crc`.
pub open spec fn crc8_update(crc: u8, byte: u8) -> u8 {
    CRC8_TABLE@[(byte ^ crc) as int]
}

/// The checksum of a byte sequence, fed in from the first byte to the last, starting
/// from the state 0.
pub open spec fn spec_crc8(data: Seq<u8>) -> u8
    decreases data.len(),
{
    if data.len() == 0 {
        0
    } else {
        crc8_update(spec_crc8(data.drop_last()), data.last())
    }
}

/// Computes the CRC-8 checksum of `data`.
pub fn crc8(data: &[u8]) -> (crc: u8)
    ensures
        crc == spec_crc8(data@),
{
    let mut crc: u8 = 0;
    let mut i: usize = 0;
    while i < data.len()
        invariant
            i <= data.len(),
            crc == spec_crc8(data@.take(i as int)),
        decreases data.len() - i,
    {
        let v = data[i];
        assert(data@.take(i + 1).drop_last() =~= data@.take(i as int));
        crc = CRC8_TABLE[(v ^ crc) as usize];
        i = i + 1;
    }
    assert(data@.take(data.len() as int) =~= data@);
    crc
}

// The checksum by its definition: polynomial division over GF(2), one bit at a time.

/// One bit of polynomial division: shift the state left by one bit and, when a set bit
/// falls out at the top, subtract (xor) the polynomial x^8 + x^2 + x + 1.
pub open spec fn poly_shift(crc: u8) -> u8 {
    if crc & 0x80 != 0 {
        (crc << 1u8) ^ 0x07
    } else {
        crc << 1u8
    }
}

/// Eight bits of polynomial division: the state after a whole byte has been shifted out.
pub open spec fn poly_byte(crc: u8) -> u8 {
    poly_shift(poly_shift(poly_shift(poly_shift(poly_shift(poly_shift(poly_shift(poly_shift(crc))))))))
}

/// The checksum of `data` by bitwise polynomial division: each byte is xored into the
/// state, which is then divided by the polynomial for eight bits.
pub open spec fn spec_crc8_bitwise(data: Seq<u8>) -> u8
    decreases data.len(),
{
    if data.len() == 0 {
        0
    } else {
        poly_byte(spec_crc8_bitwise(data.drop_last()) ^ data.last())
    }
}

/// `poly_shift` in plain integer arithmetic, where the solver can evaluate it: doubling,
/// and for a state of 128 or more, dropping the top bit and flipping the low three bits.
spec fn poly_shift_arith(c: int) -> int {
    if c < 128 {
        2 * c
    } else {
        let d = 2 * c - 256;
        d - d % 8 + (7 - d % 8)
    }
}

spec fn poly_byte_arith(c: int) -> int {
    poly_shift_arith(
        poly_shift_arith(
            poly_shift_arith(
                poly_shift_arith(
                    poly_shift_arith(poly_shift_arith(poly_shift_arith(poly_shift_arith(c)))),
                ),
            ),
        ),
    )
}

proof fn lemma_poly_shift_arith(c: u8)
    ensures
        poly_shift(c) as int == poly_shift_arith(c as int),
{
    assert(((c & 0x80 != 0) ==> (((c << 1u8) ^ 0x07) as int == ((2 * c - 256) - (2 * c - 256) % 8 + (
    7 - (2 * c - 256) % 8))) && c >= 128) && ((c & 0x80 == 0) ==> ((c << 1u8) as int == 2 * c
        && c < 128))) by (bit_vector);
}

proof fn lemma_poly_byte_arith(c: u8)
    ensures
        poly_byte(c) as int == poly_byte_arith(c as int),
{
    let c1 = poly_shift(c);
    let c2 = poly_shift(c1);
    let c3 = poly_shift(c2);
    let c4 = poly_shift(c3);
    let c5 = poly_shift(c4);
    let c6 = poly_shift(c5);
    let c7 = poly_shift(c6);
    lemma_poly_shift_arith(c);
    lemma_poly_shift_arith(c1);
    lemma_poly_shift_arith(c2);
    lemma_poly_shift_arith(c3);
    lemma_poly_shift_arith(c4);
    lemma_poly_shift_arith(c5);
    lemma_poly_shift_arith(c6);
    lemma_poly_shift_arith(c7);
}

/// The first `n` entries of the table are the polynomial division of their index.
#[verifier::opaque]
spec fn table_agrees_below(n: int) -> bool {
    forall|x: int| 0 <= x < n ==> CRC8_TABLE@[x] as int == poly_byte_arith(x)
}

proof fn lemma_table_entry(n: int)
    requires
        table_agrees_below(n),
        CRC8_TABLE@[n] as int == poly_byte_arith(n),
    ensures
        table_agrees_below(n + 1),
{
    reveal(table_agrees_below);
}

/// Entries 0 to 15 of the table follow the polynomial.
#[verifier::rlimit(100)]
proof fn lemma_table_block_0()
    requires
        table_agrees_below(0),
    ensures
        table_agrees_below(16),
{
    lemma_table_entry(0); lemma_table_entry(1); lemma_table_entry(2); lemma_table_entry(3); lemma_table_entry(4); lemma_table_entry(5); lemma_table_entry(6); lemma_table_entry(7);
    lemma_table_entry(8); lemma_table_entry(9); lemma_table_entry(10); lemma_table_entry(11); lemma_table_entry(12); lemma_table_entry(13); lemma_table_entry(14); lemma_table_entry(15);
}

/// Entries 16 to 31 of the table follow the polynomial.
#[verifier::rlimit(100)]
proof fn lemma_table_block_1()
    requires
        table_agrees_below(16),
    ensures
        table_agrees_below(32),
{
    lemma_table_entry(16); lemma_table_entry(17); lemma_table_entry(18); lemma_table_entry(19); lemma_table_entry(20); lemma_table_entry(21); lemma_table_entry(22); lemma_table_entry(23);
    lemma_table_entry(24); lemma_table_entry(25); lemma_table_entry(26); lemma_table_entry(27); lemma_table_entry(28); lemma_table_entry(29); lemma_table_entry(30); lemma_table_entry(31);
}

/// Entries 32 to 47 of the table follow the polynomial.
#[verifier::rlimit(100)]
proof fn lemma_table_block_2()
    requires
        table_agrees_below(32),
    ensures
        table_agrees_below(48),
{
    lemma_table_entry(32); lemma_table_entry(33); lemma_table_entry(34); lemma_table_entry(35); lemma_table_entry(36); lemma_table_entry(37); lemma_table_entry(38); lemma_table_entry(39);
    lemma_table_entry(40); lemma_table_entry(41); lemma_table_entry(42); lemma_table_entry(43); lemma_table_entry(44); lemma_table_entry(45); lemma_table_entry(46); lemma_table_entry(47);
}

/// Entries 48 to 63 of the table follow the polynomial.
#[verifier::rlimit(100)]
proof fn lemma_table_block_3()
    requires
        table_agrees_below(48),
    ensures
        table_agrees_below(64),
{
    lemma_table_entry(48); lemma_table_entry(49); lemma_table_entry(50); lemma_table_entry(51); lemma_table_entry(52); lemma_table_entry(53); lemma_table_entry(54); lemma_table_entry(55);
    lemma_table_entry(56); lemma_table_entry(57); lemma_table_entry(58); lemma_table_entry(59); lemma_table_entry(60); lemma_table_entry(61); lemma_table_entry(62); lemma_table_entry(63);
}

/// Entries 64 to 79 of the table follow the polynomial.
#[verifier::rlimit(100)]
proof fn lemma_table_block_4()
    requires
        table_agrees_below(64),
    ensures
        table_agrees_below(80),
{
    lemma_table_entry(64); lemma_table_entry(65); lemma_table_entry(66); lemma_table_entry(67); lemma_table_entry(68); lemma_table_entry(69); lemma_table_entry(70); lemma_table_entry(71);
    lemma_table_entry(72); lemma_table_entry(73); lemma_table_entry(74); lemma_table_entry(75); lemma_table_entry(76); lemma_table_entry(77); lemma_table_entry(78); lemma_table_entry(79);
}

/// Entries 80 to 95 of the table follow the polynomial.
#[verifier::rlimit(100)]
proof fn lemma_table_block_5()
    requires
        table_agrees_below(80),
    ensures
        table_agrees_below(96),
{
    lemma_table_entry(80); lemma_table_entry(81); lemma_table_entry(82); lemma_table_entry(83); lemma_table_entry(84); lemma_table_entry(85); lemma_table_entry(86); lemma_table_entry(87);
    lemma_table_entry(88); lemma_table_entry(89); lemma_table_entry(90); lemma_table_entry(91); lemma_table_entry(92); lemma_table_entry(93); lemma_table_entry(94); lemma_table_entry(95);
}

/// Entries 96 to 111 of the table follow the polynomial.
#[verifier::rlimit(100)]
proof fn lemma_table_block_6()
    requires
        table_agrees_below(96),
    ensures
        table_agrees_below(112),
{
    lemma_table_entry(96); lemma_table_entry(97); lemma_table_entry(98); lemma_table_entry(99); lemma_table_entry(100); lemma_table_entry(101); lemma_table_entry(102); lemma_table_entry(103);
    lemma_table_entry(104); lemma_table_entry(105); lemma_table_entry(106); lemma_table_entry(107); lemma_table_entry(108); lemma_table_entry(109); lemma_table_entry(110); lemma_table_entry(111);
}

/// Entries 112 to 127 of the table follow the polynomial.
#[verifier::rlimit(100)]
proof fn lemma_table_block_7()
    requires
        table_agrees_below(112),
    ensures
        table_agrees_below(128),
{
    lemma_table_entry(112); lemma_table_entry(113); lemma_table_entry(114); lemma_table_entry(115); lemma_table_entry(116); lemma_table_entry(117); lemma_table_entry(118); lemma_table_entry(119);
    lemma_table_entry(120); lemma_table_entry(121); lemma_table_entry(122); lemma_table_entry(123); lemma_table_entry(124); lemma_table_entry(125); lemma_table_entry(126); lemma_table_entry(127);
}

/// Entries 128 to 143 of the table follow the polynomial.
#[verifier::rlimit(100)]
proof fn lemma_table_block_8()
    requires
        table_agrees_below(128),
    ensures
        table_agrees_below(144),
{
    lemma_table_entry(128); lemma_table_entry(129); lemma_table_entry(130); lemma_table_entry(131); lemma_table_entry(132); lemma_table_entry(133); lemma_table_entry(134); lemma_table_entry(135);
    lemma_table_entry(136); lemma_table_entry(137); lemma_table_entry(138); lemma_table_entry(139); lemma_table_entry(140); lemma_table_entry(141); lemma_table_entry(142); lemma_table_entry(143);
}

/// Entries 144 to 159 of the table follow the polynomial.
#[verifier::rlimit(100)]
proof fn lemma_table_block_9()
    requires
        table_agrees_below(144),
    ensures
        table_agrees_below(160),
{
    lemma_table_entry(144); lemma_table_entry(145); lemma_table_entry(146); lemma_table_entry(147); lemma_table_entry(148); lemma_table_entry(149); lemma_table_entry(150); lemma_table_entry(151);
    lemma_table_entry(152); lemma_table_entry(153); lemma_table_entry(154); lemma_table_entry(155); lemma_table_entry(156); lemma_table_entry(157); lemma_table_entry(158); lemma_table_entry(159);
}

/// Entries 160 to 175 of the table follow the polynomial.
#[verifier::rlimit(100)]
proof fn lemma_table_block_10()
    requires
        table_agrees_below(160),
    ensures
        table_agrees_below(176),
{
    lemma_table_entry(160); lemma_table_entry(161); lemma_table_entry(162); lemma_table_entry(163); lemma_table_entry(164); lemma_table_entry(165); lemma_table_entry(166); lemma_table_entry(167);
    lemma_table_entry(168); lemma_table_entry(169); lemma_table_entry(170); lemma_table_entry(171); lemma_table_entry(172); lemma_table_entry(173); lemma_table_entry(174); lemma_table_entry(175);
}

/// Entries 176 to 191 of the table follow the polynomial.
#[verifier::rlimit(100)]
proof fn lemma_table_block_11()
    requires
        table_agrees_below(176),
    ensures
        table_agrees_below(192),
{
    lemma_table_entry(176); lemma_table_entry(177); lemma_table_entry(178); lemma_table_entry(179); lemma_table_entry(180); lemma_table_entry(181); lemma_table_entry(182); lemma_table_entry(183);
    lemma_table_entry(184); lemma_table_entry(185); lemma_table_entry(186); lemma_table_entry(187); lemma_table_entry(188); lemma_table_entry(189); lemma_table_entry(190); lemma_table_entry(191);
}

/// Entries 192 to 207 of the table follow the polynomial.
#[verifier::rlimit(100)]
proof fn lemma_table_block_12()
    requires
        table_agrees_below(192),
    ensures
        table_agrees_below(208),
{
    lemma_table_entry(192); lemma_table_entry(193); lemma_table_entry(194); lemma_table_entry(195); lemma_table_entry(196); lemma_table_entry(197); lemma_table_entry(198); lemma_table_entry(199);
    lemma_table_entry(200); lemma_table_entry(201); lemma_table_entry(202); lemma_table_entry(203); lemma_table_entry(204); lemma_table_entry(205); lemma_table_entry(206); lemma_table_entry(207);
}

/// Entries 208 to 223 of the table follow the polynomial.
#[verifier::rlimit(100)]
proof fn lemma_table_block_13()
    requires
        table_agrees_below(208),
    ensures
        table_agrees_below(224),
{
    lemma_table_entry(208); lemma_table_entry(209); lemma_table_entry(210); lemma_table_entry(211); lemma_table_entry(212); lemma_table_entry(213); lemma_table_entry(214); lemma_table_entry(215);
    lemma_table_entry(216); lemma_table_entry(217); lemma_table_entry(218); lemma_table_entry(219); lemma_table_entry(220); lemma_table_entry(221); lemma_table_entry(222); lemma_table_entry(223);
}

/// Entries 224 to 239 of the table follow the polynomial.
#[verifier::rlimit(100)]
proof fn lemma_table_block_14()
    requires
        table_agrees_below(224),
    ensures
        table_agrees_below(240),
{
    lemma_table_entry(224); lemma_table_entry(225); lemma_table_entry(226); lemma_table_entry(227); lemma_table_entry(228); lemma_table_entry(229); lemma_table_entry(230); lemma_table_entry(231);
    lemma_table_entry(232); lemma_table_entry(233); lemma_table_entry(234); lemma_table_entry(235); lemma_table_entry(236); lemma_table_entry(237); lemma_table_entry(238); lemma_table_entry(239);
}

/// Entries 240 to 255 of the table follow the polynomial.
#[verifier::rlimit(100)]
proof fn lemma_table_block_15()
    requires
        table_agrees_below(240),
    ensures
        table_agrees_below(256),
{
    lemma_table_entry(240); lemma_table_entry(241); lemma_table_entry(242); lemma_table_entry(243); lemma_table_entry(244); lemma_table_entry(245); lemma_table_entry(246); lemma_table_entry(247);
    lemma_table_entry(248); lemma_table_entry(249); lemma_table_entry(250); lemma_table_entry(251); lemma_table_entry(252); lemma_table_entry(253); lemma_table_entry(254); lemma_table_entry(255);
}

/// Every entry of the table is the polynomial division of its index.
proof fn lemma_table_agrees()
    ensures
        table_agrees_below(256),
{
    reveal(table_agrees_below);
    assert(table_agrees_below(0));
    lemma_table_block_0();
    lemma_table_block_1();
    lemma_table_block_2();
    lemma_table_block_3();
    lemma_table_block_4();
    lemma_table_block_5();
    lemma_table_block_6();
    lemma_table_block_7();
    lemma_table_block_8();
    lemma_table_block_9();
    lemma_table_block_10();
    lemma_table_block_11();
    lemma_table_block_12();
    lemma_table_block_13();
    lemma_table_block_14();
    lemma_table_block_15();
}

/// The table-driven checksum is the CRC-8 of polynomial 0x07 with initial value 0, no
/// reflection and no final xor: it agrees with bitwise polynomial division on every input.
pub proof fn lemma_crc8_is_polynomial_division(data: Seq<u8>)
    ensures
        spec_crc8(data) == spec_crc8_bitwise(data),
    decreases data.len(),
{
    if data.len() > 0 {
        lemma_crc8_is_polynomial_division(data.drop_last());
        let s = spec_crc8(data.drop_last());
        let l = data.last();
        let x = l ^ s;
        assert(s ^ l == x) by (bit_vector)
            requires
                x == l ^ s,
        ;
        lemma_table_agrees();
        reveal(table_agrees_below);
        assert(CRC8_TABLE@[x as int] as int == poly_byte_arith(x as int));
        lemma_poly_byte_arith(x);
    }
}

/// Appending the checksum of a sequence to it gives a sequence whose checksum is zero.
pub proof fn lemma_crc8_residue(data: Seq<u8>)
    ensures
        spec_crc8(data.push(spec_crc8(data))) == 0,
{
    let c = spec_crc8(data);
    assert(data.push(c).drop_last() =~= data);
    assert(c ^ c == 0) by (bit_vector);
}

/// A byte `c` appended to `data` is its checksum exactly when the checksum of the whole is
/// zero: the check a receiver makes over a message and its checksum byte.
pub proof fn lemma_crc8_check(data: Seq<u8>, c: u8)
    ensures
        spec_crc8(data.push(c)) == 0 <==> c == spec_crc8(data),
{
    let s = spec_crc8(data);
    let x = c ^ s;
    assert(data.push(c).drop_last() =~= data);
    lemma_table_agrees();
    reveal(table_agrees_below);
    assert(CRC8_TABLE@[x as int] as int == poly_byte_arith(x as int));
    lemma_poly_byte_arith(x);
    assert(poly_byte(x) == 0 ==> x == 0) by (bit_vector);
    assert(x == 0 <==> c == s) by (bit_vector)
        requires
            x == c ^ s,
    ;
    assert(x == 0 ==> CRC8_TABLE@[x as int] == 0);
}

} // verus!
