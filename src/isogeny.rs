//! The constants of the 3-isogeny from the curve
//! `y^2 = x^3 + A' * x + 1771` to secp256k1, and of that curve.
use vstd::prelude::*;
use crate::field::{f_div, f_mul, f_neg, fq_modulus, lemma_inv_unique, Fe};

verus! {

/// The coefficient of `x^0` in the x numerator of the isogeny.
pub open spec fn k10() -> int {
    64328938465175664124206102782604393251816658147578091133031991115504908150983int
}

pub(crate) fn k10_fe() -> (r: Fe)
    ensures
        r.wf(),
        r@ == k10(),
{
    Fe::from_limbs([0x8e38e38daaaaa8c7, 0x38e38e38e38e38e3, 0xe38e38e38e38e38e, 0x8e38e38e38e38e38]).unwrap()
}

/// The coefficient of `x^1` in the x numerator of the isogeny.
pub open spec fn k11() -> int {
    3540463234204664767867377763959255381561641196938647754971861192896365225345int
}

pub(crate) fn k11_fe() -> (r: Fe)
    ensures
        r.wf(),
        r@ == k11(),
{
    Fe::from_limbs([0xdfff1044f17c6581, 0xd595d2fc0bf63b92, 0xb9f315cea7fd44c5, 0x07d3d4c80bc321d5]).unwrap()
}

/// The coefficient of `x^2` in the x numerator of the isogeny.
pub open spec fn k12() -> int {
    37676595701789655284650173187508961899444205326770530105295841645151729341026int
}

pub(crate) fn k12_fe() -> (r: Fe)
    ensures
        r.wf(),
        r@ == k12(),
{
    Fe::from_limbs([0x4ecbd0b53d9dd262, 0xe4506144037c4031, 0xe2a413deca25caec, 0x534c328d23f234e6]).unwrap()
}

/// The coefficient of `x^3` in the x numerator of the isogeny.
pub open spec fn k13() -> int {
    64328938465175664124206102782604393251816658147578091133031991115504908150924int
}

pub(crate) fn k13_fe() -> (r: Fe)
    ensures
        r.wf(),
        r@ == k13(),
{
    Fe::from_limbs([0x8e38e38daaaaa88c, 0x38e38e38e38e38e3, 0xe38e38e38e38e38e, 0x8e38e38e38e38e38]).unwrap()
}

/// The coefficient of `x^0` in the x denominator of the isogeny.
pub open spec fn k20() -> int {
    95592507323525948732419199626899895302164312317343489384240252208201861084315int
}

pub(crate) fn k20_fe() -> (r: Fe)
    ensures
        r.wf(),
        r@ == k20(),
{
    Fe::from_limbs([0x9fe6b745781eb49b, 0x86cd409542f8487d, 0x9ca34ccbb7b640dd, 0xd35771193d94918a]).unwrap()
}

/// The coefficient of `x^1` in the x denominator of the isogeny.
pub open spec fn k21() -> int {
    107505182841474506714709588670204841388457878609653642868747406790547894725908int
}

pub(crate) fn k21_fe() -> (r: Fe)
    ensures
        r.wf(),
        r@ == k21(),
{
    Fe::from_limbs([0xc52a56612a8c6d14, 0x06d36b641f5e41bb, 0xf7c4b2d51b542254, 0xedadc6f64383dc1d]).unwrap()
}

/// The coefficient of `x^0` in the y numerator of the isogeny.
pub open spec fn k30() -> int {
    34308767181427020866243254817389009734302217678708315270950395261602617680444int
}

pub(crate) fn k30_fe() -> (r: Fe)
    ensures
        r.wf(),
        r@ == k30(),
{
    Fe::from_limbs([0xa12f684b8e38e23c, 0x2f684bda12f684bd, 0x684bda12f684bda1, 0x4bda12f684bda12f]).unwrap()
}

/// The coefficient of `x^1` in the y numerator of the isogeny.
pub open spec fn k31() -> int {
    90176424683627901097894375140309208301239340832535417794535213712559228940707int
}

pub(crate) fn k31_fe() -> (r: Fe)
    ensures
        r.wf(),
        r@ == k31(),
{
    Fe::from_limbs([0xdffc90fc201d71a3, 0x647ab046d686da6f, 0xa9d0a54b12a0a6d5, 0xc75e0c32d5cb7c0f]).unwrap()
}

/// The coefficient of `x^2` in the y numerator of the isogeny.
pub open spec fn k32() -> int {
    18838297850894827642325086593754480949722102663385265052647920822575864670513int
}

pub(crate) fn k32_fe() -> (r: Fe)
    ensures
        r.wf(),
        r@ == k32(),
{
    Fe::from_limbs([0xa765e85a9ecee931, 0x722830a201be2018, 0x715209ef6512e576, 0x29a6194691f91a73]).unwrap()
}

/// The coefficient of `x^3` in the y numerator of the isogeny.
pub open spec fn k33() -> int {
    21442979488391888041402034260868131083938886049192697044343997038501636050308int
}

pub(crate) fn k33_fe() -> (r: Fe)
    ensures
        r.wf(),
        r@ == k33(),
{
    Fe::from_limbs([0x84bda12f38e38d84, 0xbda12f684bda12f6, 0xa12f684bda12f684, 0x2f684bda12f684bd]).unwrap()
}

/// The coefficient of `x^0` in the y denominator of the isogeny.
pub open spec fn k40() -> int {
    115792089237316195423570985008687907853269984665640564039457584007908834670907int
}

pub(crate) fn k40_fe() -> (r: Fe)
    ensures
        r.wf(),
        r@ == k40(),
{
    Fe::from_limbs([0xfffffffefffff93b, 0xffffffffffffffff, 0xffffffffffffffff, 0xffffffffffffffff]).unwrap()
}

/// The coefficient of `x^1` in the y denominator of the isogeny.
pub open spec fn k41() -> int {
    55193343495945455350115628863323870199952967620749340073805588608787913909619int
}

pub(crate) fn k41_fe() -> (r: Fe)
    ensures
        r.wf(),
        r@ == k41(),
{
    Fe::from_limbs([0xdfb425d2685c2573, 0x9467c1bfc8e8d978, 0xd5e9e6632722c298, 0x7a06534bb8bdb49f]).unwrap()
}

/// The coefficient of `x^2` in the y denominator of the isogeny.
pub open spec fn k42() -> int {
    45465685024895564648493397996619354229416833248839900263663526177913007417199int
}

pub(crate) fn k42_fe() -> (r: Fe)
    ensures
        r.wf(),
        r@ == k42(),
{
    Fe::from_limbs([0xa7bf8192bfd2a76f, 0x0a3d21162f0d6299, 0xf3a70c3fa8fe337e, 0x6484aa716545ca2c]).unwrap()
}

/// The coefficient `A'` of the isogenous curve.
pub open spec fn iso_a() -> int {
    28734576633528757162648956269730739219262246272443394170905244663053633733939int
}

pub(crate) fn iso_a_fe() -> (r: Fe)
    ensures
        r.wf(),
        r@ == iso_a(),
{
    Fe::from_limbs([0x405447c01a444533, 0xe953d363cb6f0e5d, 0xa08a5558f0f5d272, 0x3f8731abdd661adc]).unwrap()
}

/// `-B' / A'` for the isogenous curve.
pub open spec fn swu_c1() -> int {
    5324262023205125242632636178842408935272934169651804884418803605709653231043int
}

pub(crate) fn swu_c1_fe() -> (r: Fe)
    ensures
        r.wf(),
        r@ == swu_c1(),
{
    Fe::from_limbs([0xaa01d58e8d2345c3, 0x6df4ff98e82d74fd, 0xa00c4df5d3e87b0c, 0x0bc56cee718538b2]).unwrap()
}

/// The literal `C1` of the SWU maps is `-B' / A'` for `B' = 1771`.
pub proof fn lemma_swu_c1()
    ensures
        swu_c1() == f_div(f_neg(1771), iso_a()),
{
    let inv = 20330895251712101440704654828640935591999826254570617510664534061464674155650int;
    lemma_inv_unique(iso_a(), inv);
    assert(f_neg(1771) == fq_modulus() - 1771);
    assert(f_mul(fq_modulus() - 1771, inv) == swu_c1());
}

} // verus!
