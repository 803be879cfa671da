use rand::rngs::StdRng;
use rand::Rng;
use rand::SeedableRng;
use stellar::binary64::Binary64;
use stellar::sampler::{get_weighted_bv, get_weighted_luminosity_class, BvDraw};
use stellar::seed::{create_hash, create_seed, create_seeded_rng, to_hex};

fn number(b: Binary64) -> f64 {
    f64::from_bits(b.to_bits())
}

fn pattern(x: f64) -> Binary64 {
    Binary64::from_bits(x.to_bits())
}

fn sample_bv(rng: &mut StdRng) -> f64 {
    let draw: f64 = rng.gen_range(0.0, 100.0);
    match get_weighted_bv(pattern(draw)) {
        BvDraw::Uniform { low, high } => rng.gen_range(number(low), number(high)),
        BvDraw::Fixed { bv } => number(bv),
    }
}

fn sample_luminosity_class(rng: &mut StdRng) -> String {
    let draw: f64 = rng.gen_range(0.0, 100.0);
    get_weighted_luminosity_class(pattern(draw))
}

fn range_of(draw: f64) -> (f64, f64) {
    match get_weighted_bv(pattern(draw)) {
        BvDraw::Uniform { low, high } => (number(low), number(high)),
        BvDraw::Fixed { bv } => panic!("no range for {:?}, but {:?}", draw, number(bv)),
    }
}

#[test]
fn weighted_bv() {
    let mut rng = create_seeded_rng("miseryofbodiesofcities");
    let bv = sample_bv(&mut rng);

    assert_eq!(bv, 1.5585082177397616);
}

#[test]
fn weighted_luminosity_flags() {
    let mut rng = create_seeded_rng("thestarsmydestination");
    let mut type_o = 0;
    let mut type_i = 0;
    let mut type_ia = 0;
    let mut type_ii = 0;
    let mut type_iii = 0;
    let mut type_v = 0;

    for _ in 0..500000 {
        let mkk = sample_luminosity_class(&mut rng);
        if mkk == "O" {
            type_o = type_o + 1;
        }
        if mkk == "I" {
            type_i = type_i + 1;
        }
        if mkk == "Ia" {
            type_ia = type_ia + 1;
        }
        if mkk == "II" {
            type_ii = type_ii + 1;
        }
        if mkk == "III" {
            type_iii = type_iii + 1;
        }
        if mkk == "V" {
            type_v = type_v + 1;
        }
    }
    assert_eq!(type_o, 0);
    assert_eq!(type_i, 1);
    assert_eq!(type_ia, 3);
    assert_eq!(type_ii, 0);
    assert_eq!(type_iii, 42315);
    assert_eq!(type_v, 457681);
}

#[test]
fn hash_is_the_digest_in_hexadecimal() {
    assert_eq!(
        String::from_utf8(create_hash("abc")).unwrap(),
        "ba7816bf8f01cfea414140de5dae2223b00361a396177a9cb410ff61f20015ad"
    );
    assert_eq!(
        String::from_utf8(create_hash("")).unwrap(),
        "e3b0c44298fc1c149afbf4c8996fb92427ae41e4649b934ca495991b7852b855"
    );
}

#[test]
fn hash_reads_the_text_as_utf8() {
    assert_eq!(
        String::from_utf8(create_hash("\u{e9}toile")).unwrap(),
        "e4729c715e44d9445358f398d2301b5d6bc030b9f93fa69eabf1b23c16d9c54f"
    );
}

#[test]
fn hexadecimal_puts_the_high_half_first() {
    assert_eq!(to_hex(&[]), b"".to_vec());
    assert_eq!(to_hex(&[0x00]), b"00".to_vec());
    assert_eq!(to_hex(&[0x0a, 0x14, 0x1e]), b"0a141e".to_vec());
    assert_eq!(to_hex(&[0x9f, 0xa0, 0xff, 0x10]), b"9fa0ff10".to_vec());
    assert_eq!(
        to_hex(&[0x01, 0x23, 0x45, 0x67, 0x89, 0xab, 0xcd, 0xef]),
        b"0123456789abcdef".to_vec()
    );
}

const ABC_DIGEST: [u8; 32] = [
    0xba, 0x78, 0x16, 0xbf, 0x8f, 0x01, 0xcf, 0xea, 0x41, 0x41, 0x40, 0xde, 0x5d, 0xae, 0x22, 0x23,
    0xb0, 0x03, 0x61, 0xa3, 0x96, 0x17, 0x7a, 0x9c, 0xb4, 0x10, 0xff, 0x61, 0xf2, 0x00, 0x15, 0xad,
];

const EMPTY_DIGEST: [u8; 32] = [
    0xe3, 0xb0, 0xc4, 0x42, 0x98, 0xfc, 0x1c, 0x14, 0x9a, 0xfb, 0xf4, 0xc8, 0x99, 0x6f, 0xb9, 0x24,
    0x27, 0xae, 0x41, 0xe4, 0x64, 0x9b, 0x93, 0x4c, 0xa4, 0x95, 0x99, 0x1b, 0x78, 0x52, 0xb8, 0x55,
];

#[test]
fn seed_is_the_digest() {
    assert_eq!(create_seed("abc"), ABC_DIGEST);
    assert_eq!(create_seed(""), EMPTY_DIGEST);
    assert_eq!(to_hex(&create_seed("missmodular")), create_hash("missmodular"));
    assert_ne!(create_seed("abc").to_vec(), create_hash("abc")[..32].to_vec());
}

#[test]
fn generator_is_made_from_the_digest() {
    for (text, digest) in [("abc", ABC_DIGEST), ("", EMPTY_DIGEST)] {
        let mut ours = create_seeded_rng(text);
        let mut theirs = StdRng::from_seed(digest);
        let mut plain = StdRng::from_seed([0u8; 32]);
        let mut differs = false;
        for _ in 0..16 {
            let x: u64 = ours.gen();
            let y: u64 = theirs.gen();
            let z: u64 = plain.gen();
            assert_eq!(x, y);
            differs = differs || x != z;
        }
        assert!(differs);
    }
}

#[test]
fn generator_is_not_made_from_the_hexadecimal_text() {
    let mut ours = create_seeded_rng("");
    let mut other = StdRng::from_seed(*b"e3b0c44298fc1c149afbf4c8996fb924");
    let a: Vec<u64> = (0..8).map(|_| ours.gen()).collect();
    let b: Vec<u64> = (0..8).map(|_| other.gen()).collect();
    assert_ne!(a, b);
}

#[test]
fn reseeding_with_the_same_text_repeats_the_samples() {
    let mut first = create_seeded_rng("thestarsmydestination");
    let mut second = create_seeded_rng("thestarsmydestination");
    for _ in 0..1000 {
        let a = sample_bv(&mut first);
        let b = sample_bv(&mut second);
        assert_eq!(a.to_bits(), b.to_bits());
        assert_eq!(sample_luminosity_class(&mut first), sample_luminosity_class(&mut second));
    }
}

#[test]
fn another_text_gives_other_samples() {
    let mut first = create_seeded_rng("thestarsmydestination");
    let mut second = create_seeded_rng("miseryofbodiesofcities");
    let a: Vec<u64> = (0..8).map(|_| sample_bv(&mut first).to_bits()).collect();
    let b: Vec<u64> = (0..8).map(|_| sample_bv(&mut second).to_bits()).collect();
    assert_ne!(a, b);
}

#[test]
fn sampled_bv_stays_in_bounds() {
    let mut rng = create_seeded_rng("missmodular");
    for _ in 0..100000 {
        let bv = sample_bv(&mut rng);
        assert!(-0.33 <= bv && bv < 3.17, "{:?}", bv);
    }
}

#[test]
fn bv_rows_hold_their_upper_ends() {
    assert_eq!(range_of(0.0), (-0.33, -0.3));
    assert_eq!(range_of(0.005), (-0.33, -0.3));
    assert_eq!(range_of(0.01), (-0.33, -0.3));
    assert_eq!(range_of(0.010000000000000002), (-0.3, -0.02));
    assert_eq!(range_of(0.13), (-0.3, -0.02));
    assert_eq!(range_of(0.2), (-0.02, 0.3));
    assert_eq!(range_of(0.73), (-0.02, 0.3));
    assert_eq!(range_of(1.0), (0.3, 0.58));
    assert_eq!(range_of(3.73), (0.3, 0.58));
    assert_eq!(range_of(5.0), (0.58, 0.81));
    assert_eq!(range_of(11.33), (0.58, 0.81));
    assert_eq!(range_of(11.73), (0.81, 1.40));
    assert_eq!(range_of(22.43), (0.81, 1.40));
    assert_eq!(range_of(23.0), (0.81, 1.40));
    assert_eq!(range_of(23.43), (0.81, 1.40));
    assert_eq!(range_of(23.430000000000003), (1.40, 3.17));
    assert_eq!(range_of(50.0), (1.40, 3.17));
    assert_eq!(range_of(99.99999999999999), (1.40, 3.17));
    assert_eq!(range_of(100.0), (1.40, 3.17));
}

#[test]
fn bv_draw_below_zero_is_in_the_first_row() {
    assert_eq!(range_of(-0.0), (-0.33, -0.3));
    assert_eq!(range_of(-1.0), (-0.33, -0.3));
    assert_eq!(range_of(f64::NEG_INFINITY), (-0.33, -0.3));
}

#[test]
fn bv_draw_in_no_row_gives_zero() {
    for draw in [100.00000000000001, 1e9, f64::INFINITY, f64::NAN] {
        match get_weighted_bv(pattern(draw)) {
            BvDraw::Fixed { bv } => assert_eq!(bv.to_bits(), 0.0f64.to_bits()),
            BvDraw::Uniform { low, high } => {
                panic!("{:?} gave {:?} to {:?}", draw, number(low), number(high))
            }
        }
    }
}

#[test]
fn luminosity_class_rows_begin_at_their_lower_ends() {
    assert_eq!(get_weighted_luminosity_class(pattern(0.0)), "Ia");
    assert_eq!(get_weighted_luminosity_class(pattern(0.0001)), "Ia");
    assert_eq!(get_weighted_luminosity_class(pattern(0.00024999999999999995)), "Ia");
    assert_eq!(get_weighted_luminosity_class(pattern(0.00025)), "I");
    assert_eq!(get_weighted_luminosity_class(pattern(0.00025000000000000006)), "I");
    assert_eq!(get_weighted_luminosity_class(pattern(0.0004999999999999999)), "I");
    assert_eq!(get_weighted_luminosity_class(pattern(0.0005)), "III");
    assert_eq!(get_weighted_luminosity_class(pattern(0.0005000000000000001)), "III");
    assert_eq!(get_weighted_luminosity_class(pattern(1.0)), "III");
    assert_eq!(get_weighted_luminosity_class(pattern(8.499999999999998)), "III");
    assert_eq!(get_weighted_luminosity_class(pattern(8.5)), "V");
    assert_eq!(get_weighted_luminosity_class(pattern(8.500000000000002)), "V");
    assert_eq!(get_weighted_luminosity_class(pattern(50.0)), "V");
    assert_eq!(get_weighted_luminosity_class(pattern(99.99999999999999)), "V");
}

#[test]
fn luminosity_class_draw_in_no_row_is_main_sequence() {
    assert_eq!(get_weighted_luminosity_class(pattern(100.0)), "V");
    assert_eq!(get_weighted_luminosity_class(pattern(100.5)), "V");
    assert_eq!(get_weighted_luminosity_class(pattern(f64::INFINITY)), "V");
    assert_eq!(get_weighted_luminosity_class(pattern(f64::NAN)), "V");
}

#[test]
fn luminosity_class_draw_below_zero_is_in_the_first_row() {
    assert_eq!(get_weighted_luminosity_class(pattern(-0.0)), "Ia");
    assert_eq!(get_weighted_luminosity_class(pattern(-1.0)), "Ia");
    assert_eq!(get_weighted_luminosity_class(pattern(f64::NEG_INFINITY)), "Ia");
}
