use stellar::classify::{
    band_at, find_band, get_luminosity_class, get_spectral_class, get_spectral_class_from_temp,
};

#[test]
fn luminosity_class() {
    assert_eq!(get_luminosity_class("III"), "Giant");
    assert_eq!(get_luminosity_class("Ib"), "Supergiant");
}

#[test]
fn luminosity_class_names_every_code() {
    assert_eq!(get_luminosity_class("Iab"), "Supergiant");
    assert_eq!(get_luminosity_class("Ia"), "Supergiant");
    assert_eq!(get_luminosity_class("Ia+"), "Hypergiant");
}

#[test]
fn luminosity_class_without_a_name_is_empty() {
    assert_eq!(get_luminosity_class("V"), "");
    assert_eq!(get_luminosity_class("I"), "");
    assert_eq!(get_luminosity_class(""), "");
    assert_eq!(get_luminosity_class("iii"), "");
    assert_eq!(get_luminosity_class("III "), "");
    assert_eq!(get_luminosity_class("Ia++"), "");
}

#[test]
fn spectral_class_of_golden_temperatures() {
    assert_eq!(get_spectral_class_from_temp(16991), "B7");
    assert_eq!(get_spectral_class_from_temp(5436), "G8");
    assert_eq!(get_spectral_class_from_temp(7337), "F2");
    assert_eq!(get_spectral_class_from_temp(8390), "A7");
    assert_eq!(get_spectral_class_from_temp(3839), "K10");
    assert_eq!(get_spectral_class_from_temp(5106), "K1");
    assert_eq!(get_spectral_class_from_temp(10556), "B10");
}

#[test]
fn spectral_class_at_the_ends_of_each_band() {
    assert_eq!(get_spectral_class_from_temp(2200), "M10");
    assert_eq!(get_spectral_class_from_temp(2349), "M10");
    assert_eq!(get_spectral_class_from_temp(2350), "M9");
    assert_eq!(get_spectral_class_from_temp(3699), "M1");
    assert_eq!(get_spectral_class_from_temp(3701), "K10");
    assert_eq!(get_spectral_class_from_temp(5201), "G10");
    assert_eq!(get_spectral_class_from_temp(5279), "G10");
    assert_eq!(get_spectral_class_from_temp(5280), "G9");
    assert_eq!(get_spectral_class_from_temp(6001), "F10");
    assert_eq!(get_spectral_class_from_temp(7501), "A10");
    assert_eq!(get_spectral_class_from_temp(10001), "B10");
    assert_eq!(get_spectral_class_from_temp(29999), "B1");
    assert_eq!(get_spectral_class_from_temp(30001), "O10");
    assert_eq!(get_spectral_class_from_temp(32500), "O9");
    assert_eq!(get_spectral_class_from_temp(49999), "O3");
    assert_eq!(get_spectral_class_from_temp(50000), "O2");
}

#[test]
fn spectral_class_where_two_bands_meet_is_the_cooler() {
    assert_eq!(get_spectral_class_from_temp(3700), "M0");
    assert_eq!(get_spectral_class_from_temp(5200), "K0");
    assert_eq!(get_spectral_class_from_temp(6000), "G0");
    assert_eq!(get_spectral_class_from_temp(7500), "F0");
    assert_eq!(get_spectral_class_from_temp(10000), "A0");
    assert_eq!(get_spectral_class_from_temp(30000), "B0");
}

#[test]
fn spectral_class_outside_all_bands_has_no_letter() {
    assert_eq!(get_spectral_class_from_temp(0), "0");
    assert_eq!(get_spectral_class_from_temp(2199), "0");
    assert_eq!(get_spectral_class_from_temp(50001), "0");
    assert_eq!(get_spectral_class_from_temp(u32::MAX), "0");
}

#[test]
fn subclass_stays_between_zero_and_ten() {
    let mut temp: u32 = 2000;
    while temp <= 51000 {
        let class = get_spectral_class_from_temp(temp);
        let digits = match find_band(temp) {
            Some(index) => {
                let letter = band_at(index).letter;
                assert!(class.starts_with(letter));
                &class[1..]
            }
            None => &class[..],
        };
        let subclass: u32 = digits.parse().unwrap();
        assert!(subclass <= 10, "{} at {}", class, temp);
        assert_eq!(subclass.to_string(), digits);
        temp += 1;
    }
}

#[test]
fn bands_are_found_in_order() {
    assert_eq!(find_band(2199), None);
    assert_eq!(find_band(2200), Some(0));
    assert_eq!(find_band(3700), Some(0));
    assert_eq!(find_band(3701), Some(1));
    assert_eq!(find_band(5436), Some(2));
    assert_eq!(find_band(7337), Some(3));
    assert_eq!(find_band(8390), Some(4));
    assert_eq!(find_band(16991), Some(5));
    assert_eq!(find_band(30001), Some(6));
    assert_eq!(find_band(50000), Some(6));
    assert_eq!(find_band(50001), None);
    let hottest = band_at(6);
    assert_eq!((hottest.low, hottest.high, hottest.letter, hottest.width), (30000, 50000, 'O', 2500));
    let coolest = band_at(0);
    assert_eq!((coolest.low, coolest.high, coolest.letter, coolest.width), (2200, 3700, 'M', 150));
}

#[test]
fn color_of_each_letter() {
    assert_eq!(get_spectral_class("O5"), "Blue");
    assert_eq!(get_spectral_class("B7"), "Blue-White");
    assert_eq!(get_spectral_class("A7"), "White");
    assert_eq!(get_spectral_class("F2"), "Yellow-White");
    assert_eq!(get_spectral_class("G8"), "Yellow");
    assert_eq!(get_spectral_class("K10"), "Orange");
    assert_eq!(get_spectral_class("M0"), "Red");
    assert_eq!(get_spectral_class("D"), "Degenerate");
}

#[test]
fn color_of_an_unknown_letter_is_none() {
    assert_eq!(get_spectral_class("0"), "None");
    assert_eq!(get_spectral_class("g8"), "None");
    assert_eq!(get_spectral_class("X1"), "None");
    assert_eq!(get_spectral_class("\u{e9}toile"), "None");
}
