//! Spectral class and colour of a temperature, and the names of the
//! luminosity classes.

use vstd::prelude::*;
use crate::text::same_text;

verus! {

/// How many temperature bands there are.
pub const BAND_COUNT: usize = 7;

/// The greatest subclass number; the cool end of a band has it.
pub const SUBCLASS_MAX: u32 = 10;

/// A band of temperatures that share a spectral letter. Both ends belong to
/// the band. Subclasses count down from ten at `low`, one per `width` Kelvin.
#[derive(Clone, Copy, Debug, PartialEq, Eq, Structural)]
pub struct SpectralBand {
    pub low: u32,
    pub high: u32,
    pub letter: char,
    pub width: u32,
}

/// The bands from coolest to hottest. A temperature where two bands meet
/// belongs to the cooler one, which comes first.
pub open spec fn spectral_band(index: int) -> SpectralBand {
    if index == 0 {
        SpectralBand { low: 2200, high: 3700, letter: 'M', width: 150 }
    } else if index == 1 {
        SpectralBand { low: 3700, high: 5200, letter: 'K', width: 150 }
    } else if index == 2 {
        SpectralBand { low: 5200, high: 6000, letter: 'G', width: 80 }
    } else if index == 3 {
        SpectralBand { low: 6000, high: 7500, letter: 'F', width: 150 }
    } else if index == 4 {
        SpectralBand { low: 7500, high: 10000, letter: 'A', width: 250 }
    } else if index == 5 {
        SpectralBand { low: 10000, high: 30000, letter: 'B', width: 2000 }
    } else {
        SpectralBand { low: 30000, high: 50000, letter: 'O', width: 2500 }
    }
}

impl SpectralBand {
    /// Whether `temp` lies in the band, ends included.
    pub open spec fn holds(self, temp: u32) -> bool {
        self.low <= temp <= self.high
    }

    /// The subclass of `temp`: ten less the whole widths that `temp` lies
    /// above `low`.
    pub open spec fn subclass(self, temp: u32) -> int {
        SUBCLASS_MAX - (temp - self.low) / (self.width as int)
    }
}

/// The first band at or after `from` that holds `temp`, if there is one.
pub open spec fn band_from(temp: u32, from: int) -> Option<int>
    decreases BAND_COUNT - from,
{
    if from < 0 || from >= BAND_COUNT {
        None
    } else if spectral_band(from).holds(temp) {
        Some(from)
    } else {
        band_from(temp, from + 1)
    }
}

/// The band of `temp`: the first that holds it.
pub open spec fn band_of(temp: u32) -> Option<int> {
    band_from(temp, 0)
}

/// The character of a decimal digit.
pub open spec fn digit_char(digit: nat) -> char
    recommends
        digit < 10,
{
    ('0' as u8 + digit) as char
}

/// A number in decimal, without sign or leading zeros.
pub open spec fn decimal_text(n: nat) -> Seq<char>
    decreases n,
{
    if n < 10 {
        seq![digit_char(n)]
    } else {
        decimal_text(n / 10).push(digit_char(n % 10))
    }
}

/// The spectral class of a temperature: the letter of its band, then its
/// subclass in decimal. A temperature in no band has the class `0`, without a
/// letter.
pub open spec fn spectral_class_text(temp: u32) -> Seq<char> {
    match band_of(temp) {
        Some(index) => seq![spectral_band(index).letter] + decimal_text(
            spectral_band(index).subclass(temp) as nat,
        ),
        None => decimal_text(0),
    }
}

/// The colour that goes with the first character of a spectral class.
pub open spec fn color_name(first: char) -> Seq<char> {
    if first == 'O' {
        "Blue"@
    } else if first == 'B' {
        "Blue-White"@
    } else if first == 'A' {
        "White"@
    } else if first == 'F' {
        "Yellow-White"@
    } else if first == 'G' {
        "Yellow"@
    } else if first == 'K' {
        "Orange"@
    } else if first == 'M' {
        "Red"@
    } else if first == 'D' {
        "Degenerate"@
    } else {
        "None"@
    }
}

/// The name of a luminosity class code; empty for a code without a name.
pub open spec fn luminosity_class_name(code: Seq<char>) -> Seq<char> {
    if code == "III"@ {
        "Giant"@
    } else if code == "Ib"@ || code == "Iab"@ || code == "Ia"@ {
        "Supergiant"@
    } else if code == "Ia+"@ {
        "Hypergiant"@
    } else {
        ""@
    }
}

/// In every band the subclass runs from zero to ten.
pub proof fn subclass_in_range(index: int, temp: u32)
    requires
        0 <= index < BAND_COUNT,
        spectral_band(index).holds(temp),
    ensures
        0 <= spectral_band(index).subclass(temp) <= SUBCLASS_MAX,
{
    let band = spectral_band(index);
    let above = temp - band.low;
    assert(0 <= above / (band.width as int) <= 10) by {
        if index == 0 || index == 1 || index == 3 {
            assert(0 <= above / 150 <= 10);
        } else if index == 2 {
            assert(0 <= above / 80 <= 10);
        } else if index == 4 {
            assert(0 <= above / 250 <= 10);
        } else if index == 5 {
            assert(0 <= above / 2000 <= 10);
        } else {
            assert(0 <= above / 2500 <= 10);
        }
    }
}

/// The bands leave no temperature out between the coolest band's low end
/// and the hottest band's high end, and hold none beyond.
pub proof fn bands_are_contiguous(temp: u32)
    ensures
        band_of(temp).is_some() <==> spectral_band(0).low <= temp <= spectral_band(
            BAND_COUNT - 1,
        ).high,
{
    reveal_with_fuel(band_from, 8);
}

/// The band at `index`.
pub fn band_at(index: usize) -> (band: SpectralBand)
    requires
        index < BAND_COUNT,
    ensures
        band == spectral_band(index as int),
{
    if index == 0 {
        SpectralBand { low: 2200, high: 3700, letter: 'M', width: 150 }
    } else if index == 1 {
        SpectralBand { low: 3700, high: 5200, letter: 'K', width: 150 }
    } else if index == 2 {
        SpectralBand { low: 5200, high: 6000, letter: 'G', width: 80 }
    } else if index == 3 {
        SpectralBand { low: 6000, high: 7500, letter: 'F', width: 150 }
    } else if index == 4 {
        SpectralBand { low: 7500, high: 10000, letter: 'A', width: 250 }
    } else if index == 5 {
        SpectralBand { low: 10000, high: 30000, letter: 'B', width: 2000 }
    } else {
        SpectralBand { low: 30000, high: 50000, letter: 'O', width: 2500 }
    }
}

/// The letter of the band at `index`, as a text.
fn band_letter(index: usize) -> (letter: &'static str)
    requires
        index < BAND_COUNT,
    ensures
        letter@ == seq![spectral_band(index as int).letter],
{
    let letter = if index == 0 {
        "M"
    } else if index == 1 {
        "K"
    } else if index == 2 {
        "G"
    } else if index == 3 {
        "F"
    } else if index == 4 {
        "A"
    } else if index == 5 {
        "B"
    } else {
        "O"
    };
    proof {
        reveal_strlit("M");
        reveal_strlit("K");
        reveal_strlit("G");
        reveal_strlit("F");
        reveal_strlit("A");
        reveal_strlit("B");
        reveal_strlit("O");
        assert(letter@ =~= seq![spectral_band(index as int).letter]);
    }
    letter
}

/// A subclass number in decimal.
fn subclass_text(subclass: u32) -> (text: &'static str)
    requires
        subclass <= SUBCLASS_MAX,
    ensures
        text@ == decimal_text(subclass as nat),
{
    let text = if subclass == 0 {
        "0"
    } else if subclass == 1 {
        "1"
    } else if subclass == 2 {
        "2"
    } else if subclass == 3 {
        "3"
    } else if subclass == 4 {
        "4"
    } else if subclass == 5 {
        "5"
    } else if subclass == 6 {
        "6"
    } else if subclass == 7 {
        "7"
    } else if subclass == 8 {
        "8"
    } else if subclass == 9 {
        "9"
    } else {
        "10"
    };
    proof {
        reveal_strlit("0");
        reveal_strlit("1");
        reveal_strlit("2");
        reveal_strlit("3");
        reveal_strlit("4");
        reveal_strlit("5");
        reveal_strlit("6");
        reveal_strlit("7");
        reveal_strlit("8");
        reveal_strlit("9");
        reveal_strlit("10");
        reveal_with_fuel(decimal_text, 2);
        assert(text@ =~= decimal_text(subclass as nat));
    }
    text
}

/// Finds the band of `temp` by going through the bands from the coolest.
pub fn find_band(temp: u32) -> (found: Option<usize>)
    ensures
        match found {
            Some(index) => {
                &&& index < BAND_COUNT
                &&& band_of(temp) == Some(index as int)
                &&& spectral_band(index as int).holds(temp)
            },
            None => band_of(temp).is_none(),
        },
{
    let mut index: usize = 0;
    while index < BAND_COUNT
        invariant
            index <= BAND_COUNT,
            band_of(temp) == band_from(temp, index as int),
        decreases BAND_COUNT - index,
    {
        let band = band_at(index);
        if band.low <= temp && temp <= band.high {
            return Some(index);
        }
        index += 1;
    }
    None
}

/// The spectral class of a star of temperature `temp`, in Kelvin.
pub fn get_spectral_class_from_temp(temp: u32) -> (class: String)
    ensures
        class@ == spectral_class_text(temp),
{
    match find_band(temp) {
        Some(index) => {
            let band = band_at(index);
            proof {
                subclass_in_range(index as int, temp);
            }
            let subclass: u32 = SUBCLASS_MAX - (temp - band.low) / band.width;
            let mut class = band_letter(index).to_owned();
            class.append(subclass_text(subclass));
            class
        },
        None => subclass_text(0).to_owned(),
    }
}

/// The colour of a star of the given spectral class, which goes by the
/// class's first character.
pub fn get_spectral_class(spectral_class: &str) -> (color: String)
    requires
        spectral_class@.len() > 0,
    ensures
        color@ == color_name(spectral_class@[0]),
{
    let first = spectral_class.get_char(0);
    let color = if first == 'O' {
        "Blue"
    } else if first == 'B' {
        "Blue-White"
    } else if first == 'A' {
        "White"
    } else if first == 'F' {
        "Yellow-White"
    } else if first == 'G' {
        "Yellow"
    } else if first == 'K' {
        "Orange"
    } else if first == 'M' {
        "Red"
    } else if first == 'D' {
        "Degenerate"
    } else {
        "None"
    };
    color.to_owned()
}

/// The name of the luminosity class with the given code.
pub fn get_luminosity_class(luminosity_class: &str) -> (name: String)
    ensures
        name@ == luminosity_class_name(luminosity_class@),
{
    let name = if same_text(luminosity_class, "III") {
        "Giant"
    } else if same_text(luminosity_class, "Ib") || same_text(luminosity_class, "Iab")
        || same_text(luminosity_class, "Ia") {
        "Supergiant"
    } else if same_text(luminosity_class, "Ia+") {
        "Hypergiant"
    } else {
        ""
    };
    name.to_owned()
}

} // verus!
