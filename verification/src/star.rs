//! The record of a star.

use vstd::prelude::*;
use crate::binary64::Binary64;
use crate::classify::{
    color_name, get_spectral_class, get_spectral_class_from_temp, spectral_class_text,
};

verus! {

/// A star: what was measured or computed of it, and the spectral class and
/// colour that follow from its temperature.
pub struct Star {
    /// Mass, in solar masses.
    pub mass: Binary64,
    /// Radius, in solar radii.
    pub radius: Binary64,
    /// Luminosity, in solar luminosities.
    pub luminosity: Binary64,
    /// Surface temperature, in Kelvin.
    pub temp: u32,
    /// Spectral class: a letter and a subclass number.
    pub spectral_class: String,
    /// Luminosity class code, as the caller gave it.
    pub luminosity_class: String,
    /// Colour name.
    pub color: String,
}

impl Star {
    /// The spectral class is the one of the temperature, and the colour the
    /// one of the spectral class.
    pub open spec fn well_formed(&self) -> bool {
        &&& self.spectral_class@ == spectral_class_text(self.temp)
        &&& self.color@ == color_name(self.spectral_class@[0])
    }

    /// The star of the given temperature, luminosity, radius and mass, with
    /// the spectral class and the colour of its temperature.
    pub fn from_measurements(
        temp: u32,
        luminosity: Binary64,
        radius: Binary64,
        mass: Binary64,
        luminosity_class: &str,
    ) -> (star: Star)
        ensures
            star.well_formed(),
            star.temp == temp,
            star.luminosity == luminosity,
            star.radius == radius,
            star.mass == mass,
            star.luminosity_class@ == luminosity_class@,
    {
        let spectral_class = get_spectral_class_from_temp(temp);
        let color = get_spectral_class(spectral_class.as_str());
        Star {
            mass,
            radius,
            luminosity,
            temp,
            spectral_class,
            luminosity_class: luminosity_class.to_owned(),
            color,
        }
    }
}

} // verus!
