use vstd::prelude::*;

verus! {

/// A position in the Barycentric Celestial Reference System.
#[derive(Clone, Copy, Debug)]
pub struct BCRS<V>(pub V);

/// A position in the International Celestial Reference System.
#[derive(Clone, Copy, Debug)]
pub struct ICRS<V>(pub V);

/// A position in the Geocentric Celestial Reference System.
#[derive(Clone, Copy, Debug)]
pub struct GCRS<V>(pub V);

/// A position in the International Terrestrial Reference System.
#[derive(Clone, Copy, Debug)]
pub struct ITRS<V>(pub V);

/// A position in the True Equator, Mean Equinox frame.
#[derive(Clone, Copy, Debug)]
pub struct TEME<V>(pub V);

} // verus!
