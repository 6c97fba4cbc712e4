//! The parts of a GeoLite2 City record that the backend keeps; a part that
//! holds nothing is left out when a record is shown.
use vstd::prelude::*;

verus! {

/// Names of a place in the languages the bot shows.
#[derive(Clone, Debug)]
pub struct Names {
    pub german: Option<String>,
    pub english: Option<String>,
}

impl Names {
    /// The value that holds nothing (its `Default`).
    pub open spec fn empty_spec() -> Names {
        Names { german: None, english: None }
    }

    /// Every part is absent.
    pub open spec fn is_empty_spec(self) -> bool {
        self.german is None && self.english is None
    }

    /// Whether the value holds nothing, i.e. equals its default.
    pub fn is_empty(&self) -> (r: bool)
        ensures
            r == self.is_empty_spec(),
            r == (*self == Names::empty_spec()),
    {
        self.german.is_none() && self.english.is_none()
    }
}

impl Default for Names {
    fn default() -> (r: Names)
        ensures
            r == Names::empty_spec(),
    {
        Names { german: None, english: None }
    }
}

#[derive(Clone, Debug)]
pub struct City {
    pub geoname_id: Option<u32>,
    pub names: Names,
}

impl City {
    /// The value that holds nothing (its `Default`).
    pub open spec fn empty_spec() -> City {
        City { geoname_id: None, names: Names::empty_spec() }
    }

    /// Every part is absent.
    pub open spec fn is_empty_spec(self) -> bool {
        self.geoname_id is None && self.names.is_empty_spec()
    }

    /// Whether the value holds nothing, i.e. equals its default.
    pub fn is_empty(&self) -> (r: bool)
        ensures
            r == self.is_empty_spec(),
            r == (*self == City::empty_spec()),
    {
        self.geoname_id.is_none() && self.names.is_empty()
    }
}

impl Default for City {
    fn default() -> (r: City)
        ensures
            r == City::empty_spec(),
    {
        City { geoname_id: None, names: Names::default() }
    }
}

#[derive(Clone, Debug)]
pub struct Continent {
    pub code: Option<String>,
    pub geoname_id: Option<u32>,
}

impl Continent {
    /// The value that holds nothing (its `Default`).
    pub open spec fn empty_spec() -> Continent {
        Continent { code: None, geoname_id: None }
    }

    /// Every part is absent.
    pub open spec fn is_empty_spec(self) -> bool {
        self.code is None && self.geoname_id is None
    }

    /// Whether the value holds nothing, i.e. equals its default.
    pub fn is_empty(&self) -> (r: bool)
        ensures
            r == self.is_empty_spec(),
            r == (*self == Continent::empty_spec()),
    {
        self.code.is_none() && self.geoname_id.is_none()
    }
}

impl Default for Continent {
    fn default() -> (r: Continent)
        ensures
            r == Continent::empty_spec(),
    {
        Continent { code: None, geoname_id: None }
    }
}

#[derive(Clone, Debug)]
pub struct Country {
    pub geoname_id: Option<u32>,
    pub is_in_european_union: Option<bool>,
    pub iso_code: Option<String>,
}

impl Country {
    /// The value that holds nothing (its `Default`).
    pub open spec fn empty_spec() -> Country {
        Country { geoname_id: None, is_in_european_union: None, iso_code: None }
    }

    /// Every part is absent.
    pub open spec fn is_empty_spec(self) -> bool {
        self.geoname_id is None && self.is_in_european_union is None && self.iso_code is None
    }

    /// Whether the value holds nothing, i.e. equals its default.
    pub fn is_empty(&self) -> (r: bool)
        ensures
            r == self.is_empty_spec(),
            r == (*self == Country::empty_spec()),
    {
        self.geoname_id.is_none() && self.is_in_european_union.is_none() && self.iso_code.is_none()
    }
}

impl Default for Country {
    fn default() -> (r: Country)
        ensures
            r == Country::empty_spec(),
    {
        Country { geoname_id: None, is_in_european_union: None, iso_code: None }
    }
}

#[derive(Clone, Debug)]
pub struct Postal {
    pub code: Option<String>,
}

impl Postal {
    /// The value that holds nothing (its `Default`).
    pub open spec fn empty_spec() -> Postal {
        Postal { code: None }
    }

    /// Every part is absent.
    pub open spec fn is_empty_spec(self) -> bool {
        self.code is None
    }

    /// Whether the value holds nothing, i.e. equals its default.
    pub fn is_empty(&self) -> (r: bool)
        ensures
            r == self.is_empty_spec(),
            r == (*self == Postal::empty_spec()),
    {
        self.code.is_none()
    }
}

impl Default for Postal {
    fn default() -> (r: Postal)
        ensures
            r == Postal::empty_spec(),
    {
        Postal { code: None }
    }
}

#[derive(Clone, Debug)]
pub struct RepresentedCountry {
    pub geoname_id: Option<u32>,
    pub is_in_european_union: Option<bool>,
    pub iso_code: Option<String>,
    pub representation_type: Option<String>,
}

impl RepresentedCountry {
    /// The value that holds nothing (its `Default`).
    pub open spec fn empty_spec() -> RepresentedCountry {
        RepresentedCountry { geoname_id: None, is_in_european_union: None, iso_code: None, representation_type: None }
    }

    /// Every part is absent.
    pub open spec fn is_empty_spec(self) -> bool {
        self.geoname_id is None && self.is_in_european_union is None && self.iso_code is None && self.representation_type is None
    }

    /// Whether the value holds nothing, i.e. equals its default.
    pub fn is_empty(&self) -> (r: bool)
        ensures
            r == self.is_empty_spec(),
            r == (*self == RepresentedCountry::empty_spec()),
    {
        self.geoname_id.is_none() && self.is_in_european_union.is_none() && self.iso_code.is_none() && self.representation_type.is_none()
    }
}

impl Default for RepresentedCountry {
    fn default() -> (r: RepresentedCountry)
        ensures
            r == RepresentedCountry::empty_spec(),
    {
        RepresentedCountry { geoname_id: None, is_in_european_union: None, iso_code: None, representation_type: None }
    }
}

#[derive(Clone, Debug)]
pub struct Subdivision {
    pub geoname_id: Option<u32>,
    pub iso_code: Option<String>,
    pub names: Names,
}

impl Subdivision {
    /// The value that holds nothing (its `Default`).
    pub open spec fn empty_spec() -> Subdivision {
        Subdivision { geoname_id: None, iso_code: None, names: Names::empty_spec() }
    }

    /// Every part is absent.
    pub open spec fn is_empty_spec(self) -> bool {
        self.geoname_id is None && self.iso_code is None && self.names.is_empty_spec()
    }

    /// Whether the value holds nothing, i.e. equals its default.
    pub fn is_empty(&self) -> (r: bool)
        ensures
            r == self.is_empty_spec(),
            r == (*self == Subdivision::empty_spec()),
    {
        self.geoname_id.is_none() && self.iso_code.is_none() && self.names.is_empty()
    }
}

impl Default for Subdivision {
    fn default() -> (r: Subdivision)
        ensures
            r == Subdivision::empty_spec(),
    {
        Subdivision { geoname_id: None, iso_code: None, names: Names::default() }
    }
}

/// A value is empty exactly when it equals the default value.
pub proof fn lemma_is_empty_is_default(c: City, s: Subdivision, r: RepresentedCountry)
    ensures
        c.is_empty_spec() <==> c == City::empty_spec(),
        s.is_empty_spec() <==> s == Subdivision::empty_spec(),
        r.is_empty_spec() <==> r == RepresentedCountry::empty_spec(),
        City::empty_spec().is_empty_spec(),
        Subdivision::empty_spec().is_empty_spec(),
        RepresentedCountry::empty_spec().is_empty_spec(),
{
}

} // verus!
