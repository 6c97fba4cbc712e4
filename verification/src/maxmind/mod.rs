//! What the MaxMind GeoLite2 databases tell about an address.
pub mod asn;
pub mod city;
