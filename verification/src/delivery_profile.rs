//! Shipping profiles: the data shapes of delivery profiles, their
//! location groups and the countries and zones they cover.

use vstd::prelude::*;

verus! {

/// How many product variants are in a profile; the count is capped.
#[derive(Debug, Clone, Copy)]
pub struct DeliveryProductVariantsCount {
    /// Whether the count has reached the cap.
    pub capped: bool,
    /// The product variant count.
    pub count: i32,
}

/// The location groups and associated zones using a profile.
#[derive(Debug, Clone)]
pub struct DeliveryProfileLocationGroup {
    /// The countries already selected in any zone for the location group.
    pub countries_in_any_zone: Vec<DeliveryCountryAndZone>,
    /// The collection of locations that make up the location group.
    pub location_group: DeliveryLocationGroup,
}

/// The country details and the associated shipping zone.
#[derive(Debug, Clone)]
pub struct DeliveryCountryAndZone {
    /// The country details.
    pub country: DeliveryCountry,
    /// The name of the shipping zone.
    pub zone: String,
}

/// A country that is used to define a shipping zone.
#[derive(Debug, Clone)]
pub struct DeliveryCountry {
    /// The country code, or its membership in the 'Rest of World' zone.
    pub code: DeliveryCountryCodeOrRestOfWorld,
    /// A globally-unique ID.
    pub id: String,
    /// The full name of the country.
    pub name: String,
    /// The list of regions associated with this country.
    pub provinces: Vec<DeliveryProvince>,
    /// The translated name of the country.
    pub tanslated_name: String,
}

/// A country code, and whether the country is part of the
/// 'Rest of World' shipping zone.
#[derive(Debug, Clone)]
pub struct DeliveryCountryCodeOrRestOfWorld {
    /// The two-letter code designating the country, per ISO 3166-1
    /// alpha-2.
    pub country_code: String,
    /// Whether the country is a part of the 'Rest of World' zone.
    pub rest_of_world: bool,
}

/// A collection of locations sharing zones and delivery methods.
#[derive(Debug, Clone)]
pub struct DeliveryLocationGroup {
    /// A globally-unique ID.
    pub id: String,
    /// A count of all locations that are part of this location group.
    pub locations_count: i32,
}

/// A region that is used to define a shipping zone.
#[derive(Debug, Clone)]
pub struct DeliveryProvince {
    /// The code of the region.
    pub code: String,
    /// A globally-unique ID.
    pub id: String,
    /// The full name of the region.
    pub name: String,
    /// The translated name of the region.
    pub translated_name: String,
}

/// Local pickup settings associated with a location.
#[derive(Debug, Clone)]
pub struct DeliveryLocalPickupSettings {
    /// Additional instructions or information related to the pickup.
    pub instructions: String,
    /// The estimated pickup time to show customers at checkout.
    pub pickup_time: DeliveryLocalPickupTime,
}

/// The pickup-time estimates a local-pickup location can advertise.
#[derive(Debug, Clone, Copy, PartialEq, Eq, Structural)]
pub enum DeliveryLocalPickupTime {
    /// Usually ready in 5+ days.
    FiveOrMoreDays,
    /// Usually ready in 4 hours.
    FourHours,
    /// Usually ready in 1 hour.
    OneHour,
    /// Usually ready in 24 hours.
    TwentyFourHours,
    /// Usually ready in 2 hours.
    TwoHours,
    /// Usually ready in 2-4 days.
    TwoToFourDays,
}

} // verus!
