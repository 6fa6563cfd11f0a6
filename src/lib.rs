//! Public-holiday calendars: date arithmetic primitives (weekday location,
//! weekend shifting, Easter computus) and per-country holiday assembly.
pub mod calendar;
pub mod catholic_provider;
pub mod country_code;
pub mod date_order;
pub mod date_system;
pub mod german_holiday_provider;
pub mod greece_holiday_provider;
pub mod holiday_provider;
pub mod holiday_type;
pub mod laws;
pub mod occurrence;
pub mod orthodox_provider;
pub mod poland_holiday_provider;
pub mod public_holiday;
pub mod russia_holiday_provider;
pub mod ukraine_holiday_provider;
pub mod united_kingdom_holiday_provider;
pub mod united_states_holiday_provider;

pub use calendar::{Date, Weekday};
pub use country_code::CountryCode;
pub use date_system::DateSystem;
pub use holiday_provider::HolidayProvider;
pub use holiday_type::PublicHolidayType;
pub use occurrence::Occurrence;
pub use public_holiday::PublicHoliday;
