//! The unit families, one module for each category.
pub mod area;
pub mod energy;
pub mod length;
pub mod mass;
pub mod power;
pub mod pressure;
pub mod speed;
pub mod temperature;
pub mod time;
pub mod volume;

pub use area::AreaCategory;
pub use energy::EnergyCategory;
pub use length::LengthCategory;
pub use mass::MassCategory;
pub use power::PowerCategory;
pub use pressure::PressureCategory;
pub use speed::SpeedCategory;
pub use temperature::TemperatureCategory;
pub use time::TimeCategory;
pub use volume::VolumeCategory;
