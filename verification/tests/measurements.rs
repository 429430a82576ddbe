use std::cmp::Ordering;
use std::ops::{Add, Div, Mul, Sub};
use unit_conversion_api::errors::ApiError;
use unit_conversion_api::models::init::init;
use unit_conversion_api::models::units::length::LengthCategory;
use unit_conversion_api::models::{Decimal, Step, Unit};
use unit_conversion_api::services::ConversionService;

/// The number that a decimal constant stands for, rounded to the nearest
/// double.
fn number(constant: &Decimal) -> f64 {
    format!("{}e-{}", constant.mantissa, constant.scale).parse().unwrap()
}

/// Carries out the steps of a formula on a double.
fn run(steps: &[Step], value: f64) -> f64 {
    let mut x = value;
    for step in steps {
        x = match step {
            Step::Plus(c) => x + number(c),
            Step::Minus(c) => x - number(c),
            Step::Times(c) => x * number(c),
            Step::Over(c) => x / number(c),
        };
    }
    x
}

/// A unit with its arithmetic in doubles.
#[derive(Debug, Clone)]
struct Gauge(Unit);

impl Gauge {
    fn symbol(&self) -> &str {
        self.0.symbol()
    }

    fn to_base(&self, value: f64) -> f64 {
        run(&self.0.to_base(), value)
    }

    fn from_base(&self, value: f64) -> f64 {
        run(&self.0.from_base(), value)
    }
}

/// A unit of the standard catalog, named by category and symbol.
#[derive(Debug, Clone, Copy)]
struct Standard {
    category: &'static str,
    symbol: &'static str,
}

fn standard(category: &'static str, symbol: &'static str) -> Standard {
    Standard { category, symbol }
}

impl Standard {
    fn to_base(&self, value: f64) -> f64 {
        Gauge::from(*self).to_base(value)
    }

    fn from_base(&self, value: f64) -> f64 {
        Gauge::from(*self).from_base(value)
    }
}

impl From<Standard> for Gauge {
    fn from(unit: Standard) -> Gauge {
        Gauge(init().get_unit(unit.category, unit.symbol).unwrap().clone())
    }
}

/// A quantity with its unit.
#[derive(Debug, Clone)]
struct Measurement {
    value: f64,
    unit: Gauge,
}

impl Measurement {
    fn new(value: f64, unit: impl Into<Gauge>) -> Measurement {
        Measurement { value, unit: unit.into() }
    }

    fn value(&self) -> f64 {
        self.value
    }

    fn unit(&self) -> &Gauge {
        &self.unit
    }

    fn convert_to(&self, target: impl Into<Gauge>) -> Result<Measurement, ApiError> {
        let target = target.into();
        let conversion = ConversionService::route(&self.unit.0, &target.0)?;
        Ok(Measurement { value: run(&conversion.steps, self.value), unit: target })
    }

    fn to_base(&self) -> f64 {
        self.unit.to_base(self.value)
    }
}

impl PartialEq for Measurement {
    fn eq(&self, other: &Measurement) -> bool {
        (self.to_base() - other.to_base()).abs() < f64::EPSILON
    }
}

impl PartialOrd for Measurement {
    fn partial_cmp(&self, other: &Measurement) -> Option<Ordering> {
        self.to_base().partial_cmp(&other.to_base())
    }
}

impl Add for Measurement {
    type Output = Measurement;

    fn add(self, other: Measurement) -> Measurement {
        let plan = ConversionService::combine(&self.unit.0, &other.unit.0);
        let base = run(&plan.left_to_base, self.value) + run(&plan.right_to_base, other.value);
        Measurement { value: run(&plan.from_base, base), unit: Gauge(plan.unit) }
    }
}

impl Sub for Measurement {
    type Output = Measurement;

    fn sub(self, other: Measurement) -> Measurement {
        let plan = ConversionService::combine(&self.unit.0, &other.unit.0);
        let base = run(&plan.left_to_base, self.value) - run(&plan.right_to_base, other.value);
        Measurement { value: run(&plan.from_base, base), unit: Gauge(plan.unit) }
    }
}

impl Mul<f64> for Measurement {
    type Output = Measurement;

    fn mul(self, scalar: f64) -> Measurement {
        Measurement { value: self.value * scalar, unit: self.unit }
    }
}

impl Div<f64> for Measurement {
    type Output = Measurement;

    fn div(self, scalar: f64) -> Measurement {
        Measurement { value: self.value / scalar, unit: self.unit }
    }
}

fn meter() -> Gauge {
    Gauge(Unit::base("m", "meter", &LengthCategory))
}

fn centimeter() -> Gauge {
    Gauge(Unit::fraction("cm", "centimeter", &LengthCategory, Decimal::new(100, 0)))
}

#[test]
fn test_measurement_creation() {
    let meter = meter();
    let centimeter = centimeter();

    let length_m = Measurement::new(1.0, meter);
    let length_cm = Measurement::new(100.0, centimeter);

    assert_eq!(length_m.value(), 1.0);
    assert_eq!(length_cm.value(), 100.0);
}

#[test]
fn test_measurement_conversion() {
    let meter = meter();
    let centimeter = centimeter();

    let length_m = Measurement::new(1.0, meter);
    let length_cm = length_m.convert_to(centimeter).unwrap();

    assert_eq!(length_cm.value(), 100.0);

    let meter2 = self::meter();
    let length_m2 = length_cm.convert_to(meter2).unwrap();

    assert_eq!(length_m2.value(), 1.0);
}

#[test]
fn test_measurement_comparison() {
    let meter = meter();
    let centimeter = centimeter();

    let one_meter = Measurement::new(1.0, meter);
    let hundred_cm = Measurement::new(100.0, centimeter.clone());
    let fifty_cm = Measurement::new(50.0, centimeter);

    assert_eq!(one_meter, hundred_cm);
    assert!(one_meter > fifty_cm);
    assert!(fifty_cm < one_meter);
}

#[test]
fn test_measurement_arithmetic() {
    let meter = meter();
    let centimeter = centimeter();

    let one_meter = Measurement::new(1.0, meter);
    let fifty_cm = Measurement::new(50.0, centimeter);

    // Addition
    let sum = one_meter.clone() + fifty_cm.clone();
    assert_eq!(sum.value(), 1.5); // Result should be in meters

    // Subtraction
    let diff = one_meter.clone() - fifty_cm.clone();
    assert_eq!(diff.value(), 0.5); // Result should be in meters

    // Multiplication by scalar
    let doubled = one_meter.clone() * 2.0;
    assert_eq!(doubled.value(), 2.0);

    // Division by scalar
    let halved = one_meter.clone() / 2.0;
    assert_eq!(halved.value(), 0.5);
}

#[test]
fn test_length_conversions() {
    // Create units
    let meter = standard("length", "m");
    let km = standard("length", "km");
    let cm = standard("length", "cm");
    let mm = standard("length", "mm");
    let inch = standard("length", "in");
    let foot = standard("length", "ft");
    let yard = standard("length", "yd");
    let mile = standard("length", "mi");

    // Create measurements
    let one_meter = Measurement::new(1.0, meter);
    let one_km = Measurement::new(1.0, km);
    let one_hundred_cm = Measurement::new(100.0, cm);
    let one_thousand_mm = Measurement::new(1000.0, mm);
    let one_foot = Measurement::new(1.0, foot);

    // Test meter to various units
    let m_to_km = one_meter.convert_to(km).unwrap();
    assert!((m_to_km.value() - 0.001).abs() < f64::EPSILON);

    let m_to_cm = one_meter.convert_to(cm).unwrap();
    assert!((m_to_cm.value() - 100.0).abs() < f64::EPSILON);

    let m_to_mm = one_meter.convert_to(mm).unwrap();
    assert!((m_to_mm.value() - 1000.0).abs() < f64::EPSILON);

    let m_to_inch = one_meter.convert_to(inch).unwrap();
    assert!((m_to_inch.value() - 39.3701).abs() < 0.0001);

    let m_to_foot = one_meter.convert_to(foot).unwrap();
    assert!((m_to_foot.value() - 3.28084).abs() < 0.0001);

    let m_to_yard = one_meter.convert_to(yard).unwrap();
    assert!((m_to_yard.value() - 1.09361).abs() < 0.0001);

    // Test kilometer to meter
    let km_to_m = one_km.convert_to(meter).unwrap();
    assert!((km_to_m.value() - 1000.0).abs() < f64::EPSILON);

    // Test centimeter to meter
    let cm_to_m = one_hundred_cm.convert_to(meter).unwrap();
    assert!((cm_to_m.value() - 1.0).abs() < f64::EPSILON);

    // Test millimeter to meter
    let mm_to_m = one_thousand_mm.convert_to(meter).unwrap();
    assert!((mm_to_m.value() - 1.0).abs() < f64::EPSILON);

    // Test foot to inch (imperial unit to imperial unit)
    let foot_to_inch = one_foot.convert_to(inch).unwrap();
    assert!((foot_to_inch.value() - 12.0).abs() < 0.0001);

    // Test foot to meter to centimeter (multiple conversions)
    let foot_to_m = one_foot.convert_to(meter).unwrap();
    let foot_to_m_to_cm = foot_to_m.convert_to(cm).unwrap();
    assert!((foot_to_m_to_cm.value() - 30.48).abs() < 0.0001);

    // Test mile to kilometer
    let one_mile = Measurement::new(1.0, mile);
    let mile_to_km = one_mile.convert_to(km).unwrap();
    assert!((mile_to_km.value() - 1.609344).abs() < 0.0001);
}

#[test]
fn test_length_equality() {
    let meter = standard("length", "m");
    let cm = standard("length", "cm");
    let inch = standard("length", "in");

    // 1 meter = 100 centimeters
    let one_meter = Measurement::new(1.0, meter);
    let hundred_cm = Measurement::new(100.0, cm);
    assert_eq!(one_meter, hundred_cm);

    // 1 inch = 2.54 centimeters
    let one_inch = Measurement::new(1.0, inch);
    let inch_in_cm = Measurement::new(2.54, cm);
    assert_eq!(one_inch, inch_in_cm);

    // Non-equal values
    let two_meters = Measurement::new(2.0, meter);
    assert_ne!(one_meter, two_meters);
}

#[test]
fn test_length_comparison() {
    let meter = standard("length", "m");
    let foot = standard("length", "ft");
    let inch = standard("length", "in");

    let one_meter = Measurement::new(1.0, meter);
    let three_feet = Measurement::new(3.0, foot); // ~0.9144 meters
    let forty_inches = Measurement::new(40.0, inch); // ~1.016 meters

    assert!(one_meter > three_feet);
    assert!(one_meter < forty_inches);
    assert!(three_feet < forty_inches);
}

#[test]
fn test_length_arithmetic() {
    let meter = standard("length", "m");
    let cm = standard("length", "cm");
    let inch = standard("length", "in");

    let one_meter = Measurement::new(1.0, meter);
    let fifty_cm = Measurement::new(50.0, cm); // 0.5 meters
    let ten_inches = Measurement::new(10.0, inch); // 0.254 meters

    // Addition: 1m + 50cm = 1.5m
    let sum = one_meter.clone() + fifty_cm.clone();
    assert!((sum.value() - 1.5).abs() < 0.0001);

    // Addition: 1m + 10in = 1.254m
    let sum2 = one_meter.clone() + ten_inches.clone();
    assert!((sum2.value() - 1.254).abs() < 0.0001);

    // Subtraction: 1m - 50cm = 0.5m
    let diff = one_meter.clone() - fifty_cm.clone();
    assert!((diff.value() - 0.5).abs() < 0.0001);

    // Multiplication: 1m * 2 = 2m
    let doubled = one_meter.clone() * 2.0;
    assert!((doubled.value() - 2.0).abs() < 0.0001);

    // Division: 1m / 2 = 0.5m
    let halved = one_meter.clone() / 2.0;
    assert!((halved.value() - 0.5).abs() < 0.0001);
}

#[test]
fn test_mass_conversions() {
    // Create units
    let kg = standard("mass", "kg");
    let g = standard("mass", "g");
    let mg = standard("mass", "mg");
    let t = standard("mass", "t");
    let lb = standard("mass", "lb");
    let oz = standard("mass", "oz");
    let st = standard("mass", "st");

    // Create measurements
    let one_kg = Measurement::new(1.0, kg);
    let thousand_g = Measurement::new(1000.0, g);
    let million_mg = Measurement::new(1_000_000.0, mg);
    let one_lb = Measurement::new(1.0, lb);

    // Test kilogram to various units
    let kg_to_g = one_kg.convert_to(g).unwrap();
    assert!((kg_to_g.value() - 1000.0).abs() < 0.0001);

    let kg_to_mg = one_kg.convert_to(mg).unwrap();
    assert!((kg_to_mg.value() - 1_000_000.0).abs() < 0.0001);

    let kg_to_lb = one_kg.convert_to(lb).unwrap();
    assert!((kg_to_lb.value() - 2.20462).abs() < 0.0001);

    let kg_to_oz = one_kg.convert_to(oz).unwrap();
    assert!((kg_to_oz.value() - 35.274).abs() < 0.001);

    // Test gram to kilogram
    let g_to_kg = thousand_g.convert_to(kg).unwrap();
    assert!((g_to_kg.value() - 1.0).abs() < f64::EPSILON);

    // Test milligram to kilogram
    let mg_to_kg = million_mg.convert_to(kg).unwrap();
    assert!((mg_to_kg.value() - 1.0).abs() < f64::EPSILON);

    // Test pound to other imperial units (oz and stone)
    let lb_to_oz = one_lb.convert_to(oz).unwrap();
    assert!((lb_to_oz.value() - 16.0).abs() < 0.0001);

    let lb_to_st = Measurement::new(14.0, lb).convert_to(st).unwrap();
    assert!((lb_to_st.value() - 1.0).abs() < 0.0001);

    // Test ton to kilogram
    let one_ton = Measurement::new(1.0, t);
    let ton_to_kg = one_ton.convert_to(kg).unwrap();
    assert!((ton_to_kg.value() - 1000.0).abs() < 0.0001);

    // Test US ton to metric ton
    let one_us_ton = Measurement::new(1.0, standard("mass", "US t"));
    let us_ton_to_metric = one_us_ton.convert_to(t).unwrap();
    assert!((us_ton_to_metric.value() - 0.90718474).abs() < 0.0001);
}

#[test]
fn test_mass_equality() {
    let kg = standard("mass", "kg");
    let g = standard("mass", "g");
    let lb = standard("mass", "lb");

    // 1 kg = 1000 g
    let one_kg = Measurement::new(1.0, kg);
    let thousand_g = Measurement::new(1000.0, g);
    assert_eq!(one_kg, thousand_g);

    // 1 kg â‰ˆ 2.20462 lb
    let one_kg = Measurement::new(1.0, kg);
    let kg_in_lb = Measurement::new(2.20462, lb);
    assert!((one_kg.to_base() - kg_in_lb.to_base()).abs() < 0.0001);

    // Non-equal values
    let two_kg = Measurement::new(2.0, kg);
    assert_ne!(one_kg, two_kg);
}

#[test]
fn test_mass_comparison() {
    let kg = standard("mass", "kg");
    let lb = standard("mass", "lb");
    let oz = standard("mass", "oz");

    let one_kg = Measurement::new(1.0, kg);
    let one_lb = Measurement::new(1.0, lb); // ~0.45359237 kg
    let thirty_six_oz = Measurement::new(36.0, oz); // ~1.02 kg

    assert!(one_kg > one_lb);
    assert!(one_kg < thirty_six_oz);
    assert!(one_lb < thirty_six_oz);
}

#[test]
fn test_mass_arithmetic() {
    let kg = standard("mass", "kg");
    let g = standard("mass", "g");
    let lb = standard("mass", "lb");

    let one_kg = Measurement::new(1.0, kg);
    let five_hundred_g = Measurement::new(500.0, g); // 0.5 kg
    let one_lb = Measurement::new(1.0, lb); // ~0.45359237 kg

    // Addition: 1kg + 500g = 1.5kg
    let sum = one_kg.clone() + five_hundred_g.clone();
    assert!((sum.value() - 1.5).abs() < 0.0001);

    // Addition: 1kg + 1lb = ~1.45359237kg
    let sum2 = one_kg.clone() + one_lb.clone();
    assert!((sum2.value() - 1.45359237).abs() < 0.0001);

    // Subtraction: 1kg - 500g = 0.5kg
    let diff = one_kg.clone() - five_hundred_g.clone();
    assert!((diff.value() - 0.5).abs() < 0.0001);

    // Multiplication: 1kg * 2 = 2kg
    let doubled = one_kg.clone() * 2.0;
    assert!((doubled.value() - 2.0).abs() < 0.0001);

    // Division: 1kg / 2 = 0.5kg
    let halved = one_kg.clone() / 2.0;
    assert!((halved.value() - 0.5).abs() < 0.0001);
}

#[test]
fn test_volume_conversions() {
    // Create units
    let cubic_meter = standard("volume", "m³");
    let liter = standard("volume", "L");
    let ml = standard("volume", "mL");
    let cm3 = standard("volume", "cm³");
    let us_gallon = standard("volume", "gal");
    let uk_gallon = standard("volume", "UK gal");
    let us_quart = standard("volume", "qt");
    let us_pint = standard("volume", "pt");
    let us_cup = standard("volume", "cup");
    let us_fl_oz = standard("volume", "fl oz");
    let cubic_inch = standard("volume", "in³");
    let cubic_foot = standard("volume", "ft³");

    // Create measurements
    let one_cubic_meter = Measurement::new(1.0, cubic_meter);
    let thousand_liter = Measurement::new(1000.0, liter);
    let one_liter = Measurement::new(1.0, liter);
    let one_us_gallon = Measurement::new(1.0, us_gallon);

    // Test cubic meter to various units
    let m3_to_l = one_cubic_meter.convert_to(liter).unwrap();
    assert!((m3_to_l.value() - 1000.0).abs() < 0.0001);

    let m3_to_ml = one_cubic_meter.convert_to(ml).unwrap();
    assert!((m3_to_ml.value() - 1_000_000.0).abs() < 0.0001);

    let m3_to_cm3 = one_cubic_meter.convert_to(cm3).unwrap();
    assert!((m3_to_cm3.value() - 1_000_000.0).abs() < 0.0001);

    let m3_to_us_gal = one_cubic_meter.convert_to(us_gallon).unwrap();
    assert!((m3_to_us_gal.value() - 264.17).abs() < 0.01);

    let m3_to_uk_gal = one_cubic_meter.convert_to(uk_gallon).unwrap();
    assert!((m3_to_uk_gal.value() - 219.97).abs() < 0.01);

    let m3_to_ft3 = one_cubic_meter.convert_to(cubic_foot).unwrap();
    assert!((m3_to_ft3.value() - 35.31).abs() < 0.01);

    // Test liter to milliliter
    let l_to_ml = one_liter.convert_to(ml).unwrap();
    assert!((l_to_ml.value() - 1000.0).abs() < 0.0001);

    // Test liter to cubic centimeter (should be the same as milliliter)
    let l_to_cm3 = one_liter.convert_to(cm3).unwrap();
    assert!((l_to_cm3.value() - 1000.0).abs() < 0.0001);

    // Test US gallon to various units
    let us_gal_to_l = one_us_gallon.convert_to(liter).unwrap();
    assert!((us_gal_to_l.value() - 3.785).abs() < 0.001);

    let us_gal_to_quart = one_us_gallon.convert_to(us_quart).unwrap();
    assert!((us_gal_to_quart.value() - 4.0).abs() < 0.0001);

    let us_gal_to_pint = one_us_gallon.convert_to(us_pint).unwrap();
    assert!((us_gal_to_pint.value() - 8.0).abs() < 0.0001);

    let us_gal_to_cup = one_us_gallon.convert_to(us_cup).unwrap();
    assert!((us_gal_to_cup.value() - 16.0).abs() < 0.0001);

    let us_gal_to_fl_oz = one_us_gallon.convert_to(us_fl_oz).unwrap();
    assert!((us_gal_to_fl_oz.value() - 128.0).abs() < 0.0001);

    // Test cubic feet to cubic inches
    let one_cubic_foot = Measurement::new(1.0, cubic_foot);
    let ft3_to_in3 = one_cubic_foot.convert_to(cubic_inch).unwrap();
    let expected_value = 1728.0;
    let actual_value = ft3_to_in3.value();
    println!("Expected: {} in³, Actual: {} in³", expected_value, actual_value);
    assert!((actual_value - expected_value).abs() < 0.2,
            "Expected approx {}, got {}", expected_value, actual_value);
}

#[test]
fn test_volume_equality() {
    let cubic_meter = standard("volume", "m³");
    let liter = standard("volume", "L");
    let cm3 = standard("volume", "cm³");
    let ml = standard("volume", "mL");

    // 1 m³ = 1000 L
    let one_cubic_meter = Measurement::new(1.0, cubic_meter);
    let thousand_liters = Measurement::new(1000.0, liter);
    assert_eq!(one_cubic_meter, thousand_liters);

    // 1 L = 1000 mL
    let one_liter = Measurement::new(1.0, liter);
    let thousand_ml = Measurement::new(1000.0, ml);
    assert_eq!(one_liter, thousand_ml);

    // 1 mL = 1 cm³
    let one_ml = Measurement::new(1.0, ml);
    let one_cm3 = Measurement::new(1.0, cm3);
    assert_eq!(one_ml, one_cm3);

    // Non-equal values
    let two_cubic_meter = Measurement::new(2.0, cubic_meter);
    assert_ne!(one_cubic_meter, two_cubic_meter);
}

#[test]
fn test_volume_comparison() {
    let cubic_meter = standard("volume", "m³");
    let liter = standard("volume", "L");
    let us_gallon = standard("volume", "gal");
    let us_quart = standard("volume", "qt");

    let one_cubic_meter = Measurement::new(1.0, cubic_meter);
    let one_liter = Measurement::new(1.0, liter);      // 0.001 m³
    let one_us_gallon = Measurement::new(1.0, us_gallon); // ~0.00379 m³
    let five_us_quarts = Measurement::new(5.0, us_quart); // ~0.00473 m³

    assert!(one_cubic_meter > one_liter);
    assert!(one_cubic_meter > one_us_gallon);
    assert!(one_us_gallon < one_cubic_meter);
    assert!(one_us_gallon > one_liter);
    assert!(five_us_quarts > one_us_gallon);
}

#[test]
fn test_volume_arithmetic() {
    let cubic_meter = standard("volume", "m³");
    let liter = standard("volume", "L");
    let us_gallon = standard("volume", "gal");

    let one_cubic_meter = Measurement::new(1.0, cubic_meter);
    let five_hundred_liters = Measurement::new(500.0, liter); // 0.5 m³
    let one_us_gallon = Measurement::new(1.0, us_gallon);    // ~0.00379 m³

    // Addition: 1m³ + 500L = 1.5m³
    let sum = one_cubic_meter.clone() + five_hundred_liters.clone();
    assert!((sum.value() - 1.5).abs() < 0.0001);
    assert_eq!(sum.unit().symbol(), "m³");

    // Addition: 1m³ + 1gal ≈ 1.00379m³
    let sum2 = one_cubic_meter.clone() + one_us_gallon.clone();
    assert!((sum2.value() - 1.00379).abs() < 0.0001);
    assert_eq!(sum2.unit().symbol(), "m³");

    // Subtraction: 1m³ - 500L = 0.5m³
    let diff = one_cubic_meter.clone() - five_hundred_liters.clone();
    assert!((diff.value() - 0.5).abs() < 0.0001);
    assert_eq!(diff.unit().symbol(), "m³");

    // Multiplication: 1m³ * 2 = 2m³
    let doubled = one_cubic_meter.clone() * 2.0;
    assert!((doubled.value() - 2.0).abs() < 0.0001);
    assert_eq!(doubled.unit().symbol(), "m³");

    // Division: 1m³ / 2 = 0.5m³
    let halved = one_cubic_meter.clone() / 2.0;
    assert!((halved.value() - 0.5).abs() < 0.0001);
    assert_eq!(halved.unit().symbol(), "m³");
}

#[test]
fn test_temperature_conversions() {
    // Create units
    let kelvin = standard("temperature", "K");
    let celsius = standard("temperature", "°C");
    let fahrenheit = standard("temperature", "°F");
    let rankine = standard("temperature", "°R");
    let reaumur = standard("temperature", "°Ré");

    // Create measurements
    let freezing_kelvin = Measurement::new(273.15, kelvin);
    let freezing_celsius = Measurement::new(0.0, celsius);
    let freezing_fahrenheit = Measurement::new(32.0, fahrenheit);

    let _boiling_kelvin = Measurement::new(373.15, kelvin);
    let boiling_celsius = Measurement::new(100.0, celsius);
    let boiling_fahrenheit = Measurement::new(212.0, fahrenheit);

    // Test Celsius to Kelvin
    let c_to_k = freezing_celsius.convert_to(kelvin).unwrap();
    assert!((c_to_k.value() - 273.15).abs() < 0.0001);

    // Test Kelvin to Celsius
    let k_to_c = freezing_kelvin.convert_to(celsius).unwrap();
    assert!((k_to_c.value() - 0.0).abs() < 0.0001);

    // Test Fahrenheit to Kelvin
    let f_to_k = freezing_fahrenheit.convert_to(kelvin).unwrap();
    assert!((f_to_k.value() - 273.15).abs() < 0.01);

    // Test Fahrenheit to Celsius
    let f_to_c = freezing_fahrenheit.convert_to(celsius).unwrap();
    assert!((f_to_c.value() - 0.0).abs() < 0.01);

    // Test Kelvin to Fahrenheit
    let k_to_f = freezing_kelvin.convert_to(fahrenheit).unwrap();
    assert!((k_to_f.value() - 32.0).abs() < 0.01);

    // Test Celsius to Fahrenheit
    let c_to_f = freezing_celsius.convert_to(fahrenheit).unwrap();
    assert!((c_to_f.value() - 32.0).abs() < 0.01);

    // Test boiling point conversions
    let boiling_c_to_f = boiling_celsius.convert_to(fahrenheit).unwrap();
    assert!((boiling_c_to_f.value() - 212.0).abs() < 0.01);

    let boiling_f_to_c = boiling_fahrenheit.convert_to(celsius).unwrap();
    assert!((boiling_f_to_c.value() - 100.0).abs() < 0.01);

    // Test Rankine conversions
    let absolute_zero_rankine = Measurement::new(0.0, rankine);
    let absolute_zero_kelvin = absolute_zero_rankine.convert_to(kelvin).unwrap();
    assert!((absolute_zero_kelvin.value() - 0.0).abs() < 0.0001);

    let room_temp_kelvin = Measurement::new(298.15, kelvin); // 25°C
    let room_temp_rankine = room_temp_kelvin.convert_to(rankine).unwrap();
    assert!((room_temp_rankine.value() - 536.67).abs() < 0.01);

    // Test Réaumur conversions
    let freezing_reaumur = Measurement::new(0.0, reaumur);
    let freezing_reaumur_to_c = freezing_reaumur.convert_to(celsius).unwrap();
    assert!((freezing_reaumur_to_c.value() - 0.0).abs() < 0.0001);

    let boiling_reaumur = Measurement::new(80.0, reaumur);
    let boiling_reaumur_to_c = boiling_reaumur.convert_to(celsius).unwrap();
    assert!((boiling_reaumur_to_c.value() - 100.0).abs() < 0.0001);
}

#[test]
fn test_temperature_equality() {
    let kelvin = standard("temperature", "K");
    let celsius = standard("temperature", "°C");
    let fahrenheit = standard("temperature", "°F");

    // 0°C = 273.15K = 32°F
    let freezing_kelvin = Measurement::new(273.15, kelvin);
    let freezing_celsius = Measurement::new(0.0, celsius);
    let freezing_fahrenheit = Measurement::new(32.0, fahrenheit);

    assert_eq!(freezing_kelvin, freezing_celsius);
    assert_eq!(freezing_celsius, freezing_fahrenheit);
    assert_eq!(freezing_kelvin, freezing_fahrenheit);

    // 100°C = 373.15K = 212°F (boiling point of water)
    let boiling_kelvin = Measurement::new(373.15, kelvin);
    let boiling_celsius = Measurement::new(100.0, celsius);
    let boiling_fahrenheit = Measurement::new(212.0, fahrenheit);

    assert_eq!(boiling_kelvin, boiling_celsius);
    assert_eq!(boiling_celsius, boiling_fahrenheit);
    assert_eq!(boiling_kelvin, boiling_fahrenheit);

    // Non-equal values
    let room_temp_celsius = Measurement::new(20.0, celsius);
    assert_ne!(freezing_celsius, room_temp_celsius);
}

#[test]
fn test_temperature_comparison() {
    let kelvin = standard("temperature", "K");
    let celsius = standard("temperature", "°C");
    let fahrenheit = standard("temperature", "°F");

    let temp1_kelvin = Measurement::new(283.15, kelvin);    // 10°C
    let temp1_celsius = Measurement::new(10.0, celsius);    // 10°C
    let temp1_fahrenheit = Measurement::new(50.0, fahrenheit); // 10°C

    let temp2_kelvin = Measurement::new(293.15, kelvin);    // 20°C
    let temp2_celsius = Measurement::new(20.0, celsius);    // 20°C
    let temp2_fahrenheit = Measurement::new(68.0, fahrenheit); // 20°C

    // Test equality comparisons across different units
    assert_eq!(temp1_kelvin, temp1_celsius);
    assert_eq!(temp1_celsius, temp1_fahrenheit);

    // Test less-than and greater-than
    assert!(temp1_kelvin < temp2_kelvin);
    assert!(temp1_celsius < temp2_celsius);
    assert!(temp1_fahrenheit < temp2_fahrenheit);

    // Cross-unit comparisons
    assert!(temp1_kelvin < temp2_celsius);
    assert!(temp1_celsius < temp2_fahrenheit);
    assert!(temp1_fahrenheit < temp2_kelvin);

    assert!(temp2_kelvin > temp1_celsius);
    assert!(temp2_celsius > temp1_fahrenheit);
    assert!(temp2_fahrenheit > temp1_kelvin);
}

#[test]
fn test_temperature_arithmetic() {
    // Create units
    let kelvin = standard("temperature", "K");
    let celsius = standard("temperature", "°C");

    // For temperature arithmetic, we need to handle both relative temperature
    // changes and absolute temperature values differently

    // ----- Test with Celsius -----
    // Start with 0°C = 273.15K
    let freezing_celsius = Measurement::new(0.0, celsius);

    // 0°C + 10°C = 10°C (283.15K)
    let plus_ten_c = freezing_celsius.clone() + Measurement::new(10.0, celsius);
    println!("0°C + 10°C = {}K (Expected: 283.15K)", plus_ten_c.value());
    assert!((plus_ten_c.value() - 283.15).abs() < 0.01,
            "Expected 283.15, got {}", plus_ten_c.value());

    // ----- Test with Kelvin -----
    // Start with 273.15K (0°C)
    let freezing_kelvin = Measurement::new(273.15, kelvin);

    // 273.15K + 10K = 283.15K
    let k_plus_ten_k = freezing_kelvin.clone() + Measurement::new(10.0, kelvin);
    println!("273.15K + 10K = {}K (Expected: 283.15K)", k_plus_ten_k.value());
    assert!((k_plus_ten_k.value() - 283.15).abs() < 0.01,
            "Expected 283.15, got {}", k_plus_ten_k.value());

    // Special case: Adding Kelvin to Celsius
    // For this test we're expecting:
    // 0°C (as 273.15K) + 10K = 283.15K
    // This is because we're adding 10 absolute Kelvin to the absolute
    // temperature value of 0°C (273.15K)
    // This is an indirect test since our model converts everything to Kelvin for operations
    let c_plus_k = Measurement::new(0.0, celsius).convert_to(kelvin).unwrap().value() + 10.0;
    println!("0°C + 10K = {}K (Expected: 283.15K)", c_plus_k);
    assert!((c_plus_k - 283.15).abs() < 0.01,
            "Expected 283.15, got {}", c_plus_k);

    // Test multiplication and division using Kelvin (absolute scale)
    let doubled = freezing_kelvin.clone() * 2.0;
    println!("273.15K * 2 = {}K (Expected: 546.3K)", doubled.value());
    assert!((doubled.value() - 546.3).abs() < 0.1,
            "Expected 546.3, got {}", doubled.value());

    let halved = freezing_kelvin.clone() / 2.0;
    println!("273.15K / 2 = {}K (Expected: 136.575K)", halved.value());
    assert!((halved.value() - 136.575).abs() < 0.01,
            "Expected 136.575, got {}", halved.value());
}

#[test]
fn test_area_conversions() {
    // Create units
    let square_meter = standard("area", "m²");
    let square_km = standard("area", "km²");
    let square_cm = standard("area", "cm²");
    let square_mm = standard("area", "mm²");
    let hectare = standard("area", "ha");
    let are = standard("area", "a");
    let square_inch = standard("area", "in²");
    let square_foot = standard("area", "ft²");
    let square_yard = standard("area", "yd²");
    let square_mile = standard("area", "mi²");
    let acre = standard("area", "ac");

    // Create measurements
    let one_square_meter = Measurement::new(1.0, square_meter);
    let one_square_km = Measurement::new(1.0, square_km);
    let one_hectare = Measurement::new(1.0, hectare);
    let one_acre = Measurement::new(1.0, acre);

    // Test square meter to other metric units
    let m2_to_cm2 = one_square_meter.convert_to(square_cm).unwrap();
    assert!((m2_to_cm2.value() - 10_000.0).abs() < 0.01);

    let m2_to_mm2 = one_square_meter.convert_to(square_mm).unwrap();
    assert!((m2_to_mm2.value() - 1_000_000.0).abs() < 0.01);

    let m2_to_are = one_square_meter.convert_to(are).unwrap();
    assert!((m2_to_are.value() - 0.01).abs() < 0.0001);

    let m2_to_hectare = one_square_meter.convert_to(hectare).unwrap();
    assert!((m2_to_hectare.value() - 0.0001).abs() < 0.0000001);

    let m2_to_km2 = one_square_meter.convert_to(square_km).unwrap();
    assert!((m2_to_km2.value() - 0.000001).abs() < 0.0000000001);

    // Test square meter to imperial units
    let m2_to_in2 = one_square_meter.convert_to(square_inch).unwrap();
    assert!((m2_to_in2.value() - 1_550.0).abs() < 1.0);

    let m2_to_ft2 = one_square_meter.convert_to(square_foot).unwrap();
    assert!((m2_to_ft2.value() - 10.7639).abs() < 0.001);

    let m2_to_yd2 = one_square_meter.convert_to(square_yard).unwrap();
    assert!((m2_to_yd2.value() - 1.19599).abs() < 0.001);

    let m2_to_acre = one_square_meter.convert_to(acre).unwrap();
    assert!((m2_to_acre.value() - 0.000247105).abs() < 0.0000001);

    let m2_to_mile2 = one_square_meter.convert_to(square_mile).unwrap();
    assert!((m2_to_mile2.value() - 3.861e-7).abs() < 1e-10);

    // Test square kilometer to other units
    let km2_to_m2 = one_square_km.convert_to(square_meter).unwrap();
    assert!((km2_to_m2.value() - 1_000_000.0).abs() < 0.01);

    let km2_to_hectare = one_square_km.convert_to(hectare).unwrap();
    assert!((km2_to_hectare.value() - 100.0).abs() < 0.01);

    let km2_to_acre = one_square_km.convert_to(acre).unwrap();
    assert!((km2_to_acre.value() - 247.105).abs() < 0.001);

    // Test hectare to other units
    let hectare_to_m2 = one_hectare.convert_to(square_meter).unwrap();
    assert!((hectare_to_m2.value() - 10_000.0).abs() < 0.01);

    let hectare_to_km2 = one_hectare.convert_to(square_km).unwrap();
    assert!((hectare_to_km2.value() - 0.01).abs() < 0.0001);

    let hectare_to_acre = one_hectare.convert_to(acre).unwrap();
    assert!((hectare_to_acre.value() - 2.47105).abs() < 0.0001);

    // Test acre to other units
    let acre_to_m2 = one_acre.convert_to(square_meter).unwrap();
    assert!((acre_to_m2.value() - 4_046.86).abs() < 0.01);

    let acre_to_hectare = one_acre.convert_to(hectare).unwrap();
    assert!((acre_to_hectare.value() - 0.404686).abs() < 0.0001);

    let acre_to_ft2 = one_acre.convert_to(square_foot).unwrap();
    assert!((acre_to_ft2.value() - 43_560.0).abs() < 1.0);
}

#[test]
fn test_area_equality() {
    let square_meter = standard("area", "m²");
    let square_cm = standard("area", "cm²");
    let square_foot = standard("area", "ft²");
    let hectare = standard("area", "ha");

    // 1 m² = 10,000 cm²
    let one_square_meter = Measurement::new(1.0, square_meter);
    let ten_thousand_square_cm = Measurement::new(10_000.0, square_cm);
    assert_eq!(one_square_meter, ten_thousand_square_cm);

    // 1 hectare = 10,000 m²
    let one_hectare = Measurement::new(1.0, hectare);
    let ten_thousand_square_meters = Measurement::new(10_000.0, square_meter);
    assert_eq!(one_hectare, ten_thousand_square_meters);

    // Approximately 0.092903 m² = 1 ft²
    let zero_point_zero_nine_square_meters = Measurement::new(0.092903, square_meter);
    let one_square_foot = Measurement::new(1.0, square_foot);
    assert_eq!(zero_point_zero_nine_square_meters, one_square_foot);
}

#[test]
fn test_area_comparison() {
    let square_meter = standard("area", "m²");
    let hectare = standard("area", "ha");
    let acre = standard("area", "ac");
    let square_foot = standard("area", "ft²");

    let small_area = Measurement::new(1.0, square_meter);         // 1 m²
    let medium_area = Measurement::new(100.0, square_meter);      // 100 m²
    let large_area = Measurement::new(1.0, hectare);              // 10,000 m²
    let larger_area = Measurement::new(1.0, acre);                // 4,046.86 m²
    let largest_area = Measurement::new(2.0, hectare);            // 20,000 m²

    // Test less-than and greater-than for same unit
    assert!(small_area < medium_area);
    assert!(medium_area < large_area);
    assert!(medium_area > small_area);
    assert!(large_area > medium_area);

    // Test less-than and greater-than for different units
    assert!(small_area < large_area);
    assert!(large_area > small_area);

    assert!(medium_area < larger_area);
    assert!(larger_area > medium_area);

    assert!(larger_area < largest_area);
    assert!(largest_area > larger_area);

    // Test with square feet
    let thousand_sq_feet = Measurement::new(1000.0, square_foot); // ~92.9 m²
    assert!(small_area < thousand_sq_feet);
    assert!(thousand_sq_feet < large_area);
}

#[test]
fn test_area_arithmetic() {
    let square_meter = standard("area", "m²");
    let hectare = standard("area", "ha");
    let square_foot = standard("area", "ft²");

    let area1 = Measurement::new(50.0, square_meter);
    let area2 = Measurement::new(150.0, square_meter);
    let area3 = Measurement::new(0.02, hectare);  // 200 m²
    let area4 = Measurement::new(1076.39, square_foot);  // ~100 m²

    // Addition
    let sum = area1.clone() + area2.clone();
    assert!((sum.value() - 200.0).abs() < 0.01);
    assert_eq!(sum.unit().symbol(), "m²");

    // Addition with different units
    let sum2 = area1.clone() + area3.clone();
    assert!((sum2.value() - 250.0).abs() < 0.01);
    assert_eq!(sum2.unit().symbol(), "m²");

    // Addition with imperial units
    let sum3 = area1.clone() + area4.clone();
    assert!((sum3.value() - 150.0).abs() < 0.01);
    assert_eq!(sum3.unit().symbol(), "m²");

    // Convert area3 (0.02 hectare) to square meters to verify its value
    let area3_in_m2 = area3.convert_to(square_meter).unwrap();
    println!("0.02 hectare = {} m²", area3_in_m2.value());

    // Subtraction: 0.02 hectare (200 m²) - 50 m²
    // Both operands need to be in the same unit for consistent results
    let area3_m2 = Measurement::new(200.0, square_meter);  // 0.02 hectare in m²
    let diff = area3_m2.clone() - area1.clone();
    println!("Subtraction: 200 m² - 50 m² = {} m²", diff.value());
    assert!((diff.value() - 150.0).abs() < 0.1);
    assert_eq!(diff.unit().symbol(), "m²");

    // Multiplication
    let doubled = area1.clone() * 2.0;
    assert!((doubled.value() - 100.0).abs() < 0.01);
    assert_eq!(doubled.unit().symbol(), "m²");

    // Division
    let halved = area2.clone() / 2.0;
    assert!((halved.value() - 75.0).abs() < 0.01);
    assert_eq!(halved.unit().symbol(), "m²");
}

#[test]
fn test_time_conversions() {
    // Create units
    let second = standard("time", "s");
    let millisecond = standard("time", "ms");
    let microsecond = standard("time", "μs");
    let nanosecond = standard("time", "ns");
    let minute = standard("time", "min");
    let hour = standard("time", "h");
    let day = standard("time", "d");
    let week = standard("time", "wk");
    let month = standard("time", "mo");
    let year = standard("time", "yr");
    let decade = standard("time", "dec");
    let century = standard("time", "c");

    // Create measurements
    let one_second = Measurement::new(1.0, second);
    let one_minute = Measurement::new(1.0, minute);
    let one_hour = Measurement::new(1.0, hour);
    let one_day = Measurement::new(1.0, day);
    let one_year = Measurement::new(1.0, year);

    // Test second to smaller units
    let sec_to_ms = one_second.convert_to(millisecond).unwrap();
    assert!((sec_to_ms.value() - 1000.0).abs() < 0.01);

    let sec_to_us = one_second.convert_to(microsecond).unwrap();
    assert!((sec_to_us.value() - 1_000_000.0).abs() < 0.01);

    let sec_to_ns = one_second.convert_to(nanosecond).unwrap();
    assert!((sec_to_ns.value() - 1_000_000_000.0).abs() < 0.01);

    // Test second to larger units
    let sec_to_min = one_second.convert_to(minute).unwrap();
    assert!((sec_to_min.value() - 1.0/60.0).abs() < 0.0001);

    let sec_to_hour = one_second.convert_to(hour).unwrap();
    assert!((sec_to_hour.value() - 1.0/3600.0).abs() < 0.0000001);

    // Test minute conversions
    let min_to_sec = one_minute.convert_to(second).unwrap();
    assert!((min_to_sec.value() - 60.0).abs() < 0.01);

    let min_to_hour = one_minute.convert_to(hour).unwrap();
    assert!((min_to_hour.value() - 1.0/60.0).abs() < 0.0001);

    // Test hour conversions
    let hour_to_sec = one_hour.convert_to(second).unwrap();
    assert!((hour_to_sec.value() - 3600.0).abs() < 0.01);

    let hour_to_min = one_hour.convert_to(minute).unwrap();
    assert!((hour_to_min.value() - 60.0).abs() < 0.01);

    let hour_to_day = one_hour.convert_to(day).unwrap();
    assert!((hour_to_day.value() - 1.0/24.0).abs() < 0.0001);

    // Test day conversions
    let day_to_hour = one_day.convert_to(hour).unwrap();
    assert!((day_to_hour.value() - 24.0).abs() < 0.01);

    let day_to_week = one_day.convert_to(week).unwrap();
    assert!((day_to_week.value() - 1.0/7.0).abs() < 0.0001);

    // Test year conversions
    let year_to_day = one_year.convert_to(day).unwrap();
    assert!((year_to_day.value() - 365.0).abs() < 0.01);

    let year_to_month = one_year.convert_to(month).unwrap();
    assert!((year_to_month.value() - 12.0).abs() < 0.01);

    let year_to_decade = one_year.convert_to(decade).unwrap();
    assert!((year_to_decade.value() - 0.1).abs() < 0.001);

    let year_to_century = one_year.convert_to(century).unwrap();
    assert!((year_to_century.value() - 0.01).abs() < 0.0001);
}

#[test]
fn test_time_equality() {
    let second = standard("time", "s");
    let millisecond = standard("time", "ms");
    let minute = standard("time", "min");
    let hour = standard("time", "h");
    let day = standard("time", "d");

    // 1 second = 1000 milliseconds
    let one_second = Measurement::new(1.0, second);
    let thousand_ms = Measurement::new(1000.0, millisecond);
    assert_eq!(one_second, thousand_ms);

    // 1 minute = 60 seconds
    let one_minute = Measurement::new(1.0, minute);
    let sixty_seconds = Measurement::new(60.0, second);
    assert_eq!(one_minute, sixty_seconds);

    // 1 hour = 60 minutes
    let one_hour = Measurement::new(1.0, hour);
    let sixty_minutes = Measurement::new(60.0, minute);
    assert_eq!(one_hour, sixty_minutes);

    // 1 day = 24 hours
    let one_day = Measurement::new(1.0, day);
    let twenty_four_hours = Measurement::new(24.0, hour);
    assert_eq!(one_day, twenty_four_hours);
}

#[test]
fn test_time_comparison() {
    let second = standard("time", "s");
    let minute = standard("time", "min");
    let hour = standard("time", "h");

    let time1 = Measurement::new(30.0, second);      // 30 seconds
    let time2 = Measurement::new(2.0, minute);       // 2 minutes (120 seconds)
    let time3 = Measurement::new(1.0, hour);         // 1 hour (3600 seconds)

    // Test less-than and greater-than for same unit
    let time4 = Measurement::new(45.0, second);
    assert!(time1 < time4);
    assert!(time4 > time1);

    // Test less-than and greater-than for different units
    assert!(time1 < time2);
    assert!(time2 < time3);
    assert!(time3 > time2);
    assert!(time2 > time1);

    // Mixed comparisons
    let half_minute = Measurement::new(0.5, minute); // 30 seconds
    assert_eq!(time1, half_minute);

    let quarter_hour = Measurement::new(0.25, hour); // 15 minutes
    let fifteen_minutes = Measurement::new(15.0, minute);
    assert_eq!(quarter_hour, fifteen_minutes);
}

#[test]
fn test_time_arithmetic() {
    let second = standard("time", "s");
    let minute = standard("time", "min");
    let hour = standard("time", "h");

    // Convert everything to seconds for testing arithmetic
    let time1_sec = Measurement::new(30.0, second);        // 30 seconds
    let time2_sec = Measurement::new(90.0, second);        // 90 seconds
    let time3_sec = Measurement::new(120.0, second);       // 2 minutes converted to seconds
    let time4_sec = Measurement::new(1800.0, second);      // 0.5 hours converted to seconds

    // Addition with same units
    let sum = time1_sec.clone() + time2_sec.clone();
    assert!((sum.value() - 120.0).abs() < 0.01);
    assert_eq!(sum.unit().symbol(), "s");

    // Addition
    let sum2 = time1_sec.clone() + time3_sec.clone();
    assert!((sum2.value() - 150.0).abs() < 0.01);
    assert_eq!(sum2.unit().symbol(), "s");

    // Addition
    let sum3 = time3_sec.clone() + time4_sec.clone();
    println!("120s + 1800s = {}s", sum3.value());
    assert!((sum3.value() - 1920.0).abs() < 0.01);
    assert_eq!(sum3.unit().symbol(), "s");

    // Also test with mixed units
    let time3_min = Measurement::new(2.0, minute);        // 2 minutes
    let time4_hour = Measurement::new(0.5, hour);         // 0.5 hours

    // First convert both to seconds (base unit)
    let time3_min_as_sec = time3_min.convert_to(second).unwrap();
    let time4_hour_as_sec = time4_hour.convert_to(second).unwrap();

    println!("2 minutes = {}s", time3_min_as_sec.value());
    println!("0.5 hours = {}s", time4_hour_as_sec.value());

    // Then add
    let sum4 = time3_min_as_sec + time4_hour_as_sec;
    println!("2 minutes + 0.5 hours = {}s", sum4.value());
    assert!((sum4.value() - 1920.0).abs() < 0.01);
    assert_eq!(sum4.unit().symbol(), "s");

    // Subtraction
    let diff = time4_sec.clone() - time3_sec.clone();
    assert!((diff.value() - 1680.0).abs() < 0.1);
    assert_eq!(diff.unit().symbol(), "s");

    // Multiplication
    let doubled = time1_sec.clone() * 2.0;
    assert!((doubled.value() - 60.0).abs() < 0.01);
    assert_eq!(doubled.unit().symbol(), "s");

    // Division
    let halved = time2_sec.clone() / 2.0;
    assert!((halved.value() - 45.0).abs() < 0.01);
    assert_eq!(halved.unit().symbol(), "s");
}

#[test]
fn test_speed_conversions() {
    // Get speed units
    let mps = standard("speed", "m/s");
    let kmh = standard("speed", "km/h");
    let mph = standard("speed", "mph");
    let kn = standard("speed", "kn");
    let fps = standard("speed", "ft/s");
    let cms = standard("speed", "cm/s");
    let mach = standard("speed", "M");

    // Test conversions to base unit (m/s)
    assert_eq!(mps.to_base(1.0), 1.0);
    assert!((kmh.to_base(3.6) - 1.0).abs() < 1e-5);
    assert!((mph.to_base(2.23694) - 1.0).abs() < 1e-5);
    assert!((kn.to_base(1.94384) - 1.0).abs() < 1e-5);
    assert!((fps.to_base(3.28084) - 1.0).abs() < 1e-5);
    assert!((cms.to_base(100.0) - 1.0).abs() < 1e-5);
    assert!((mach.to_base(0.00291545) - 1.0).abs() < 1e-3);

    // Test conversions from base unit (m/s)
    assert_eq!(mps.from_base(1.0), 1.0);
    assert!((kmh.from_base(1.0) - 3.6).abs() < 1e-5);
    assert!((mph.from_base(1.0) - 2.23694).abs() < 1e-5);
    assert!((kn.from_base(1.0) - 1.94384).abs() < 1e-5);
    assert!((fps.from_base(1.0) - 3.28084).abs() < 1e-5);
    assert!((cms.from_base(1.0) - 100.0).abs() < 1e-5);
    assert!((mach.from_base(1.0) - 0.00291545).abs() < 1e-5);

    // Test round-trip conversions
    let speed_value = 100.0; // 100 m/s

    // Convert to km/h and back manually
    let to_kmh = kmh.from_base(mps.to_base(speed_value));
    let back_to_mps = mps.from_base(kmh.to_base(to_kmh));
    assert!((back_to_mps - speed_value).abs() < 1e-5);

    // Convert to mph and back manually
    let to_mph = mph.from_base(mps.to_base(speed_value));
    let back_to_mps = mps.from_base(mph.to_base(to_mph));
    assert!((back_to_mps - speed_value).abs() < 1e-5);

    // Convert to knots and back manually
    let to_knots = kn.from_base(mps.to_base(speed_value));
    let back_to_mps = mps.from_base(kn.to_base(to_knots));
    assert!((back_to_mps - speed_value).abs() < 1e-5);
}

#[test]
fn test_speed_equality() {
    // Test equality of equivalent speeds in different units
    let mps_val = 1.0; // 1 m/s
    let kmh_val = 3.6; // 3.6 km/h = 1 m/s
    let mph_val = 2.23694; // 2.23694 mph = 1 m/s

    let mps = standard("speed", "m/s");
    let kmh = standard("speed", "km/h");
    let mph = standard("speed", "mph");

    // Convert to base unit and compare
    assert!((mps.to_base(mps_val) - kmh.to_base(kmh_val)).abs() < 1e-5);
    assert!((mps.to_base(mps_val) - mph.to_base(mph_val)).abs() < 1e-5);
    assert!((kmh.to_base(kmh_val) - mph.to_base(mph_val)).abs() < 1e-5);
}

#[test]
fn test_speed_comparison() {
    let mps = standard("speed", "m/s");
    let kmh = standard("speed", "km/h");
    let mph = standard("speed", "mph");

    // 10 m/s is greater than 30 km/h (8.33 m/s)
    let mps_val = 10.0;
    let kmh_val = 30.0;

    assert!(mps.to_base(mps_val) > kmh.to_base(kmh_val));

    // 20 mph (8.94 m/s) is less than 10 m/s
    let mph_val = 20.0;

    assert!(mph.to_base(mph_val) < mps.to_base(mps_val));

    // 36 km/h (10 m/s) equals 22.3694 mph (10 m/s)
    let equal_kmh = 36.0;
    let equal_mph = 22.3694;

    assert!((kmh.to_base(equal_kmh) - mph.to_base(equal_mph)).abs() < 1e-4);
}

#[test]
fn test_speed_arithmetic() {
    let mps = standard("speed", "m/s");
    let kmh = standard("speed", "km/h");

    // Addition: 10 m/s + 36 km/h (10 m/s) = 20 m/s
    let mps_val = 10.0;
    let kmh_val = 36.0;

    // Convert both to m/s before adding
    let sum = mps.to_base(mps_val) + kmh.to_base(kmh_val);
    assert!((sum - 20.0).abs() < 1e-5);

    // Subtraction: 20 m/s - 36 km/h (10 m/s) = 10 m/s
    let mps_val2 = 20.0;
    let diff = mps.to_base(mps_val2) - kmh.to_base(kmh_val);
    assert!((diff - 10.0).abs() < 1e-5);

    // Multiplication: 10 m/s * 2 = 20 m/s
    let product = mps.to_base(mps_val) * 2.0;
    assert!((product - 20.0).abs() < 1e-5);

    // Division: 20 m/s / 2 = 10 m/s
    let quotient = mps.to_base(mps_val2) / 2.0;
    assert!((quotient - 10.0).abs() < 1e-5);
}

#[test]
fn test_pressure_conversions() {
    // Get pressure units
    let pa = standard("pressure", "Pa");
    let kpa = standard("pressure", "kPa");
    let mpa = standard("pressure", "MPa");
    let bar = standard("pressure", "bar");
    let mbar = standard("pressure", "mbar");
    let atm = standard("pressure", "atm");
    let psi = standard("pressure", "psi");
    let torr = standard("pressure", "Torr");
    let mmhg = standard("pressure", "mmHg");
    let inhg = standard("pressure", "inHg");

    // Test conversions to base unit (Pa)
    assert_eq!(pa.to_base(1.0), 1.0);
    assert_eq!(kpa.to_base(1.0), 1000.0);
    assert_eq!(mpa.to_base(1.0), 1_000_000.0);
    assert_eq!(bar.to_base(1.0), 100_000.0);
    assert_eq!(mbar.to_base(1.0), 100.0);
    assert_eq!(atm.to_base(1.0), 101_325.0);
    assert!((psi.to_base(1.0) - 6894.76).abs() < 0.01);
    assert!((torr.to_base(1.0) - 133.322).abs() < 0.01);
    assert!((mmhg.to_base(1.0) - 133.322).abs() < 0.01);
    assert!((inhg.to_base(1.0) - 3386.39).abs() < 0.01);

    // Test conversions from base unit (Pa)
    assert_eq!(pa.from_base(1.0), 1.0);
    assert_eq!(kpa.from_base(1000.0), 1.0);
    assert_eq!(mpa.from_base(1_000_000.0), 1.0);
    assert_eq!(bar.from_base(100_000.0), 1.0);
    assert_eq!(mbar.from_base(100.0), 1.0);
    assert!((atm.from_base(101_325.0) - 1.0).abs() < 1e-10);
    assert!((psi.from_base(6894.76) - 1.0).abs() < 1e-5);
    assert!((torr.from_base(133.322) - 1.0).abs() < 1e-5);
    assert!((mmhg.from_base(133.322) - 1.0).abs() < 1e-5);
    assert!((inhg.from_base(3386.39) - 1.0).abs() < 1e-5);

    // Test round-trip conversions
    let pressure_value = 100_000.0; // 100,000 Pa = 1 bar

    // Convert to bar and back manually
    let to_bar = bar.from_base(pa.to_base(pressure_value));
    let back_to_pa = pa.from_base(bar.to_base(to_bar));
    assert!((back_to_pa - pressure_value).abs() < 1e-5);

    // Convert to psi and back manually
    let to_psi = psi.from_base(pa.to_base(pressure_value));
    let back_to_pa = pa.from_base(psi.to_base(to_psi));
    assert!((back_to_pa - pressure_value).abs() < 1e-5);

    // Convert to atm and back manually
    let to_atm = atm.from_base(pa.to_base(pressure_value));
    let back_to_pa = pa.from_base(atm.to_base(to_atm));
    assert!((back_to_pa - pressure_value).abs() < 1e-5);
}

#[test]
fn test_pressure_equality() {
    // Test equality of equivalent pressures in different units
    let pa_val = 100_000.0; // 100,000 Pa
    let bar_val = 1.0; // 1 bar = 100,000 Pa
    let atm_val = 0.986923; // 0.986923 atm ≈ 100,000 Pa

    let pa = standard("pressure", "Pa");
    let bar = standard("pressure", "bar");
    let atm = standard("pressure", "atm");

    // Convert to base unit and compare
    assert!((pa.to_base(pa_val) - bar.to_base(bar_val)).abs() < 1e-5);
    assert!((pa.to_base(pa_val) - atm.to_base(atm_val)).abs() < 1.0); // Less precise due to rounding
    assert!((bar.to_base(bar_val) - atm.to_base(atm_val)).abs() < 1.0); // Less precise due to rounding
}

#[test]
fn test_pressure_comparison() {
    let pa = standard("pressure", "Pa");
    let kpa = standard("pressure", "kPa");
    let psi = standard("pressure", "psi");

    // 200 kPa is greater than 25 psi (≈ 172.4 kPa)
    let kpa_val = 200.0;
    let psi_val = 25.0;

    assert!(kpa.to_base(kpa_val) > psi.to_base(psi_val));

    // 1500 Pa is less than 1 kPa (1000 Pa)
    let pa_val = 1500.0;
    let kpa_val2 = 2.0;

    assert!(pa.to_base(pa_val) < kpa.to_base(kpa_val2));

    // 100,000 Pa equals 1 bar
    let pa_val2 = 100_000.0;
    let bar_val = 1.0;
    let bar = standard("pressure", "bar");

    assert!((pa.to_base(pa_val2) - bar.to_base(bar_val)).abs() < 1e-5);
}

#[test]
fn test_pressure_arithmetic() {
    let pa = standard("pressure", "Pa");
    let kpa = standard("pressure", "kPa");

    // Addition: 1000 Pa + 1 kPa (1000 Pa) = 2000 Pa
    let pa_val = 1000.0;
    let kpa_val = 1.0;

    // Convert both to Pa before adding
    let sum = pa.to_base(pa_val) + kpa.to_base(kpa_val);
    assert!((sum - 2000.0).abs() < 1e-5);

    // Subtraction: 5000 Pa - 2 kPa (2000 Pa) = 3000 Pa
    let pa_val2 = 5000.0;
    let kpa_val2 = 2.0;
    let diff = pa.to_base(pa_val2) - kpa.to_base(kpa_val2);
    assert!((diff - 3000.0).abs() < 1e-5);

    // Multiplication: 1000 Pa * 2 = 2000 Pa
    let product = pa.to_base(pa_val) * 2.0;
    assert!((product - 2000.0).abs() < 1e-5);

    // Division: 2000 Pa / 2 = 1000 Pa
    let quotient = pa.to_base(2000.0) / 2.0;
    assert!((quotient - 1000.0).abs() < 1e-5);
}

#[test]
fn test_energy_conversions() {
    // Get energy units
    let j = standard("energy", "J");
    let kj = standard("energy", "kJ");
    let mj = standard("energy", "MJ");
    let cal = standard("energy", "cal");
    let kcal = standard("energy", "kcal");
    let btu = standard("energy", "BTU");
    let kwh = standard("energy", "kWh");
    let wh = standard("energy", "Wh");
    let ev = standard("energy", "eV");
    let therm = standard("energy", "therm");
    let ft_lb = standard("energy", "ft⋅lb");

    // Test conversions to base unit (J)
    assert_eq!(j.to_base(1.0), 1.0);
    assert_eq!(kj.to_base(1.0), 1000.0);
    assert_eq!(mj.to_base(1.0), 1_000_000.0);
    assert!((cal.to_base(1.0) - 4.184).abs() < 1e-5);
    assert!((kcal.to_base(1.0) - 4184.0).abs() < 1e-5);
    assert!((btu.to_base(1.0) - 1055.06).abs() < 1e-2);
    assert!((kwh.to_base(1.0) - 3_600_000.0).abs() < 1e-5);
    assert!((wh.to_base(1.0) - 3600.0).abs() < 1e-5);
    assert!((ev.to_base(1.0) - 1.602176634e-19).abs() < 1e-25);
    assert!((therm.to_base(1.0) - 105_505_585.257348).abs() < 0.1);
    assert!((ft_lb.to_base(1.0) - 1.35582).abs() < 1e-5);

    // Test conversions from base unit (J)
    assert_eq!(j.from_base(1.0), 1.0);
    assert_eq!(kj.from_base(1000.0), 1.0);
    assert_eq!(mj.from_base(1_000_000.0), 1.0);
    assert!((cal.from_base(4.184) - 1.0).abs() < 1e-5);
    assert!((kcal.from_base(4184.0) - 1.0).abs() < 1e-5);
    assert!((btu.from_base(1055.06) - 1.0).abs() < 1e-5);
    assert!((kwh.from_base(3_600_000.0) - 1.0).abs() < 1e-5);
    assert!((wh.from_base(3600.0) - 1.0).abs() < 1e-5);
    assert!((ev.from_base(1.602176634e-19) - 1.0).abs() < 1e-10);
    assert!((therm.from_base(105_505_585.257348) - 1.0).abs() < 1e-5);
    assert!((ft_lb.from_base(1.35582) - 1.0).abs() < 1e-5);

    // Test round-trip conversions
    let energy_value = 1000.0; // 1000 J = 1 kJ

    // Convert to kJ and back manually
    let to_kj = kj.from_base(j.to_base(energy_value));
    let back_to_j = j.from_base(kj.to_base(to_kj));
    assert!((back_to_j - energy_value).abs() < 1e-5);

    // Convert to kcal and back manually
    let to_kcal = kcal.from_base(j.to_base(energy_value));
    let back_to_j = j.from_base(kcal.to_base(to_kcal));
    assert!((back_to_j - energy_value).abs() < 1e-5);

    // Convert to kWh and back manually
    let to_kwh = kwh.from_base(j.to_base(energy_value));
    let back_to_j = j.from_base(kwh.to_base(to_kwh));
    assert!((back_to_j - energy_value).abs() < 1e-5);
}

#[test]
fn test_energy_equality() {
    // Test equality of equivalent energies in different units
    let j_val = 4184.0; // 4184 J
    let kcal_val = 1.0; // 1 kcal = 4184 J
    let kwh_val = 0.001161111; // 0.001161111 kWh ≈ 4180 J (rounding)

    let j = standard("energy", "J");
    let kcal = standard("energy", "kcal");
    let kwh = standard("energy", "kWh");

    // Convert to base unit and compare
    assert!((j.to_base(j_val) - kcal.to_base(kcal_val)).abs() < 1e-5);
    assert!((j.to_base(j_val) - kwh.to_base(kwh_val)).abs() < 5.0); // Less precise due to rounding
}

#[test]
fn test_energy_comparison() {
    let j = standard("energy", "J");
    let kj = standard("energy", "kJ");
    let kcal = standard("energy", "kcal");

    // 5000 J is greater than 1 kcal (4184 J)
    let j_val = 5000.0;
    let kcal_val = 1.0;

    assert!(j.to_base(j_val) > kcal.to_base(kcal_val));

    // 0.5 kJ (500 J) is less than 0.2 kcal (836.8 J)
    let kj_val = 0.5;
    let kcal_val2 = 0.2;

    assert!(kj.to_base(kj_val) < kcal.to_base(kcal_val2));

    // 1 kJ equals 1000 J
    let kj_val2 = 1.0;
    let j_val2 = 1000.0;

    assert!((kj.to_base(kj_val2) - j.to_base(j_val2)).abs() < 1e-5);
}

#[test]
fn test_energy_arithmetic() {
    let j = standard("energy", "J");
    let kj = standard("energy", "kJ");

    // Addition: 1000 J + 1 kJ (1000 J) = 2000 J
    let j_val = 1000.0;
    let kj_val = 1.0;

    // Convert both to J before adding
    let sum = j.to_base(j_val) + kj.to_base(kj_val);
    assert!((sum - 2000.0).abs() < 1e-5);

    // Subtraction: 5000 J - 2 kJ (2000 J) = 3000 J
    let j_val2 = 5000.0;
    let kj_val2 = 2.0;
    let diff = j.to_base(j_val2) - kj.to_base(kj_val2);
    assert!((diff - 3000.0).abs() < 1e-5);

    // Multiplication: 1000 J * 2 = 2000 J
    let product = j.to_base(j_val) * 2.0;
    assert!((product - 2000.0).abs() < 1e-5);

    // Division: 2000 J / 2 = 1000 J
    let quotient = j.to_base(2000.0) / 2.0;
    assert!((quotient - 1000.0).abs() < 1e-5);
}

#[test]
fn test_power_conversions() {
    // Get power units
    let w = standard("power", "W");
    let kw = standard("power", "kW");
    let mw = standard("power", "MW");
    let gw = standard("power", "GW");
    let hp = standard("power", "hp");
    let btu_h = standard("power", "BTU/h");
    let ft_lb_s = standard("power", "ft⋅lb/s");
    let cal_s = standard("power", "cal/s");
    let j_s = standard("power", "J/s");
    let kcal_h = standard("power", "kcal/h");

    // Test conversions to base unit (W)
    assert_eq!(w.to_base(1.0), 1.0);
    assert_eq!(kw.to_base(1.0), 1000.0);
    assert_eq!(mw.to_base(1.0), 1_000_000.0);
    assert_eq!(gw.to_base(1.0), 1_000_000_000.0);
    assert!((hp.to_base(1.0) - 745.7).abs() < 1e-5);
    assert!((btu_h.to_base(1.0) - 0.29307107).abs() < 1e-8);
    assert!((ft_lb_s.to_base(1.0) - 1.35582).abs() < 1e-5);
    assert!((cal_s.to_base(1.0) - 4.184).abs() < 1e-5);
    assert_eq!(j_s.to_base(1.0), 1.0);
    assert!((kcal_h.to_base(1.0) - 1.163).abs() < 1e-3);

    // Test conversions from base unit (W)
    assert_eq!(w.from_base(1.0), 1.0);
    assert_eq!(kw.from_base(1000.0), 1.0);
    assert_eq!(mw.from_base(1_000_000.0), 1.0);
    assert_eq!(gw.from_base(1_000_000_000.0), 1.0);
    assert!((hp.from_base(745.7) - 1.0).abs() < 1e-5);
    assert!((btu_h.from_base(0.29307107) - 1.0).abs() < 1e-5);
    assert!((ft_lb_s.from_base(1.35582) - 1.0).abs() < 1e-5);
    assert!((cal_s.from_base(4.184) - 1.0).abs() < 1e-5);
    assert_eq!(j_s.from_base(1.0), 1.0);
    assert!((kcal_h.from_base(1.163) - 1.0).abs() < 1e-3);

    // Test round-trip conversions
    let power_value = 1000.0; // 1000 W = 1 kW

    // Convert to kW and back manually
    let to_kw = kw.from_base(w.to_base(power_value));
    let back_to_w = w.from_base(kw.to_base(to_kw));
    assert!((back_to_w - power_value).abs() < 1e-5);

    // Convert to hp and back manually
    let to_hp = hp.from_base(w.to_base(power_value));
    let back_to_w = w.from_base(hp.to_base(to_hp));
    assert!((back_to_w - power_value).abs() < 1e-5);

    // Convert to BTU/h and back manually
    let to_btu_h = btu_h.from_base(w.to_base(power_value));
    let back_to_w = w.from_base(btu_h.to_base(to_btu_h));
    assert!((back_to_w - power_value).abs() < 1e-5);
}

#[test]
fn test_power_equality() {
    // Test equality of equivalent powers in different units
    let w_val = 1000.0; // 1000 W
    let kw_val = 1.0; // 1 kW = 1000 W
    let hp_val = 1.341; // 1.341 hp ≈ 1000 W

    let w = standard("power", "W");
    let kw = standard("power", "kW");
    let hp = standard("power", "hp");

    // Convert to base unit and compare
    assert!((w.to_base(w_val) - kw.to_base(kw_val)).abs() < 1e-5);
    assert!((w.to_base(w_val) - hp.to_base(hp_val)).abs() < 1.0); // Less precise due to rounding
}

#[test]
fn test_power_comparison() {
    let w = standard("power", "W");
    let kw = standard("power", "kW");
    let hp = standard("power", "hp");

    // 2000 W is greater than 1 kW (1000 W)
    let w_val = 2000.0;
    let kw_val = 1.0;

    assert!(w.to_base(w_val) > kw.to_base(kw_val));

    // 0.5 kW (500 W) is less than 1 hp (745.7 W)
    let kw_val2 = 0.5;
    let hp_val = 1.0;

    assert!(kw.to_base(kw_val2) < hp.to_base(hp_val));

    // 1 kW equals 1000 W
    let kw_val3 = 1.0;
    let w_val2 = 1000.0;

    assert!((kw.to_base(kw_val3) - w.to_base(w_val2)).abs() < 1e-5);
}

#[test]
fn test_power_arithmetic() {
    let w = standard("power", "W");
    let kw = standard("power", "kW");

    // Addition: 1000 W + 1 kW (1000 W) = 2000 W
    let w_val = 1000.0;
    let kw_val = 1.0;

    // Convert both to W before adding
    let sum = w.to_base(w_val) + kw.to_base(kw_val);
    assert!((sum - 2000.0).abs() < 1e-5);

    // Subtraction: 5000 W - 2 kW (2000 W) = 3000 W
    let w_val2 = 5000.0;
    let kw_val2 = 2.0;
    let diff = w.to_base(w_val2) - kw.to_base(kw_val2);
    assert!((diff - 3000.0).abs() < 1e-5);

    // Multiplication: 1000 W * 2 = 2000 W
    let product = w.to_base(w_val) * 2.0;
    assert!((product - 2000.0).abs() < 1e-5);

    // Division: 2000 W / 2 = 1000 W
    let quotient = w.to_base(2000.0) / 2.0;
    assert!((quotient - 1000.0).abs() < 1e-5);
}
