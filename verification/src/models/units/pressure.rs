//! Units of pressure. The base unit is the pascal.
use crate::models::formula::Decimal;
use crate::models::unit::{
    all_in_category, all_well_formed, category_view, distinct_symbols, only_first_is_base,
    unit_views, Unit, UnitCategory, UnitView,
};
use crate::text::differ_early;
use vstd::prelude::*;
use vstd::string::*;

verus! {

/// The pressure category for units of pressure measurement.
#[derive(Debug, Clone, Copy)]
pub struct PressureCategory;

impl UnitCategory for PressureCategory {
    open spec fn name_view(&self) -> Seq<char> {
        "pressure"@
    }

    open spec fn description_view(&self) -> Seq<char> {
        "Units of pressure measurement"@
    }

    fn name(&self) -> (name: &str) {
        "pressure"
    }

    fn description(&self) -> (description: &str) {
        "Units of pressure measurement"
    }
}

impl PressureCategory {
    /// The category as text: its title.
    pub fn to_string(&self) -> (text: String)
        ensures
            text@ == "Pressure"@,
    {
        String::from_str("Pressure")
    }
}

/// The units of pressure in the order of their registration: symbol, name, and
/// the formula that takes a quantity to the pascal.
pub open spec fn pressure_catalog() -> Seq<UnitView> {
    let c = category_view(&PressureCategory);
    seq![
        UnitView::base("Pa"@, "pascal"@, c),
        UnitView::multiple("kPa"@, "kilopascal"@, c, Decimal { mantissa: 1000, scale: 0 }),
        UnitView::multiple("MPa"@, "megapascal"@, c, Decimal { mantissa: 1000000, scale: 0 }),
        UnitView::multiple("bar"@, "bar"@, c, Decimal { mantissa: 100000, scale: 0 }),
        UnitView::multiple("mbar"@, "millibar"@, c, Decimal { mantissa: 100, scale: 0 }),
        UnitView::multiple("atm"@, "atmosphere"@, c, Decimal { mantissa: 101325, scale: 0 }),
        UnitView::multiple("psi"@, "pounds per square inch"@, c, Decimal { mantissa: 689476, scale: 2 }),
        UnitView::multiple("Torr"@, "torr"@, c, Decimal { mantissa: 133322, scale: 3 }),
        UnitView::multiple("mmHg"@, "millimeters of mercury"@, c, Decimal { mantissa: 133322, scale: 3 }),
        UnitView::multiple("inHg"@, "inches of mercury"@, c, Decimal { mantissa: 338639, scale: 2 }),
    ]
}

/// The units of pressure, built in the order of the catalog.
pub fn pressure_units() -> (units: Vec<Unit>)
    ensures
        unit_views(units@) == pressure_catalog(),
{
    let c = PressureCategory;
    let mut units: Vec<Unit> = Vec::new();
    units.push(Unit::base("Pa", "pascal", &c));
    units.push(Unit::multiple("kPa", "kilopascal", &c, Decimal { mantissa: 1000, scale: 0 }));
    units.push(Unit::multiple("MPa", "megapascal", &c, Decimal { mantissa: 1000000, scale: 0 }));
    units.push(Unit::multiple("bar", "bar", &c, Decimal { mantissa: 100000, scale: 0 }));
    units.push(Unit::multiple("mbar", "millibar", &c, Decimal { mantissa: 100, scale: 0 }));
    units.push(Unit::multiple("atm", "atmosphere", &c, Decimal { mantissa: 101325, scale: 0 }));
    units.push(Unit::multiple("psi", "pounds per square inch", &c, Decimal { mantissa: 689476, scale: 2 }));
    units.push(Unit::multiple("Torr", "torr", &c, Decimal { mantissa: 133322, scale: 3 }));
    units.push(Unit::multiple("mmHg", "millimeters of mercury", &c, Decimal { mantissa: 133322, scale: 3 }));
    units.push(Unit::multiple("inHg", "inches of mercury", &c, Decimal { mantissa: 338639, scale: 2 }));
    assert(unit_views(units@) =~= pressure_catalog());
    units
}

/// Every unit of the catalog belongs to the pressure category and has a
/// formula that can be taken back, no two share a symbol, and the first
/// alone is a base unit.
pub proof fn lemma_pressure_catalog()
    ensures
        all_in_category(pressure_catalog(), "pressure"@),
        all_well_formed(pressure_catalog()),
        distinct_symbols(pressure_catalog()),
        only_first_is_base(pressure_catalog()),
{
    reveal_strlit("Pa");
    reveal_strlit("kPa");
    reveal_strlit("MPa");
    reveal_strlit("bar");
    reveal_strlit("mbar");
    reveal_strlit("atm");
    reveal_strlit("psi");
    reveal_strlit("Torr");
    reveal_strlit("mmHg");
    reveal_strlit("inHg");
    let units = pressure_catalog();
    assert forall|i: int, j: int| 0 <= i < j < units.len() implies (#[trigger] units[i]).symbol != (
    #[trigger] units[j]).symbol by {
        assert(differ_early(units[i].symbol, units[j].symbol));
    }
}

} // verus!
