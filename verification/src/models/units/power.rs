//! Units of power. The base unit is the watt.
use crate::models::formula::Decimal;
use crate::models::unit::{
    all_in_category, all_well_formed, category_view, distinct_symbols, unit_views, Unit,
    UnitCategory, UnitView,
};
use crate::text::differ_early;
use vstd::prelude::*;
use vstd::string::*;

verus! {

/// The power category for units of power measurement.
#[derive(Debug, Clone, Copy)]
pub struct PowerCategory;

impl UnitCategory for PowerCategory {
    open spec fn name_view(&self) -> Seq<char> {
        "power"@
    }

    open spec fn description_view(&self) -> Seq<char> {
        "Units of power measurement"@
    }

    fn name(&self) -> (name: &str) {
        "power"
    }

    fn description(&self) -> (description: &str) {
        "Units of power measurement"
    }
}

impl PowerCategory {
    /// The category as text: its title.
    pub fn to_string(&self) -> (text: String)
        ensures
            text@ == "Power"@,
    {
        String::from_str("Power")
    }
}

/// The units of power in the order of their registration: symbol, name, and
/// the formula that takes a quantity to the watt.
pub open spec fn power_catalog() -> Seq<UnitView> {
    let c = category_view(&PowerCategory);
    seq![
        UnitView::base("W"@, "watt"@, c),
        UnitView::multiple("kW"@, "kilowatt"@, c, Decimal { mantissa: 1000, scale: 0 }),
        UnitView::multiple("MW"@, "megawatt"@, c, Decimal { mantissa: 1000000, scale: 0 }),
        UnitView::multiple("GW"@, "gigawatt"@, c, Decimal { mantissa: 1000000000, scale: 0 }),
        UnitView::multiple("hp"@, "horsepower"@, c, Decimal { mantissa: 7457, scale: 1 }),
        UnitView::multiple("BTU/h"@, "btu per hour"@, c, Decimal { mantissa: 29307107, scale: 8 }),
        UnitView::multiple("ft⋅lb/s"@, "foot pound per second"@, c, Decimal { mantissa: 135582, scale: 5 }),
        UnitView::multiple("cal/s"@, "calorie per second"@, c, Decimal { mantissa: 4184, scale: 3 }),
        UnitView::base("J/s"@, "joule per second"@, c),
        UnitView::multiple("kcal/h"@, "kilocalorie per hour"@, c, Decimal { mantissa: 1163, scale: 3 }),
    ]
}

/// The units of power, built in the order of the catalog.
pub fn power_units() -> (units: Vec<Unit>)
    ensures
        unit_views(units@) == power_catalog(),
{
    let c = PowerCategory;
    let mut units: Vec<Unit> = Vec::new();
    units.push(Unit::base("W", "watt", &c));
    units.push(Unit::multiple("kW", "kilowatt", &c, Decimal { mantissa: 1000, scale: 0 }));
    units.push(Unit::multiple("MW", "megawatt", &c, Decimal { mantissa: 1000000, scale: 0 }));
    units.push(Unit::multiple("GW", "gigawatt", &c, Decimal { mantissa: 1000000000, scale: 0 }));
    units.push(Unit::multiple("hp", "horsepower", &c, Decimal { mantissa: 7457, scale: 1 }));
    units.push(Unit::multiple("BTU/h", "btu per hour", &c, Decimal { mantissa: 29307107, scale: 8 }));
    units.push(Unit::multiple("ft⋅lb/s", "foot pound per second", &c, Decimal { mantissa: 135582, scale: 5 }));
    units.push(Unit::multiple("cal/s", "calorie per second", &c, Decimal { mantissa: 4184, scale: 3 }));
    units.push(Unit::base("J/s", "joule per second", &c));
    units.push(Unit::multiple("kcal/h", "kilocalorie per hour", &c, Decimal { mantissa: 1163, scale: 3 }));
    assert(unit_views(units@) =~= power_catalog());
    units
}

/// Every unit of the catalog belongs to the power category and has a
/// formula that can be taken back, and no two share a symbol. The first
/// is the base unit; "J/s" is a second name for it and converts by the same
/// empty formula.
pub proof fn lemma_power_catalog()
    ensures
        all_in_category(power_catalog(), "power"@),
        all_well_formed(power_catalog()),
        distinct_symbols(power_catalog()),
        forall|i: int|
            0 <= i < power_catalog().len() ==> ((#[trigger] power_catalog()[i]).is_base() <==> (i == 0 || i == 8)),
{
    reveal_strlit("W");
    reveal_strlit("kW");
    reveal_strlit("MW");
    reveal_strlit("GW");
    reveal_strlit("hp");
    reveal_strlit("BTU/h");
    reveal_strlit("ft⋅lb/s");
    reveal_strlit("cal/s");
    reveal_strlit("J/s");
    reveal_strlit("kcal/h");
    let units = power_catalog();
    assert forall|i: int, j: int| 0 <= i < j < units.len() implies (#[trigger] units[i]).symbol != (
    #[trigger] units[j]).symbol by {
        assert(differ_early(units[i].symbol, units[j].symbol));
    }
}

} // verus!
