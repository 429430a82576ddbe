//! Units of energy. The base unit is the joule.
use crate::models::formula::Decimal;
use crate::models::unit::{
    all_in_category, all_well_formed, category_view, distinct_symbols, only_first_is_base,
    unit_views, Unit, UnitCategory, UnitView,
};
use crate::text::differ_early;
use vstd::prelude::*;
use vstd::string::*;

verus! {

/// The energy category for units of energy measurement.
#[derive(Debug, Clone, Copy)]
pub struct EnergyCategory;

impl UnitCategory for EnergyCategory {
    open spec fn name_view(&self) -> Seq<char> {
        "energy"@
    }

    open spec fn description_view(&self) -> Seq<char> {
        "Units of energy measurement"@
    }

    fn name(&self) -> (name: &str) {
        "energy"
    }

    fn description(&self) -> (description: &str) {
        "Units of energy measurement"
    }
}

impl EnergyCategory {
    /// The category as text: its title.
    pub fn to_string(&self) -> (text: String)
        ensures
            text@ == "Energy"@,
    {
        String::from_str("Energy")
    }
}

/// The units of energy in the order of their registration: symbol, name, and
/// the formula that takes a quantity to the joule.
pub open spec fn energy_catalog() -> Seq<UnitView> {
    let c = category_view(&EnergyCategory);
    seq![
        UnitView::base("J"@, "joule"@, c),
        UnitView::multiple("kJ"@, "kilojoule"@, c, Decimal { mantissa: 1000, scale: 0 }),
        UnitView::multiple("MJ"@, "megajoule"@, c, Decimal { mantissa: 1000000, scale: 0 }),
        UnitView::multiple("cal"@, "calorie"@, c, Decimal { mantissa: 4184, scale: 3 }),
        UnitView::multiple("kcal"@, "kilocalorie"@, c, Decimal { mantissa: 4184, scale: 0 }),
        UnitView::multiple("BTU"@, "british thermal unit"@, c, Decimal { mantissa: 105506, scale: 2 }),
        UnitView::multiple("kWh"@, "kilowatt hour"@, c, Decimal { mantissa: 3600000, scale: 0 }),
        UnitView::multiple("Wh"@, "watt hour"@, c, Decimal { mantissa: 3600, scale: 0 }),
        UnitView::multiple("eV"@, "electron volt"@, c, Decimal { mantissa: 1602176634, scale: 28 }),
        UnitView::multiple("therm"@, "therm"@, c, Decimal { mantissa: 105505585257348, scale: 6 }),
        UnitView::multiple("ft⋅lb"@, "foot pound"@, c, Decimal { mantissa: 135582, scale: 5 }),
    ]
}

/// The units of energy, built in the order of the catalog.
pub fn energy_units() -> (units: Vec<Unit>)
    ensures
        unit_views(units@) == energy_catalog(),
{
    let c = EnergyCategory;
    let mut units: Vec<Unit> = Vec::new();
    units.push(Unit::base("J", "joule", &c));
    units.push(Unit::multiple("kJ", "kilojoule", &c, Decimal { mantissa: 1000, scale: 0 }));
    units.push(Unit::multiple("MJ", "megajoule", &c, Decimal { mantissa: 1000000, scale: 0 }));
    units.push(Unit::multiple("cal", "calorie", &c, Decimal { mantissa: 4184, scale: 3 }));
    units.push(Unit::multiple("kcal", "kilocalorie", &c, Decimal { mantissa: 4184, scale: 0 }));
    units.push(Unit::multiple("BTU", "british thermal unit", &c, Decimal { mantissa: 105506, scale: 2 }));
    units.push(Unit::multiple("kWh", "kilowatt hour", &c, Decimal { mantissa: 3600000, scale: 0 }));
    units.push(Unit::multiple("Wh", "watt hour", &c, Decimal { mantissa: 3600, scale: 0 }));
    units.push(Unit::multiple("eV", "electron volt", &c, Decimal { mantissa: 1602176634, scale: 28 }));
    units.push(Unit::multiple("therm", "therm", &c, Decimal { mantissa: 105505585257348, scale: 6 }));
    units.push(Unit::multiple("ft⋅lb", "foot pound", &c, Decimal { mantissa: 135582, scale: 5 }));
    assert(unit_views(units@) =~= energy_catalog());
    units
}

/// Every unit of the catalog belongs to the energy category and has a
/// formula that can be taken back, no two share a symbol, and the first
/// alone is a base unit.
pub proof fn lemma_energy_catalog()
    ensures
        all_in_category(energy_catalog(), "energy"@),
        all_well_formed(energy_catalog()),
        distinct_symbols(energy_catalog()),
        only_first_is_base(energy_catalog()),
{
    reveal_strlit("J");
    reveal_strlit("kJ");
    reveal_strlit("MJ");
    reveal_strlit("cal");
    reveal_strlit("kcal");
    reveal_strlit("BTU");
    reveal_strlit("kWh");
    reveal_strlit("Wh");
    reveal_strlit("eV");
    reveal_strlit("therm");
    reveal_strlit("ft⋅lb");
    let units = energy_catalog();
    assert forall|i: int, j: int| 0 <= i < j < units.len() implies (#[trigger] units[i]).symbol != (
    #[trigger] units[j]).symbol by {
        assert(differ_early(units[i].symbol, units[j].symbol));
    }
}

} // verus!
