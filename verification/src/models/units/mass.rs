//! Units of mass. The base unit is the kilogram.
use crate::models::formula::Decimal;
use crate::models::unit::{
    all_in_category, all_well_formed, category_view, distinct_symbols, only_first_is_base,
    unit_views, Unit, UnitCategory, UnitView,
};
use crate::text::differ_early;
use vstd::prelude::*;
use vstd::string::*;

verus! {

/// The mass category for units of mass measurement.
#[derive(Debug, Clone, Copy)]
pub struct MassCategory;

impl UnitCategory for MassCategory {
    open spec fn name_view(&self) -> Seq<char> {
        "mass"@
    }

    open spec fn description_view(&self) -> Seq<char> {
        "Units of mass measurement"@
    }

    fn name(&self) -> (name: &str) {
        "mass"
    }

    fn description(&self) -> (description: &str) {
        "Units of mass measurement"
    }
}

impl MassCategory {
    /// The category as text: its title.
    pub fn to_string(&self) -> (text: String)
        ensures
            text@ == "Mass"@,
    {
        String::from_str("Mass")
    }
}

/// The units of mass in the order of their registration: symbol, name, and
/// the formula that takes a quantity to the kilogram.
pub open spec fn mass_catalog() -> Seq<UnitView> {
    let c = category_view(&MassCategory);
    seq![
        UnitView::base("kg"@, "kilogram"@, c),
        UnitView::fraction("g"@, "gram"@, c, Decimal { mantissa: 1000, scale: 0 }),
        UnitView::fraction("mg"@, "milligram"@, c, Decimal { mantissa: 1000000, scale: 0 }),
        UnitView::fraction("μg"@, "microgram"@, c, Decimal { mantissa: 1000000000, scale: 0 }),
        UnitView::multiple("t"@, "metric ton"@, c, Decimal { mantissa: 1000, scale: 0 }),
        UnitView::multiple("lb"@, "pound"@, c, Decimal { mantissa: 45359237, scale: 8 }),
        UnitView::multiple("oz"@, "ounce"@, c, Decimal { mantissa: 28349523125, scale: 12 }),
        UnitView::multiple("st"@, "stone"@, c, Decimal { mantissa: 635029318, scale: 8 }),
        UnitView::multiple("US t"@, "US ton"@, c, Decimal { mantissa: 90718474, scale: 5 }),
        UnitView::multiple("UK t"@, "imperial ton"@, c, Decimal { mantissa: 10160469088, scale: 7 }),
    ]
}

/// The units of mass, built in the order of the catalog.
pub fn mass_units() -> (units: Vec<Unit>)
    ensures
        unit_views(units@) == mass_catalog(),
{
    let c = MassCategory;
    let mut units: Vec<Unit> = Vec::new();
    units.push(Unit::base("kg", "kilogram", &c));
    units.push(Unit::fraction("g", "gram", &c, Decimal { mantissa: 1000, scale: 0 }));
    units.push(Unit::fraction("mg", "milligram", &c, Decimal { mantissa: 1000000, scale: 0 }));
    units.push(Unit::fraction("μg", "microgram", &c, Decimal { mantissa: 1000000000, scale: 0 }));
    units.push(Unit::multiple("t", "metric ton", &c, Decimal { mantissa: 1000, scale: 0 }));
    units.push(Unit::multiple("lb", "pound", &c, Decimal { mantissa: 45359237, scale: 8 }));
    units.push(Unit::multiple("oz", "ounce", &c, Decimal { mantissa: 28349523125, scale: 12 }));
    units.push(Unit::multiple("st", "stone", &c, Decimal { mantissa: 635029318, scale: 8 }));
    units.push(Unit::multiple("US t", "US ton", &c, Decimal { mantissa: 90718474, scale: 5 }));
    units.push(Unit::multiple("UK t", "imperial ton", &c, Decimal { mantissa: 10160469088, scale: 7 }));
    assert(unit_views(units@) =~= mass_catalog());
    units
}

/// Every unit of the catalog belongs to the mass category and has a
/// formula that can be taken back, no two share a symbol, and the first
/// alone is a base unit.
pub proof fn lemma_mass_catalog()
    ensures
        all_in_category(mass_catalog(), "mass"@),
        all_well_formed(mass_catalog()),
        distinct_symbols(mass_catalog()),
        only_first_is_base(mass_catalog()),
{
    reveal_strlit("kg");
    reveal_strlit("g");
    reveal_strlit("mg");
    reveal_strlit("μg");
    reveal_strlit("t");
    reveal_strlit("lb");
    reveal_strlit("oz");
    reveal_strlit("st");
    reveal_strlit("US t");
    reveal_strlit("UK t");
    let units = mass_catalog();
    assert forall|i: int, j: int| 0 <= i < j < units.len() implies (#[trigger] units[i]).symbol != (
    #[trigger] units[j]).symbol by {
        assert(differ_early(units[i].symbol, units[j].symbol));
    }
}

} // verus!
