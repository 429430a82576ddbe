//! Units of area. The base unit is the square meter.
use crate::models::formula::Decimal;
use crate::models::unit::{
    all_in_category, all_well_formed, category_view, distinct_symbols, only_first_is_base,
    unit_views, Unit, UnitCategory, UnitView,
};
use crate::text::differ_early;
use vstd::prelude::*;
use vstd::string::*;

verus! {

/// The area category for units of area measurement.
#[derive(Debug, Clone, Copy)]
pub struct AreaCategory;

impl UnitCategory for AreaCategory {
    open spec fn name_view(&self) -> Seq<char> {
        "area"@
    }

    open spec fn description_view(&self) -> Seq<char> {
        "Units of area measurement"@
    }

    fn name(&self) -> (name: &str) {
        "area"
    }

    fn description(&self) -> (description: &str) {
        "Units of area measurement"
    }
}

impl AreaCategory {
    /// The category as text: its title.
    pub fn to_string(&self) -> (text: String)
        ensures
            text@ == "Area"@,
    {
        String::from_str("Area")
    }
}

/// The units of area in the order of their registration: symbol, name, and
/// the formula that takes a quantity to the square meter.
pub open spec fn area_catalog() -> Seq<UnitView> {
    let c = category_view(&AreaCategory);
    seq![
        UnitView::base("m²"@, "square meter"@, c),
        UnitView::multiple("km²"@, "square kilometer"@, c, Decimal { mantissa: 1000000, scale: 0 }),
        UnitView::multiple("cm²"@, "square centimeter"@, c, Decimal { mantissa: 1, scale: 4 }),
        UnitView::multiple("mm²"@, "square millimeter"@, c, Decimal { mantissa: 1, scale: 6 }),
        UnitView::multiple("ha"@, "hectare"@, c, Decimal { mantissa: 10000, scale: 0 }),
        UnitView::multiple("a"@, "are"@, c, Decimal { mantissa: 100, scale: 0 }),
        UnitView::multiple("in²"@, "square inch"@, c, Decimal { mantissa: 64516, scale: 8 }),
        UnitView::multiple("ft²"@, "square foot"@, c, Decimal { mantissa: 92903, scale: 6 }),
        UnitView::multiple("yd²"@, "square yard"@, c, Decimal { mantissa: 836127, scale: 6 }),
        UnitView::multiple("mi²"@, "square mile"@, c, Decimal { mantissa: 2589988, scale: 0 }),
        UnitView::multiple("ac"@, "acre"@, c, Decimal { mantissa: 404686, scale: 2 }),
    ]
}

/// The units of area, built in the order of the catalog.
pub fn area_units() -> (units: Vec<Unit>)
    ensures
        unit_views(units@) == area_catalog(),
{
    let c = AreaCategory;
    let mut units: Vec<Unit> = Vec::new();
    units.push(Unit::base("m²", "square meter", &c));
    units.push(Unit::multiple("km²", "square kilometer", &c, Decimal { mantissa: 1000000, scale: 0 }));
    units.push(Unit::multiple("cm²", "square centimeter", &c, Decimal { mantissa: 1, scale: 4 }));
    units.push(Unit::multiple("mm²", "square millimeter", &c, Decimal { mantissa: 1, scale: 6 }));
    units.push(Unit::multiple("ha", "hectare", &c, Decimal { mantissa: 10000, scale: 0 }));
    units.push(Unit::multiple("a", "are", &c, Decimal { mantissa: 100, scale: 0 }));
    units.push(Unit::multiple("in²", "square inch", &c, Decimal { mantissa: 64516, scale: 8 }));
    units.push(Unit::multiple("ft²", "square foot", &c, Decimal { mantissa: 92903, scale: 6 }));
    units.push(Unit::multiple("yd²", "square yard", &c, Decimal { mantissa: 836127, scale: 6 }));
    units.push(Unit::multiple("mi²", "square mile", &c, Decimal { mantissa: 2589988, scale: 0 }));
    units.push(Unit::multiple("ac", "acre", &c, Decimal { mantissa: 404686, scale: 2 }));
    assert(unit_views(units@) =~= area_catalog());
    units
}

/// Every unit of the catalog belongs to the area category and has a
/// formula that can be taken back, no two share a symbol, and the first
/// alone is a base unit.
pub proof fn lemma_area_catalog()
    ensures
        all_in_category(area_catalog(), "area"@),
        all_well_formed(area_catalog()),
        distinct_symbols(area_catalog()),
        only_first_is_base(area_catalog()),
{
    reveal_strlit("m²");
    reveal_strlit("km²");
    reveal_strlit("cm²");
    reveal_strlit("mm²");
    reveal_strlit("ha");
    reveal_strlit("a");
    reveal_strlit("in²");
    reveal_strlit("ft²");
    reveal_strlit("yd²");
    reveal_strlit("mi²");
    reveal_strlit("ac");
    let units = area_catalog();
    assert forall|i: int, j: int| 0 <= i < j < units.len() implies (#[trigger] units[i]).symbol != (
    #[trigger] units[j]).symbol by {
        assert(differ_early(units[i].symbol, units[j].symbol));
    }
}

} // verus!
