//! Units of speed. The base unit is the meter per second.
use crate::models::formula::Decimal;
use crate::models::unit::{
    all_in_category, all_well_formed, category_view, distinct_symbols, only_first_is_base,
    unit_views, Unit, UnitCategory, UnitView,
};
use crate::text::differ_early;
use vstd::prelude::*;
use vstd::string::*;

verus! {

/// The speed category for units of speed/velocity measurement.
#[derive(Debug, Clone, Copy)]
pub struct SpeedCategory;

impl UnitCategory for SpeedCategory {
    open spec fn name_view(&self) -> Seq<char> {
        "speed"@
    }

    open spec fn description_view(&self) -> Seq<char> {
        "Units of speed/velocity measurement"@
    }

    fn name(&self) -> (name: &str) {
        "speed"
    }

    fn description(&self) -> (description: &str) {
        "Units of speed/velocity measurement"
    }
}

impl SpeedCategory {
    /// The category as text: its title.
    pub fn to_string(&self) -> (text: String)
        ensures
            text@ == "Speed"@,
    {
        String::from_str("Speed")
    }
}

/// The units of speed in the order of their registration: symbol, name, and
/// the formula that takes a quantity to the meter per second.
pub open spec fn speed_catalog() -> Seq<UnitView> {
    let c = category_view(&SpeedCategory);
    seq![
        UnitView::base("m/s"@, "meter per second"@, c),
        UnitView::multiple("km/h"@, "kilometer per hour"@, c, Decimal { mantissa: 277778, scale: 6 }),
        UnitView::multiple("mph"@, "mile per hour"@, c, Decimal { mantissa: 44704, scale: 5 }),
        UnitView::multiple("kn"@, "knot"@, c, Decimal { mantissa: 514444, scale: 6 }),
        UnitView::multiple("ft/s"@, "foot per second"@, c, Decimal { mantissa: 3048, scale: 4 }),
        UnitView::multiple("cm/s"@, "centimeter per second"@, c, Decimal { mantissa: 1, scale: 2 }),
        UnitView::multiple("M"@, "mach"@, c, Decimal { mantissa: 343, scale: 0 }),
    ]
}

/// The units of speed, built in the order of the catalog.
pub fn speed_units() -> (units: Vec<Unit>)
    ensures
        unit_views(units@) == speed_catalog(),
{
    let c = SpeedCategory;
    let mut units: Vec<Unit> = Vec::new();
    units.push(Unit::base("m/s", "meter per second", &c));
    units.push(Unit::multiple("km/h", "kilometer per hour", &c, Decimal { mantissa: 277778, scale: 6 }));
    units.push(Unit::multiple("mph", "mile per hour", &c, Decimal { mantissa: 44704, scale: 5 }));
    units.push(Unit::multiple("kn", "knot", &c, Decimal { mantissa: 514444, scale: 6 }));
    units.push(Unit::multiple("ft/s", "foot per second", &c, Decimal { mantissa: 3048, scale: 4 }));
    units.push(Unit::multiple("cm/s", "centimeter per second", &c, Decimal { mantissa: 1, scale: 2 }));
    units.push(Unit::multiple("M", "mach", &c, Decimal { mantissa: 343, scale: 0 }));
    assert(unit_views(units@) =~= speed_catalog());
    units
}

/// Every unit of the catalog belongs to the speed category and has a
/// formula that can be taken back, no two share a symbol, and the first
/// alone is a base unit.
pub proof fn lemma_speed_catalog()
    ensures
        all_in_category(speed_catalog(), "speed"@),
        all_well_formed(speed_catalog()),
        distinct_symbols(speed_catalog()),
        only_first_is_base(speed_catalog()),
{
    reveal_strlit("m/s");
    reveal_strlit("km/h");
    reveal_strlit("mph");
    reveal_strlit("kn");
    reveal_strlit("ft/s");
    reveal_strlit("cm/s");
    reveal_strlit("M");
    let units = speed_catalog();
    assert forall|i: int, j: int| 0 <= i < j < units.len() implies (#[trigger] units[i]).symbol != (
    #[trigger] units[j]).symbol by {
        assert(differ_early(units[i].symbol, units[j].symbol));
    }
}

} // verus!
