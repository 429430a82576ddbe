//! Units of time. The base unit is the second.
use crate::models::formula::Decimal;
use crate::models::unit::{
    all_in_category, all_well_formed, category_view, distinct_symbols, only_first_is_base,
    unit_views, Unit, UnitCategory, UnitView,
};
use crate::text::differ_early;
use vstd::prelude::*;
use vstd::string::*;

verus! {

/// The time category for units of time measurement.
#[derive(Debug, Clone, Copy)]
pub struct TimeCategory;

impl UnitCategory for TimeCategory {
    open spec fn name_view(&self) -> Seq<char> {
        "time"@
    }

    open spec fn description_view(&self) -> Seq<char> {
        "Units of time measurement"@
    }

    fn name(&self) -> (name: &str) {
        "time"
    }

    fn description(&self) -> (description: &str) {
        "Units of time measurement"
    }
}

impl TimeCategory {
    /// The category as text: its title.
    pub fn to_string(&self) -> (text: String)
        ensures
            text@ == "Time"@,
    {
        String::from_str("Time")
    }
}

/// The units of time in the order of their registration: symbol, name, and
/// the formula that takes a quantity to the second.
pub open spec fn time_catalog() -> Seq<UnitView> {
    let c = category_view(&TimeCategory);
    seq![
        UnitView::base("s"@, "second"@, c),
        UnitView::multiple("ms"@, "millisecond"@, c, Decimal { mantissa: 1, scale: 3 }),
        UnitView::multiple("μs"@, "microsecond"@, c, Decimal { mantissa: 1, scale: 6 }),
        UnitView::multiple("ns"@, "nanosecond"@, c, Decimal { mantissa: 1, scale: 9 }),
        UnitView::multiple("min"@, "minute"@, c, Decimal { mantissa: 60, scale: 0 }),
        UnitView::multiple("h"@, "hour"@, c, Decimal { mantissa: 3600, scale: 0 }),
        UnitView::multiple("d"@, "day"@, c, Decimal { mantissa: 86400, scale: 0 }),
        UnitView::multiple("wk"@, "week"@, c, Decimal { mantissa: 604800, scale: 0 }),
        UnitView::multiple("mo"@, "month"@, c, Decimal { mantissa: 2628000, scale: 0 }),
        UnitView::multiple("yr"@, "year"@, c, Decimal { mantissa: 31536000, scale: 0 }),
        UnitView::multiple("dec"@, "decade"@, c, Decimal { mantissa: 315360000, scale: 0 }),
        UnitView::multiple("c"@, "century"@, c, Decimal { mantissa: 3153600000, scale: 0 }),
    ]
}

/// The units of time, built in the order of the catalog.
pub fn time_units() -> (units: Vec<Unit>)
    ensures
        unit_views(units@) == time_catalog(),
{
    let c = TimeCategory;
    let mut units: Vec<Unit> = Vec::new();
    units.push(Unit::base("s", "second", &c));
    units.push(Unit::multiple("ms", "millisecond", &c, Decimal { mantissa: 1, scale: 3 }));
    units.push(Unit::multiple("μs", "microsecond", &c, Decimal { mantissa: 1, scale: 6 }));
    units.push(Unit::multiple("ns", "nanosecond", &c, Decimal { mantissa: 1, scale: 9 }));
    units.push(Unit::multiple("min", "minute", &c, Decimal { mantissa: 60, scale: 0 }));
    units.push(Unit::multiple("h", "hour", &c, Decimal { mantissa: 3600, scale: 0 }));
    units.push(Unit::multiple("d", "day", &c, Decimal { mantissa: 86400, scale: 0 }));
    units.push(Unit::multiple("wk", "week", &c, Decimal { mantissa: 604800, scale: 0 }));
    units.push(Unit::multiple("mo", "month", &c, Decimal { mantissa: 2628000, scale: 0 }));
    units.push(Unit::multiple("yr", "year", &c, Decimal { mantissa: 31536000, scale: 0 }));
    units.push(Unit::multiple("dec", "decade", &c, Decimal { mantissa: 315360000, scale: 0 }));
    units.push(Unit::multiple("c", "century", &c, Decimal { mantissa: 3153600000, scale: 0 }));
    assert(unit_views(units@) =~= time_catalog());
    units
}

/// Every unit of the catalog belongs to the time category and has a
/// formula that can be taken back, no two share a symbol, and the first
/// alone is a base unit.
pub proof fn lemma_time_catalog()
    ensures
        all_in_category(time_catalog(), "time"@),
        all_well_formed(time_catalog()),
        distinct_symbols(time_catalog()),
        only_first_is_base(time_catalog()),
{
    reveal_strlit("s");
    reveal_strlit("ms");
    reveal_strlit("μs");
    reveal_strlit("ns");
    reveal_strlit("min");
    reveal_strlit("h");
    reveal_strlit("d");
    reveal_strlit("wk");
    reveal_strlit("mo");
    reveal_strlit("yr");
    reveal_strlit("dec");
    reveal_strlit("c");
    let units = time_catalog();
    assert forall|i: int, j: int| 0 <= i < j < units.len() implies (#[trigger] units[i]).symbol != (
    #[trigger] units[j]).symbol by {
        assert(differ_early(units[i].symbol, units[j].symbol));
    }
}

} // verus!
