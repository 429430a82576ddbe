//! Units of length. The base unit is the meter.
use crate::models::formula::Decimal;
use crate::models::unit::{
    all_in_category, all_well_formed, category_view, distinct_symbols, only_first_is_base,
    unit_views, Unit, UnitCategory, UnitView,
};
use crate::text::differ_early;
use vstd::prelude::*;
use vstd::string::*;

verus! {

/// The length category for units of length measurement.
#[derive(Debug, Clone, Copy)]
pub struct LengthCategory;

impl UnitCategory for LengthCategory {
    open spec fn name_view(&self) -> Seq<char> {
        "length"@
    }

    open spec fn description_view(&self) -> Seq<char> {
        "Units of length measurement"@
    }

    fn name(&self) -> (name: &str) {
        "length"
    }

    fn description(&self) -> (description: &str) {
        "Units of length measurement"
    }
}

impl LengthCategory {
    /// The category as text: its title.
    pub fn to_string(&self) -> (text: String)
        ensures
            text@ == "Length"@,
    {
        String::from_str("Length")
    }
}

/// The units of length in the order of their registration: symbol, name, and
/// the formula that takes a quantity to the meter.
pub open spec fn length_catalog() -> Seq<UnitView> {
    let c = category_view(&LengthCategory);
    seq![
        UnitView::base("m"@, "meter"@, c),
        UnitView::multiple("km"@, "kilometer"@, c, Decimal { mantissa: 1000, scale: 0 }),
        UnitView::fraction("cm"@, "centimeter"@, c, Decimal { mantissa: 100, scale: 0 }),
        UnitView::fraction("mm"@, "millimeter"@, c, Decimal { mantissa: 1000, scale: 0 }),
        UnitView::fraction("μm"@, "micrometer"@, c, Decimal { mantissa: 1000000, scale: 0 }),
        UnitView::fraction("nm"@, "nanometer"@, c, Decimal { mantissa: 1000000000, scale: 0 }),
        UnitView::multiple("in"@, "inch"@, c, Decimal { mantissa: 254, scale: 4 }),
        UnitView::multiple("ft"@, "foot"@, c, Decimal { mantissa: 3048, scale: 4 }),
        UnitView::multiple("yd"@, "yard"@, c, Decimal { mantissa: 9144, scale: 4 }),
        UnitView::multiple("mi"@, "mile"@, c, Decimal { mantissa: 1609344, scale: 3 }),
        UnitView::multiple("nmi"@, "nautical mile"@, c, Decimal { mantissa: 1852, scale: 0 }),
    ]
}

/// The units of length, built in the order of the catalog.
pub fn length_units() -> (units: Vec<Unit>)
    ensures
        unit_views(units@) == length_catalog(),
{
    let c = LengthCategory;
    let mut units: Vec<Unit> = Vec::new();
    units.push(Unit::base("m", "meter", &c));
    units.push(Unit::multiple("km", "kilometer", &c, Decimal { mantissa: 1000, scale: 0 }));
    units.push(Unit::fraction("cm", "centimeter", &c, Decimal { mantissa: 100, scale: 0 }));
    units.push(Unit::fraction("mm", "millimeter", &c, Decimal { mantissa: 1000, scale: 0 }));
    units.push(Unit::fraction("μm", "micrometer", &c, Decimal { mantissa: 1000000, scale: 0 }));
    units.push(Unit::fraction("nm", "nanometer", &c, Decimal { mantissa: 1000000000, scale: 0 }));
    units.push(Unit::multiple("in", "inch", &c, Decimal { mantissa: 254, scale: 4 }));
    units.push(Unit::multiple("ft", "foot", &c, Decimal { mantissa: 3048, scale: 4 }));
    units.push(Unit::multiple("yd", "yard", &c, Decimal { mantissa: 9144, scale: 4 }));
    units.push(Unit::multiple("mi", "mile", &c, Decimal { mantissa: 1609344, scale: 3 }));
    units.push(Unit::multiple("nmi", "nautical mile", &c, Decimal { mantissa: 1852, scale: 0 }));
    assert(unit_views(units@) =~= length_catalog());
    units
}

/// Every unit of the catalog belongs to the length category and has a
/// formula that can be taken back, no two share a symbol, and the first
/// alone is a base unit.
pub proof fn lemma_length_catalog()
    ensures
        all_in_category(length_catalog(), "length"@),
        all_well_formed(length_catalog()),
        distinct_symbols(length_catalog()),
        only_first_is_base(length_catalog()),
{
    reveal_strlit("m");
    reveal_strlit("km");
    reveal_strlit("cm");
    reveal_strlit("mm");
    reveal_strlit("μm");
    reveal_strlit("nm");
    reveal_strlit("in");
    reveal_strlit("ft");
    reveal_strlit("yd");
    reveal_strlit("mi");
    reveal_strlit("nmi");
    let units = length_catalog();
    assert forall|i: int, j: int| 0 <= i < j < units.len() implies (#[trigger] units[i]).symbol != (
    #[trigger] units[j]).symbol by {
        assert(differ_early(units[i].symbol, units[j].symbol));
    }
}

} // verus!
