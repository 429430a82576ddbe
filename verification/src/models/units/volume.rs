//! Units of volume. The base unit is the cubic meter.
use crate::models::formula::Decimal;
use crate::models::unit::{
    all_in_category, all_well_formed, category_view, distinct_symbols, only_first_is_base,
    unit_views, Unit, UnitCategory, UnitView,
};
use crate::text::differ_early;
use vstd::prelude::*;
use vstd::string::*;

verus! {

/// The volume category for units of volume measurement.
#[derive(Debug, Clone, Copy)]
pub struct VolumeCategory;

impl UnitCategory for VolumeCategory {
    open spec fn name_view(&self) -> Seq<char> {
        "volume"@
    }

    open spec fn description_view(&self) -> Seq<char> {
        "Units of volume measurement"@
    }

    fn name(&self) -> (name: &str) {
        "volume"
    }

    fn description(&self) -> (description: &str) {
        "Units of volume measurement"
    }
}

impl VolumeCategory {
    /// The category as text: its title.
    pub fn to_string(&self) -> (text: String)
        ensures
            text@ == "Volume"@,
    {
        String::from_str("Volume")
    }
}

/// The units of volume in the order of their registration: symbol, name, and
/// the formula that takes a quantity to the cubic meter.
pub open spec fn volume_catalog() -> Seq<UnitView> {
    let c = category_view(&VolumeCategory);
    seq![
        UnitView::base("m³"@, "cubic meter"@, c),
        UnitView::fraction("L"@, "liter"@, c, Decimal { mantissa: 1000, scale: 0 }),
        UnitView::fraction("mL"@, "milliliter"@, c, Decimal { mantissa: 1000000, scale: 0 }),
        UnitView::fraction("cm³"@, "cubic centimeter"@, c, Decimal { mantissa: 1000000, scale: 0 }),
        UnitView::fraction("dm³"@, "cubic decimeter"@, c, Decimal { mantissa: 1000, scale: 0 }),
        UnitView::multiple("gal"@, "US gallon"@, c, Decimal { mantissa: 378541, scale: 8 }),
        UnitView::multiple("UK gal"@, "UK gallon"@, c, Decimal { mantissa: 454609, scale: 8 }),
        UnitView::multiple("qt"@, "US quart"@, c, Decimal { mantissa: 946353, scale: 9 }),
        UnitView::multiple("pt"@, "US pint"@, c, Decimal { mantissa: 473176, scale: 9 }),
        UnitView::multiple("cup"@, "US cup"@, c, Decimal { mantissa: 236588, scale: 9 }),
        UnitView::multiple("fl oz"@, "US fluid ounce"@, c, Decimal { mantissa: 295735, scale: 10 }),
        UnitView::multiple("in³"@, "cubic inch"@, c, Decimal { mantissa: 163871, scale: 10 }),
        UnitView::multiple("ft³"@, "cubic foot"@, c, Decimal { mantissa: 283168, scale: 7 }),
        UnitView::multiple("yd³"@, "cubic yard"@, c, Decimal { mantissa: 764555, scale: 6 }),
    ]
}

/// The units of volume, built in the order of the catalog.
pub fn volume_units() -> (units: Vec<Unit>)
    ensures
        unit_views(units@) == volume_catalog(),
{
    let c = VolumeCategory;
    let mut units: Vec<Unit> = Vec::new();
    units.push(Unit::base("m³", "cubic meter", &c));
    units.push(Unit::fraction("L", "liter", &c, Decimal { mantissa: 1000, scale: 0 }));
    units.push(Unit::fraction("mL", "milliliter", &c, Decimal { mantissa: 1000000, scale: 0 }));
    units.push(Unit::fraction("cm³", "cubic centimeter", &c, Decimal { mantissa: 1000000, scale: 0 }));
    units.push(Unit::fraction("dm³", "cubic decimeter", &c, Decimal { mantissa: 1000, scale: 0 }));
    units.push(Unit::multiple("gal", "US gallon", &c, Decimal { mantissa: 378541, scale: 8 }));
    units.push(Unit::multiple("UK gal", "UK gallon", &c, Decimal { mantissa: 454609, scale: 8 }));
    units.push(Unit::multiple("qt", "US quart", &c, Decimal { mantissa: 946353, scale: 9 }));
    units.push(Unit::multiple("pt", "US pint", &c, Decimal { mantissa: 473176, scale: 9 }));
    units.push(Unit::multiple("cup", "US cup", &c, Decimal { mantissa: 236588, scale: 9 }));
    units.push(Unit::multiple("fl oz", "US fluid ounce", &c, Decimal { mantissa: 295735, scale: 10 }));
    units.push(Unit::multiple("in³", "cubic inch", &c, Decimal { mantissa: 163871, scale: 10 }));
    units.push(Unit::multiple("ft³", "cubic foot", &c, Decimal { mantissa: 283168, scale: 7 }));
    units.push(Unit::multiple("yd³", "cubic yard", &c, Decimal { mantissa: 764555, scale: 6 }));
    assert(unit_views(units@) =~= volume_catalog());
    units
}

/// Every unit of the catalog belongs to the volume category and has a
/// formula that can be taken back, no two share a symbol, and the first
/// alone is a base unit.
pub proof fn lemma_volume_catalog()
    ensures
        all_in_category(volume_catalog(), "volume"@),
        all_well_formed(volume_catalog()),
        distinct_symbols(volume_catalog()),
        only_first_is_base(volume_catalog()),
{
    reveal_strlit("m³");
    reveal_strlit("L");
    reveal_strlit("mL");
    reveal_strlit("cm³");
    reveal_strlit("dm³");
    reveal_strlit("gal");
    reveal_strlit("UK gal");
    reveal_strlit("qt");
    reveal_strlit("pt");
    reveal_strlit("cup");
    reveal_strlit("fl oz");
    reveal_strlit("in³");
    reveal_strlit("ft³");
    reveal_strlit("yd³");
    let units = volume_catalog();
    assert forall|i: int, j: int| 0 <= i < j < units.len() implies (#[trigger] units[i]).symbol != (
    #[trigger] units[j]).symbol by {
        assert(differ_early(units[i].symbol, units[j].symbol));
    }
}

} // verus!
