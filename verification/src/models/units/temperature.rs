//! Units of temperature. The base unit is the kelvin.
use crate::models::formula::{Decimal, Step};
use crate::models::unit::{
    all_in_category, all_well_formed, category_view, distinct_symbols, only_first_is_base,
    unit_views, Unit, UnitCategory, UnitView,
};
use crate::text::differ_early;
use vstd::prelude::*;
use vstd::string::*;

verus! {

/// The temperature category for units of temperature measurement.
#[derive(Debug, Clone, Copy)]
pub struct TemperatureCategory;

impl UnitCategory for TemperatureCategory {
    open spec fn name_view(&self) -> Seq<char> {
        "temperature"@
    }

    open spec fn description_view(&self) -> Seq<char> {
        "Units of temperature measurement"@
    }

    fn name(&self) -> (name: &str) {
        "temperature"
    }

    fn description(&self) -> (description: &str) {
        "Units of temperature measurement"
    }
}

impl TemperatureCategory {
    /// The category as text: its title.
    pub fn to_string(&self) -> (text: String)
        ensures
            text@ == "Temperature"@,
    {
        String::from_str("Temperature")
    }
}

/// The units of temperature in the order of their registration: symbol, name, and
/// the formula that takes a quantity to the kelvin.
pub open spec fn temperature_catalog() -> Seq<UnitView> {
    let c = category_view(&TemperatureCategory);
    seq![
        UnitView::base("K"@, "kelvin"@, c),
        UnitView::base("°C"@, "celsius"@, c)
            .with_step(Step::Plus(Decimal { mantissa: 27315, scale: 2 })),
        UnitView::base("°F"@, "fahrenheit"@, c)
            .with_step(Step::Minus(Decimal { mantissa: 32, scale: 0 }))
            .with_step(Step::Times(Decimal { mantissa: 5, scale: 0 }))
            .with_step(Step::Over(Decimal { mantissa: 9, scale: 0 }))
            .with_step(Step::Plus(Decimal { mantissa: 27315, scale: 2 })),
        UnitView::base("°R"@, "rankine"@, c)
            .with_step(Step::Times(Decimal { mantissa: 5, scale: 0 }))
            .with_step(Step::Over(Decimal { mantissa: 9, scale: 0 })),
        UnitView::base("°Ré"@, "reaumur"@, c)
            .with_step(Step::Times(Decimal { mantissa: 5, scale: 0 }))
            .with_step(Step::Over(Decimal { mantissa: 4, scale: 0 }))
            .with_step(Step::Plus(Decimal { mantissa: 27315, scale: 2 })),
    ]
}

/// The units of temperature, built in the order of the catalog.
pub fn temperature_units() -> (units: Vec<Unit>)
    ensures
        unit_views(units@) == temperature_catalog(),
{
    let c = TemperatureCategory;
    let mut units: Vec<Unit> = Vec::new();
    units.push(Unit::base("K", "kelvin", &c));
    units.push(
        Unit::base("°C", "celsius", &c)
            .with_step(Step::Plus(Decimal { mantissa: 27315, scale: 2 })),
    );
    units.push(
        Unit::base("°F", "fahrenheit", &c)
            .with_step(Step::Minus(Decimal { mantissa: 32, scale: 0 }))
            .with_step(Step::Times(Decimal { mantissa: 5, scale: 0 }))
            .with_step(Step::Over(Decimal { mantissa: 9, scale: 0 }))
            .with_step(Step::Plus(Decimal { mantissa: 27315, scale: 2 })),
    );
    units.push(
        Unit::base("°R", "rankine", &c)
            .with_step(Step::Times(Decimal { mantissa: 5, scale: 0 }))
            .with_step(Step::Over(Decimal { mantissa: 9, scale: 0 })),
    );
    units.push(
        Unit::base("°Ré", "reaumur", &c)
            .with_step(Step::Times(Decimal { mantissa: 5, scale: 0 }))
            .with_step(Step::Over(Decimal { mantissa: 4, scale: 0 }))
            .with_step(Step::Plus(Decimal { mantissa: 27315, scale: 2 })),
    );
    assert(unit_views(units@) =~= temperature_catalog());
    units
}

/// Every unit of the catalog belongs to the temperature category and has a
/// formula that can be taken back, no two share a symbol, and the first
/// alone is a base unit.
pub proof fn lemma_temperature_catalog()
    ensures
        all_in_category(temperature_catalog(), "temperature"@),
        all_well_formed(temperature_catalog()),
        distinct_symbols(temperature_catalog()),
        only_first_is_base(temperature_catalog()),
{
    reveal_strlit("K");
    reveal_strlit("°C");
    reveal_strlit("°F");
    reveal_strlit("°R");
    reveal_strlit("°Ré");
    let units = temperature_catalog();
    assert forall|i: int, j: int| 0 <= i < j < units.len() implies (#[trigger] units[i]).symbol != (
    #[trigger] units[j]).symbol by {
        assert(differ_early(units[i].symbol, units[j].symbol));
    }
}

} // verus!
