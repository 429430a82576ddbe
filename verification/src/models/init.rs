//! The standard catalog: ten categories and their units, registered in a
//! fixed order.
use crate::models::registry::{
    find_category, lemma_family_extends, lemma_find_category, lemma_find_category_push,
    lemma_find_unit, lemma_units_in_concat, lemma_units_in_whole_or_none, units_in, RegistryView,
    UnitRegistry,
};
use crate::models::unit::{
    all_in_category, all_well_formed, category_view, distinct_symbols, law_round_trip,
    only_first_is_base, unit_views, CategoryView, Unit, UnitCategory, UnitView,
};
use crate::models::units::area::{area_catalog, area_units, lemma_area_catalog, AreaCategory};
use crate::models::units::energy::{
    energy_catalog, energy_units, lemma_energy_catalog, EnergyCategory,
};
use crate::models::units::length::{
    lemma_length_catalog, length_catalog, length_units, LengthCategory,
};
use crate::models::units::mass::{lemma_mass_catalog, mass_catalog, mass_units, MassCategory};
use crate::models::units::power::{lemma_power_catalog, power_catalog, power_units, PowerCategory};
use crate::models::units::pressure::{
    lemma_pressure_catalog, pressure_catalog, pressure_units, PressureCategory,
};
use crate::models::units::speed::{lemma_speed_catalog, speed_catalog, speed_units, SpeedCategory};
use crate::models::units::temperature::{
    lemma_temperature_catalog, temperature_catalog, temperature_units, TemperatureCategory,
};
use crate::models::units::time::{lemma_time_catalog, time_catalog, time_units, TimeCategory};
use crate::models::units::volume::{
    lemma_volume_catalog, volume_catalog, volume_units, VolumeCategory,
};
use crate::text::differ_early;
use vstd::prelude::*;

verus! {

/// The standard categories, in the order of their registration.
pub open spec fn standard_categories() -> Seq<CategoryView> {
    seq![
        category_view(&LengthCategory),
        category_view(&MassCategory),
        category_view(&VolumeCategory),
        category_view(&TemperatureCategory),
        category_view(&AreaCategory),
        category_view(&TimeCategory),
        category_view(&SpeedCategory),
        category_view(&PressureCategory),
        category_view(&EnergyCategory),
        category_view(&PowerCategory),
    ]
}

/// The units of the standard category with the given place in the order of
/// registration.
pub open spec fn standard_family(k: int) -> Seq<UnitView> {
    if k == 0 {
        length_catalog()
    } else if k == 1 {
        mass_catalog()
    } else if k == 2 {
        volume_catalog()
    } else if k == 3 {
        temperature_catalog()
    } else if k == 4 {
        area_catalog()
    } else if k == 5 {
        time_catalog()
    } else if k == 6 {
        speed_catalog()
    } else if k == 7 {
        pressure_catalog()
    } else if k == 8 {
        energy_catalog()
    } else {
        power_catalog()
    }
}

/// The standard units, family after family, in the order of their
/// registration.
pub open spec fn standard_units() -> Seq<UnitView> {
    length_catalog() + mass_catalog() + volume_catalog() + temperature_catalog() + area_catalog()
        + time_catalog() + speed_catalog() + pressure_catalog() + energy_catalog()
        + power_catalog()
}

/// What the registry holds once `init` has filled it.
pub open spec fn standard_catalog() -> RegistryView {
    RegistryView { categories: standard_categories(), units: standard_units() }
}

/// A registry filled with the standard catalog. Every registration is
/// accepted: none is dropped.
pub fn init() -> (registry: UnitRegistry)
    ensures
        registry@ == standard_catalog(),
        registry@.wf(),
{
    let mut registry = UnitRegistry::new();
    let ghost all = standard_categories();
    proof {
        lemma_length_catalog();
        lemma_mass_catalog();
        lemma_volume_catalog();
        lemma_temperature_catalog();
        lemma_area_catalog();
        lemma_time_catalog();
        lemma_speed_catalog();
        lemma_pressure_catalog();
        lemma_energy_catalog();
        lemma_power_catalog();
        assert(registry@.categories =~= all.take(0));
        lemma_not_yet_registered(0);
    }
    register_family(&mut registry, LengthCategory, length_units());
    proof {
        assert(registry@.categories =~= all.take(1));
        assert(registry@.units =~= length_catalog());
        lemma_not_yet_registered(1);
    }
    register_family(&mut registry, MassCategory, mass_units());
    proof {
        assert(registry@.categories =~= all.take(2));
        lemma_not_yet_registered(2);
    }
    register_family(&mut registry, VolumeCategory, volume_units());
    proof {
        assert(registry@.categories =~= all.take(3));
        lemma_not_yet_registered(3);
    }
    register_family(&mut registry, TemperatureCategory, temperature_units());
    proof {
        assert(registry@.categories =~= all.take(4));
        lemma_not_yet_registered(4);
    }
    register_family(&mut registry, AreaCategory, area_units());
    proof {
        assert(registry@.categories =~= all.take(5));
        lemma_not_yet_registered(5);
    }
    register_family(&mut registry, TimeCategory, time_units());
    proof {
        assert(registry@.categories =~= all.take(6));
        lemma_not_yet_registered(6);
    }
    register_family(&mut registry, SpeedCategory, speed_units());
    proof {
        assert(registry@.categories =~= all.take(7));
        lemma_not_yet_registered(7);
    }
    register_family(&mut registry, PressureCategory, pressure_units());
    proof {
        assert(registry@.categories =~= all.take(8));
        lemma_not_yet_registered(8);
    }
    register_family(&mut registry, EnergyCategory, energy_units());
    proof {
        assert(registry@.categories =~= all.take(9));
        lemma_not_yet_registered(9);
    }
    register_family(&mut registry, PowerCategory, power_units());
    proof {
        assert(registry@.categories =~= all);
        use_type_invariant(&registry);
    }
    registry
}

/// Registers a category that the registry does not have yet, and then its
/// units, which all belong to it and carry different symbols. Every
/// registration is accepted.
fn register_family<C: UnitCategory>(registry: &mut UnitRegistry, category: C, units: Vec<Unit>)
    requires
        !old(registry)@.has_category(category.name_view()),
        all_in_category(unit_views(units@), category.name_view()),
        distinct_symbols(unit_views(units@)),
    ensures
        final(registry)@.categories == old(registry)@.categories.push(category_view(&category)),
        final(registry)@.units == old(registry)@.units + unit_views(units@),
{
    proof {
        use_type_invariant(&*registry);
    }
    let ghost before = registry@;
    let ghost name = category.name_view();
    let ghost added = category_view(&category);
    let ghost family = unit_views(units@);
    let accepted = registry.register_category(category);
    assert(accepted is Ok);
    let n = units.len();
    let mut i: usize = 0;
    assert(before.units + family.take(0) =~= before.units);
    while i < n
        invariant
            n == units@.len(),
            i <= n,
            family == unit_views(units@),
            before.wf(),
            !before.has_category(name),
            added.name == name,
            all_in_category(family, name),
            distinct_symbols(family),
            registry@.categories == before.categories.push(added),
            registry@.units == before.units + family.take(i as int),
        decreases n - i,
    {
        let unit = units[i].clone();
        let ghost current = registry@.units;
        proof {
            assert(unit@ == family[i as int]);
            lemma_find_category_push(before.categories, added, name);
            lemma_find_unit(current, name, unit@.symbol);
            if registry@.has_unit(name, unit@.symbol) {
                let found = registry@.unit(name, unit@.symbol).unwrap();
                let k = choose|k: int| 0 <= k < current.len() && current[k] == found;
                if k < before.units.len() {
                    assert(before.units[k] == found);
                    assert(before.has_category(before.units[k].category.name));
                } else {
                    assert(family[k - before.units.len()] == found);
                }
            }
        }
        let accepted = registry.register_unit(unit);
        assert(accepted is Ok);
        assert(family.take(i + 1) =~= family.take(i as int).push(family[i as int]));
        assert(before.units + family.take(i + 1) =~= (before.units + family.take(i as int)).push(
            family[i as int],
        ));
        i += 1;
    }
    assert(family.take(n as int) =~= family);
}

/// The standard catalog is a well-formed registry: no name and no pair of
/// category and symbol occurs twice, every unit's category is registered,
/// and every unit converts to the base unit and back without change.
pub proof fn law_standard_catalog_is_well_formed()
    ensures
        standard_catalog().wf(),
        forall|i: int, x: real|
            0 <= i < standard_units().len() ==> standard_units()[i].from_base_value(
                #[trigger] standard_units()[i].to_base_value(x),
            ) == x,
{
    lemma_catalog_prefix(10);
    lemma_standard_units_by_family();
    assert(standard_categories().take(10) =~= standard_categories());
    assert forall|i: int, x: real| 0 <= i < standard_units().len() implies standard_units()[i].from_base_value(
        #[trigger] standard_units()[i].to_base_value(x),
    ) == x by {
        law_round_trip(standard_units()[i], x);
    }
}

/// In the standard catalog each of the ten categories is found under its
/// name, its units are its family in the order of the family's catalog, and
/// the first of them is its base unit. In every category but power, the
/// last, no other unit converts by the empty formula.
pub proof fn law_standard_catalog_by_category(k: int)
    requires
        0 <= k < 10,
    ensures
        standard_catalog().category(standard_categories()[k].name) == Some(
            standard_categories()[k],
        ),
        standard_catalog().units_of(standard_categories()[k].name) == standard_family(k),
        standard_family(k).len() > 0,
        standard_family(k)[0].is_base(),
        k != 9 ==> only_first_is_base(standard_family(k)),
{
    let all = standard_categories();
    lemma_standard_categories_distinct();
    lemma_find_category(all, all[k].name);
    lemma_standard_units_by_family();
    lemma_units_of_families(10, k);
    lemma_standard_family(k);
}

/// The units of the first `n` standard categories.
pub open spec fn families_before(n: nat) -> Seq<UnitView>
    decreases n,
{
    if n == 0 {
        Seq::empty()
    } else {
        families_before((n - 1) as nat) + standard_family(n - 1)
    }
}

/// No two standard categories share a name.
pub proof fn lemma_standard_categories_distinct()
    ensures
        forall|i: int, j: int|
            0 <= i < j < standard_categories().len() ==> (#[trigger] standard_categories()[i]).name
                != (#[trigger] standard_categories()[j]).name,
{
    reveal_strlit("length");
    reveal_strlit("mass");
    reveal_strlit("volume");
    reveal_strlit("temperature");
    reveal_strlit("area");
    reveal_strlit("time");
    reveal_strlit("speed");
    reveal_strlit("pressure");
    reveal_strlit("energy");
    reveal_strlit("power");
    let all = standard_categories();
    assert forall|i: int, j: int| 0 <= i < j < all.len() implies (#[trigger] all[i]).name != (
    #[trigger] all[j]).name by {
        assert(differ_early(all[i].name, all[j].name));
    }
}

/// Every unit of a standard family belongs to the family's category and has
/// a formula that can be taken back, no two share a symbol, and the first is
/// the category's base unit: in every family but power, the only one.
pub proof fn lemma_standard_family(k: int)
    requires
        0 <= k < 10,
    ensures
        all_in_category(standard_family(k), standard_categories()[k].name),
        all_well_formed(standard_family(k)),
        distinct_symbols(standard_family(k)),
        standard_family(k).len() > 0,
        standard_family(k)[0].is_base(),
        k != 9 ==> only_first_is_base(standard_family(k)),
{
    lemma_length_catalog();
    lemma_mass_catalog();
    lemma_volume_catalog();
    lemma_temperature_catalog();
    lemma_area_catalog();
    lemma_time_catalog();
    lemma_speed_catalog();
    lemma_pressure_catalog();
    lemma_energy_catalog();
    lemma_power_catalog();
}

/// A standard category is not among those registered before it.
proof fn lemma_not_yet_registered(k: int)
    requires
        0 <= k < standard_categories().len(),
    ensures
        find_category(standard_categories().take(k), standard_categories()[k].name) is None,
{
    lemma_standard_categories_distinct();
    lemma_find_category(standard_categories().take(k), standard_categories()[k].name);
}

/// The standard units are the ten families in order.
proof fn lemma_standard_units_by_family()
    ensures
        standard_units() == families_before(10),
{
    reveal_with_fuel(families_before, 11);
    assert(Seq::<UnitView>::empty() + length_catalog() =~= length_catalog());
}

/// Among the units of the first `n` standard categories, those of one
/// standard category are its family, or none if its turn has not come.
proof fn lemma_units_of_families(n: nat, k: int)
    requires
        n <= 10,
        0 <= k < 10,
    ensures
        units_in(families_before(n), standard_categories()[k].name) == if k < n {
            standard_family(k)
        } else {
            Seq::empty()
        },
    decreases n,
{
    let name = standard_categories()[k].name;
    if n > 0 {
        let family = standard_family(n - 1);
        lemma_units_of_families((n - 1) as nat, k);
        lemma_units_in_concat(families_before((n - 1) as nat), family, name);
        lemma_standard_family(n - 1);
        lemma_standard_categories_distinct();
        lemma_units_in_whole_or_none(family, name);
        if k != n - 1 {
            assert(standard_categories()[n - 1].name != name);
            assert forall|i: int| 0 <= i < family.len() implies (#[trigger] family[i]).category.name
                != name by {}
            assert(units_in(families_before((n - 1) as nat), name) + Seq::<UnitView>::empty()
                =~= units_in(families_before((n - 1) as nat), name));
        } else {
            assert(Seq::<UnitView>::empty() + family =~= family);
        }
    }
}

/// The first `n` standard categories with their families make a well-formed
/// registry.
proof fn lemma_catalog_prefix(n: nat)
    requires
        n <= 10,
    ensures
        (RegistryView { categories: standard_categories().take(n as int), units: families_before(n) }).wf(),
    decreases n,
{
    let all = standard_categories();
    if n > 0 {
        let k = n - 1;
        let before = RegistryView { categories: all.take(k), units: families_before(k as nat) };
        lemma_catalog_prefix(k as nat);
        lemma_not_yet_registered(k);
        lemma_standard_family(k);
        lemma_family_extends(before, all[k], standard_family(k));
        assert(all.take(n as int) =~= all.take(k).push(all[k]));
    }
}

} // verus!
