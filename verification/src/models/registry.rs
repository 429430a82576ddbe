//! The catalog of categories and units, with the rules of registration.
use crate::errors::ApiError;
use crate::models::unit::{
    all_in_category, all_well_formed, distinct_symbols, law_round_trip, Category, CategoryView,
    Unit, UnitCategory, UnitView,
};
use crate::text::str_eq;
use vstd::prelude::*;
use vstd::string::*;

verus! {

/// What a registry holds: its categories and its units, each in the order
/// of registration.
pub struct RegistryView {
    pub categories: Seq<CategoryView>,
    pub units: Seq<UnitView>,
}

impl RegistryView {
    /// The category registered under the name, if any.
    pub open spec fn category(self, name: Seq<char>) -> Option<CategoryView> {
        find_category(self.categories, name)
    }

    /// Whether a category is registered under the name.
    pub open spec fn has_category(self, name: Seq<char>) -> bool {
        self.category(name) is Some
    }

    /// The unit registered under the category name and symbol, if any.
    pub open spec fn unit(self, category: Seq<char>, symbol: Seq<char>) -> Option<UnitView> {
        find_unit(self.units, category, symbol)
    }

    /// Whether a unit is registered under the category name and symbol.
    pub open spec fn has_unit(self, category: Seq<char>, symbol: Seq<char>) -> bool {
        self.unit(category, symbol) is Some
    }

    /// The units registered for the category, in the order of registration.
    pub open spec fn units_of(self, category: Seq<char>) -> Seq<UnitView> {
        units_in(self.units, category)
    }

    /// The names of the registered categories, in the order of
    /// registration.
    pub open spec fn category_names(self) -> Seq<Seq<char>> {
        Seq::new(self.categories.len(), |i: int| self.categories[i].name)
    }

    /// The symbols of the units registered for the category, in the order
    /// of registration.
    pub open spec fn symbols_of(self, category: Seq<char>) -> Seq<Seq<char>> {
        Seq::new(self.units_of(category).len(), |i: int| self.units_of(category)[i].symbol)
    }

    /// The registry's invariant: no category name and no (category, symbol)
    /// pair occurs twice, every unit's category is registered, and every
    /// unit's formula can be taken back.
    pub open spec fn wf(self) -> bool {
        &&& forall|i: int, j: int|
            0 <= i < j < self.categories.len() ==> (#[trigger] self.categories[i]).name != (
            #[trigger] self.categories[j]).name
        &&& forall|i: int, j: int|
            0 <= i < j < self.units.len() ==> !((#[trigger] self.units[i]).category.name == (
            #[trigger] self.units[j]).category.name && self.units[i].symbol == self.units[j].symbol)
        &&& forall|i: int|
            0 <= i < self.units.len() ==> self.has_category((#[trigger] self.units[i]).category.name)
        &&& forall|i: int| 0 <= i < self.units.len() ==> (#[trigger] self.units[i]).wf()
    }

    /// The registry with one more category.
    pub open spec fn with_category(self, category: CategoryView) -> RegistryView {
        RegistryView { categories: self.categories.push(category), units: self.units }
    }

    /// The registry with one more unit.
    pub open spec fn with_unit(self, unit: UnitView) -> RegistryView {
        RegistryView { categories: self.categories, units: self.units.push(unit) }
    }
}

/// The first category of the list with the given name.
pub open spec fn find_category(categories: Seq<CategoryView>, name: Seq<char>) -> Option<
    CategoryView,
>
    decreases categories.len(),
{
    if categories.len() == 0 {
        None
    } else if categories[0].name == name {
        Some(categories[0])
    } else {
        find_category(categories.drop_first(), name)
    }
}

/// The first unit of the list with the given category name and symbol.
pub open spec fn find_unit(units: Seq<UnitView>, category: Seq<char>, symbol: Seq<char>) -> Option<
    UnitView,
>
    decreases units.len(),
{
    if units.len() == 0 {
        None
    } else if units[0].category.name == category && units[0].symbol == symbol {
        Some(units[0])
    } else {
        find_unit(units.drop_first(), category, symbol)
    }
}

/// The units of the list that belong to the given category, in order.
pub open spec fn units_in(units: Seq<UnitView>, category: Seq<char>) -> Seq<UnitView>
    decreases units.len(),
{
    if units.len() == 0 {
        Seq::empty()
    } else if units.last().category.name == category {
        units_in(units.drop_last(), category).push(units.last())
    } else {
        units_in(units.drop_last(), category)
    }
}

/// The message of a refused second registration of a category.
pub open spec fn duplicate_category_message(name: Seq<char>) -> Seq<char> {
    "Category '"@ + name + "' already registered"@
}

/// The message of a refused registration of a unit whose category is
/// missing.
pub open spec fn missing_category_message(unit_name: Seq<char>, category: Seq<char>) -> Seq<char> {
    "Cannot register unit '"@ + unit_name + "': category '"@ + category + "' not registered"@
}

/// The message of a refused second registration of a (category, symbol)
/// pair.
pub open spec fn duplicate_unit_message(symbol: Seq<char>, category: Seq<char>) -> Seq<char> {
    "Unit with symbol '"@ + symbol + "' already registered in category '"@ + category + "'"@
}

/// The views of a list of borrowed categories, in order.
pub open spec fn category_views(categories: Seq<&Category>) -> Seq<CategoryView> {
    Seq::new(categories.len(), |i: int| categories[i]@)
}

/// The views of a list of borrowed units, in order.
pub open spec fn borrowed_unit_views(units: Seq<&Unit>) -> Seq<UnitView> {
    Seq::new(units.len(), |i: int| units[i]@)
}

/// The catalog of categories and units. A unit is found by its category's
/// name and its symbol.
#[derive(Debug)]
pub struct UnitRegistry {
    categories: Vec<Category>,
    units: Vec<Unit>,
}

impl View for UnitRegistry {
    type V = RegistryView;

    closed spec fn view(&self) -> RegistryView {
        RegistryView {
            categories: Seq::new(self.categories@.len(), |i: int| self.categories@[i]@),
            units: Seq::new(self.units@.len(), |i: int| self.units@[i]@),
        }
    }
}

impl UnitRegistry {
    /// Every registry is well formed.
    #[verifier::type_invariant]
    pub open spec fn valid(self) -> bool {
        self@.wf()
    }

    /// An empty registry.
    pub fn new() -> (registry: UnitRegistry)
        ensures
            registry@.categories == Seq::<CategoryView>::empty(),
            registry@.units == Seq::<UnitView>::empty(),
            registry@.wf(),
    {
        let registry = UnitRegistry { categories: Vec::new(), units: Vec::new() };
        assert(registry@.categories =~= Seq::<CategoryView>::empty());
        assert(registry@.units =~= Seq::<UnitView>::empty());
        registry
    }

    /// Registers a category. A name that is already registered is refused,
    /// and the registry stays as it was.
    pub fn register_category<C: UnitCategory>(&mut self, category: C) -> (result: Result<
        (),
        ApiError,
    >)
        ensures
            final(self)@.wf(),
            old(self)@.has_category(category.name_view()) ==> {
                &&& result matches Err(ApiError::BadRequest(m))
                &&& m@ == duplicate_category_message(category.name_view())
                &&& final(self)@ == old(self)@
            },
            !old(self)@.has_category(category.name_view()) ==> {
                &&& result is Ok
                &&& final(self)@ == old(self)@.with_category(
                    CategoryView {
                        name: category.name_view(),
                        description: category.description_view(),
                    },
                )
            },
    {
        proof {
            use_type_invariant(&*self);
        }
        if self.get_category(category.name()).is_some() {
            let mut message = String::from_str("Category '");
            message.append(category.name());
            message.append("' already registered");
            return Err(ApiError::BadRequest(message));
        }
        let record = Category::of(&category);
        let ghost before = self@;
        let ghost added = record@;
        let mut taken = UnitRegistry::new();
        core::mem::swap(self, &mut taken);
        let UnitRegistry { mut categories, units } = taken;
        categories.push(record);
        let ghost after = before.with_category(added);
        proof {
            lemma_find_category(before.categories, added.name);
            assert forall|i: int| 0 <= i < after.units.len() implies after.has_category(
                (#[trigger] after.units[i]).category.name,
            ) by {
                lemma_find_category_push(before.categories, added, after.units[i].category.name);
            }
            assert(after.wf());
            assert(Seq::new(categories@.len(), |i: int| categories@[i]@) =~= after.categories);
            assert(Seq::new(units@.len(), |i: int| units@[i]@) =~= after.units);
        }
        *self = UnitRegistry { categories, units };
        Ok(())
    }

    /// Registers a unit. Its category must be registered, else the category
    /// is not found; a symbol that the category already has is a bad
    /// request. Where the unit is refused the registry stays as it was.
    pub fn register_unit(&mut self, unit: Unit) -> (result: Result<(), ApiError>)
        ensures
            final(self)@.wf(),
            !old(self)@.has_category(unit@.category.name) ==> {
                &&& result matches Err(ApiError::NotFound(m))
                &&& m@ == missing_category_message(unit@.name, unit@.category.name)
                &&& final(self)@ == old(self)@
            },
            old(self)@.has_category(unit@.category.name) && old(self)@.has_unit(
                unit@.category.name,
                unit@.symbol,
            ) ==> {
                &&& result matches Err(ApiError::BadRequest(m))
                &&& m@ == duplicate_unit_message(unit@.symbol, unit@.category.name)
                &&& final(self)@ == old(self)@
            },
            old(self)@.has_category(unit@.category.name) && !old(self)@.has_unit(
                unit@.category.name,
                unit@.symbol,
            ) ==> {
                &&& result is Ok
                &&& final(self)@ == old(self)@.with_unit(unit@)
            },
    {
        proof {
            use_type_invariant(&*self);
        }
        if self.get_category(unit.category_name()).is_none() {
            let mut message = String::from_str("Cannot register unit '");
            message.append(unit.name());
            message.append("': category '");
            message.append(unit.category_name());
            message.append("' not registered");
            return Err(ApiError::NotFound(message));
        }
        if self.get_unit(unit.category_name(), unit.symbol()).is_some() {
            let mut message = String::from_str("Unit with symbol '");
            message.append(unit.symbol());
            message.append("' already registered in category '");
            message.append(unit.category_name());
            message.append("'");
            return Err(ApiError::BadRequest(message));
        }
        let ghost before = self@;
        let ghost added = unit@;
        proof {
            use_type_invariant(&unit);
        }
        let mut taken = UnitRegistry::new();
        core::mem::swap(self, &mut taken);
        let UnitRegistry { categories, mut units } = taken;
        units.push(unit);
        let ghost after = before.with_unit(added);
        proof {
            lemma_find_unit(before.units, added.category.name, added.symbol);
            assert(after.wf());
            assert(Seq::new(categories@.len(), |i: int| categories@[i]@) =~= after.categories);
            assert(Seq::new(units@.len(), |i: int| units@[i]@) =~= after.units);
        }
        *self = UnitRegistry { categories, units };
        Ok(())
    }

    /// All registered categories, in the order of registration.
    pub fn get_categories(&self) -> (all: Vec<&Category>)
        ensures
            category_views(all@) == self@.categories,
    {
        let n = self.categories.len();
        let mut all: Vec<&Category> = Vec::new();
        let mut i: usize = 0;
        while i < n
            invariant
                n == self.categories@.len(),
                i <= n,
                all@.len() == i,
                forall|k: int| 0 <= k < i ==> (#[trigger] all@[k])@ == self@.categories[k],
            decreases n - i,
        {
            all.push(&self.categories[i]);
            i += 1;
        }
        assert(category_views(all@) =~= self@.categories);
        all
    }

    /// The units registered for the category, in the order of registration;
    /// none where the category has no unit or is not registered.
    pub fn get_units_for_category(&self, category_name: &str) -> (members: Vec<&Unit>)
        ensures
            borrowed_unit_views(members@) == self@.units_of(category_name@),
    {
        let n = self.units.len();
        let mut members: Vec<&Unit> = Vec::new();
        let mut i: usize = 0;
        while i < n
            invariant
                n == self.units@.len(),
                i <= n,
                borrowed_unit_views(members@) == units_in(
                    self@.units.take(i as int),
                    category_name@,
                ),
            decreases n - i,
        {
            let u = &self.units[i];
            proof {
                let upto = self@.units.take(i + 1);
                assert(upto.drop_last() =~= self@.units.take(i as int));
                assert(upto.last() == u@);
            }
            if str_eq(u.category_name(), category_name) {
                let ghost before = borrowed_unit_views(members@);
                members.push(u);
                assert(borrowed_unit_views(members@) =~= before.push(u@));
            }
            i += 1;
        }
        assert(self@.units.take(n as int) =~= self@.units);
        members
    }

    /// The category registered under the name, if any.
    pub fn get_category(&self, name: &str) -> (found: Option<&Category>)
        ensures
            match found {
                Some(c) => self@.category(name@) == Some(c@),
                None => self@.category(name@) is None,
            },
    {
        let n = self.categories.len();
        let mut i: usize = 0;
        assert(self@.categories.skip(0) =~= self@.categories);
        while i < n
            invariant
                n == self.categories@.len(),
                i <= n,
                self@.category(name@) == find_category(self@.categories.skip(i as int), name@),
            decreases n - i,
        {
            let c = &self.categories[i];
            proof {
                assert(self@.categories.skip(i as int)[0] == c@);
                assert(self@.categories.skip(i as int).drop_first() =~= self@.categories.skip(
                    i + 1,
                ));
            }
            if str_eq(c.name(), name) {
                return Some(c);
            }
            i += 1;
        }
        None
    }

    /// The unit registered under the category name and symbol, if any.
    pub fn get_unit(&self, category_name: &str, symbol: &str) -> (found: Option<&Unit>)
        ensures
            match found {
                Some(u) => self@.unit(category_name@, symbol@) == Some(u@),
                None => self@.unit(category_name@, symbol@) is None,
            },
    {
        let n = self.units.len();
        let mut i: usize = 0;
        assert(self@.units.skip(0) =~= self@.units);
        while i < n
            invariant
                n == self.units@.len(),
                i <= n,
                self@.unit(category_name@, symbol@) == find_unit(
                    self@.units.skip(i as int),
                    category_name@,
                    symbol@,
                ),
            decreases n - i,
        {
            let u = &self.units[i];
            proof {
                assert(self@.units.skip(i as int)[0] == u@);
                assert(self@.units.skip(i as int).drop_first() =~= self@.units.skip(i + 1));
            }
            if str_eq(u.category_name(), category_name) && str_eq(u.symbol(), symbol) {
                return Some(u);
            }
            i += 1;
        }
        None
    }
}

/// Once a category is registered it is found under its name, so a second
/// registration of the name is refused; what was registered before is found
/// as before.
pub proof fn law_registered_category_is_found(
    registry: RegistryView,
    category: CategoryView,
    name: Seq<char>,
)
    requires
        !registry.has_category(category.name),
    ensures
        registry.with_category(category).category(category.name) == Some(category),
        name != category.name ==> registry.with_category(category).category(name)
            == registry.category(name),
        registry.with_category(category).units == registry.units,
{
    lemma_find_category_push(registry.categories, category, category.name);
    lemma_find_category_push(registry.categories, category, name);
}

/// Once a unit is registered it is found under its category's name and its
/// symbol, so a second registration of the pair is refused; what was
/// registered before is found as before.
pub proof fn law_registered_unit_is_found(
    registry: RegistryView,
    unit: UnitView,
    category: Seq<char>,
    symbol: Seq<char>,
)
    requires
        !registry.has_unit(unit.category.name, unit.symbol),
    ensures
        registry.with_unit(unit).unit(unit.category.name, unit.symbol) == Some(unit),
        !(category == unit.category.name && symbol == unit.symbol) ==> registry.with_unit(
            unit,
        ).unit(category, symbol) == registry.unit(category, symbol),
        registry.with_unit(unit).categories == registry.categories,
        registry.with_unit(unit).units_of(unit.category.name) == registry.units_of(
            unit.category.name,
        ).push(unit),
{
    lemma_find_unit_push(registry.units, unit, unit.category.name, unit.symbol);
    lemma_find_unit_push(registry.units, unit, category, symbol);
    assert(registry.units.push(unit).drop_last() =~= registry.units);
}

/// In a well-formed registry a category that is not registered has no
/// units: none is listed for it and none is found under it. So a category
/// starts without units when it is registered.
pub proof fn law_unregistered_category_has_no_units(
    registry: RegistryView,
    category: Seq<char>,
    symbol: Seq<char>,
)
    requires
        registry.wf(),
        !registry.has_category(category),
    ensures
        registry.units_of(category) == Seq::<UnitView>::empty(),
        registry.unit(category, symbol) is None,
{
    lemma_units_in_whole_or_none(registry.units, category);
    lemma_find_unit(registry.units, category, symbol);
    assert forall|i: int| 0 <= i < registry.units.len() implies (
    #[trigger] registry.units[i]).category.name != category by {
        assert(registry.has_category(registry.units[i].category.name));
    }
    if registry.unit(category, symbol) is Some {
        let found = registry.unit(category, symbol).unwrap();
        let k = choose|k: int| 0 <= k < registry.units.len() && registry.units[k] == found;
        assert(registry.units[k].category.name != category);
    }
}

/// In a well-formed registry every unit that is found has a registered
/// category, and its conversion to the base unit and back gives the
/// quantity.
pub proof fn law_registered_unit_round_trip(
    registry: RegistryView,
    category: Seq<char>,
    symbol: Seq<char>,
    x: real,
)
    requires
        registry.wf(),
        registry.has_unit(category, symbol),
    ensures
        registry.has_category(category),
        registry.unit(category, symbol).unwrap().wf(),
        registry.unit(category, symbol).unwrap().from_base_value(
            registry.unit(category, symbol).unwrap().to_base_value(x),
        ) == x,
{
    lemma_find_unit(registry.units, category, symbol);
    let unit = registry.unit(category, symbol).unwrap();
    let k = choose|k: int| 0 <= k < registry.units.len() && registry.units[k] == unit;
    assert(registry.units[k].wf());
    assert(registry.has_category(registry.units[k].category.name));
    law_round_trip(unit, x);
}

/// A well-formed registry stays well formed when a category that it does
/// not have is added together with units that all belong to that category,
/// carry different symbols and have formulas that can be taken back.
pub proof fn lemma_family_extends(
    registry: RegistryView,
    category: CategoryView,
    family: Seq<UnitView>,
)
    requires
        registry.wf(),
        !registry.has_category(category.name),
        all_in_category(family, category.name),
        all_well_formed(family),
        distinct_symbols(family),
    ensures
        (RegistryView {
            categories: registry.categories.push(category),
            units: registry.units + family,
        }).wf(),
{
    let after = RegistryView {
        categories: registry.categories.push(category),
        units: registry.units + family,
    };
    let old_len = registry.units.len();
    lemma_find_category(registry.categories, category.name);
    assert forall|i: int| 0 <= i < after.units.len() implies after.has_category(
        (#[trigger] after.units[i]).category.name,
    ) && after.units[i].wf() by {
        lemma_find_category_push(registry.categories, category, after.units[i].category.name);
        if i < old_len {
            assert(after.units[i] == registry.units[i]);
        } else {
            assert(after.units[i] == family[i - old_len]);
        }
    }
    assert forall|i: int, j: int| 0 <= i < j < after.units.len() implies !((
    #[trigger] after.units[i]).category.name == (#[trigger] after.units[j]).category.name
        && after.units[i].symbol == after.units[j].symbol) by {
        if j < old_len {
            assert(after.units[i] == registry.units[i]);
            assert(after.units[j] == registry.units[j]);
        } else if i < old_len {
            assert(after.units[i] == registry.units[i]);
            assert(after.units[j] == family[j - old_len]);
            assert(registry.has_category(registry.units[i].category.name));
        } else {
            assert(after.units[i] == family[i - old_len]);
            assert(after.units[j] == family[j - old_len]);
        }
    }
}

/// What `find_category` finds is an entry of the list with that name, and
/// it finds nothing only where no entry has the name.
pub proof fn lemma_find_category(categories: Seq<CategoryView>, name: Seq<char>)
    ensures
        match find_category(categories, name) {
            Some(c) => c.name == name && categories.contains(c),
            None => forall|i: int| 0 <= i < categories.len() ==> (#[trigger] categories[i]).name != name,
        },
    decreases categories.len(),
{
    if categories.len() == 0 {
    } else if categories[0].name == name {
        assert(categories.contains(categories[0]));
    } else {
        let rest = categories.drop_first();
        lemma_find_category(rest, name);
        match find_category(rest, name) {
            Some(c) => {
                let k = choose|k: int| 0 <= k < rest.len() && rest[k] == c;
                assert(categories[k + 1] == c);
            },
            None => {
                assert forall|i: int| 0 <= i < categories.len() implies (
                #[trigger] categories[i]).name != name by {
                    if i > 0 {
                        assert(rest[i - 1] == categories[i]);
                    }
                }
            },
        }
    }
}

/// What `find_unit` finds is an entry of the list with that key, and it
/// finds nothing only where no entry has the key.
pub proof fn lemma_find_unit(units: Seq<UnitView>, category: Seq<char>, symbol: Seq<char>)
    ensures
        match find_unit(units, category, symbol) {
            Some(u) => u.category.name == category && u.symbol == symbol && units.contains(u),
            None => forall|i: int|
                0 <= i < units.len() ==> !((#[trigger] units[i]).category.name == category
                    && units[i].symbol == symbol),
        },
    decreases units.len(),
{
    if units.len() == 0 {
    } else if units[0].category.name == category && units[0].symbol == symbol {
        assert(units.contains(units[0]));
    } else {
        let rest = units.drop_first();
        lemma_find_unit(rest, category, symbol);
        match find_unit(rest, category, symbol) {
            Some(u) => {
                let k = choose|k: int| 0 <= k < rest.len() && rest[k] == u;
                assert(units[k + 1] == u);
            },
            None => {
                assert forall|i: int| 0 <= i < units.len() implies !((
                #[trigger] units[i]).category.name == category && units[i].symbol == symbol) by {
                    if i > 0 {
                        assert(rest[i - 1] == units[i]);
                    }
                }
            },
        }
    }
}

/// Appending a category does not change what was found before; a name that
/// was not found is found in the new entry if it is the entry's name.
pub proof fn lemma_find_category_push(categories: Seq<CategoryView>, added: CategoryView, name: Seq<char>)
    ensures
        find_category(categories.push(added), name) == if find_category(categories, name) is Some {
            find_category(categories, name)
        } else if added.name == name {
            Some(added)
        } else {
            None
        },
    decreases categories.len(),
{
    let longer = categories.push(added);
    if categories.len() == 0 {
        assert(longer.drop_first() =~= Seq::<CategoryView>::empty());
        assert(find_category(longer.drop_first(), name) is None);
    } else {
        assert(longer[0] == categories[0]);
        assert(longer.drop_first() =~= categories.drop_first().push(added));
        lemma_find_category_push(categories.drop_first(), added, name);
    }
}

/// Appending a unit does not change what was found before; a key that was
/// not found is found in the new entry if it is the entry's key.
pub proof fn lemma_find_unit_push(
    units: Seq<UnitView>,
    added: UnitView,
    category: Seq<char>,
    symbol: Seq<char>,
)
    ensures
        find_unit(units.push(added), category, symbol) == if find_unit(units, category, symbol)
            is Some {
            find_unit(units, category, symbol)
        } else if added.category.name == category && added.symbol == symbol {
            Some(added)
        } else {
            None
        },
    decreases units.len(),
{
    let longer = units.push(added);
    if units.len() == 0 {
        assert(longer.drop_first() =~= Seq::<UnitView>::empty());
        assert(find_unit(longer.drop_first(), category, symbol) is None);
    } else {
        assert(longer[0] == units[0]);
        assert(longer.drop_first() =~= units.drop_first().push(added));
        lemma_find_unit_push(units.drop_first(), added, category, symbol);
    }
}

/// The units of a category in a list made of two parts are those of the
/// first part, then those of the second.
pub proof fn lemma_units_in_concat(first: Seq<UnitView>, second: Seq<UnitView>, category: Seq<char>)
    ensures
        units_in(first + second, category) == units_in(first, category) + units_in(
            second,
            category,
        ),
    decreases second.len(),
{
    if second.len() == 0 {
        assert(first + second =~= first);
        assert(units_in(first, category) + units_in(second, category) =~= units_in(
            first,
            category,
        ));
    } else {
        let front = second.drop_last();
        assert((first + second).drop_last() =~= first + front);
        assert((first + second).last() == second.last());
        lemma_units_in_concat(first, front, category);
        if second.last().category.name == category {
            assert((units_in(first, category) + units_in(front, category)).push(second.last())
                =~= units_in(first, category) + units_in(front, category).push(second.last()));
        }
    }
}

/// A list whose units all belong to the category is the list of its units
/// of that category; a list with no unit of the category has none.
pub proof fn lemma_units_in_whole_or_none(units: Seq<UnitView>, category: Seq<char>)
    ensures
        all_in_category(units, category) ==> units_in(units, category) == units,
        (forall|i: int| 0 <= i < units.len() ==> (#[trigger] units[i]).category.name != category)
            ==> units_in(units, category) == Seq::<UnitView>::empty(),
    decreases units.len(),
{
    if units.len() > 0 {
        let front = units.drop_last();
        lemma_units_in_whole_or_none(front, category);
        if all_in_category(units, category) {
            assert(all_in_category(front, category)) by {
                assert forall|i: int| 0 <= i < front.len() implies (
                #[trigger] front[i]).category.name == category by {
                    assert(front[i] == units[i]);
                }
            }
            assert(front.push(units.last()) =~= units);
        }
        if forall|i: int| 0 <= i < units.len() ==> (#[trigger] units[i]).category.name != category {
            assert forall|i: int| 0 <= i < front.len() implies (#[trigger] front[i]).category.name
                != category by {
                assert(front[i] == units[i]);
            }
        }
    }
}

} // verus!
