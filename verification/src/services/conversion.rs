//! The conversion engine: it resolves unit symbols in the registry and lays
//! out the arithmetic of a conversion, a comparison, a sum or a difference.
use crate::errors::ApiError;
use crate::models::formula::{apply, Step};
use crate::models::registry::{lemma_find_unit, RegistryView, UnitRegistry};
use crate::models::unit::{law_round_trip, law_route, Unit, UnitCategory, UnitView};
use crate::text::str_eq;
use vstd::prelude::*;
use vstd::string::*;

verus! {

/// The engine's operations. Each reads the registry that it is given.
pub struct ConversionService;

impl ConversionService {
    /// The error for a registry that cannot be reached.
    pub fn registry_unavailable() -> (error: ApiError)
        ensures
            error matches ApiError::InternalError(m) && m@ == registry_unavailable_message(),
    {
        ApiError::InternalError(String::from_str("Failed to access unit registry"))
    }

    /// Takes what getting hold of the registry gave: the registry where
    /// there is one, and an internal error where it could not be reached.
    pub fn access<'a>(registry: Option<&'a UnitRegistry>) -> (result: Result<
        &'a UnitRegistry,
        ApiError,
    >)
        ensures
            registry matches Some(r) ==> (result matches Ok(s) && s == r),
            registry is None ==> {
                &&& result matches Err(ApiError::InternalError(m))
                &&& m@ == registry_unavailable_message()
            },
    {
        match registry {
            Some(r) => Ok(r),
            None => Err(ConversionService::registry_unavailable()),
        }
    }

    /// The conversion from one unit to another. Units of different
    /// categories are refused.
    pub fn route(from: &Unit, to: &Unit) -> (result: Result<Conversion, ApiError>)
        ensures
            from@.category.name != to@.category.name ==> {
                &&& result matches Err(ApiError::BadRequest(m))
                &&& m@ == incompatible_message(from@.category.name, to@.category.name)
            },
            from@.category.name == to@.category.name ==> {
                &&& result matches Ok(c)
                &&& c@ == route_between(from@, to@)
            },
            from@.wf(),
            to@.wf(),
    {
        proof {
            use_type_invariant(from);
            use_type_invariant(to);
        }
        if !str_eq(from.category_name(), to.category_name()) {
            let mut message = String::from_str("Cannot convert between different categories: '");
            message.append(from.category_name());
            message.append("' and '");
            message.append(to.category_name());
            message.append("'");
            return Err(ApiError::BadRequest(message));
        }
        let mut steps = from.to_base();
        let mut back = to.from_base();
        let ghost first = steps@;
        let ghost second = back@;
        steps.append(&mut back);
        assert(steps@ =~= first + second);
        Ok(
            Conversion {
                from_unit: String::from_str(from.symbol()),
                to_unit: String::from_str(to.symbol()),
                category: String::from_str(from.category_name()),
                steps,
            },
        )
    }

    /// Resolves both symbols within the category and lays out the
    /// conversion. A symbol that the category does not have is not found;
    /// the source symbol is looked up first. Units found under one category
    /// name belong to it, so a resolved conversion never crosses categories.
    pub fn convert(registry: &UnitRegistry, from_category: &str, from_unit: &str, to_unit: &str) -> (result:
        Result<Conversion, ApiError>)
        ensures
            match (
                registry@.unit(from_category@, from_unit@),
                registry@.unit(from_category@, to_unit@),
            ) {
                (None, _) => result matches Err(ApiError::NotFound(m)) && m@
                    == unit_not_found_message(from_unit@, from_category@),
                (Some(_), None) => result matches Err(ApiError::NotFound(m)) && m@
                    == unit_not_found_message(to_unit@, from_category@),
                (Some(from), Some(to)) => {
                    &&& result matches Ok(c)
                    &&& c@ == route_between(from, to)
                    &&& c@.from_unit == from_unit@
                    &&& c@.to_unit == to_unit@
                    &&& c@.category == from_category@
                },
            },
    {
        let from = match registry.get_unit(from_category, from_unit) {
            Some(unit) => unit,
            None => {
                return Err(unit_not_found(from_unit, from_category));
            },
        };
        let to = match registry.get_unit(from_category, to_unit) {
            Some(unit) => unit,
            None => {
                return Err(unit_not_found(to_unit, from_category));
            },
        };
        proof {
            lemma_find_unit(registry@.units, from_category@, from_unit@);
            lemma_find_unit(registry@.units, from_category@, to_unit@);
        }
        ConversionService::route(from, to)
    }

    /// The names of all registered categories, in the order of
    /// registration.
    pub fn list_categories(registry: &UnitRegistry) -> (result: Result<Vec<String>, ApiError>)
        ensures
            result matches Ok(names) && string_views(names@) == registry@.category_names(),
    {
        let categories = registry.get_categories();
        let n = categories.len();
        let mut names: Vec<String> = Vec::new();
        let mut i: usize = 0;
        while i < n
            invariant
                n == categories@.len(),
                n == registry@.categories.len(),
                i <= n,
                names@.len() == i,
                forall|k: int| 0 <= k < n ==> (#[trigger] categories@[k])@ == registry@.categories[k],
                forall|k: int| 0 <= k < i ==> (#[trigger] names@[k])@ == registry@.categories[k].name,
            decreases n - i,
        {
            names.push(String::from_str(categories[i].name()));
            i += 1;
        }
        assert(string_views(names@) =~= registry@.category_names());
        Ok(names)
    }

    /// The symbols of the units registered for the category, in the order
    /// of registration. A category that is not registered is not found.
    pub fn list_units(registry: &UnitRegistry, category_name: &str) -> (result: Result<
        Vec<String>,
        ApiError,
    >)
        ensures
            !registry@.has_category(category_name@) ==> {
                &&& result matches Err(ApiError::NotFound(m))
                &&& m@ == category_not_found_message(category_name@)
            },
            registry@.has_category(category_name@) ==> {
                &&& result matches Ok(symbols)
                &&& string_views(symbols@) == registry@.symbols_of(category_name@)
            },
    {
        if registry.get_category(category_name).is_none() {
            let mut message = String::from_str("Category '");
            message.append(category_name);
            message.append("' not found");
            return Err(ApiError::NotFound(message));
        }
        let members = registry.get_units_for_category(category_name);
        let ghost expected = registry@.units_of(category_name@);
        let n = members.len();
        let mut symbols: Vec<String> = Vec::new();
        let mut i: usize = 0;
        while i < n
            invariant
                n == members@.len(),
                n == expected.len(),
                i <= n,
                symbols@.len() == i,
                forall|k: int| 0 <= k < n ==> (#[trigger] members@[k])@ == expected[k],
                forall|k: int| 0 <= k < i ==> (#[trigger] symbols@[k])@ == expected[k].symbol,
            decreases n - i,
        {
            symbols.push(String::from_str(members[i].symbol()));
            i += 1;
        }
        assert(string_views(symbols@) =~= registry@.symbols_of(category_name@));
        Ok(symbols)
    }

    /// Resolves both symbols within the category and hands out the two
    /// formulas to the base unit, in which the quantities are compared. A
    /// symbol that the category does not have is not found; the first
    /// symbol is looked up first.
    pub fn compare(registry: &UnitRegistry, unit1: &str, unit2: &str, category: &str) -> (result:
        Result<Comparison, ApiError>)
        ensures
            match (registry@.unit(category@, unit1@), registry@.unit(category@, unit2@)) {
                (None, _) => result matches Err(ApiError::NotFound(m)) && m@
                    == unit_not_found_message(unit1@, category@),
                (Some(_), None) => result matches Err(ApiError::NotFound(m)) && m@
                    == unit_not_found_message(unit2@, category@),
                (Some(first), Some(second)) => {
                    &&& result matches Ok(c)
                    &&& c@.first_to_base == first.to_base
                    &&& c@.second_to_base == second.to_base
                },
            },
    {
        let first = match registry.get_unit(category, unit1) {
            Some(unit) => unit,
            None => {
                return Err(unit_not_found(unit1, category));
            },
        };
        let second = match registry.get_unit(category, unit2) {
            Some(unit) => unit,
            None => {
                return Err(unit_not_found(unit2, category));
            },
        };
        Ok(Comparison { first_to_base: first.to_base(), second_to_base: second.to_base() })
    }

    /// Lays out the sum or the difference of a quantity in the left unit
    /// and one in the right unit: both go to the base unit, and the result
    /// is expressed in the left unit. The caller has matched the
    /// categories.
    pub fn combine(left: &Unit, right: &Unit) -> (combination: Combination)
        ensures
            combination@ == combination_of(left@, right@),
            left@.wf(),
            right@.wf(),
    {
        Combination {
            unit: left.clone(),
            left_to_base: left.to_base(),
            right_to_base: right.to_base(),
            from_base: left.from_base(),
        }
    }

    /// The answer of a comparison, from what the comparison of the two base
    /// values shows: whether they are equal within the tolerance, and
    /// whether the first is below the second.
    pub fn relation(within_tolerance: bool, first_below: bool) -> (answer: i8)
        ensures
            answer == relation_of(within_tolerance, first_below),
    {
        if within_tolerance {
            0
        } else if first_below {
            -1
        } else {
            1
        }
    }
}

/// What a resolved conversion holds.
pub struct ConversionView {
    pub from_unit: Seq<char>,
    pub to_unit: Seq<char>,
    pub category: Seq<char>,
    pub steps: Seq<Step>,
}

impl ConversionView {
    /// The converted quantity: the steps applied to `x`.
    pub open spec fn value(self, x: real) -> real {
        apply(self.steps, x)
    }
}

/// A resolved conversion: the registry's own symbols and category name, and
/// the arithmetic that turns a quantity in the source unit into the target
/// unit.
#[derive(Debug)]
pub struct Conversion {
    pub from_unit: String,
    pub to_unit: String,
    pub category: String,
    pub steps: Vec<Step>,
}

impl View for Conversion {
    type V = ConversionView;

    open spec fn view(&self) -> ConversionView {
        ConversionView {
            from_unit: self.from_unit@,
            to_unit: self.to_unit@,
            category: self.category@,
            steps: self.steps@,
        }
    }
}

/// The conversion that `route` lays out between two units of one category.
pub open spec fn route_between(from: UnitView, to: UnitView) -> ConversionView {
    ConversionView {
        from_unit: from.symbol,
        to_unit: to.symbol,
        category: from.category.name,
        steps: from.route_to(to),
    }
}

/// What a resolved comparison holds.
pub struct ComparisonView {
    pub first_to_base: Seq<Step>,
    pub second_to_base: Seq<Step>,
}

impl ComparisonView {
    /// The answer of the comparison of `x1` in the first unit with `x2` in
    /// the second, in exact arithmetic: both are taken to the base unit;
    /// they are equal where the base values are less than the tolerance
    /// apart, and else ordered as the base values are.
    pub open spec fn answer(self, x1: real, x2: real, tolerance: real) -> int {
        let base1 = apply(self.first_to_base, x1);
        let base2 = apply(self.second_to_base, x2);
        relation_of(distance(base1, base2) < tolerance, base1 < base2)
    }
}

/// A resolved comparison: the formulas that take each of the two quantities
/// to the base unit, where they are compared.
#[derive(Debug)]
pub struct Comparison {
    pub first_to_base: Vec<Step>,
    pub second_to_base: Vec<Step>,
}

impl View for Comparison {
    type V = ComparisonView;

    open spec fn view(&self) -> ComparisonView {
        ComparisonView {
            first_to_base: self.first_to_base@,
            second_to_base: self.second_to_base@,
        }
    }
}

/// What a resolved sum or difference holds.
pub struct CombinationView {
    pub unit: UnitView,
    pub left_to_base: Seq<Step>,
    pub right_to_base: Seq<Step>,
    pub from_base: Seq<Step>,
}

impl CombinationView {
    /// The sum of `a` in the left unit and `b` in the right unit, in exact
    /// arithmetic: the base values added, expressed in the result's unit.
    pub open spec fn sum(self, a: real, b: real) -> real {
        apply(self.from_base, apply(self.left_to_base, a) + apply(self.right_to_base, b))
    }

    /// The difference of `a` in the left unit and `b` in the right unit,
    /// in exact arithmetic: the base values subtracted, expressed in the
    /// result's unit.
    pub open spec fn difference(self, a: real, b: real) -> real {
        apply(self.from_base, apply(self.left_to_base, a) - apply(self.right_to_base, b))
    }
}

/// A resolved sum or difference: the unit of the result, the formulas that
/// take each operand to the base unit, and the formula that takes the
/// combined base value to the result's unit.
#[derive(Debug)]
pub struct Combination {
    pub unit: Unit,
    pub left_to_base: Vec<Step>,
    pub right_to_base: Vec<Step>,
    pub from_base: Vec<Step>,
}

impl View for Combination {
    type V = CombinationView;

    open spec fn view(&self) -> CombinationView {
        CombinationView {
            unit: self.unit@,
            left_to_base: self.left_to_base@,
            right_to_base: self.right_to_base@,
            from_base: self.from_base@,
        }
    }
}

/// The combination that `combine` lays out: the result is in the left
/// operand's unit.
pub open spec fn combination_of(left: UnitView, right: UnitView) -> CombinationView {
    CombinationView {
        unit: left,
        left_to_base: left.to_base,
        right_to_base: right.to_base,
        from_base: left.from_base(),
    }
}

/// What `relation` answers: 0 where the base values are equal within the
/// tolerance, else -1 where the first is below the second, else 1.
pub open spec fn relation_of(within_tolerance: bool, first_below: bool) -> int {
    if within_tolerance {
        0
    } else if first_below {
        -1
    } else {
        1
    }
}

/// How far apart two numbers are.
pub open spec fn distance(a: real, b: real) -> real {
    if a >= b {
        a - b
    } else {
        b - a
    }
}

/// The message for a registry that cannot be reached.
pub open spec fn registry_unavailable_message() -> Seq<char> {
    "Failed to access unit registry"@
}

/// The message for a unit symbol that the category does not have.
pub open spec fn unit_not_found_message(symbol: Seq<char>, category: Seq<char>) -> Seq<char> {
    "Unit '"@ + symbol + "' not found in category '"@ + category + "'"@
}

/// The message for a category name that is not registered.
pub open spec fn category_not_found_message(category: Seq<char>) -> Seq<char> {
    "Category '"@ + category + "' not found"@
}

/// The message for a conversion between units of two categories.
pub open spec fn incompatible_message(from: Seq<char>, to: Seq<char>) -> Seq<char> {
    "Cannot convert between different categories: '"@ + from + "' and '"@ + to + "'"@
}

/// The views of a list of strings, in order.
pub open spec fn string_views(strings: Seq<String>) -> Seq<Seq<char>> {
    Seq::new(strings.len(), |i: int| strings[i]@)
}

fn unit_not_found(symbol: &str, category: &str) -> (error: ApiError)
    ensures
        error matches ApiError::NotFound(m) && m@ == unit_not_found_message(symbol@, category@),
{
    let mut message = String::from_str("Unit '");
    message.append(symbol);
    message.append("' not found in category '");
    message.append(category);
    message.append("'");
    ApiError::NotFound(message)
}

/// Units that the engine finds under one category name belong to that
/// category: a conversion that it resolves never crosses categories.
pub proof fn law_resolved_units_share_category(
    registry: RegistryView,
    category: Seq<char>,
    from: Seq<char>,
    to: Seq<char>,
)
    requires
        registry.unit(category, from) is Some,
        registry.unit(category, to) is Some,
    ensures
        registry.unit(category, from).unwrap().category.name == category,
        registry.unit(category, to).unwrap().category.name == category,
        registry.unit(category, from).unwrap().symbol == from,
        registry.unit(category, to).unwrap().symbol == to,
{
    lemma_find_unit(registry.units, category, from);
    lemma_find_unit(registry.units, category, to);
}

/// A resolved conversion takes a quantity to the base unit and from there
/// to the target unit, and the opposite conversion takes the result back.
pub proof fn law_conversion_through_base(from: UnitView, to: UnitView, x: real)
    requires
        from.wf(),
        to.wf(),
    ensures
        route_between(from, to).value(x) == to.from_base_value(from.to_base_value(x)),
        route_between(to, from).value(route_between(from, to).value(x)) == x,
{
    law_route(from, to, x);
}

/// A comparison goes by the base values alone, in exact arithmetic: the
/// answer is 0 exactly where they are less than the tolerance apart, and
/// else it is negative exactly where the first base value is the smaller.
/// Comparing the other way round gives the opposite answer. The tolerance
/// is positive.
pub proof fn law_comparison_is_base_relative(
    first: UnitView,
    second: UnitView,
    x1: real,
    x2: real,
    tolerance: real,
)
    requires
        tolerance > 0 as real,
    ensures
        ({
            let there = ComparisonView {
                first_to_base: first.to_base,
                second_to_base: second.to_base,
            };
            let back = ComparisonView {
                first_to_base: second.to_base,
                second_to_base: first.to_base,
            };
            let base1 = first.to_base_value(x1);
            let base2 = second.to_base_value(x2);
            &&& there.answer(x1, x2, tolerance) == 0 <==> distance(base1, base2) < tolerance
            &&& there.answer(x1, x2, tolerance) == -1 <==> distance(base1, base2) >= tolerance
                && base1 < base2
            &&& there.answer(x1, x2, tolerance) == 1 <==> distance(base1, base2) >= tolerance
                && base1 > base2
            &&& back.answer(x2, x1, tolerance) == -there.answer(x1, x2, tolerance)
        }),
{
}

/// A sum or a difference is expressed in the left operand's unit, and in
/// exact arithmetic it is the sum or the difference of the operands' base
/// values, converted from the base unit to that unit: taken to the base
/// unit again, it is the sum or the difference of the base values.
pub proof fn law_combination_in_left_unit(left: UnitView, right: UnitView, a: real, b: real)
    requires
        left.wf(),
        right.wf(),
    ensures
        combination_of(left, right).unit == left,
        combination_of(left, right).sum(a, b) == left.from_base_value(
            left.to_base_value(a) + right.to_base_value(b),
        ),
        combination_of(left, right).difference(a, b) == left.from_base_value(
            left.to_base_value(a) - right.to_base_value(b),
        ),
        left.to_base_value(combination_of(left, right).sum(a, b)) == left.to_base_value(a)
            + right.to_base_value(b),
        left.to_base_value(combination_of(left, right).difference(a, b)) == left.to_base_value(a)
            - right.to_base_value(b),
{
    law_round_trip(left, left.to_base_value(a) + right.to_base_value(b));
    law_round_trip(left, left.to_base_value(a) - right.to_base_value(b));
}

} // verus!
