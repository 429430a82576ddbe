//! Categories and units: what the registry stores and the engine reads.
use crate::models::formula::{
    all_reversible, apply, copy_steps, inverse, invert, lemma_apply_concat, lemma_round_trip,
    reversible, Decimal, Step,
};
use vstd::prelude::*;
use vstd::string::*;

verus! {

/// A measurement dimension (length, mass, ...): a tag that groups the units
/// that convert into each other.
pub trait UnitCategory {
    /// The category's name as contracts see it.
    spec fn name_view(&self) -> Seq<char>;

    /// The category's description as contracts see it.
    spec fn description_view(&self) -> Seq<char>;

    /// The stable identifier of the category; the registry's key.
    fn name(&self) -> (name: &str)
        ensures
            name@ == self.name_view(),
    ;

    /// What the category measures, for readers.
    fn description(&self) -> (description: &str)
        ensures
            description@ == self.description_view(),
    ;
}

/// What a category record holds.
pub struct CategoryView {
    pub name: Seq<char>,
    pub description: Seq<char>,
}

/// What the record of a category of any type holds.
pub open spec fn category_view<C: UnitCategory>(category: &C) -> CategoryView {
    CategoryView { name: category.name_view(), description: category.description_view() }
}

/// A category as the registry keeps it: its name and description, whatever
/// type declared it.
#[derive(Debug)]
pub struct Category {
    name: String,
    description: String,
}

impl View for Category {
    type V = CategoryView;

    closed spec fn view(&self) -> CategoryView {
        CategoryView { name: self.name@, description: self.description@ }
    }
}

impl Category {
    /// The record of a category of any type.
    pub fn of<C: UnitCategory>(category: &C) -> (record: Category)
        ensures
            record@ == category_view(category),
    {
        Category {
            name: String::from_str(category.name()),
            description: String::from_str(category.description()),
        }
    }
}

impl Clone for Category {
    fn clone(&self) -> (copy: Category)
        ensures
            copy@ == self@,
    {
        Category { name: self.name.clone(), description: self.description.clone() }
    }
}

impl UnitCategory for Category {
    open spec fn name_view(&self) -> Seq<char> {
        self@.name
    }

    open spec fn description_view(&self) -> Seq<char> {
        self@.description
    }

    fn name(&self) -> (name: &str) {
        self.name.as_str()
    }

    fn description(&self) -> (description: &str) {
        self.description.as_str()
    }
}

/// What a unit definition holds: its names, its category, and the formula
/// that takes a quantity in this unit to the category's base unit.
pub struct UnitView {
    pub symbol: Seq<char>,
    pub name: Seq<char>,
    pub category: CategoryView,
    pub to_base: Seq<Step>,
}

impl UnitView {
    /// A base unit: its formula does nothing.
    pub open spec fn base(symbol: Seq<char>, name: Seq<char>, category: CategoryView) -> UnitView {
        UnitView { symbol, name, category, to_base: Seq::empty() }
    }

    /// The unit with one more step at the end of its formula.
    pub open spec fn with_step(self, step: Step) -> UnitView {
        UnitView {
            symbol: self.symbol,
            name: self.name,
            category: self.category,
            to_base: self.to_base.push(step),
        }
    }

    /// A unit that is `factor` base units: to the base unit, multiply.
    pub open spec fn multiple(
        symbol: Seq<char>,
        name: Seq<char>,
        category: CategoryView,
        factor: Decimal,
    ) -> UnitView {
        UnitView::base(symbol, name, category).with_step(Step::Times(factor))
    }

    /// A unit of which `divisor` make one base unit: to the base unit,
    /// divide.
    pub open spec fn fraction(
        symbol: Seq<char>,
        name: Seq<char>,
        category: CategoryView,
        divisor: Decimal,
    ) -> UnitView {
        UnitView::base(symbol, name, category).with_step(Step::Over(divisor))
    }

    /// The formula that takes a quantity in the base unit to this unit.
    pub open spec fn from_base(self) -> Seq<Step> {
        inverse(self.to_base)
    }

    /// A quantity in this unit, expressed in the base unit.
    pub open spec fn to_base_value(self, x: real) -> real {
        apply(self.to_base, x)
    }

    /// A quantity in the base unit, expressed in this unit.
    pub open spec fn from_base_value(self, x: real) -> real {
        apply(self.from_base(), x)
    }

    /// Whether this is a base unit: one whose formula does nothing.
    pub open spec fn is_base(self) -> bool {
        self.to_base.len() == 0
    }

    /// Whether the unit's formula can be taken back.
    pub open spec fn wf(self) -> bool {
        reversible(self.to_base)
    }

    /// The formula that takes a quantity in this unit to `target`: to the
    /// base unit, then from the base unit.
    pub open spec fn route_to(self, target: UnitView) -> Seq<Step> {
        self.to_base + target.from_base()
    }
}

/// One concrete unit: symbol, display name, category, and the conversion to
/// the category's base unit. The conversion back is the same formula
/// inverted, so the two cancel by construction.
#[derive(Debug)]
pub struct Unit {
    symbol: String,
    name: String,
    category: Category,
    to_base: Vec<Step>,
}

impl View for Unit {
    type V = UnitView;

    closed spec fn view(&self) -> UnitView {
        UnitView {
            symbol: self.symbol@,
            name: self.name@,
            category: self.category@,
            to_base: self.to_base@,
        }
    }
}

impl Unit {
    /// Every unit's formula can be taken back.
    #[verifier::type_invariant]
    pub open spec fn valid(self) -> bool {
        self@.wf()
    }

    /// A unit with the given formula to the base unit, or `None` where the
    /// formula cannot be taken back (it multiplies or divides by zero).
    pub fn new<C: UnitCategory>(symbol: &str, name: &str, category: &C, to_base: Vec<Step>) -> (unit:
        Option<Unit>)
        ensures
            unit is Some <==> reversible(to_base@),
            unit matches Some(u) ==> u@ == (UnitView {
                symbol: symbol@,
                name: name@,
                category: category_view(category),
                to_base: to_base@,
            }),
    {
        if all_reversible(&to_base) {
            Some(
                Unit {
                    symbol: String::from_str(symbol),
                    name: String::from_str(name),
                    category: Category::of(category),
                    to_base,
                },
            )
        } else {
            None
        }
    }

    /// The base unit of a category: its formula does nothing.
    pub fn base<C: UnitCategory>(symbol: &str, name: &str, category: &C) -> (unit: Unit)
        ensures
            unit@ == UnitView::base(symbol@, name@, category_view(category)),
    {
        Unit {
            symbol: String::from_str(symbol),
            name: String::from_str(name),
            category: Category::of(category),
            to_base: Vec::new(),
        }
    }

    /// The unit with one more step at the end of its formula. The step must
    /// be one that can be taken back.
    pub fn with_step(self, step: Step) -> (unit: Unit)
        requires
            step.reversible(),
        ensures
            unit@ == self@.with_step(step),
    {
        proof {
            use_type_invariant(&self);
        }
        let Unit { symbol, name, category, mut to_base } = self;
        to_base.push(step);
        Unit { symbol, name, category, to_base }
    }

    /// A unit that is `factor` base units: to the base unit, multiply.
    pub fn multiple<C: UnitCategory>(symbol: &str, name: &str, category: &C, factor: Decimal) -> (unit:
        Unit)
        requires
            factor.mantissa != 0,
        ensures
            unit@ == UnitView::multiple(symbol@, name@, category_view(category), factor),
    {
        Unit::base(symbol, name, category).with_step(Step::Times(factor))
    }

    /// A unit of which `divisor` make one base unit: to the base unit, divide.
    pub fn fraction<C: UnitCategory>(symbol: &str, name: &str, category: &C, divisor: Decimal) -> (unit:
        Unit)
        requires
            divisor.mantissa != 0,
        ensures
            unit@ == UnitView::fraction(symbol@, name@, category_view(category), divisor),
    {
        Unit::base(symbol, name, category).with_step(Step::Over(divisor))
    }

    /// The short token by which the unit is shown and looked up.
    pub fn symbol(&self) -> (symbol: &str)
        ensures
            symbol@ == self@.symbol,
    {
        self.symbol.as_str()
    }

    /// The unit's name for readers.
    pub fn name(&self) -> (name: &str)
        ensures
            name@ == self@.name,
    {
        self.name.as_str()
    }

    /// The category that owns the unit.
    pub fn category(&self) -> (category: &Category)
        ensures
            category@ == self@.category,
    {
        &self.category
    }

    /// The name of the category that owns the unit.
    pub fn category_name(&self) -> (name: &str)
        ensures
            name@ == self@.category.name,
    {
        self.category.name()
    }

    /// The formula from this unit to the base unit.
    pub fn to_base(&self) -> (steps: Vec<Step>)
        ensures
            steps@ == self@.to_base,
            self@.wf(),
    {
        proof {
            use_type_invariant(self);
        }
        copy_steps(&self.to_base)
    }

    /// The formula from the base unit to this unit.
    pub fn from_base(&self) -> (steps: Vec<Step>)
        ensures
            steps@ == self@.from_base(),
            self@.wf(),
    {
        proof {
            use_type_invariant(self);
        }
        invert(&self.to_base)
    }

    /// Whether this is a base unit.
    pub fn is_base(&self) -> (base: bool)
        ensures
            base == self@.is_base(),
    {
        self.to_base.len() == 0
    }

    /// The unit as text: its name.
    pub fn to_string(&self) -> (text: String)
        ensures
            text@ == self@.name,
    {
        self.name.clone()
    }
}

impl Clone for Unit {
    fn clone(&self) -> (copy: Unit)
        ensures
            copy@ == self@,
    {
        proof {
            use_type_invariant(self);
        }
        Unit {
            symbol: self.symbol.clone(),
            name: self.name.clone(),
            category: self.category.clone(),
            to_base: copy_steps(&self.to_base),
        }
    }
}

/// Whether every unit of the list belongs to the category of that name.
pub open spec fn all_in_category(units: Seq<UnitView>, category: Seq<char>) -> bool {
    forall|i: int| 0 <= i < units.len() ==> (#[trigger] units[i]).category.name == category
}

/// Whether every unit of the list has a formula that can be taken back.
pub open spec fn all_well_formed(units: Seq<UnitView>) -> bool {
    forall|i: int| 0 <= i < units.len() ==> (#[trigger] units[i]).wf()
}

/// Whether the first unit of the list, and no other, is a base unit.
pub open spec fn only_first_is_base(units: Seq<UnitView>) -> bool {
    &&& units.len() > 0
    &&& forall|i: int| 0 <= i < units.len() ==> ((#[trigger] units[i]).is_base() <==> i == 0)
}

/// Whether no two units of the list share a symbol.
pub open spec fn distinct_symbols(units: Seq<UnitView>) -> bool {
    forall|i: int, j: int|
        0 <= i < j < units.len() ==> (#[trigger] units[i]).symbol != (#[trigger] units[j]).symbol
}

/// The views of a list of units, in order.
pub open spec fn unit_views(units: Seq<Unit>) -> Seq<UnitView> {
    Seq::new(units.len(), |i: int| units[i]@)
}

/// Converting a quantity to the base unit and back gives the quantity, and
/// so does converting from the base unit and back to it.
pub proof fn law_round_trip(unit: UnitView, x: real)
    requires
        unit.wf(),
    ensures
        unit.from_base_value(unit.to_base_value(x)) == x,
        unit.to_base_value(unit.from_base_value(x)) == x,
{
    lemma_round_trip(unit.to_base, x);
}

/// A base unit's conversions, to the base and from it, change nothing.
pub proof fn law_base_identity(unit: UnitView, x: real)
    requires
        unit.is_base(),
    ensures
        unit.to_base_value(x) == x,
        unit.from_base_value(x) == x,
{
    assert(inverse(unit.to_base) =~= Seq::<Step>::empty());
}

/// The route from one unit to another converts to the base unit and then
/// from it; the route back undoes it.
pub proof fn law_route(from: UnitView, to: UnitView, x: real)
    requires
        from.wf(),
        to.wf(),
    ensures
        apply(from.route_to(to), x) == to.from_base_value(from.to_base_value(x)),
        apply(to.route_to(from), apply(from.route_to(to), x)) == x,
{
    lemma_apply_concat(from.to_base, to.from_base(), x);
    let there = apply(from.route_to(to), x);
    lemma_apply_concat(to.to_base, from.from_base(), there);
    lemma_round_trip(to.to_base, from.to_base_value(x));
    lemma_round_trip(from.to_base, x);
}

/// Conversions agree with each other: converting a quantity to a second
/// unit and from there to a third gives what converting it to the third
/// directly gives, and converting it to its own unit changes nothing.
pub proof fn law_routes_compose(from: UnitView, middle: UnitView, to: UnitView, x: real)
    requires
        from.wf(),
        middle.wf(),
        to.wf(),
    ensures
        apply(middle.route_to(to), apply(from.route_to(middle), x)) == apply(from.route_to(to), x),
        apply(from.route_to(from), x) == x,
{
    let base = from.to_base_value(x);
    law_route(from, middle, x);
    law_route(middle, to, apply(from.route_to(middle), x));
    law_route(from, to, x);
    law_route(from, from, x);
    lemma_round_trip(middle.to_base, base);
    lemma_round_trip(from.to_base, x);
}

} // verus!
