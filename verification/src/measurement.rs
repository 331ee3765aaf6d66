//! The contract that every quantity type meets.
//!
//! A quantity converts to and from one number in its base unit, names that
//! unit, and can pick a unit to be shown in. Everything else in the library
//! (arithmetic, comparison, the relations between quantities) is written once
//! against this contract.
use crate::scalar::{ge_spec, le_spec, one_spec, Scalar, Text};
use vstd::prelude::*;
use vstd::string::StringExecFns;

verus! {

/// The number minus one.
pub open spec fn minus_one_spec<T: Scalar>() -> T {
    T::ratio_spec((-1) as i64, 1)
}

/// Whether `value` is at least one in magnitude: `value >= 1` or `value <= -1`.
pub open spec fn fills_unit<T: Scalar>(value: T) -> bool {
    ge_spec(value, one_spec::<T>()) || le_spec(value, minus_one_spec::<T>())
}

/// The base-unit number `base` expressed in entry `i` of `table`.
pub open spec fn in_unit<T: Scalar>(base: T, table: Seq<(&'static str, T)>, i: int) -> T {
    base.over_spec(table[i].1)
}

/// Whether the units of `table` go from the smallest to the largest: every
/// scale is below the scales after it.
pub open spec fn ascending<T: Scalar>(table: Seq<(&'static str, T)>) -> bool {
    forall|i: int, j: int| 0 <= i < j < table.len() ==> (#[trigger] table[i]).1.below_spec(
        (#[trigger] table[j]).1,
    )
}

/// The entry that unit selection settles on among the first `n` entries of
/// `table`: the last one in which `base` is at least one in magnitude, and
/// the first entry of the table if there is none.
pub open spec fn selected_index<T: Scalar>(
    base: T,
    table: Seq<(&'static str, T)>,
    n: nat,
) -> int
    decreases n,
{
    if n == 0 {
        0
    } else if fills_unit(in_unit(base, table, n - 1)) {
        n - 1
    } else {
        selected_index(base, table, (n - 1) as nat)
    }
}

/// The unit name and the number that unit selection returns for `base`.
pub open spec fn pick_spec<T: Scalar>(base: T, table: Seq<(&'static str, T)>) -> (Text, T) {
    let k = selected_index(base, table, table.len());
    (table[k].0@, in_unit(base, table, k))
}

/// The text of a number with its unit: the number, a no-break space, the unit.
pub open spec fn display_spec<T: Scalar>(shown: (Text, T)) -> Text {
    shown.1.text_spec() + seq!['\u{a0}'] + shown.0
}

/// Unit selection picks the largest unit that `base` fills, scanning from
/// the end of the table, and falls back to the first entry: no entry after
/// the selected one is filled, and the selected one is filled unless it is
/// the first.
pub proof fn lemma_selected_index<T: Scalar>(base: T, table: Seq<(&'static str, T)>, n: nat)
    requires
        0 < n <= table.len(),
    ensures
        0 <= selected_index(base, table, n) < n,
        forall|j: int|
            selected_index(base, table, n) < j < n ==> !fills_unit(#[trigger] in_unit(base, table, j)),
        selected_index(base, table, n) > 0 ==> fills_unit(
            in_unit(base, table, selected_index(base, table, n)),
        ),
    decreases n,
{
    if !fills_unit(in_unit(base, table, n - 1)) {
        if n > 1 {
            lemma_selected_index(base, table, (n - 1) as nat);
        } else {
            assert(selected_index(base, table, 0) == 0);
        }
    }
}

/// The selected entry is the only one that meets the description in
/// [`lemma_selected_index`].
pub proof fn lemma_selected_index_unique<T: Scalar>(
    base: T,
    table: Seq<(&'static str, T)>,
    k: int,
)
    requires
        0 <= k < table.len(),
        forall|j: int| k < j < table.len() ==> !fills_unit(#[trigger] in_unit(base, table, j)),
        k > 0 ==> fills_unit(in_unit(base, table, k)),
    ensures
        selected_index(base, table, table.len()) == k,
{
    lemma_selected_index(base, table, table.len());
    let s = selected_index(base, table, table.len());
    if s < k {
        assert(!fills_unit(in_unit(base, table, k)));
    } else if k < s {
        assert(!fills_unit(in_unit(base, table, s)));
    }
}

/// Whether `value >= 1` or `value <= -1`.
pub fn fills<T: Scalar>(value: &T) -> (r: bool)
    ensures
        r == fills_unit(*value),
{
    let one = T::from_ratio(1, 1);
    let minus_one = T::from_ratio(-1, 1);
    crate::scalar::ge(value, &one) || crate::scalar::le(value, &minus_one)
}

/// All measurements implement this.
///
/// It provides conversion functions to and from raw numbers.
pub trait Measurement<T: Scalar>: Sized {
    /// The quantity in its base unit.
    spec fn base(&self) -> T;

    /// The quantity that `units` of the base unit make.
    spec fn from_base_spec(units: T) -> Self;

    /// The name of the base unit.
    spec fn units_name_spec() -> Text;

    /// Returns a string containing the most appropriate units for this
    /// quantity, and a number representing this quantity in those units.
    /// Useful when, for example, a length might be in millimeters if it is
    /// very small, or kilometers when it is very large.
    ///
    /// The default implementation always selects the base unit. Override in
    /// your Measurement impl to select better units if required, and state
    /// there which units are selected.
    fn get_appropriate_units(&self) -> (r: (&'static str, T))
        default_ensures
            (r.0@, r.1) == (Self::units_name_spec(), self.base()),
    {
        (self.get_base_units_name(), self.as_base_units())
    }

    /// Given a list of units and their scale relative to the base unit,
    /// select the most appropriate one.
    ///
    /// The list must be smallest to largest, e.g. ("nanometre", 10-9) to
    /// ("kilometre", 10e3), and hold at least one unit.
    fn pick_appropriate_units(&self, list: &[(&'static str, T)]) -> (r: (&'static str, T))
        requires
            list@.len() > 0,
        ensures
            (r.0@, r.1) == pick_spec(self.base(), list@),
    {
        let base = self.as_base_units();
        let mut i: usize = list.len();
        while i > 0
            invariant
                i <= list@.len(),
                base == self.base(),
                selected_index(base, list@, list@.len()) == selected_index(base, list@, i as nat),
            decreases i,
        {
            i = i - 1;
            let value = base.over(list[i].1);
            if fills(&value) {
                return (list[i].0, value);
            }
        }
        (list[0].0, base.over(list[0].1))
    }

    /// Return the base unit for this type, as a string.
    /// For example "kilograms"
    fn get_base_units_name(&self) -> (r: &'static str)
        ensures
            r@ == Self::units_name_spec(),
    ;

    /// Get this quantity in the base units
    fn as_base_units(&self) -> (r: T)
        ensures
            r == self.base(),
    ;

    /// Create a new quantity from the base units
    fn from_base_units(units: T) -> (r: Self)
        ensures
            r == Self::from_base_spec(units),
    ;

    /// The quantity as text: the number and the unit that
    /// `get_appropriate_units` gives, with a no-break space between them.
    fn to_string(&self) -> (r: String)
        ensures
            exists|shown: (&'static str, T)|
                #[trigger] call_ensures(Self::get_appropriate_units, (self,), shown) && r@
                    == display_spec((shown.0@, shown.1)),
    {
        let (unit, value) = self.get_appropriate_units();
        let mut text = value.to_text();
        proof {
            reveal_strlit("\u{a0}");
        }
        text.append("\u{a0}");
        text.append(unit);
        proof {
            assert("\u{a0}"@ =~= seq!['\u{a0}']);
            assert(call_ensures(Self::get_appropriate_units, (self,), (unit, value)));
            assert(text@ == display_spec((unit@, value)));
        }
        text
    }
}

/// A measurement that is nothing but its number of base units: the number
/// determines the quantity, and the quantity gives the number back.
pub trait Quantity<T: Scalar>: Measurement<T> {
    proof fn lemma_base_units(q: Self, units: T)
        ensures
            Self::from_base_spec(units).base() == units,
            Self::from_base_spec(q.base()) == q,
    ;
}

/// A bare number is a measurement without a dimension: it is its own number
/// of base units, and its unit has no name.
impl<T: Scalar> Measurement<T> for T {
    open spec fn base(&self) -> T {
        *self
    }

    open spec fn from_base_spec(units: T) -> Self {
        units
    }

    open spec fn units_name_spec() -> Text {
        ""@
    }

    fn get_base_units_name(&self) -> (r: &'static str) {
        ""
    }

    fn as_base_units(&self) -> (r: T) {
        *self
    }

    fn from_base_units(units: T) -> (r: Self) {
        units
    }
}

impl<T: Scalar> Quantity<T> for T {
    proof fn lemma_base_units(q: Self, units: T) {
    }
}

} // verus!
