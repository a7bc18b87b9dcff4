//! Closed intervals of doubles, and how the extents of several series merge
//! into the range of an axis.

use crate::double::Double;
use crate::host::{list_type, number_type, printed, range_type, type_to_string};
use crate::decode::{field_of, numbers_of, numbers_of_reads_each};
use crate::error::{plainly, DecodeError, DecodeErrorView};
use crate::value::{Data, DataView, RangeEnd, Value, ValueView};
use nu_protocol::Type;
use vstd::prelude::*;

verus! {

/// A closed interval from `min` to `max`. Nothing asks that `min` lies below
/// `max`: an inverted range is kept as it is given.
#[derive(Clone, Copy, Debug, PartialEq, Eq, Structural)]
pub struct Range {
    pub min: Double,
    pub max: Double,
}

impl Range {
    /// This range, stretched to take in `other`: the lower of the two minima
    /// and the higher of the two maxima. A bound of `other` that is a NaN
    /// compares neither way and leaves the bound of `self` in place.
    pub open spec fn widened(self, other: Range) -> Range {
        Range {
            min: if other.min.less_than(self.min) {
                other.min
            } else {
                self.min
            },
            max: if other.max.greater_than(self.max) {
                other.max
            } else {
                self.max
            },
        }
    }

    /// Whether neither bound is a NaN.
    pub open spec fn is_ordered(self) -> bool {
        !self.min.is_nan() && !self.max.is_nan()
    }

    /// The range from `min` to `max`.
    pub fn new(min: Double, max: Double) -> (r: Range)
        ensures
            r == (Range { min, max }),
    {
        Range { min, max }
    }

    /// Stretches this range to take in `other`.
    pub fn widen(self, other: Range) -> (r: Range)
        ensures
            r == self.widened(other),
    {
        let min: Double = if other.min.lt(self.min) {
            other.min
        } else {
            self.min
        };
        let max: Double = if other.max.gt(self.max) {
            other.max
        } else {
            self.max
        };
        Range { min, max }
    }
}

/// What was merged so far with one more extent taken in. An absent extent
/// changes nothing. An extent that is there starts the range, or widens the one
/// that is there already.
pub open spec fn taken_in(so_far: Option<Range>, next: Option<Range>) -> Option<Range> {
    match (so_far, next) {
        (so_far, None) => so_far,
        (None, Some(extent)) => Some(extent),
        (Some(so_far), Some(extent)) => Some(so_far.widened(extent)),
    }
}

/// The range that a sequence of extents comes to, taken in from first to last.
/// Where no extent is there, no range comes out.
pub open spec fn merged(extents: Seq<Option<Range>>) -> Option<Range>
    decreases extents.len(),
{
    if extents.len() == 0 {
        None
    } else {
        taken_in(merged(extents.drop_last()), extents.last())
    }
}

/// Takes one more extent into what was merged so far.
pub fn take_in(so_far: Option<Range>, next: Option<Range>) -> (r: Option<Range>)
    ensures
        r == taken_in(so_far, next),
{
    match next {
        None => so_far,
        Some(extent) => match so_far {
            None => Some(extent),
            Some(range) => Some(range.widen(extent)),
        },
    }
}

/// Merging stops at nothing exactly when no extent is there.
pub proof fn merged_is_none_iff_all_absent(extents: Seq<Option<Range>>)
    ensures
        merged(extents) is None <==> forall|i: int| 0 <= i < extents.len() ==> extents[i] is None,
    decreases extents.len(),
{
    if extents.len() > 0 {
        let front = extents.drop_last();
        merged_is_none_iff_all_absent(front);
        assert(forall|i: int| 0 <= i < front.len() ==> front[i] == extents[i]);
        if merged(extents) is None {
            assert forall|i: int| 0 <= i < extents.len() implies extents[i] is None by {
                if i < front.len() {
                    assert(front[i] is None);
                }
            }
        }
    }
}

/// An absent extent changes nothing, wherever it stands among the others.
pub proof fn merged_skips_absent(before: Seq<Option<Range>>, after: Seq<Option<Range>>)
    ensures
        merged(before + seq![None] + after) == merged(before + after),
    decreases after.len(),
{
    let with = before + seq![None::<Range>] + after;
    let without = before + after;
    if after.len() == 0 {
        assert(with.drop_last() =~= before);
        assert(without =~= before);
    } else {
        merged_skips_absent(before, after.drop_last());
        assert(with.drop_last() =~= before + seq![None::<Range>] + after.drop_last());
        assert(without.drop_last() =~= before + after.drop_last());
        assert(with.last() == after.last());
        assert(without.last() == after.last());
    }
}

/// Where no bound of any extent is a NaN, the merged range runs from the lowest
/// minimum to the highest maximum: each of its bounds is a bound of one extent,
/// and no extent reaches beyond them.
pub proof fn merged_spans_all(extents: Seq<Option<Range>>)
    requires
        forall|i: int|
            0 <= i < extents.len() ==> (#[trigger] extents[i] matches Some(e) ==> e.is_ordered()),
    ensures
        merged(extents) matches Some(range) ==> {
            &&& range.is_ordered()
            &&& exists|i: int|
                0 <= i < extents.len() && (#[trigger] extents[i] matches Some(e) && e.min == range.min)
            &&& exists|i: int|
                0 <= i < extents.len() && (#[trigger] extents[i] matches Some(e) && e.max == range.max)
            &&& forall|i: int|
                0 <= i < extents.len() ==> (#[trigger] extents[i] matches Some(e) ==> range.min.rank()
                    <= e.min.rank() && e.max.rank() <= range.max.rank())
        },
    decreases extents.len(),
{
    if extents.len() > 0 {
        let front = extents.drop_last();
        let n = front.len() as int;
        assert(forall|i: int| 0 <= i < front.len() ==> front[i] == extents[i]);
        merged_spans_all(front);
        match (merged(front), extents.last()) {
            (_, None) => {
                if let Some(range) = merged(front) {
                    let i = choose|i: int|
                        0 <= i < front.len() && (#[trigger] front[i] matches Some(e) && e.min
                            == range.min);
                    assert(extents[i] == front[i]);
                    let j = choose|j: int|
                        0 <= j < front.len() && (#[trigger] front[j] matches Some(e) && e.max
                            == range.max);
                    assert(extents[j] == front[j]);
                    assert forall|k: int| 0 <= k < extents.len() implies (
                    #[trigger] extents[k] matches Some(e) ==> range.min.rank() <= e.min.rank()
                        && e.max.rank() <= range.max.rank()) by {
                        if k < n {
                            assert(front[k] == extents[k]);
                        }
                    }
                }
            },
            (None, Some(extent)) => {
                assert(extents[n] == Some(extent));
                merged_is_none_iff_all_absent(front);
                assert forall|k: int| 0 <= k < extents.len() implies (
                #[trigger] extents[k] matches Some(e) ==> extent.min.rank() <= e.min.rank()
                    && e.max.rank() <= extent.max.rank()) by {
                    if k < n {
                        assert(front[k] is None);
                    }
                }
            },
            (Some(so_far), Some(extent)) => {
                let range = so_far.widened(extent);
                assert(extents[n] == Some(extent));
                let i = choose|i: int|
                    0 <= i < front.len() && (#[trigger] front[i] matches Some(e) && e.min
                        == so_far.min);
                assert(extents[i] == front[i]);
                let j = choose|j: int|
                    0 <= j < front.len() && (#[trigger] front[j] matches Some(e) && e.max
                        == so_far.max);
                assert(extents[j] == front[j]);
                let at_min = if extent.min.less_than(so_far.min) { n } else { i };
                let at_max = if extent.max.greater_than(so_far.max) { n } else { j };
                assert(extents[at_min] matches Some(e) && e.min == range.min);
                assert(extents[at_max] matches Some(e) && e.max == range.max);
                assert forall|k: int| 0 <= k < extents.len() implies (
                #[trigger] extents[k] matches Some(e) ==> range.min.rank() <= e.min.rank()
                    && e.max.rank() <= range.max.rank()) by {
                    if k < n {
                        assert(front[k] == extents[k]);
                    }
                }
            },
        }
    }
}

/// The hint for a range that has no end.
pub open spec fn bounded_hint() -> Seq<char> {
    "Try a bounded range instead."@
}

impl Range {
    /// The range that a dynamic value stands for. Three shapes are read, told
    /// apart by the kind of the value alone:
    /// - a range of the host, from its start to its end, whether the end
    ///   belongs to it or not; one without an end is an error with a hint;
    /// - a list of two numbers, the minimum before the maximum;
    /// - a record with the numbers `min` and `max`, `min` read first.
    ///
    /// Any other value is an error that names a list of numbers as the type
    /// wanted.
    pub open spec fn decoded(v: ValueView) -> Result<Range, DecodeErrorView> {
        match v.data {
            DataView::Range { start, end } => match end {
                RangeEnd::Included(max) => Ok(Range { min: start, max }),
                RangeEnd::Excluded(max) => Ok(Range { min: start, max }),
                RangeEnd::Unbounded => Err(
                    DecodeErrorView::CantConvert {
                        to_type: "list<number>"@,
                        from_type: "range"@,
                        span: v.span,
                        help: Some(bounded_hint()),
                    },
                ),
            },
            DataView::List(_) => match v.number_pair() {
                Ok((min, max)) => Ok(Range { min, max }),
                Err(error) => Err(error),
            },
            DataView::Record(_) => match v.number_field("min"@) {
                Err(error) => Err(error),
                Ok(min) => match v.number_field("max"@) {
                    Err(error) => Err(error),
                    Ok(max) => Ok(Range { min, max }),
                },
            },
            _ => Err(v.mismatch("list<number>"@)),
        }
    }

    /// The type that a range is decoded from, as errors name it: a list of
    /// numbers.
    pub fn expected_type() -> (ty: Type)
        ensures
            printed(ty) == "list<number>"@,
    {
        proof {
            reveal_strlit("list<number>");
            reveal_strlit("list<");
            reveal_strlit("number");
            reveal_strlit(">");
            assert("list<"@ + "number"@ + ">"@ =~= "list<number>"@);
        }
        list_type(number_type())
    }

    /// Decodes a range from a dynamic value.
    pub fn from_value(v: Value) -> (r: Result<Range, DecodeError>)
        ensures
            plainly(r) == Range::decoded(v@),
    {
        match &v.data {
            Data::Range { start, end } => match end {
                RangeEnd::Included(max) => Ok(Range { min: *start, max: *max }),
                RangeEnd::Excluded(max) => Ok(Range { min: *start, max: *max }),
                RangeEnd::Unbounded => Err(
                    DecodeError::CantConvert {
                        to_type: type_to_string(&Range::expected_type()),
                        from_type: type_to_string(&range_type()),
                        span: v.span,
                        help: Some(String::from_str("Try a bounded range instead.")),
                    },
                ),
            },
            Data::List(_) => match v.as_number_pair() {
                Ok((min, max)) => Ok(Range { min, max }),
                Err(error) => Err(error),
            },
            Data::Record(_) => match v.as_number_field("min") {
                Err(error) => Err(error),
                Ok(min) => match v.as_number_field("max") {
                    Err(error) => Err(error),
                    Ok(max) => Ok(Range { min, max }),
                },
            },
            _ => Err(v.cant_convert_to(type_to_string(&Range::expected_type()))),
        }
    }
}

/// A range of the host that has an end decodes to the range from its start to
/// that end, whether the end belongs to it or not.
pub proof fn bounded_range_decodes(v: ValueView, min: Double, max: Double)
    requires
        v.data == (DataView::Range { start: min, end: RangeEnd::Included(max) }) || v.data == (
        DataView::Range { start: min, end: RangeEnd::Excluded(max) }),
    ensures
        Range::decoded(v) == Ok::<Range, DecodeErrorView>(Range { min, max }),
{
}

/// A range of the host that has no end is refused, with the hint to give it
/// one.
pub proof fn unbounded_range_is_refused(v: ValueView, start: Double)
    requires
        v.data == (DataView::Range { start, end: RangeEnd::Unbounded }),
    ensures
        Range::decoded(v) == Err::<Range, DecodeErrorView>(
            DecodeErrorView::CantConvert {
                to_type: "list<number>"@,
                from_type: "range"@,
                span: v.span,
                help: Some(bounded_hint()),
            },
        ),
{
}

/// A list decodes to a range exactly when it holds two items and both are
/// numbers: then to the range from the first to the second.
pub proof fn list_decodes_iff_two_numbers(v: ValueView)
    requires
        v.data is List,
    ensures
        Range::decoded(v) is Ok <==> {
            let items = v.data->List_0;
            items.len() == 2 && items[0].data is Number && items[1].data is Number
        },
        Range::decoded(v) matches Ok(range) ==> {
            let items = v.data->List_0;
            items[0].data == DataView::Number(range.min) && items[1].data == DataView::Number(
                range.max,
            )
        },
{
    let items = v.data->List_0;
    numbers_of_reads_each(items);
    if items.len() == 2 && items[0].data is Number && items[1].data is Number {
        assert(items[0].number() is Ok);
        assert(items[1].number() is Ok);
        if numbers_of(items) is Err {
            let i = choose|i: int|
                0 <= i < items.len() && #[trigger] items[i].number() == Err::<Double, DecodeErrorView>(
                    numbers_of(items)->Err_0,
                );
            assert(i == 0 || i == 1);
        }
    }
    if let Ok(numbers) = numbers_of(items) {
        if numbers.len() == 2 {
            assert(items[0].number() == Ok::<Double, DecodeErrorView>(numbers[0]));
            assert(items[1].number() == Ok::<Double, DecodeErrorView>(numbers[1]));
        }
    }
}

/// A list of numbers that are not two is refused for its length.
pub proof fn list_of_wrong_length_is_refused(v: ValueView)
    requires
        v.data is List,
        v.data->List_0.len() != 2,
        v.data->List_0.len() <= usize::MAX,
        forall|i: int| 0 <= i < v.data->List_0.len() ==> (#[trigger] v.data->List_0[i]).data is Number,
    ensures
        Range::decoded(v) == Err::<Range, DecodeErrorView>(
            DecodeErrorView::WrongLength {
                to_type: "list<float;2>"@,
                from_type: v.type_label,
                span: v.span,
                wanted: 2,
                found: v.data->List_0.len() as usize,
            },
        ),
{
    let items = v.data->List_0;
    numbers_of_reads_each(items);
    if numbers_of(items) is Err {
        let i = choose|i: int|
            0 <= i < items.len() && #[trigger] items[i].number() == Err::<Double, DecodeErrorView>(
                numbers_of(items)->Err_0,
            );
        assert(items[i].data is Number);
    }
}

/// A record decodes to the range from its number `min` to its number `max`,
/// wherever the two fields stand and whatever stands beside them.
pub proof fn record_decodes(v: ValueView, min: Double, max: Double)
    requires
        v.data is Record,
        field_of(v.data->Record_0, "min"@) matches Some(value) && value.data == DataView::Number(min),
        field_of(v.data->Record_0, "max"@) matches Some(value) && value.data == DataView::Number(max),
    ensures
        Range::decoded(v) == Ok::<Range, DecodeErrorView>(Range { min, max }),
{
}

/// A record that lacks `min`, or has the number `min` and lacks `max`, is
/// refused for the field that it lacks.
pub proof fn record_without_field_is_refused(v: ValueView)
    requires
        v.data is Record,
    ensures
        field_of(v.data->Record_0, "min"@) is None ==> Range::decoded(v) == Err::<Range, DecodeErrorView>(
            DecodeErrorView::CantFindColumn { col_name: "min"@, src_span: v.span },
        ),
        field_of(v.data->Record_0, "min"@) matches Some(value) && value.data is Number && field_of(
            v.data->Record_0,
            "max"@,
        ) is None ==> Range::decoded(v) == Err::<Range, DecodeErrorView>(
            DecodeErrorView::CantFindColumn { col_name: "max"@, src_span: v.span },
        ),
{
}

/// A record of exactly the fields `min` and `max`, in this order, that hold
/// numbers: the plainest record that a range is written as.
pub open spec fn plain_record(min: ValueView, max: ValueView) -> DataView {
    DataView::Record(seq![("min"@, min), ("max"@, max)])
}

/// The plainest record decodes to the range of its two numbers.
pub proof fn plain_record_decodes(v: ValueView, min: ValueView, max: ValueView)
    requires
        v.data == plain_record(min, max),
        min.data is Number,
        max.data is Number,
    ensures
        Range::decoded(v) == Ok::<Range, DecodeErrorView>(
            Range { min: min.data->Number_0, max: max.data->Number_0 },
        ),
{
    let fields = v.data->Record_0;
    reveal_strlit("min");
    reveal_strlit("max");
    assert("min"@ != "max"@) by {
        assert("min"@[1] == 'i');
        assert("max"@[1] == 'a');
    }
    assert(fields.last() == ("max"@, max));
    assert(fields.drop_last() =~= seq![("min"@, min)]);
    assert(fields.drop_last().last() == ("min"@, min));
    assert(field_of(fields, "max"@) == Some(max));
    assert(field_of(fields.drop_last(), "min"@) == Some(min));
    assert(field_of(fields, "min"@) == Some(min));
}

} // verus!
