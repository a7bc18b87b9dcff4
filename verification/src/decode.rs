//! The decoders that others are built from: a number, a list of two numbers,
//! and a number under a name in a record.

use crate::double::Double;
use crate::error::{plainly, DecodeError, DecodeErrorView};
use crate::host::{float_type, list_type, type_to_string};
use crate::value::{Data, DataView, Value, ValueView};
use vstd::prelude::*;

verus! {

impl ValueView {
    /// The error for this value where another type was wanted, with no hint.
    pub open spec fn mismatch(self, to_type: Seq<char>) -> DecodeErrorView {
        DecodeErrorView::CantConvert {
            to_type,
            from_type: self.type_label,
            span: self.span,
            help: None,
        }
    }

    /// The value read as a number: the number that it holds, or else an error
    /// that names the float type as the one wanted.
    pub open spec fn number(self) -> Result<Double, DecodeErrorView> {
        match self.data {
            DataView::Number(number) => Ok(number),
            _ => Err(self.mismatch("float"@)),
        }
    }

    /// The value read as a pair of numbers: the two items of a list, where it
    /// is a list and every item is a number. An item that is no number gives
    /// its own error, the first such item before the others. A list of numbers
    /// that are not two gives an error with its length, which names a list of
    /// two floats as the type wanted.
    pub open spec fn number_pair(self) -> Result<(Double, Double), DecodeErrorView> {
        match self.data {
            DataView::List(items) => match numbers_of(items) {
                Err(error) => Err(error),
                Ok(numbers) => if numbers.len() == 2 {
                    Ok((numbers[0], numbers[1]))
                } else {
                    Err(
                        DecodeErrorView::WrongLength {
                            to_type: "list<float;2>"@,
                            from_type: self.type_label,
                            span: self.span,
                            wanted: 2,
                            found: items.len() as usize,
                        },
                    )
                },
            },
            _ => Err(self.mismatch("list<float>"@)),
        }
    }

    /// The field of a record read as a number. A record without the field
    /// gives an error with the name.
    pub open spec fn number_field(self, name: Seq<char>) -> Result<Double, DecodeErrorView> {
        match self.data {
            DataView::Record(fields) => match field_of(fields, name) {
                Some(value) => value.number(),
                None => Err(DecodeErrorView::CantFindColumn { col_name: name, src_span: self.span }),
            },
            _ => Err(self.mismatch("record"@)),
        }
    }
}

/// The items read as numbers, or else the error of the first item that is no
/// number.
pub open spec fn numbers_of(items: Seq<ValueView>) -> Result<Seq<Double>, DecodeErrorView>
    decreases items.len(),
{
    if items.len() == 0 {
        Ok(Seq::empty())
    } else {
        match numbers_of(items.drop_last()) {
            Err(error) => Err(error),
            Ok(front) => match items.last().number() {
                Err(error) => Err(error),
                Ok(number) => Ok(front.push(number)),
            },
        }
    }
}

/// The value under a name: that of the last field of the name, if there is one.
pub open spec fn field_of(fields: Seq<(Seq<char>, ValueView)>, name: Seq<char>) -> Option<ValueView>
    decreases fields.len(),
{
    if fields.len() == 0 {
        None
    } else if fields.last().0 == name {
        Some(fields.last().1)
    } else {
        field_of(fields.drop_last(), name)
    }
}

/// The items are read as numbers exactly when each is one, and then one by
/// one. Otherwise the error is that of the first item that is no number.
pub proof fn numbers_of_reads_each(items: Seq<ValueView>)
    ensures
        numbers_of(items) matches Ok(numbers) ==> numbers.len() == items.len() && forall|i: int|
            0 <= i < items.len() ==> #[trigger] items[i].number() == Ok::<Double, DecodeErrorView>(
                numbers[i],
            ),
        numbers_of(items) matches Err(error) ==> exists|i: int|
            0 <= i < items.len() && #[trigger] items[i].number() == Err::<Double, DecodeErrorView>(
                error,
            ) && forall|j: int| 0 <= j < i ==> #[trigger] items[j].number() is Ok,
    decreases items.len(),
{
    if items.len() > 0 {
        let front = items.drop_last();
        numbers_of_reads_each(front);
        assert(forall|i: int| 0 <= i < front.len() ==> front[i] == items[i]);
        match numbers_of(front) {
            Err(error) => {
                let i = choose|i: int|
                    0 <= i < front.len() && #[trigger] front[i].number() == Err::<
                        Double,
                        DecodeErrorView,
                    >(error) && forall|j: int| 0 <= j < i ==> #[trigger] front[j].number() is Ok;
                assert(items[i].number() == Err::<Double, DecodeErrorView>(error));
                assert forall|j: int| 0 <= j < i implies #[trigger] items[j].number() is Ok by {
                    assert(front[j].number() is Ok);
                }
            },
            Ok(numbers) => {
                match items.last().number() {
                    Err(error) => {
                        let i = items.len() - 1;
                        assert(items[i].number() == Err::<Double, DecodeErrorView>(error));
                        assert forall|j: int| 0 <= j < i implies #[trigger] items[j].number() is Ok by {
                            assert(front[j].number() is Ok);
                        }
                    },
                    Ok(number) => {
                        let all = numbers.push(number);
                        assert forall|i: int| 0 <= i < items.len() implies #[trigger] items[i].number()
                            == Ok::<Double, DecodeErrorView>(all[i]) by {
                            if i < front.len() {
                                assert(front[i].number() == Ok::<Double, DecodeErrorView>(numbers[i]));
                            }
                        }
                    },
                }
            },
        }
    }
}

impl Value {
    /// The error for this value where another type was wanted.
    pub fn cant_convert_to(&self, to_type: String) -> (error: DecodeError)
        ensures
            error@ == self@.mismatch(to_type@),
    {
        DecodeError::CantConvert {
            to_type,
            from_type: self.type_label.clone(),
            span: self.span,
            help: None,
        }
    }

    /// Reads the value as a number.
    pub fn as_number(&self) -> (r: Result<Double, DecodeError>)
        ensures
            plainly(r) == self@.number(),
    {
        match self.data {
            Data::Number(number) => Ok(number),
            _ => Err(self.cant_convert_to(type_to_string(&float_type()))),
        }
    }

    /// Reads the value as a list of two numbers.
    pub fn as_number_pair(&self) -> (r: Result<(Double, Double), DecodeError>)
        ensures
            plainly(r) == self@.number_pair(),
    {
        match &self.data {
            Data::List(items) => {
                let ghost plain_items = self@.data->List_0;
                let mut numbers: Vec<Double> = Vec::new();
                let mut i: usize = 0;
                assert(plain_items.take(0) =~= Seq::empty());
                while i < items.len()
                    invariant
                        i <= items.len(),
                        self@.data == DataView::List(plain_items),
                        plain_items.len() == items.len(),
                        forall|k: int| 0 <= k < items.len() ==> plain_items[k] == items[k]@,
                        numbers_of(plain_items.take(i as int)) == Ok::<Seq<Double>, DecodeErrorView>(
                            numbers@,
                        ),
                    decreases items.len() - i,
                {
                    assert(plain_items.take(i + 1).drop_last() =~= plain_items.take(i as int));
                    assert(plain_items.take(i + 1).last() == items[i as int]@);
                    match items[i].as_number() {
                        Ok(number) => {
                            numbers.push(number);
                        },
                        Err(error) => {
                            proof {
                                lemma_error_stays(plain_items, i + 1);
                            }
                            return Err(error);
                        },
                    }
                    i += 1;
                }
                assert(plain_items.take(i as int) =~= plain_items);
                if numbers.len() == 2 {
                    Ok((numbers[0], numbers[1]))
                } else {
                    let mut to_type: String = String::from_str("list<");
                    to_type.append(type_to_string(&float_type()).as_str());
                    to_type.append(";2>");
                    proof {
                        reveal_strlit("list<float;2>");
                        reveal_strlit("list<");
                        reveal_strlit("float");
                        reveal_strlit(";2>");
                        assert("list<"@ + "float"@ + ";2>"@ =~= "list<float;2>"@);
                    }
                    Err(
                        DecodeError::WrongLength {
                            to_type,
                            from_type: self.type_label.clone(),
                            span: self.span,
                            wanted: 2,
                            found: items.len(),
                        },
                    )
                }
            },
            _ => {
                proof {
                    reveal_strlit("list<float>");
                    reveal_strlit("list<");
                    reveal_strlit("float");
                    reveal_strlit(">");
                    assert("list<"@ + "float"@ + ">"@ =~= "list<float>"@);
                }
                Err(self.cant_convert_to(type_to_string(&list_type(float_type()))))
            },
        }
    }

    /// Reads the field of a record as a number.
    pub fn as_number_field(&self, name: &str) -> (r: Result<Double, DecodeError>)
        ensures
            plainly(r) == self@.number_field(name@),
    {
        let wanted: String = String::from_str(name);
        match &self.data {
            Data::Record(fields) => {
                let ghost plain_fields = self@.data->Record_0;
                let mut i: usize = fields.len();
                assert(plain_fields.take(i as int) =~= plain_fields);
                while i > 0
                    invariant
                        i <= fields.len(),
                        wanted@ == name@,
                        self@.data == DataView::Record(plain_fields),
                        plain_fields.len() == fields.len(),
                        forall|k: int|
                            0 <= k < fields.len() ==> plain_fields[k] == (fields[k].0@, fields[k].1@),
                        field_of(plain_fields, name@) == field_of(plain_fields.take(i as int), name@),
                    decreases i,
                {
                    assert(plain_fields.take(i as int).drop_last() =~= plain_fields.take(i - 1));
                    assert(plain_fields.take(i as int).last() == plain_fields[i - 1]);
                    i -= 1;
                    if fields[i].0 == wanted {
                        return fields[i].1.as_number();
                    }
                }
                Err(DecodeError::CantFindColumn { col_name: wanted, src_span: self.span })
            },
            _ => Err(self.cant_convert_to(String::from_str("record"))),
        }
    }
}

/// An error among the first items is the error of them all.
proof fn lemma_error_stays(items: Seq<ValueView>, n: int)
    requires
        0 <= n <= items.len(),
        numbers_of(items.take(n)) is Err,
    ensures
        numbers_of(items) == numbers_of(items.take(n)),
    decreases items.len() - n,
{
    if n < items.len() {
        assert(items.take(n + 1).drop_last() =~= items.take(n));
        lemma_error_stays(items, n + 1);
    } else {
        assert(items.take(n) =~= items);
    }
}

} // verus!
