use super::tuple_desc::{Column, TupleDesc};
use crate::common::error::DbError;
use crate::common::field::{Field, FieldValue};
use std::slice::Iter;
use vstd::prelude::*;
use vstd::std_specs::slice::into_iter_elts;

verus! {

/// What a row is: the columns of its schema, and its values in order.
pub struct TupleValue {
    pub desc: Seq<Column>,
    pub fields: Seq<FieldValue>,
}

/// The texts of the values in order, a tab between them.
pub open spec fn shown_fields(fields: Seq<FieldValue>) -> Seq<char>
    decreases fields.len(),
{
    if fields.len() == 0 {
        Seq::empty()
    } else if fields.len() == 1 {
        fields[0].shown()
    } else {
        shown_fields(fields.drop_last()) + seq!['\t'] + fields.last().shown()
    }
}

impl TupleValue {
    /// The row has one value for each column of its schema, each of the
    /// type of its column.
    pub open spec fn conforms(self) -> bool {
        &&& self.fields.len() == self.desc.len()
        &&& forall|i: int| 0 <= i < self.fields.len() ==> (#[trigger] self.fields[i]).ty() == self.desc[i].ty
    }

    /// The row after a write of `f` to place `i`: the value there is
    /// replaced, or the row grows by one where `i` is its length.
    pub open spec fn with_field(self, i: int, f: FieldValue) -> TupleValue
        recommends
            0 <= i <= self.fields.len(),
    {
        TupleValue {
            desc: self.desc,
            fields: if i == self.fields.len() {
                self.fields.push(f)
            } else {
                self.fields.update(i, f)
            },
        }
    }
}

/// After a write to a place of a row or to its end, that place holds the
/// value written, the row has grown by one exactly where the write was to
/// its end, and every other place is as it was.
pub proof fn lemma_write_then_read(t: TupleValue, i: int, f: FieldValue)
    requires
        0 <= i <= t.fields.len(),
    ensures
        t.with_field(i, f).fields[i] == f,
        t.with_field(i, f).fields.len() == if i == t.fields.len() {
            t.fields.len() + 1
        } else {
            t.fields.len()
        },
        forall|j: int| 0 <= j < t.fields.len() && j != i ==> t.with_field(i, f).fields[j] == t.fields[j],
        t.with_field(i, f).desc == t.desc,
{
}

/// One row: its schema, and its values in order.
#[derive(Debug)]
pub struct Tuple {
    td: TupleDesc,
    fields: Vec<Field>,
}

impl View for Tuple {
    type V = TupleValue;

    closed spec fn view(&self) -> TupleValue {
        TupleValue { desc: self.td@, fields: self.fields@.map_values(|f: Field| f@) }
    }
}

impl Tuple {
    /// A row of the schema `td` that has no values yet.
    pub fn new(td: TupleDesc) -> (r: Self)
        ensures
            r@.desc == td@,
            r@.fields == Seq::<FieldValue>::empty(),
    {
        let r = Self { td, fields: Vec::new() };
        assert(r@.fields =~= Seq::<FieldValue>::empty());
        r
    }

    pub fn get_tuple_desc(&self) -> (td: &TupleDesc)
        ensures
            td@ == self@.desc,
    {
        &self.td
    }

    /// Gives the row another schema. The values stay as they are.
    pub fn set_tuple_desc(&mut self, td: TupleDesc)
        ensures
            final(self)@.desc == td@,
            final(self)@.fields == old(self)@.fields,
    {
        self.td = td
    }

    /// Writes `field` to place `i`: replaces the value there, or appends
    /// it where `i` is the number of values. A place beyond that is
    /// refused, and the row stays as it was.
    pub fn set_field(&mut self, i: usize, field: Field) -> (r: Result<(), DbError>)
        ensures
            r is Ok <==> i <= old(self)@.fields.len(),
            r is Ok ==> final(self)@ == old(self)@.with_field(i as int, field@),
            r is Err ==> r->Err_0 == DbError::IndexError && final(self)@ == old(self)@,
    {
        if i > self.fields.len() {
            return Err(DbError::IndexError);
        } else if i == self.fields.len() {
            self.fields.push(field);
        } else {
            self.fields.set(i, field);
        }
        assert(self@.fields =~= old(self)@.with_field(i as int, field@).fields);
        Ok(())
    }

    /// The value at place `i`, where there is one.
    pub fn get_field(&self, i: usize) -> (r: Option<&Field>)
        ensures
            r is Some <==> i < self@.fields.len(),
            r is Some ==> r->Some_0@ == self@.fields[i as int],
    {
        if i < self.fields.len() {
            Some(&self.fields[i])
        } else {
            None
        }
    }

    /// The number of values in the row.
    pub fn num_fields(&self) -> (n: usize)
        ensures
            n == self@.fields.len(),
    {
        self.fields.len()
    }

    /// Tests whether the row has one value for each column of its
    /// schema, each of the type of its column.
    pub fn conforms(&self) -> (r: bool)
        ensures
            r == self@.conforms(),
    {
        if self.fields.len() != self.td.num_fields() {
            return false;
        }
        let mut i: usize = 0;
        while i < self.fields.len()
            invariant
                i <= self.fields.len() == self@.desc.len(),
                forall|j: int| 0 <= j < i ==> (#[trigger] self@.fields[j]).ty() == self@.desc[j].ty,
            decreases self.fields.len() - i,
        {
            match self.td.get_field_type(i) {
                Some(ty) => {
                    if self.fields[i].get_type() != ty {
                        assert(self@.fields[i as int].ty() != self@.desc[i as int].ty);
                        return false;
                    }
                },
                None => {
                    return false;
                },
            }
            i += 1;
        }
        true
    }

    /// The row as it is shown: its values in order, a tab between them.
    pub fn to_string(&self) -> (s: String)
        ensures
            s@ == shown_fields(self@.fields),
    {
        let mut s = String::new();
        let mut i: usize = 0;
        while i < self.fields.len()
            invariant
                i <= self.fields.len(),
                s@ == shown_fields(self@.fields.take(i as int)),
            decreases self.fields.len() - i,
        {
            if i > 0 {
                s.append("\t");
            }
            s.append(self.fields[i].to_string().as_str());
            proof {
                reveal_strlit("\t");
                let shown = self@.fields.take(i + 1);
                assert("\t"@ =~= seq!['\t']);
                assert(shown.drop_last() =~= self@.fields.take(i as int));
                assert(shown.last() == self.fields@[i as int]@);
                assert(s@ =~= shown_fields(shown));
            }
            i += 1;
        }
        assert(self@.fields.take(i as int) =~= self@.fields);
        s
    }

    /// The values of this row, one after the other.
    pub fn get_fields(&self) -> (it: Iter<'_, Field>)
        ensures
            into_iter_elts(it).map_values(|f: Field| f@) == self@.fields,
    {
        self.fields.iter()
    }
}

} // verus!
