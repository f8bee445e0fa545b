use crate::common::error::DbError;
use crate::common::ty::Type;
use std::slice::Iter;
use vstd::prelude::*;
use vstd::std_specs::cmp::PartialEqSpecImpl;
use vstd::std_specs::slice::into_iter_elts;

verus! {

/// What a column of a schema is: its name, which may be empty, and its
/// type.
pub struct Column {
    pub name: Seq<char>,
    pub ty: Type,
}

impl Column {
    /// The text under which a column is shown: its name, and its type in
    /// round brackets.
    pub open spec fn shown(self) -> Seq<char> {
        self.name + seq!['('] + self.ty.name() + seq![')']
    }
}

/// The number of bytes that a row of these columns takes when stored: the
/// sum of what the types of its columns take.
pub open spec fn size_of(cols: Seq<Column>) -> int
    decreases cols.len(),
{
    if cols.len() == 0 {
        0
    } else {
        size_of(cols.drop_last()) + cols.last().ty.byte_len()
    }
}

/// The text under which a schema is shown: its columns in order, a comma
/// and a blank between them.
pub open spec fn shown_columns(cols: Seq<Column>) -> Seq<char>
    decreases cols.len(),
{
    if cols.len() == 0 {
        Seq::empty()
    } else if cols.len() == 1 {
        cols[0].shown()
    } else {
        shown_columns(cols.drop_last()) + seq![',', ' '] + cols.last().shown()
    }
}

/// Some column has the name `name`.
pub open spec fn has_name(cols: Seq<Column>, name: Seq<char>) -> bool {
    exists|i: int| 0 <= i < cols.len() && #[trigger] cols[i].name == name
}

/// Column `i` is the first that has the name `name`.
pub open spec fn is_first_named(cols: Seq<Column>, name: Seq<char>, i: int) -> bool {
    &&& 0 <= i < cols.len()
    &&& cols[i].name == name
    &&& forall|j: int| 0 <= j < i ==> #[trigger] cols[j].name != name
}

/// The columns of types `types`, in order, with the names `names`.
pub open spec fn columns_of(types: Seq<Type>, names: Seq<Seq<char>>) -> Seq<Column>
    recommends
        types.len() == names.len(),
{
    Seq::new(types.len(), |i: int| Column { name: names[i], ty: types[i] })
}

/// The size of a schema is the sum of the sizes of its parts, and no
/// column has a negative size.
pub proof fn lemma_size_concat(a: Seq<Column>, b: Seq<Column>)
    ensures
        size_of(a + b) == size_of(a) + size_of(b),
        0 <= size_of(a),
        0 <= size_of(b),
    decreases a.len() + b.len(),
{
    if a.len() > 0 {
        lemma_size_concat(a.drop_last(), Seq::empty());
    }
    if b.len() == 0 {
        assert(a + b =~= a);
    } else {
        assert((a + b).drop_last() =~= a + b.drop_last());
        lemma_size_concat(a, b.drop_last());
    }
}

/// A schema of `n` columns takes at most 132 bytes a column.
pub proof fn lemma_size_bound(cols: Seq<Column>)
    ensures
        0 <= size_of(cols) <= 132 * cols.len(),
    decreases cols.len(),
{
    if cols.len() > 0 {
        lemma_size_bound(cols.drop_last());
    }
}

/// In a schema whose columns all have the empty name, no column has a
/// name that is not empty.
pub proof fn lemma_unnamed_has_no_name(cols: Seq<Column>, name: Seq<char>)
    requires
        forall|i: int| 0 <= i < cols.len() ==> (#[trigger] cols[i]).name.len() == 0,
        name.len() > 0,
    ensures
        !has_name(cols, name),
{
}

/// One column of a schema.
#[derive(Debug)]
pub struct TDItem {
    field_name: String,
    field_type: Type,
}

impl View for TDItem {
    type V = Column;

    closed spec fn view(&self) -> Column {
        Column { name: self.field_name@, ty: self.field_type }
    }
}

impl Clone for TDItem {
    fn clone(&self) -> (r: Self)
        ensures
            r@ == self@,
    {
        Self { field_name: self.field_name.clone(), field_type: self.field_type }
    }
}

impl PartialEq for TDItem {
    fn eq(&self, other: &Self) -> (r: bool) {
        self.field_type == other.field_type && self.field_name == other.field_name
    }
}

impl PartialEqSpecImpl for TDItem {
    open spec fn obeys_eq_spec() -> bool {
        true
    }

    open spec fn eq_spec(&self, other: &Self) -> bool {
        self@ == other@
    }
}

impl TDItem {
    pub fn new(t: Type, n: String) -> (r: Self)
        ensures
            r@ == (Column { name: n@, ty: t }),
    {
        Self { field_type: t, field_name: n }
    }

    /// The column as it is shown: its name, and its type in round
    /// brackets.
    pub fn to_string(&self) -> (s: String)
        ensures
            s@ == self@.shown(),
    {
        proof {
            reveal_strlit("(");
            reveal_strlit(")");
        }
        let mut s = self.field_name.clone();
        s.append("(");
        s.append(self.field_type.to_string().as_str());
        s.append(")");
        assert(s@ =~= self@.shown());
        s
    }
}

/// A schema: the columns of a row, in order.
#[derive(Debug)]
pub struct TupleDesc {
    items: Vec<TDItem>,
}

impl View for TupleDesc {
    type V = Seq<Column>;

    closed spec fn view(&self) -> Seq<Column> {
        self.items@.map_values(|item: TDItem| item@)
    }
}

impl PartialEq for TupleDesc {
    fn eq(&self, other: &Self) -> (r: bool) {
        if self.items.len() != other.items.len() {
            return false;
        }
        let mut i: usize = 0;
        while i < self.items.len()
            invariant
                i <= self.items.len() == other.items.len(),
                self@.take(i as int) == other@.take(i as int),
            decreases self.items.len() - i,
        {
            if !(self.items[i] == other.items[i]) {
                assert(self@[i as int] != other@[i as int]);
                return false;
            }
            assert(self@.take(i + 1) =~= self@.take(i as int).push(self@[i as int]));
            assert(other@.take(i + 1) =~= other@.take(i as int).push(other@[i as int]));
            i += 1;
        }
        assert(self@ =~= self@.take(i as int));
        assert(other@ =~= other@.take(i as int));
        true
    }
}

impl PartialEqSpecImpl for TupleDesc {
    open spec fn obeys_eq_spec() -> bool {
        true
    }

    open spec fn eq_spec(&self, other: &Self) -> bool {
        self@ == other@
    }
}

impl TupleDesc {
    /// The schema whose columns have the types `type_ar` and the names
    /// `field_ar`, in order. The two must be of one length.
    pub fn new(type_ar: Vec<Type>, field_ar: Vec<&str>) -> (r: Result<Self, DbError>)
        ensures
            r is Ok <==> type_ar@.len() == field_ar@.len(),
            r is Ok ==> r->Ok_0@ == columns_of(type_ar@, field_ar@.map_values(|s: &str| s@)),
            r is Err ==> r->Err_0 == DbError::ConstructionError,
    {
        if type_ar.len() != field_ar.len() {
            return Err(DbError::ConstructionError);
        }
        let ghost names = field_ar@.map_values(|s: &str| s@);
        let mut items: Vec<TDItem> = Vec::new();
        let mut i: usize = 0;
        while i < type_ar.len()
            invariant
                i <= type_ar.len() == field_ar.len(),
                names == field_ar@.map_values(|s: &str| s@),
                items@.len() == i,
                forall|j: int| 0 <= j < i ==> (#[trigger] items@[j])@ == columns_of(type_ar@, names)[j],
            decreases type_ar.len() - i,
        {
            items.push(TDItem::new(type_ar[i], String::from_str(field_ar[i])));
            i += 1;
        }
        assert(items@.map_values(|item: TDItem| item@) =~= columns_of(type_ar@, names));
        Ok(Self { items })
    }

    /// The schema whose columns have the types `type_ar`, in order, and
    /// all the empty name.
    pub fn default_new(type_ar: Vec<Type>) -> (r: Self)
        ensures
            r@ == columns_of(type_ar@, Seq::new(type_ar@.len(), |i: int| Seq::<char>::empty())),
    {
        let ghost names = Seq::new(type_ar@.len(), |i: int| Seq::<char>::empty());
        let mut items: Vec<TDItem> = Vec::new();
        let mut i: usize = 0;
        while i < type_ar.len()
            invariant
                i <= type_ar.len(),
                names == Seq::new(type_ar@.len(), |i: int| Seq::<char>::empty()),
                items@.len() == i,
                forall|j: int| 0 <= j < i ==> (#[trigger] items@[j])@ == columns_of(type_ar@, names)[j],
            decreases type_ar.len() - i,
        {
            items.push(TDItem::new(type_ar[i], String::new()));
            i += 1;
        }
        assert(items@.map_values(|item: TDItem| item@) =~= columns_of(type_ar@, names));
        Self { items }
    }

    /// The columns of this schema, one after the other.
    pub fn iterator(&self) -> (it: Iter<'_, TDItem>)
        ensures
            into_iter_elts(it).map_values(|item: TDItem| item@) == self@,
    {
        self.items.iter()
    }

    /// The number of columns.
    pub fn num_fields(&self) -> (n: usize)
        ensures
            n == self@.len(),
    {
        self.items.len()
    }

    /// The name of column `i`, which may be empty, where there is such a
    /// column.
    pub fn get_field_name(&self, i: usize) -> (r: Option<&str>)
        ensures
            r is Some <==> i < self@.len(),
            r is Some ==> r->Some_0@ == self@[i as int].name,
    {
        if i < self.items.len() {
            Some(self.items[i].field_name.as_str())
        } else {
            None
        }
    }

    /// The type of column `i`, where there is such a column.
    pub fn get_field_type(&self, i: usize) -> (r: Option<Type>)
        ensures
            r is Some <==> i < self@.len(),
            r is Some ==> r->Some_0 == self@[i as int].ty,
    {
        if i < self.items.len() {
            Some(self.items[i].field_type)
        } else {
            None
        }
    }

    /// The index of the first column whose name is exactly `target`, where
    /// there is one.
    pub fn field_name_to_index(&self, target: String) -> (r: Option<usize>)
        ensures
            r is Some <==> has_name(self@, target@),
            r is Some ==> is_first_named(self@, target@, r->Some_0 as int),
    {
        let mut i: usize = 0;
        while i < self.items.len()
            invariant
                i <= self.items.len(),
                forall|j: int| 0 <= j < i ==> #[trigger] self@[j].name != target@,
            decreases self.items.len() - i,
        {
            if target == self.items[i].field_name {
                assert(self@[i as int].name == target@);
                return Some(i);
            }
            i += 1;
        }
        None
    }

    /// The number of bytes that a row of this schema takes when stored.
    pub fn get_size(&self) -> (n: i32)
        requires
            size_of(self@) <= i32::MAX,
        ensures
            n == size_of(self@),
    {
        let mut n: i32 = 0;
        let mut i: usize = 0;
        while i < self.items.len()
            invariant
                i <= self.items.len(),
                n == size_of(self@.take(i as int)),
                size_of(self@) <= i32::MAX,
            decreases self.items.len() - i,
        {
            proof {
                assert(self@.take(i + 1).drop_last() =~= self@.take(i as int));
                assert(self@ =~= self@.take(i + 1) + self@.skip(i + 1));
                lemma_size_concat(self@.take(i + 1), self@.skip(i + 1));
            }
            n = n + self.items[i].field_type.len();
            i += 1;
        }
        assert(self@.take(i as int) =~= self@);
        n
    }

    /// The schema that has the columns of `td1` followed by those of
    /// `td2`: names, types and order are kept, and equal names stay.
    pub fn merge(td1: TupleDesc, td2: TupleDesc) -> (r: Self)
        ensures
            r@ == td1@ + td2@,
            r@.len() == td1@.len() + td2@.len(),
            size_of(r@) == size_of(td1@) + size_of(td2@),
    {
        let mut items = td1.items;
        let mut rest = td2.items;
        items.append(&mut rest);
        proof {
            assert(items@.map_values(|item: TDItem| item@) =~= td1@ + td2@);
            lemma_size_concat(td1@, td2@);
        }
        Self { items }
    }

    /// The schema as it is shown: its columns in order, each as its name
    /// and its type in round brackets, a comma and a blank between them.
    pub fn to_string(&self) -> (s: String)
        ensures
            s@ == shown_columns(self@),
    {
        let mut s = String::new();
        let mut i: usize = 0;
        while i < self.items.len()
            invariant
                i <= self.items.len(),
                s@ == shown_columns(self@.take(i as int)),
            decreases self.items.len() - i,
        {
            if i > 0 {
                s.append(", ");
            }
            s.append(self.items[i].to_string().as_str());
            proof {
                reveal_strlit(", ");
                let cols = self@.take(i + 1);
                assert(", "@ =~= seq![',', ' ']);
                assert(cols.drop_last() =~= self@.take(i as int));
                assert(cols.last() == self.items@[i as int]@);
                assert(s@ =~= shown_columns(cols));
            }
            i += 1;
        }
        assert(self@.take(i as int) =~= self@);
        s
    }
}

} // verus!
