use super::wire::{be_bytes, put_i32, signed, unsigned};
use std::collections::hash_map::DefaultHasher;
use std::hash::Hasher;
use vstd::prelude::*;
use vstd::std_specs::hash::DefaultHasherAdditionalSpecFns;

verus! {

/// The identity of one page of one table. The storage layer has one
/// implementation for each kind of page; this layer only reads them.
pub trait PageId {
    /// The table that the page belongs to.
    spec fn table_id(&self) -> u64;

    /// The number of the page within its table.
    spec fn page_number(&self) -> i32;

    /// The integers that stand for this page id in a log.
    spec fn ints(&self) -> Seq<i32>;

    /// The hash of this page id.
    spec fn digest(&self) -> u64;

    /// Whether the two name the same page.
    spec fn same_page(&self, other: &Self) -> bool;

    /// This page id as a run of integers, from which a page id of the
    /// same kind can be made again.
    fn serialize(&self) -> (v: Vec<i32>)
        ensures
            v@ == self.ints(),
    ;

    fn get_table_id(&self) -> (id: u64)
        ensures
            id == self.table_id(),
    ;

    fn hash_code(&self) -> (h: u64)
        ensures
            h == self.digest(),
    ;

    fn equals(&self, other: &Self) -> (r: bool) where Self: Sized
        ensures
            r == self.same_page(other),
    ;

    fn get_page_number(&self) -> (n: i32)
        ensures
            n == self.page_number(),
    ;
}

/// The integers that stand for a page of a heap file: the upper and the
/// lower half of the table's identifier, each as a signed number with the
/// same bits, and the page number.
pub open spec fn heap_page_ints(table_id: u64, page_number: i32) -> Seq<i32> {
    seq![
        signed(table_id as int / 0x1_0000_0000) as i32,
        signed(table_id as int % 0x1_0000_0000) as i32,
        page_number,
    ]
}

/// The table identifier that two halves, written as signed numbers, make.
pub open spec fn table_of_halves(upper: i32, lower: i32) -> int {
    unsigned(upper as int) * 0x1_0000_0000 + unsigned(lower as int)
}

/// The halves of a table identifier make that identifier again.
pub proof fn lemma_table_of_its_halves(table_id: u64, page_number: i32)
    ensures
        heap_page_ints(table_id, page_number).len() == 3,
        table_of_halves(
            heap_page_ints(table_id, page_number)[0],
            heap_page_ints(table_id, page_number)[1],
        ) == table_id,
        heap_page_ints(table_id, page_number)[2] == page_number,
{
}

/// Any two halves are the halves of the table identifier they make.
pub proof fn lemma_halves_of_their_table(upper: i32, lower: i32, page_number: i32)
    ensures
        0 <= table_of_halves(upper, lower) <= u64::MAX,
        heap_page_ints(table_of_halves(upper, lower) as u64, page_number) == seq![
            upper,
            lower,
            page_number,
        ],
{
    assert(heap_page_ints(table_of_halves(upper, lower) as u64, page_number) =~= seq![
        upper,
        lower,
        page_number,
    ]);
}

/// The identity of a page of a heap file: its table, and the number of
/// the page within the table.
#[derive(PartialEq, Eq, Clone, Copy, Debug, Structural)]
pub struct HeapPageId {
    pub table: u64,
    pub number: i32,
}

impl HeapPageId {
    pub fn new(table: u64, number: i32) -> (r: Self)
        ensures
            r.table == table,
            r.number == number,
    {
        Self { table, number }
    }

    /// The page id that the integers stand for, where they are three.
    pub fn from_ints(ints: &[i32]) -> (r: Option<Self>)
        ensures
            r is Some <==> ints@.len() == 3,
            r is Some ==> r->Some_0.ints() == ints@,
            r is Some ==> r->Some_0.table == table_of_halves(ints@[0], ints@[1]),
            r is Some ==> r->Some_0.number == ints@[2],
    {
        if ints.len() != 3 {
            return None;
        }
        let upper: u64 = if ints[0] < 0 {
            (ints[0] as i64 + 0x1_0000_0000) as u64
        } else {
            ints[0] as u64
        };
        let lower: u64 = if ints[1] < 0 {
            (ints[1] as i64 + 0x1_0000_0000) as u64
        } else {
            ints[1] as u64
        };
        proof {
            lemma_halves_of_their_table(ints@[0], ints@[1], ints@[2]);
            assert(ints@ =~= seq![ints@[0], ints@[1], ints@[2]]);
        }
        Some(Self { table: upper * 0x1_0000_0000 + lower, number: ints[2] })
    }
}

impl PageId for HeapPageId {
    open spec fn table_id(&self) -> u64 {
        self.table
    }

    open spec fn page_number(&self) -> i32 {
        self.number
    }

    open spec fn ints(&self) -> Seq<i32> {
        heap_page_ints(self.table, self.number)
    }

    open spec fn digest(&self) -> u64 {
        DefaultHasher::spec_finish(
            seq![be_bytes(self.ints()[0] as int) + be_bytes(self.ints()[1] as int) + be_bytes(self.ints()[2] as int)],
        )
    }

    open spec fn same_page(&self, other: &Self) -> bool {
        self.table == other.table && self.number == other.number
    }

    fn serialize(&self) -> (v: Vec<i32>) {
        let upper: u64 = self.table / 0x1_0000_0000;
        let lower: u64 = self.table % 0x1_0000_0000;
        let a: i32 = if upper >= 0x8000_0000 {
            (upper as i64 - 0x1_0000_0000) as i32
        } else {
            upper as i32
        };
        let b: i32 = if lower >= 0x8000_0000 {
            (lower as i64 - 0x1_0000_0000) as i32
        } else {
            lower as i32
        };
        let mut v: Vec<i32> = Vec::new();
        v.push(a);
        v.push(b);
        v.push(self.number);
        assert(v@ =~= self.ints());
        v
    }

    fn get_table_id(&self) -> (id: u64) {
        self.table
    }

    fn hash_code(&self) -> (h: u64) {
        let ints = self.serialize();
        let mut bytes: Vec<u8> = Vec::new();
        put_i32(&mut bytes, ints[0]);
        put_i32(&mut bytes, ints[1]);
        put_i32(&mut bytes, ints[2]);
        let mut s = DefaultHasher::new();
        s.write(bytes.as_slice());
        assert(s@ =~= seq![bytes@]);
        s.finish()
    }

    fn equals(&self, other: &Self) -> (r: bool) {
        self.table == other.table && self.number == other.number
    }

    fn get_page_number(&self) -> (n: i32) {
        self.number
    }
}

} // verus!
