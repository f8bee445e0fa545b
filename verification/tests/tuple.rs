use simpledb::common::error::DbError;
use simpledb::common::field::Field;
use simpledb::common::int_field::IntField;
use simpledb::common::string_field::StringField;
use simpledb::common::ty::Type;
use simpledb::downcast::Downcast;
use simpledb::table::tuple::Tuple;
use simpledb::table::tuple_desc::TupleDesc;

fn ints(len: usize) -> Vec<Type> {
    let mut types = Vec::with_capacity(len);
    for _ in 0..len {
        types.push(Type::Int);
    }
    types
}

#[test]
fn test_modify_fields() {
    let td = TupleDesc::default_new(ints(2));
    let mut tup = Tuple::new(td);
    tup.set_field(0, Field::Int(IntField::new(-1))).unwrap();
    tup.set_field(1, Field::Int(IntField::new(0))).unwrap();

    assert_eq!(
        IntField::new(-1),
        *tup.get_field(0).unwrap().as_int_field().unwrap()
    );
    assert_eq!(
        IntField::new(0),
        *tup.get_field(1).unwrap().as_int_field().unwrap()
    );

    tup.set_field(0, Field::Int(IntField::new(1))).unwrap();
    tup.set_field(1, Field::Int(IntField::new(37))).unwrap();

    assert_eq!(
        IntField::new(1),
        *tup.get_field(0).unwrap().as_int_field().unwrap()
    );
    assert_eq!(
        IntField::new(37),
        *tup.get_field(1).unwrap().as_int_field().unwrap()
    );
}

#[test]
fn test_get_tuple_desc() {
    let td = TupleDesc::default_new(ints(5));
    let tup = Tuple::new(td);
    assert_eq!(TupleDesc::default_new(ints(5)), *tup.get_tuple_desc());
}

#[test]
fn write_beyond_the_end_is_refused() {
    let mut tup = Tuple::new(TupleDesc::default_new(ints(3)));
    assert_eq!(
        tup.set_field(1, Field::Int(IntField::new(7))),
        Err(DbError::IndexError)
    );
    assert_eq!(tup.num_fields(), 0);
    assert!(tup.get_field(0).is_none());
    assert_eq!(tup.set_field(0, Field::Int(IntField::new(7))), Ok(()));
    assert_eq!(tup.num_fields(), 1);
    assert_eq!(
        tup.set_field(2, Field::Int(IntField::new(8))),
        Err(DbError::IndexError)
    );
    assert_eq!(tup.num_fields(), 1);
    assert_eq!(tup.get_field(0).unwrap().to_string(), "7");
}

#[test]
fn write_at_the_end_extends_by_one() {
    let mut tup = Tuple::new(TupleDesc::default_new(vec![Type::Int, Type::Str]));
    tup.set_field(0, Field::Int(IntField::new(5))).unwrap();
    assert_eq!(tup.num_fields(), 1);
    tup.set_field(1, Field::Str(StringField::new("five".to_string(), 128)))
        .unwrap();
    assert_eq!(tup.num_fields(), 2);
    assert!(tup
        .get_field(1)
        .unwrap()
        .equals(&Field::Str(StringField::new("five".to_string(), 128))));
    assert!(tup.get_field(2).is_none());
    tup.set_field(0, Field::Int(IntField::new(6))).unwrap();
    assert_eq!(tup.num_fields(), 2);
    assert!(tup
        .get_field(0)
        .unwrap()
        .equals(&Field::Int(IntField::new(6))));
    assert_eq!(tup.get_field(1).unwrap().to_string(), "five");
}

#[test]
fn row_is_walked_in_order_and_again() {
    let mut tup = Tuple::new(TupleDesc::default_new(ints(3)));
    for i in 0..3 {
        tup.set_field(i, Field::Int(IntField::new(10 * i as i32)))
            .unwrap();
    }
    let seen: Vec<String> = tup.get_fields().map(|f| f.to_string()).collect();
    assert_eq!(seen, vec!["0", "10", "20"]);
    assert_eq!(tup.get_fields().count(), 3);
    assert_eq!(tup.to_string(), "0\t10\t20");
}

#[test]
fn conformance_to_the_schema() {
    let mut tup = Tuple::new(TupleDesc::default_new(vec![Type::Int, Type::Str]));
    assert!(!tup.conforms());
    tup.set_field(0, Field::Int(IntField::new(1))).unwrap();
    assert!(!tup.conforms());
    tup.set_field(1, Field::Int(IntField::new(2))).unwrap();
    assert!(!tup.conforms());
    tup.set_field(1, Field::Str(StringField::new("two".to_string(), 128)))
        .unwrap();
    assert!(tup.conforms());
    tup.set_tuple_desc(TupleDesc::default_new(vec![Type::Int]));
    assert_eq!(tup.num_fields(), 2);
    assert!(!tup.conforms());
    assert_eq!(*tup.get_tuple_desc(), TupleDesc::default_new(vec![Type::Int]));
    assert_eq!(Tuple::new(TupleDesc::default_new(vec![])).to_string(), "");
}

#[test]
fn the_wrong_variant_is_not_recovered() {
    let n = Field::Int(IntField::new(3));
    let s = Field::Str(StringField::new("three".to_string(), 8));
    assert_eq!(n.as_int_field(), Some(&IntField::new(3)));
    assert!(n.as_string_field().is_none());
    assert!(s.as_int_field().is_none());
    assert_eq!(s.as_string_field().unwrap().get_value(), "three");
    assert_eq!(IntField::new(4).as_int_field(), Some(&IntField::new(4)));
    assert!(IntField::new(4).as_string_field().is_none());
    let t = StringField::new("t".to_string(), 1);
    assert!(t.as_int_field().is_none());
    assert_eq!(t.as_string_field().unwrap().get_value(), "t");
}
