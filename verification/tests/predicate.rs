use simpledb::common::error::DbError;
use simpledb::common::field::Field;
use simpledb::common::int_field::IntField;
use simpledb::common::predicate::{Op, Predicate};
use simpledb::common::string_field::StringField;
use simpledb::common::ty::Type;
use simpledb::table::tuple::Tuple;
use simpledb::table::tuple_desc::TupleDesc;

fn num(v: i32) -> Field {
    Field::Int(IntField::new(v))
}

fn text(s: &str) -> Field {
    Field::Str(StringField::new(s.to_string(), 128))
}

fn row_of_five() -> Tuple {
    let mut t = Tuple::new(TupleDesc::default_new(vec![Type::Int]));
    t.set_field(0, num(5)).unwrap();
    t
}

fn row_of_two() -> Tuple {
    let mut t = Tuple::new(TupleDesc::default_new(vec![Type::Int, Type::Str]));
    t.set_field(0, num(5)).unwrap();
    t.set_field(1, text("hello")).unwrap();
    t
}

#[test]
fn filter_compares_the_column_with_the_operand() {
    assert_eq!(
        Predicate::new(0, Op::GreaterThan, num(3)).filter(row_of_five()),
        Ok(true)
    );
    assert_eq!(
        Predicate::new(0, Op::Equals, num(5)).filter(row_of_five()),
        Ok(true)
    );
    assert_eq!(
        Predicate::new(0, Op::NotEquals, num(5)).filter(row_of_five()),
        Ok(false)
    );
    assert_eq!(
        Predicate::new(0, Op::LessThan, num(3)).filter(row_of_five()),
        Ok(false)
    );
    assert_eq!(
        Predicate::new(1, Op::Like, text("ell")).filter(row_of_two()),
        Ok(true)
    );
    assert_eq!(
        Predicate::new(1, Op::Like, text("xyz")).filter(row_of_two()),
        Ok(false)
    );
    assert_eq!(
        Predicate::new(1, Op::LessThan, text("help")).filter(row_of_two()),
        Ok(true)
    );
}

#[test]
fn filter_refuses_a_missing_column_or_another_variant() {
    assert_eq!(
        Predicate::new(1, Op::Equals, num(5)).filter(row_of_five()),
        Err(DbError::TypeMismatch)
    );
    assert_eq!(
        Predicate::new(-1, Op::Equals, num(5)).filter(row_of_five()),
        Err(DbError::TypeMismatch)
    );
    assert_eq!(
        Predicate::new(0, Op::Equals, text("5")).filter(row_of_five()),
        Err(DbError::TypeMismatch)
    );
    assert_eq!(
        Predicate::new(1, Op::Equals, num(5)).filter(row_of_two()),
        Err(DbError::TypeMismatch)
    );
    assert_eq!(
        Predicate::new(0, Op::Equals, num(5))
            .filter(Tuple::new(TupleDesc::default_new(vec![Type::Int]))),
        Err(DbError::TypeMismatch)
    );
}

#[test]
fn predicate_gives_back_its_parts() {
    let p = Predicate::new(2, Op::LessThanOrEq, num(9));
    assert_eq!(p.get_field(), 2);
    assert_eq!(p.get_op(), Some(Op::LessThanOrEq));
    assert!(p.get_operand().unwrap().equals(&num(9)));
    assert_eq!(p.to_string(), "f = 2 op = <= operand = 9");
    assert_eq!(
        Predicate::new(-4, Op::Like, text("a b")).to_string(),
        "f = -4 op = LIKE operand = a b"
    );
}

#[test]
fn op_codes() {
    let ops = [
        Op::Equals,
        Op::GreaterThan,
        Op::LessThan,
        Op::LessThanOrEq,
        Op::GreaterThanOrEq,
        Op::Like,
        Op::NotEquals,
    ];
    for (code, op) in ops.iter().enumerate() {
        assert_eq!(Op::get_op(code as i32), Some(*op));
        assert_eq!(op.get_code(), code as i32);
    }
    assert_eq!(Op::get_op(-1), None);
    assert_eq!(Op::get_op(7), None);
    assert_eq!(Op::get_op(i32::MAX), None);
    assert_eq!(Op::get_op(i32::MIN), None);
}

#[test]
fn op_symbols() {
    assert_eq!(Op::Equals.to_string(), "=");
    assert_eq!(Op::GreaterThan.to_string(), ">");
    assert_eq!(Op::LessThan.to_string(), "<");
    assert_eq!(Op::LessThanOrEq.to_string(), "<=");
    assert_eq!(Op::GreaterThanOrEq.to_string(), ">=");
    assert_eq!(Op::Like.to_string(), "LIKE");
    assert_eq!(Op::NotEquals.to_string(), "<>");
}
