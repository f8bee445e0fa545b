use simpledb::common::error::DbError;
use simpledb::common::ty::Type;
use simpledb::table::tuple_desc::{TDItem, TupleDesc};

fn get_type(len: usize) -> Vec<Type> {
    let mut types = Vec::with_capacity(len);
    for _ in 0..len {
        types.push(Type::Int);
    }
    types
}

fn get_string(len: usize, val: &str) -> Vec<String> {
    let mut strings = Vec::with_capacity(len);
    let combine = |i: usize| val.to_string() + i.to_string().as_str();
    for i in 0..len {
        strings.push(combine(i));
    }
    strings
}

fn combined_strings(td1: &TupleDesc, td2: &TupleDesc, td3: TupleDesc) -> bool {
    for i in 0..td1.num_fields() {
        if td1.get_field_name(i) != td3.get_field_name(i) {
            return false;
        }
    }

    for i in td1.num_fields()..td1.num_fields() + td2.num_fields() {
        if td2.get_field_name(i - td1.num_fields()) != td3.get_field_name(i) {
            return false;
        }
    }
    true
}

#[test]
fn test_to_string() {
    let item = TDItem::new(Type::Int, "Age".to_string());
    assert_eq!(item.to_string(), "Age(Int)".to_string());
}

#[test]
fn test_iterator() {
    let tuple_desc = TupleDesc::new(
        vec![Type::Str, Type::Str, Type::Int],
        vec!["School", "Student", "Age"],
    )
    .unwrap();
    let mut i = tuple_desc.iterator();
    assert_eq!(
        i.next(),
        Some(&TDItem::new(Type::Str, "School".to_string()))
    );
    assert_eq!(
        i.next(),
        Some(&TDItem::new(Type::Str, "Student".to_string()))
    );
    assert_eq!(i.next(), Some(&TDItem::new(Type::Int, "Age".to_string())));
    assert_eq!(i.next(), None);
}

#[test]
fn test_merge() {
    let str1 = get_string(1, "td1");
    let str2 = get_string(2, "td2");
    let td1 = TupleDesc::new(get_type(1), str1.iter().map(|n| n.as_str()).collect()).unwrap();
    let td2 = TupleDesc::new(get_type(2), str2.iter().map(|n| n.as_str()).collect()).unwrap();
    let td3 = TupleDesc::merge(td1, td2);
    assert_eq!(3, td3.num_fields());
    assert_eq!(3 * Type::Int.len(), td3.get_size());
    for i in 0..3 {
        assert_eq!(Some(Type::Int), td3.get_field_type(i));
    }

    let td1 = TupleDesc::new(get_type(1), str1.iter().map(|n| n.as_str()).collect()).unwrap();
    let td2 = TupleDesc::new(get_type(2), str2.iter().map(|n| n.as_str()).collect()).unwrap();
    assert_eq!(combined_strings(&td1, &td2, td3), true);

    let td3 = TupleDesc::merge(td2, td1);
    assert_eq!(3, td3.num_fields());
    assert_eq!(3 * Type::Int.len(), td3.get_size());
    for i in 0..3 {
        assert_eq!(Some(Type::Int), td3.get_field_type(i));
    }

    let td1 = TupleDesc::new(get_type(1), str1.iter().map(|n| n.as_str()).collect()).unwrap();
    let td2 = TupleDesc::new(get_type(2), str2.iter().map(|n| n.as_str()).collect()).unwrap();
    let td2_clone =
        TupleDesc::new(get_type(2), str2.iter().map(|n| n.as_str()).collect()).unwrap();
    assert_eq!(combined_strings(&td2, &td1, td3), true);

    let td3 = TupleDesc::merge(td2, td2_clone);
    assert_eq!(4, td3.num_fields());
    assert_eq!(4 * Type::Int.len(), td3.get_size());
    for i in 0..4 {
        assert_eq!(Some(Type::Int), td3.get_field_type(i));
    }
    let td2 = TupleDesc::new(get_type(2), str2.iter().map(|n| n.as_str()).collect()).unwrap();
    assert_eq!(combined_strings(&td2, &td2, td3), true);
}

#[test]
fn test_get_type() {
    let lengths = [1, 2, 1000];
    for len in lengths.iter() {
        let td = TupleDesc::default_new(get_type(*len as usize));
        for i in 0..*len {
            assert_eq!(Some(Type::Int), td.get_field_type(i));
        }
    }
}

#[test]
fn test_name_to_id() {
    let lengths = [1, 2, 1000];
    let prefix = "test";
    for len in lengths.iter() {
        let str = get_string(*len, prefix);
        let td = TupleDesc::new(get_type(*len), str.iter().map(|n| n.as_str()).collect()).unwrap();
        for i in 0..*len {
            assert_eq!(Some(i), td.field_name_to_index(format!("{}{}", prefix, i)));
        }

        assert_eq!(
            None,
            td.field_name_to_index("foo".to_string()),
            "foo is not a valid field name"
        );

        let td = TupleDesc::default_new(get_type(*len));
        assert_eq!(
            None,
            td.field_name_to_index(prefix.to_string()),
            "no fields are named, so you can't find it"
        );
    }
}

#[test]
fn test_get_size() {
    let lengths = [1, 2, 1000];
    for len in lengths.iter() {
        let td = TupleDesc::default_new(get_type(*len));
        assert_eq!(*len as i32 * Type::Int.len(), td.get_size());
    }
}

#[test]
fn test_get_num_fields() {
    let lengths = [1, 2, 1000];
    for len in lengths.iter() {
        let td = TupleDesc::default_new(get_type(*len));
        assert_eq!(*len, td.num_fields());
    }
}

#[test]
fn test_equals() {
    let single_int = TupleDesc::default_new(vec![Type::Int]);
    let single_int2 = TupleDesc::default_new(vec![Type::Int]);
    let int_string = TupleDesc::default_new(vec![Type::Int, Type::Str]);

    assert_eq!(single_int, single_int);
    assert_eq!(single_int, single_int2);
    assert_eq!(single_int2, single_int);
    assert_eq!(int_string, int_string);

    assert_ne!(single_int, int_string);
    assert_ne!(single_int2, int_string);
    assert_ne!(int_string, single_int);
    assert_ne!(int_string, single_int2);
}

#[test]
fn new_refuses_types_and_names_of_different_lengths() {
    assert_eq!(
        TupleDesc::new(vec![Type::Int, Type::Str], vec!["only"]),
        Err(DbError::ConstructionError)
    );
    assert_eq!(
        TupleDesc::new(vec![Type::Int], vec!["a", "b"]),
        Err(DbError::ConstructionError)
    );
    assert_eq!(TupleDesc::new(vec![], vec![]).unwrap().num_fields(), 0);
}

#[test]
fn names_that_differ_make_schemas_differ() {
    let a = TupleDesc::new(vec![Type::Int], vec!["a"]).unwrap();
    let b = TupleDesc::new(vec![Type::Int], vec!["b"]).unwrap();
    let a2 = TupleDesc::new(vec![Type::Int], vec!["a"]).unwrap();
    assert_ne!(a, b);
    assert_eq!(a, a2);
}

#[test]
fn lookup_finds_the_first_of_equal_names() {
    let td = TupleDesc::new(
        vec![Type::Int, Type::Str, Type::Int, Type::Str],
        vec!["x", "dup", "dup", ""],
    )
    .unwrap();
    assert_eq!(td.field_name_to_index("dup".to_string()), Some(1));
    assert_eq!(td.field_name_to_index("".to_string()), Some(3));
    assert_eq!(td.field_name_to_index("du".to_string()), None);
    assert_eq!(td.field_name_to_index("X".to_string()), None);
}

#[test]
fn accessors_are_bounds_checked() {
    let td = TupleDesc::new(vec![Type::Int, Type::Str], vec!["id", "name"]).unwrap();
    assert_eq!(td.get_field_name(0), Some("id"));
    assert_eq!(td.get_field_name(1), Some("name"));
    assert_eq!(td.get_field_name(2), None);
    assert_eq!(td.get_field_type(1), Some(Type::Str));
    assert_eq!(td.get_field_type(2), None);
}

#[test]
fn size_counts_each_column() {
    let td = TupleDesc::new(vec![Type::Int, Type::Str, Type::Str], vec!["a", "b", "c"]).unwrap();
    assert_eq!(td.get_size(), 4 + 132 + 132);
    assert_eq!(TupleDesc::default_new(vec![]).get_size(), 0);
}

#[test]
fn merge_keeps_names_types_and_order() {
    let a = TupleDesc::new(vec![Type::Int, Type::Str], vec!["id", "name"]).unwrap();
    let b = TupleDesc::new(vec![Type::Str], vec!["name"]).unwrap();
    let size = a.get_size() + b.get_size();
    let m = TupleDesc::merge(a, b);
    assert_eq!(m.num_fields(), 3);
    assert_eq!(m.get_size(), size);
    assert_eq!(
        m,
        TupleDesc::new(
            vec![Type::Int, Type::Str, Type::Str],
            vec!["id", "name", "name"]
        )
        .unwrap()
    );
    assert_eq!(m.field_name_to_index("name".to_string()), Some(1));
}

#[test]
fn schema_is_shown_column_by_column() {
    let td = TupleDesc::new(vec![Type::Int, Type::Str], vec!["id", "name"]).unwrap();
    assert_eq!(td.to_string(), "id(Int), name(Str)");
    assert_eq!(TupleDesc::default_new(vec![Type::Int]).to_string(), "(Int)");
    assert_eq!(TupleDesc::default_new(vec![]).to_string(), "");
    assert_eq!(Type::Str.to_string(), "Str");
}

#[test]
fn item_clone_is_equal() {
    let item = TDItem::new(Type::Str, "name".to_string());
    assert_eq!(item.clone(), item);
    assert_ne!(item, TDItem::new(Type::Int, "name".to_string()));
}
