use astarte_aggregate::aggregate::AstarteObject;
use astarte_aggregate::event::Value;
use astarte_aggregate::types::AstarteType;

#[test]
fn should_increase_coverage() {
    let individual = AstarteType::Integer(42);
    let val = Value::Individual(AstarteType::Integer(42));
    assert!(val.is_individual());
    assert_eq!(val.as_individual(), Some(&individual));
    assert_eq!(val.as_object(), None);
    assert_eq!(val.take_individual(), Some(individual));

    let val = Value::Individual(AstarteType::Integer(42));
    assert_eq!(val.take_object(), None);

    let val = Value::Object(AstarteObject::new());
    assert!(val.is_object());
    assert_eq!(val.as_individual(), None);
    assert_eq!(val.as_object(), Some(&AstarteObject::new()));
    assert_eq!(val.take_object(), Some(AstarteObject::new()));

    let val = Value::Object(AstarteObject::new());
    assert_eq!(val.take_individual(), None);

    assert!(Value::Unset.is_unset());
}

#[test]
fn create_with_capacity() {
    let exp = 10;
    let object = AstarteObject::with_capacity(exp);
    assert!(object.is_empty());
    assert_eq!(object.len(), 0);
}

#[test]
fn add_value_to_obj_and_replace() {
    let mut object = AstarteObject::new();
    let exp = AstarteType::from("foo");
    object.insert("foo".to_string(), exp.clone());
    assert_eq!(object.get("foo"), Some(&exp));

    let exp = AstarteType::from("other");
    object.insert("foo".to_string(), exp.clone());
    assert_eq!(object.get("foo"), Some(&exp));
}

#[test]
fn iter_object_values() {
    let values = [
        ("foo", AstarteType::from("foo")),
        ("bar", AstarteType::from("bar")),
        ("some", AstarteType::from("some")),
    ]
    .map(|(n, v)| (n.to_string(), v));

    let object = AstarteObject::from_key_values(values.clone().to_vec());

    assert!(!object.is_empty());
    assert_eq!(object.len(), values.len());

    for (exp, val) in object.iter().iter().zip(&values) {
        assert_eq!(exp, val)
    }

    for (exp, val) in object.into_key_values().into_iter().zip(values) {
        assert_eq!(exp, val)
    }
}

#[test]
fn upsert_keeps_position_and_len() {
    let mut object = AstarteObject::new();
    assert_eq!(object.insert("k".to_string(), AstarteType::Integer(1)), None);
    assert_eq!(object.insert("tail".to_string(), AstarteType::Boolean(true)), None);
    let len_before = object.len();

    let prior = object.insert("k".to_string(), AstarteType::Integer(2));
    assert_eq!(prior, Some(AstarteType::Integer(1)));
    assert_eq!(object.len(), len_before);

    let entries = object.iter();
    assert_eq!(entries[0].0, "k");
    assert_eq!(entries[0].1, AstarteType::Integer(2));
    assert_eq!(entries[1].0, "tail");
}

#[test]
fn uniqueness_after_inserts() {
    let mut object = AstarteObject::new();
    object.insert("a".to_string(), AstarteType::Integer(1));
    object.insert("b".to_string(), AstarteType::Integer(2));
    object.insert("a".to_string(), AstarteType::Integer(3));
    object.insert("b".to_string(), AstarteType::Integer(4));
    object.insert("a".to_string(), AstarteType::Integer(5));

    let entries = object.iter();
    for i in 0..entries.len() {
        for j in (i + 1)..entries.len() {
            assert_ne!(entries[i].0, entries[j].0);
        }
    }
    assert_eq!(object.len(), 2);
    assert_eq!(object.get("a"), Some(&AstarteType::Integer(5)));
    assert_eq!(object.get("b"), Some(&AstarteType::Integer(4)));
}

#[test]
fn removal_semantics() {
    let mut object = AstarteObject::new();
    object.insert("gone".to_string(), AstarteType::Integer(7));
    object.insert("stays".to_string(), AstarteType::Boolean(false));

    assert_eq!(object.remove("gone"), Some(AstarteType::Integer(7)));
    assert_eq!(object.get("gone"), None);
    assert_eq!(object.remove("gone"), None);
    assert_eq!(object.len(), 1);
    assert_eq!(object.get("stays"), Some(&AstarteType::Boolean(false)));
}

#[test]
fn unset_then_absent_until_reset() {
    let mut store = AstarteObject::new();
    let path = "/sensor_1/boolean_endpoint";
    store.insert(path.to_string(), AstarteType::Boolean(true));
    assert_eq!(store.get(path), Some(&AstarteType::Boolean(true)));

    store.remove(path);
    assert_eq!(store.get(path), None);
    assert_eq!(store.get(path), None);

    store.insert(path.to_string(), AstarteType::Boolean(false));
    assert_eq!(store.get(path), Some(&AstarteType::Boolean(false)));
}

#[test]
fn scenario_two_named_values() {
    let sensor = AstarteType::String("light".to_string());
    let id = AstarteType::Integer(42);

    let mut object = AstarteObject::new();
    object.insert("name".to_string(), sensor.clone());
    object.insert("id".to_string(), id.clone());

    assert_eq!(object.get("name"), Some(&sensor));
    assert_eq!(object.get("id"), Some(&id));
    assert_eq!(object.len(), 2);

    let serialized = object.into_key_values();
    assert_eq!(serialized.len(), 2);
    assert_eq!(serialized[0].0, "name");
    assert_eq!(serialized[0].1, sensor);
    assert_eq!(serialized[1].0, "id");
    assert_eq!(serialized[1].1, id);
}

fn all_variant_values() -> Vec<AstarteType> {
    vec![
        AstarteType::Boolean(true),
        AstarteType::Integer(-42),
        AstarteType::LongInteger(i64::MAX),
        AstarteType::Double((5.5f64).to_bits()),
        AstarteType::String("hello".to_string()),
        AstarteType::BinaryBlob(vec![0, 1, 255]),
        AstarteType::Timestamp(1693526400000),
        AstarteType::BooleanArray(vec![true, false]),
        AstarteType::IntegerArray(vec![i32::MIN, 0, i32::MAX]),
        AstarteType::LongIntegerArray(vec![i64::MIN, 0, i64::MAX]),
        AstarteType::DoubleArray(vec![(1.0f64).to_bits(), (-2.5f64).to_bits()]),
        AstarteType::StringArray(vec!["a".to_string(), "b".to_string()]),
        AstarteType::BinaryBlobArray(vec![vec![1, 2], vec![3]]),
        AstarteType::TimestampArray(vec![0, -1, 1693526400000]),
    ]
}

#[test]
fn round_trip_every_variant() {
    let values = all_variant_values();
    let mut object = AstarteObject::new();
    for (i, v) in values.iter().enumerate() {
        object.insert(format!("key_{i}"), v.clone());
    }
    assert_eq!(object.len(), values.len());

    for (i, v) in values.iter().enumerate() {
        assert_eq!(object.get(&format!("key_{i}")), Some(v));
    }

    let rebuilt = AstarteObject::from_key_values(object.iter().to_vec());
    assert_eq!(rebuilt, object);

    let pairs = object.into_key_values();
    let rebuilt_again = AstarteObject::from_key_values(pairs);
    assert_eq!(rebuilt_again, rebuilt);
}

#[test]
fn long_integer_equality_is_bit_exact() {
    let big = 1i64 << 55;
    assert_eq!(AstarteType::LongInteger(big), AstarteType::LongInteger(big));
    assert_ne!(AstarteType::LongInteger(big), AstarteType::LongInteger(big + 1));
    assert_ne!(AstarteType::LongInteger(big), AstarteType::Integer(0));

    let arr = AstarteType::LongIntegerArray(vec![big; 4]);
    assert_eq!(arr, AstarteType::LongIntegerArray(vec![big; 4]));
    let mut off = vec![big; 4];
    off[3] += 1;
    assert_ne!(arr, AstarteType::LongIntegerArray(off));

    let mut object = AstarteObject::new();
    object.insert("big".to_string(), AstarteType::LongInteger(big));
    assert_eq!(object.get("big"), Some(&AstarteType::LongInteger(big)));
}
