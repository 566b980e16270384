use chaos::aggregator::DataRequest;
use chaos::aggregator::DataResponse;
use chaos::aggregator::DataValue;

fn run(data: Vec<DataValue>) -> DataResponse {
    DataRequest { data }.aggregate()
}

#[test]
fn mixed_values() {
    let r = run(vec![
        DataValue::Integer(1),
        DataValue::Text("ab".to_string()),
        DataValue::Integer(2),
        DataValue::Text("c".to_string()),
    ]);
    assert_eq!(r, DataResponse { string_len: 3, int_sum: 3 });
}

#[test]
fn empty_sequence() {
    let r = run(vec![]);
    assert_eq!(r, DataResponse { string_len: 0, int_sum: 0 });
}

#[test]
fn negative_and_positive_cancel() {
    let r = run(vec![DataValue::Integer(-5), DataValue::Integer(5)]);
    assert_eq!(r, DataResponse { string_len: 0, int_sum: 0 });
}

#[test]
fn integers_only() {
    let r = run(vec![
        DataValue::Integer(2),
        DataValue::Integer(3),
        DataValue::Integer(4),
    ]);
    assert_eq!(r, DataResponse { string_len: 0, int_sum: 9 });
}

#[test]
fn strings_only() {
    let r = run(vec![
        DataValue::Text("x".to_string()),
        DataValue::Text("yz".to_string()),
    ]);
    assert_eq!(r, DataResponse { string_len: 3, int_sum: 0 });
}

#[test]
fn order_does_not_matter() {
    let forward = run(vec![
        DataValue::Integer(7),
        DataValue::Text("hello".to_string()),
        DataValue::Integer(-2),
        DataValue::Text("".to_string()),
    ]);
    let backward = run(vec![
        DataValue::Text("".to_string()),
        DataValue::Integer(-2),
        DataValue::Text("hello".to_string()),
        DataValue::Integer(7),
    ]);
    assert_eq!(forward, backward);
    assert_eq!(forward, DataResponse { string_len: 5, int_sum: 5 });
}

#[test]
fn integer_sum_wraps_around_max() {
    let r = run(vec![DataValue::Integer(i64::MAX), DataValue::Integer(1)]);
    assert_eq!(r, DataResponse { string_len: 0, int_sum: i64::MIN });
}

#[test]
fn integer_sum_wraps_around_min() {
    let r = run(vec![DataValue::Integer(i64::MIN), DataValue::Integer(-1)]);
    assert_eq!(r, DataResponse { string_len: 0, int_sum: i64::MAX });
}

#[test]
fn string_length_counts_scalar_values_not_bytes() {
    // Two scalar values, four UTF-8 bytes.
    let r = run(vec![DataValue::Text("\u{e9}\u{e9}".to_string())]);
    assert_eq!(r, DataResponse { string_len: 2, int_sum: 0 });
}

#[test]
fn empty_string_adds_nothing() {
    let r = run(vec![DataValue::Text(String::new()), DataValue::Integer(6)]);
    assert_eq!(r, DataResponse { string_len: 0, int_sum: 6 });
}
