use kv::kv_iterator::{ConcatIterator, KvIterator, TestIterator};

#[test]
fn test_iterator() {
    let mut iter = TestIterator::new(0, 10);
    let mut n = 0;
    while let Some((key, value)) = iter.next() {
        println!("{:?}-{:?}", String::from_utf8_lossy(&key), String::from_utf8_lossy(&value));
        assert_eq!(key, format!("key_{:05}", n).into_bytes());
        assert_eq!(value, format!("value_{:05}", n).into_bytes());
        n += 1;
    }
    assert_eq!(n, 10);
}

#[test]
fn test_iterator_wide_numbers() {
    let mut iter = TestIterator::new(99999, 100001);
    assert_eq!(iter.next(), Some((b"key_99999".to_vec(), b"value_99999".to_vec())));
    assert_eq!(iter.next(), Some((b"key_100000".to_vec(), b"value_100000".to_vec())));
    assert_eq!(iter.next(), None);
    let mut empty = TestIterator::new(5, 5);
    assert_eq!(empty.next(), None);
}

#[test]
fn concat_iterator_runs_each_in_turn() {
    let iters = vec![TestIterator::new(0, 2), TestIterator::new(3, 3), TestIterator::new(7, 8)];
    let mut all = ConcatIterator::new(iters);
    let mut keys = Vec::new();
    while let Some((key, _)) = all.next() {
        keys.push(String::from_utf8(key).unwrap());
    }
    assert_eq!(keys, vec!["key_00000", "key_00001", "key_00007"]);
    assert_eq!(all.next(), None);
}
