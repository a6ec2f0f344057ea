use shiguredo_http3::qpack::DynamicTable;

#[test]
fn test_empty_table() {
    let table = DynamicTable::new();
    assert_eq!(table.max_capacity(), 0);
    assert_eq!(table.current_size(), 0);
    assert_eq!(table.insert_count(), 0);
    assert_eq!(table.len(), 0);
    assert!(table.is_empty());
}


#[test]
fn test_insert_entry() {
    let mut table = DynamicTable::with_capacity(1024);

    let idx = table.insert(b":authority".to_vec(), b"www.example.com".to_vec());
    assert_eq!(idx, Some(0));
    assert_eq!(table.len(), 1);
    assert_eq!(table.insert_count(), 1);

    let entry = table.get_by_absolute_index(0).expect("test must succeed");
    assert_eq!(entry.name, b":authority");
    assert_eq!(entry.value, b"www.example.com");
}


#[test]
fn test_insert_multiple_entries() {
    let mut table = DynamicTable::with_capacity(1024);

    let idx1 = table.insert(b"name1".to_vec(), b"value1".to_vec());
    let idx2 = table.insert(b"name2".to_vec(), b"value2".to_vec());
    let idx3 = table.insert(b"name3".to_vec(), b"value3".to_vec());

    assert_eq!(idx1, Some(0));
    assert_eq!(idx2, Some(1));
    assert_eq!(idx3, Some(2));
    assert_eq!(table.len(), 3);

    // 絶対インデックスでアクセス
    assert_eq!(
        table
            .get_by_absolute_index(0)
            .expect("test must succeed")
            .name,
        b"name1"
    );
    assert_eq!(
        table
            .get_by_absolute_index(1)
            .expect("test must succeed")
            .name,
        b"name2"
    );
    assert_eq!(
        table
            .get_by_absolute_index(2)
            .expect("test must succeed")
            .name,
        b"name3"
    );

    // エンコーダー相対インデックスでアクセス (0 = 最新)
    assert_eq!(
        table
            .get_by_relative_index_encoder(0)
            .expect("test must succeed")
            .name,
        b"name3"
    );
    assert_eq!(
        table
            .get_by_relative_index_encoder(1)
            .expect("test must succeed")
            .name,
        b"name2"
    );
    assert_eq!(
        table
            .get_by_relative_index_encoder(2)
            .expect("test must succeed")
            .name,
        b"name1"
    );
}


#[test]
fn test_eviction() {
    // 容量を小さく設定 (エントリ 1 つ分程度)
    let mut table = DynamicTable::with_capacity(50);

    // 最初のエントリを挿入 (32 + 5 + 6 = 43)
    let idx1 = table.insert(b"name1".to_vec(), b"value1".to_vec());
    assert_eq!(idx1, Some(0));
    assert_eq!(table.len(), 1);

    // 2 つ目のエントリを挿入すると 1 つ目がエビクトされる
    let idx2 = table.insert(b"name2".to_vec(), b"value2".to_vec());
    assert_eq!(idx2, Some(1));
    assert_eq!(table.len(), 1);
    assert_eq!(table.dropped_count(), 1);

    // 古いエントリにはアクセスできない
    assert!(table.get_by_absolute_index(0).is_none());
    // 新しいエントリにはアクセスできる
    assert!(table.get_by_absolute_index(1).is_some());
}


#[test]
fn test_entry_too_large() {
    let mut table = DynamicTable::with_capacity(50);

    // 容量を超えるエントリは挿入できない
    let idx = table.insert(b"very_long_name".to_vec(), b"very_long_value".to_vec());
    assert_eq!(idx, None);
    assert!(table.is_empty());
}


#[test]
fn test_set_capacity() {
    let mut table = DynamicTable::with_capacity(200);

    table.insert(b"name1".to_vec(), b"value1".to_vec());
    table.insert(b"name2".to_vec(), b"value2".to_vec());
    table.insert(b"name3".to_vec(), b"value3".to_vec());
    assert_eq!(table.len(), 3);

    // 容量を減らすとエビクトが発生
    table.set_capacity(50);
    assert_eq!(table.len(), 1);
    assert_eq!(table.dropped_count(), 2);
}


#[test]
fn test_find_entry() {
    let mut table = DynamicTable::with_capacity(1024);

    table.insert(b":method".to_vec(), b"GET".to_vec());
    table.insert(b":method".to_vec(), b"POST".to_vec());
    table.insert(b":path".to_vec(), b"/".to_vec());

    // 完全一致
    let (exact, name_only) = table.find_entry(b":method", b"GET");
    assert_eq!(exact, Some(0));
    assert_eq!(name_only, Some(0));

    // 名前のみ一致 (最新の一致を返す)
    let (exact, name_only) = table.find_entry(b":method", b"PUT");
    assert_eq!(exact, None);
    assert_eq!(name_only, Some(1)); // POST が最新

    // 一致なし
    let (exact, name_only) = table.find_entry(b"x-custom", b"value");
    assert_eq!(exact, None);
    assert_eq!(name_only, None);
}


#[test]
fn test_relative_index_repr() {
    let mut table = DynamicTable::with_capacity(1024);

    table.insert(b"name0".to_vec(), b"value0".to_vec()); // abs=0
    table.insert(b"name1".to_vec(), b"value1".to_vec()); // abs=1
    table.insert(b"name2".to_vec(), b"value2".to_vec()); // abs=2
    table.insert(b"name3".to_vec(), b"value3".to_vec()); // abs=3

    // Base = 3 の場合
    // relative=0 -> abs=3-0-1=2 -> name2
    // relative=1 -> abs=3-1-1=1 -> name1
    // relative=2 -> abs=3-2-1=0 -> name0
    assert_eq!(
        table
            .get_by_relative_index_repr(0, 3)
            .expect("test must succeed")
            .name,
        b"name2"
    );
    assert_eq!(
        table
            .get_by_relative_index_repr(1, 3)
            .expect("test must succeed")
            .name,
        b"name1"
    );
    assert_eq!(
        table
            .get_by_relative_index_repr(2, 3)
            .expect("test must succeed")
            .name,
        b"name0"
    );

    // 範囲外
    assert!(table.get_by_relative_index_repr(3, 3).is_none());
}


#[test]
fn test_post_base_index() {
    let mut table = DynamicTable::with_capacity(1024);

    table.insert(b"name0".to_vec(), b"value0".to_vec()); // abs=0
    table.insert(b"name1".to_vec(), b"value1".to_vec()); // abs=1
    table.insert(b"name2".to_vec(), b"value2".to_vec()); // abs=2
    table.insert(b"name3".to_vec(), b"value3".to_vec()); // abs=3

    // Base = 2 の場合
    // post_base=0 -> abs=2+0=2 -> name2
    // post_base=1 -> abs=2+1=3 -> name3
    assert_eq!(
        table
            .get_by_post_base_index(0, 2)
            .expect("test must succeed")
            .name,
        b"name2"
    );
    assert_eq!(
        table
            .get_by_post_base_index(1, 2)
            .expect("test must succeed")
            .name,
        b"name3"
    );

    // 範囲外
    assert!(table.get_by_post_base_index(2, 2).is_none());
}


#[test]
fn test_duplicate() {
    let mut table = DynamicTable::with_capacity(1024);

    table.insert(b"name".to_vec(), b"value".to_vec()); // abs=0, rel=0
    table.insert(b"other".to_vec(), b"data".to_vec()); // abs=1, rel=0, old rel=1

    // 相対インデックス 1 (最古のエントリ) を複製
    let idx = table.duplicate(1);
    assert_eq!(idx, Some(2));
    assert_eq!(table.len(), 3);

    let entry = table.get_by_absolute_index(2).expect("test must succeed");
    assert_eq!(entry.name, b"name");
    assert_eq!(entry.value, b"value");
}


#[test]
fn test_clear() {
    let mut table = DynamicTable::with_capacity(1024);

    table.insert(b"name1".to_vec(), b"value1".to_vec());
    table.insert(b"name2".to_vec(), b"value2".to_vec());
    assert_eq!(table.len(), 2);

    table.clear();
    assert!(table.is_empty());
    assert_eq!(table.current_size(), 0);
    assert_eq!(table.dropped_count(), 2);
    assert_eq!(table.insert_count(), 2);
}


#[test]
fn test_eviction_limit_prevents_eviction() {
    // 容量を小さく設定 (エントリ 1 つ分程度)
    let mut table = DynamicTable::with_capacity(50);

    // 最初のエントリを挿入 (32 + 5 + 6 = 43)
    let idx1 = table.insert(b"name1".to_vec(), b"value1".to_vec());
    assert_eq!(idx1, Some(0));

    // eviction_limit を設定: abs_index 0 は evict 不可にする
    // (eviction_limit = 1 なら abs_index < 1 = abs_index 0 が保護される)
    table.set_eviction_limit(1);

    // 2 つ目のエントリを挿入しようとするが、1 つ目を evict できないので失敗
    let idx2 = table.insert(b"name2".to_vec(), b"value2".to_vec());
    assert_eq!(idx2, None);
    assert_eq!(table.len(), 1);
    assert_eq!(table.dropped_count(), 0);

    // eviction_limit を解除
    table.set_eviction_limit(0);

    // 今度は eviction が成功
    let idx3 = table.insert(b"name3".to_vec(), b"value3".to_vec());
    assert_eq!(idx3, Some(1));
    assert_eq!(table.len(), 1);
    assert_eq!(table.dropped_count(), 1);
}


#[test]
fn test_eviction_limit_on_set_capacity() {
    let mut table = DynamicTable::with_capacity(200);

    table.insert(b"name1".to_vec(), b"value1".to_vec()); // abs=0 (最古、末尾)
    table.insert(b"name2".to_vec(), b"value2".to_vec()); // abs=1
    table.insert(b"name3".to_vec(), b"value3".to_vec()); // abs=2 (最新、先頭)
    assert_eq!(table.len(), 3);

    // abs_index < 1 のエントリ (abs=0) を保護
    table.set_eviction_limit(1);

    // 容量を縮小: eviction は末尾 (最古) から行われる
    // abs=0 は eviction_limit で保護されているので evict できない
    // → 容量オーバーのまま全エントリが残る
    table.set_capacity(50);
    assert_eq!(table.len(), 3);
    assert_eq!(table.dropped_count(), 0);

    // eviction_limit を解除すると eviction が進む
    table.set_eviction_limit(0);
    table.set_capacity(50);
    assert_eq!(table.len(), 1);
    assert_eq!(table.dropped_count(), 2);
}

#[test]
fn dynamic_table_insert_then_get_and_size() {
    let mut table = DynamicTable::with_capacity(100);
    let a = table.insert(b"k".to_vec(), b"v".to_vec()).unwrap();
    let e = table.get_by_absolute_index(a).unwrap();
    assert_eq!(e.name, b"k");
    assert_eq!(e.value, b"v");
    assert_eq!(e.size(), 34);
    assert_eq!(table.current_size(), 34);
    assert!(table.current_size() <= table.max_capacity());
    assert_eq!(table.iter().len(), 1);
    assert!(table.get_by_post_base_index(u64::MAX, 1).is_none());
}
