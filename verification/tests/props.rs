use dark_std::sync::BtreeIter;
use dark_std::sync::Iter;
use dark_std::sync::SyncBtreeMap;
use dark_std::sync::SyncHashMap;
use dark_std::sync::SyncVec;
use dark_std::sync::wait_step;
use dark_std::sync::WaitGroup;
use std::collections::BTreeMap;
use std::collections::HashMap;
use std::sync::Arc;
use std::time::Duration;
use std::time::Instant;

#[test]
fn insert_then_remove_all_leaves_empty() {
    let m = SyncHashMap::<i32, String>::new();
    for k in 0..100 {
        m.insert(k, format!("v{}", k));
    }
    for k in 0..100 {
        assert!(m.remove(&k).is_some());
    }
    assert_eq!(0, m.len());
    for k in 0..100 {
        assert_eq!(None, m.get(&k));
    }

    let b = SyncBtreeMap::<i32, i32>::new();
    for k in 0..50 {
        b.insert(k, k * 2);
    }
    for k in 0..50 {
        assert!(b.remove(&k).is_some());
    }
    assert_eq!(0, b.len());
    for k in 0..50 {
        assert_eq!(None, b.get(&k));
    }
}

#[test]
fn insert_then_get_returns_value() {
    let m = SyncHashMap::<i32, i32>::new();
    for k in 0..100 {
        m.insert(k, k * 10);
        assert_eq!(Some(k * 10), m.get(&k));
    }
    let b = SyncBtreeMap::<i32, i32>::new();
    for k in 0..100 {
        b.insert(k, k + 7);
        assert_eq!(Some(k + 7), b.get(&k));
    }
}

#[test]
fn round_trip_hash_map() {
    let m = SyncHashMap::<i32, String>::new();
    m.insert(1, "a".to_string());
    m.insert(2, "b".to_string());
    let encoded = serde_json::to_string(&m.dirty_ref()).unwrap();
    let decoded: HashMap<i32, String> = serde_json::from_str(&encoded).unwrap();
    let m2 = SyncHashMap::from(decoded);
    assert_eq!(m.len(), m2.len());
    for (k, v) in m.iter() {
        assert_eq!(Some(v), m2.get(&k));
    }
}

#[test]
fn round_trip_btree_map() {
    let m = SyncBtreeMap::<i32, String>::new();
    m.insert(3, "c".to_string());
    m.insert(1, "a".to_string());
    m.insert(2, "b".to_string());
    let encoded = serde_json::to_string(&m.dirty_ref()).unwrap();
    let decoded: BTreeMap<i32, String> = serde_json::from_str(&encoded).unwrap();
    let m2 = SyncBtreeMap::from(decoded);
    assert_eq!(m.len(), m2.len());
    assert_eq!(m.iter(), m2.iter());
}

#[test]
fn round_trip_vec() {
    let v = SyncVec::<String>::new();
    v.push("x".to_string());
    v.push("y".to_string());
    let encoded = serde_json::to_string(&v.dirty_ref()).unwrap();
    let decoded: Vec<String> = serde_json::from_str(&encoded).unwrap();
    let v2 = SyncVec::from(decoded);
    assert_eq!(v.len(), v2.len());
    assert_eq!(v.iter(), v2.iter());
}

#[test]
fn from_into_inner_round_trip() {
    let mut src = HashMap::new();
    src.insert(5, "five".to_string());
    src.insert(6, "six".to_string());
    let m = SyncHashMap::from(src.clone());
    assert_eq!(src, m.into_inner());

    let mut bsrc = BTreeMap::new();
    bsrc.insert(1, 10);
    bsrc.insert(2, 20);
    let b = SyncBtreeMap::from(bsrc.clone());
    assert_eq!(bsrc, b.into_inner());

    let vsrc = vec![1, 2, 3];
    let v = SyncVec::from(vsrc.clone());
    assert_eq!(vsrc, v.into_inner());
}

#[test]
fn distinct_key_guards_concurrently() {
    let m = Arc::new(SyncHashMap::<i32, i32>::new());
    m.insert(1, 10);
    m.insert(2, 20);
    let rt = tokio::runtime::Runtime::new().unwrap();
    let (txa, rxa) = flume::unbounded::<()>();
    let (txb, rxb) = flume::unbounded::<()>();
    let m1 = m.clone();
    let m2 = m.clone();
    rt.block_on(async move {
        let t1 = tokio::spawn(async move {
            let mut g = m1.get_mut(&1).unwrap();
            txa.send(()).unwrap();
            rxb.recv_async().await.unwrap();
            g.set(11);
        });
        let t2 = tokio::spawn(async move {
            let mut g = m2.get_mut(&2).unwrap();
            txb.send(()).unwrap();
            rxa.recv_async().await.unwrap();
            g.set(22);
        });
        t1.await.unwrap();
        t2.await.unwrap();
    });
    assert_eq!(Some(11), m.get(&1));
    assert_eq!(Some(22), m.get(&2));
}

#[test]
fn push_pop_lifo_order() {
    let v = SyncVec::<i32>::new();
    for i in 0..10 {
        v.push(i);
    }
    for i in (0..10).rev() {
        assert_eq!(Some(i), v.pop());
    }
    assert_eq!(None, v.pop());
    assert_eq!(0, v.len());
}

#[test]
fn insert_at_index_shifts() {
    let v = SyncVec::<i32>::new();
    v.push(10);
    v.push(30);
    assert_eq!(None, v.insert(1, 20));
    assert_eq!(Some(10), v.get(0));
    assert_eq!(Some(20), v.get(1));
    assert_eq!(Some(30), v.get(2));
    assert_eq!(3, v.len());
    assert_eq!(None, v.insert(3, 40));
    assert_eq!(Some(40), v.get(3));
    assert_eq!(Some(99), v.insert(9, 99));
    assert_eq!(4, v.len());
}

#[test]
fn barrier_waits_for_both_clones() {
    let wg = WaitGroup::new();
    let wg1 = wg.clone();
    let wg2 = wg.clone();
    assert_eq!(2, wg.total());
    let rt = tokio::runtime::Runtime::new().unwrap();
    let start = Instant::now();
    let h1 = rt.spawn(async move {
        tokio::time::sleep(Duration::from_millis(300)).await;
        drop(wg1);
    });
    let h2 = rt.spawn(async move {
        tokio::time::sleep(Duration::from_millis(300)).await;
        drop(wg2);
    });
    wg.wait();
    let elapsed = start.elapsed();
    assert!(elapsed >= Duration::from_millis(250));
    assert!(elapsed < Duration::from_secs(10));
    rt.block_on(async {
        h1.await.unwrap();
        h2.await.unwrap();
    });
}

#[test]
fn barrier_zero_returns_immediately() {
    let wg = WaitGroup::new();
    let start = Instant::now();
    wg.wait();
    assert!(start.elapsed() < Duration::from_secs(1));
}

#[test]
fn wait_step_counts_and_decides() {
    assert_eq!((1, false), wait_step(0, 2));
    assert_eq!((2, true), wait_step(1, 2));
    assert_eq!((3, true), wait_step(2, 2));
    assert_eq!((1, true), wait_step(0, 0));
    assert_eq!((u64::MAX, true), wait_step(u64::MAX, u64::MAX));
}

#[test]
fn completion_receiver_sees_drop() {
    let wg = WaitGroup::new();
    let rx = wg.completion_receiver();
    let wg2 = wg.clone();
    drop(wg2);
    assert!(rx.recv_timeout(Duration::from_secs(5)).is_ok());
}

#[test]
fn concurrent_insert_race_converges() {
    let m = Arc::new(SyncHashMap::<i32, i32>::new());
    let rt = tokio::runtime::Runtime::new().unwrap();
    rt.block_on(async {
        let mut handles = Vec::new();
        for w in 0..8 {
            let mm = m.clone();
            handles.push(tokio::spawn(async move {
                for i in 0..1000 {
                    mm.insert(1, w * 1000 + i);
                }
            }));
        }
        for h in handles {
            h.await.unwrap();
        }
    });
    assert_eq!(1, m.len());
    let v = m.get(&1).unwrap();
    assert!((0..8000).contains(&v));
}

#[test]
fn out_of_range_reads_return_nothing() {
    let v = SyncVec::<i32>::new();
    v.push(1);
    assert_eq!(None, v.get(5));
    assert_eq!(None, v.remove(5));
    assert_eq!(1, v.len());
    let m = SyncHashMap::<i32, i32>::new();
    assert_eq!(None, m.get(&7));
    assert_eq!(None, m.remove(&7));
    let b = SyncBtreeMap::<i32, i32>::new();
    assert_eq!(None, b.get(&7));
    assert_eq!(None, b.remove(&7));
}

#[test]
fn shrink_keeps_contents() {
    let v = SyncVec::<i32>::new();
    v.push(1);
    v.push(2);
    v.push(3);
    v.shrink_to_fit();
    assert_eq!(3, v.len());
    assert_eq!(Some(1), v.get(0));
    assert_eq!(Some(2), v.get(1));
    assert_eq!(Some(3), v.get(2));

    let m = SyncHashMap::<i32, i32>::new();
    m.insert(1, 10);
    m.insert(2, 20);
    m.shrink_to_fit();
    assert_eq!(2, m.len());
    assert_eq!(Some(10), m.get(&1));
    assert_eq!(Some(20), m.get(&2));
}

#[test]
fn iter_covers_all_entries() {
    let m = SyncHashMap::<i32, i32>::new();
    for k in 0..5 {
        m.insert(k, k * k);
    }
    let mut seen: HashMap<i32, i32> = HashMap::new();
    for (k, v) in m.iter() {
        seen.insert(k, v);
    }
    assert_eq!(5, seen.len());
    for k in 0..5 {
        assert_eq!(Some(&(k * k)), seen.get(&k));
    }

    let b = SyncBtreeMap::<i32, i32>::new();
    b.insert(3, 30);
    b.insert(1, 10);
    b.insert(2, 20);
    let pairs = b.iter();
    assert_eq!(vec![(1, 10), (2, 20), (3, 30)], pairs);
}

#[test]
fn guard_set_reports_presence() {
    let m = SyncHashMap::<i32, i32>::new();
    m.insert(1, 2);
    let mut g = m.get_mut(&1).unwrap();
    m.remove(&1);
    assert_eq!(false, g.set(5));
    assert_eq!(Some(5), m.get(&1));
    assert_eq!(true, g.set(6));
    assert_eq!(Some(6), m.get(&1));

    let v = SyncVec::<i32>::new();
    v.push(9);
    let mut gv = v.get_mut(0).unwrap();
    v.pop();
    assert_eq!(false, gv.set(4));
    assert_eq!(0, v.len());
}

#[test]
fn contains_matches_contents() {
    let v = SyncVec::<i32>::new();
    v.push(4);
    v.push(5);
    assert!(v.contains(&4));
    assert!(v.contains(&5));
    assert!(!v.contains(&6));
    let m = SyncHashMap::<i32, i32>::new();
    m.insert(1, 2);
    assert!(m.contains_key(&1));
    assert!(!m.contains_key(&2));
    let b = SyncBtreeMap::<i32, i32>::new();
    b.insert(1, 2);
    assert!(b.contains_key(&1));
    assert!(!b.contains_key(&2));
}

#[test]
fn cursor_yields_snapshot_in_order() {
    let v = SyncVec::<i32>::new();
    v.push(7);
    v.push(8);
    v.push(9);
    let mut it = Iter::new(v.iter());
    assert_eq!(Some(7), it.next());
    assert_eq!(Some(8), it.next());
    assert_eq!(Some(9), it.next());
    assert_eq!(None, it.next());
    assert_eq!(None, it.next());

    let b = SyncBtreeMap::<i32, i32>::new();
    b.insert(2, 20);
    b.insert(1, 10);
    let mut bit = BtreeIter::new(b.iter());
    assert_eq!(Some((1, 10)), bit.next());
    assert_eq!(Some((2, 20)), bit.next());
    assert_eq!(None, bit.next());
}

#[test]
fn clone_copies_contents() {
    let m = SyncHashMap::<i32, i32>::new();
    m.insert(1, 10);
    let m2 = m.clone();
    m.insert(2, 20);
    assert_eq!(1, m2.len());
    assert_eq!(Some(10), m2.get(&1));
    let b = SyncBtreeMap::<i32, i32>::new();
    b.insert(1, 10);
    let b2 = b.clone();
    assert_eq!(Some(10), b2.get(&1));
    let v = SyncVec::<i32>::new();
    v.push(3);
    let v2 = v.clone();
    v.push(4);
    assert_eq!(1, v2.len());
    assert_eq!(Some(3), v2.get(0));
}

#[test]
fn btree_debug_string_is_ordered() {
    let b = SyncBtreeMap::<i32, i32>::new();
    b.insert(2, 20);
    b.insert(1, 10);
    assert_eq!("{1: 10, 2: 20}", b.debug_string());
    let empty = SyncBtreeMap::<i32, i32>::new();
    assert_eq!("{}", empty.debug_string());
    let v = SyncVec::<i32>::new();
    assert_eq!("[]", v.debug_string());
    v.push(1);
    v.push(2);
    assert_eq!("[1, 2]", v.debug_string());
}

#[test]
fn clear_empties_container() {
    let m = SyncHashMap::<i32, i32>::new();
    m.insert(1, 1);
    m.insert(2, 2);
    m.clear();
    assert_eq!(0, m.len());
    assert!(m.is_empty());
    let b = SyncBtreeMap::<i32, i32>::new();
    b.insert(1, 1);
    b.clear();
    assert!(b.is_empty());
    let v = SyncVec::<i32>::new();
    v.push(1);
    v.clear();
    assert!(v.is_empty());
}
