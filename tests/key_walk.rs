use libbpf_rs::{BpfMap, MapKeyIter, MapOps};

/// Answers as the kernel does for a map that nobody changes, whose keys it
/// walks in the order `keys`: returns the status and the buffer it wrote.
fn answer(keys: &[Vec<u8>], prev: Option<&Vec<u8>>, mut buf: Vec<u8>) -> (i32, Vec<u8>) {
    let next = match prev {
        None => keys.first(),
        Some(p) => match keys.iter().position(|k| k == p) {
            Some(i) => keys.get(i + 1),
            None => keys.first(),
        },
    };
    match next {
        Some(k) => {
            buf.copy_from_slice(k);
            (0, buf)
        }
        None => (-2, buf),
    }
}

fn collect(it: &mut MapKeyIter<'_>, keys: &[Vec<u8>], limit: usize) -> Vec<Vec<u8>> {
    let mut out = Vec::new();
    while out.len() < limit {
        let (ret, buf) = answer(keys, it.prev_key(), it.buffer());
        match it.advance(ret, buf) {
            Some(k) => out.push(k),
            None => break,
        }
    }
    out
}

#[test]
fn cursor_starts_before_the_first_key() {
    let m = BpfMap::new(3, "m".to_string(), 1, 4, 4);
    let it = m.keys();
    assert!(it.prev_key().is_none());
    assert_eq!(it.buffer(), vec![0, 0, 0, 0]);
    assert_eq!(it.map().key_size(), 4);
}

#[test]
fn stable_walk_yields_each_key_once() {
    let m = BpfMap::new(3, "m".to_string(), 1, 2, 4);
    let keys = vec![vec![1, 0], vec![2, 0], vec![3, 0]];
    let mut it = m.keys();
    let got = collect(&mut it, &keys, 100);
    assert_eq!(got, keys);
    assert!(it.advance(-2, vec![9, 9]).is_none());
}

#[test]
fn walk_of_empty_map_ends_at_once() {
    let m = BpfMap::new(3, "m".to_string(), 1, 2, 4);
    let mut it = m.keys();
    assert!(collect(&mut it, &[], 10).is_empty());
    assert!(it.prev_key().is_none());
}

#[test]
fn failed_step_leaves_cursor_unchanged() {
    let m = BpfMap::new(3, "m".to_string(), 1, 2, 4);
    let mut it = m.keys();
    assert_eq!(it.advance(0, vec![5, 6]), Some(vec![5, 6]));
    assert_eq!(it.prev_key(), Some(&vec![5, 6]));
    assert_eq!(it.advance(-1, vec![7, 7]), None);
    assert_eq!(it.prev_key(), Some(&vec![5, 6]));
    assert_eq!(it.buffer(), vec![5, 6]);
}

#[test]
fn walk_under_changes_may_repeat_but_ends() {
    // A map changed mid-walk: the kernel no longer finds the last key and
    // starts over, so keys repeat; the walk still ends when a step fails.
    let m = BpfMap::new(3, "m".to_string(), 1, 1, 4);
    let mut it = m.keys();
    assert_eq!(it.advance(0, vec![1]), Some(vec![1]));
    assert_eq!(it.advance(0, vec![1]), Some(vec![1]));
    assert_eq!(it.advance(0, vec![2]), Some(vec![2]));
    assert_eq!(it.advance(-2, vec![0]), None);
}
