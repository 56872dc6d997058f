use corruptabledb::{classify, forward, Classified, Database, Error, Exchange, Fault, Store};
use std::cell::RefCell;
use std::collections::BTreeMap;
use std::rc::Rc;

#[derive(Debug, Clone, PartialEq, Eq)]
enum Failure {
    NotFound,
    Closed,
    Corrupt(String),
}

impl Fault for Failure {
    // Ghost: erased from running code.
    fn corruption_spec(&self) -> Option<vstd::seq::Seq<char>> {
        unreachable!()
    }

    // Ghost: erased from running code.
    fn not_found_spec(&self) -> bool {
        unreachable!()
    }

    fn corruption(&self) -> Option<String> {
        match self {
            Failure::Corrupt(message) => Some(message.clone()),
            _ => None,
        }
    }

    fn is_not_found(&self) -> bool {
        matches!(self, Failure::NotFound)
    }
}

type Entries = Vec<(Vec<u8>, Vec<u8>)>;

// A store in memory that writes down every request it receives and can be
// told to fail.
struct MemStore {
    entries: BTreeMap<Vec<u8>, Vec<u8>>,
    // Keys whose lookup fails, with the failure.
    bad_keys: BTreeMap<Vec<u8>, Failure>,
    // If set, every operation fails with it.
    broken: Option<Failure>,
    seen: Rc<RefCell<Vec<String>>>,
}

fn text(bytes: &[u8]) -> String {
    String::from_utf8_lossy(bytes).into_owned()
}

impl MemStore {
    fn new() -> (MemStore, Rc<RefCell<Vec<String>>>) {
        let seen = Rc::new(RefCell::new(Vec::new()));
        let store = MemStore {
            entries: BTreeMap::new(),
            bad_keys: BTreeMap::new(),
            broken: None,
            seen: seen.clone(),
        };
        (store, seen)
    }

    fn note(&self, request: String) -> Result<(), Failure> {
        self.seen.borrow_mut().push(request);
        match &self.broken {
            Some(failure) => Err(failure.clone()),
            None => Ok(()),
        }
    }
}

impl Store for MemStore {
    type Error = Failure;
    type Iter = Entries;

    // Ghost: erased from running code.
    fn history(&self) -> vstd::seq::Seq<Exchange<Entries, Failure>> {
        unreachable!()
    }

    fn has(&mut self, key: &[u8]) -> Result<bool, Failure> {
        self.note(format!("has({})", text(key)))?;
        Ok(self.entries.contains_key(key))
    }

    fn get(&mut self, key: &[u8]) -> Result<Vec<u8>, Failure> {
        self.note(format!("get({})", text(key)))?;
        if let Some(failure) = self.bad_keys.get(key) {
            return Err(failure.clone());
        }
        self.entries.get(key).cloned().ok_or(Failure::NotFound)
    }

    fn put(&mut self, key: &[u8], value: &[u8]) -> Result<(), Failure> {
        self.note(format!("put({},{})", text(key), text(value)))?;
        self.entries.insert(key.to_vec(), value.to_vec());
        Ok(())
    }

    fn delete(&mut self, key: &[u8]) -> Result<(), Failure> {
        self.note(format!("delete({})", text(key)))?;
        self.entries.remove(key);
        Ok(())
    }

    fn close(&mut self) -> Result<(), Failure> {
        self.note("close()".to_string())?;
        self.broken = Some(Failure::Closed);
        Ok(())
    }

    fn health_check(&mut self) -> Result<Vec<u8>, Failure> {
        self.note("health_check()".to_string())?;
        Ok(b"healthy".to_vec())
    }

    fn new_iterator(&mut self) -> Result<Entries, Failure> {
        self.note("new_iterator()".to_string())?;
        Ok(self.entries.clone().into_iter().collect())
    }

    fn new_iterator_with_start(&mut self, start: &[u8]) -> Result<Entries, Failure> {
        self.note(format!("new_iterator_with_start({})", text(start)))?;
        Ok(self.entries.clone().into_iter().filter(|(k, _)| k.as_slice() >= start).collect())
    }

    fn new_iterator_with_prefix(&mut self, prefix: &[u8]) -> Result<Entries, Failure> {
        self.note(format!("new_iterator_with_prefix({})", text(prefix)))?;
        Ok(self.entries.clone().into_iter().filter(|(k, _)| k.starts_with(prefix)).collect())
    }

    fn new_iterator_with_start_and_prefix(
        &mut self,
        start: &[u8],
        prefix: &[u8],
    ) -> Result<Entries, Failure> {
        self.note(format!("new_iterator_with_start_and_prefix({},{})", text(start), text(prefix)))?;
        Ok(self
            .entries
            .clone()
            .into_iter()
            .filter(|(k, _)| k.as_slice() >= start && k.starts_with(prefix))
            .collect())
    }
}

fn latched<E>(message: &str) -> Error<E> {
    Error::CorruptionLatched(message.to_string())
}

fn pair(key: &str, value: &str) -> (Vec<u8>, Vec<u8>) {
    (key.as_bytes().to_vec(), value.as_bytes().to_vec())
}

// A guard around a store that holds a -> 1 and fails the lookup of x with
// corruption, message "disk read error".
fn guard_with_bad_block() -> (Database<MemStore>, Rc<RefCell<Vec<String>>>) {
    let (mut store, seen) = MemStore::new();
    store.entries.insert(b"a".to_vec(), b"1".to_vec());
    store.bad_keys.insert(b"x".to_vec(), Failure::Corrupt("disk read error".to_string()));
    (Database::new(store), seen)
}

#[test]
fn new_guard_is_healthy() {
    let (store, seen) = MemStore::new();
    let guard = Database::new(store);
    assert!(!guard.is_corrupted());
    assert_eq!(guard.message(), None);
    assert!(seen.borrow().is_empty());
}

#[test]
fn healthy_store_round_trip() {
    let (store, _seen) = MemStore::new();
    let mut guard = Database::new(store);
    assert_eq!(guard.put(b"a", b"1"), Ok(()));
    assert_eq!(guard.get(b"a"), Ok(b"1".to_vec()));
    assert_eq!(guard.has(b"a"), Ok(true));
    assert!(!guard.is_corrupted());
}

#[test]
fn has_reports_missing_key_as_false() {
    let (store, seen) = MemStore::new();
    let mut guard = Database::new(store);
    assert_eq!(guard.has(b"missing"), Ok(false));
    assert!(!guard.is_corrupted());
    assert_eq!(guard.message(), None);
    assert_eq!(*seen.borrow(), vec!["get(missing)".to_string()]);
}

#[test]
fn has_asks_the_store_for_the_value() {
    let (mut guard, seen) = guard_with_bad_block();
    assert_eq!(guard.has(b"a"), Ok(true));
    assert_eq!(*seen.borrow(), vec!["get(a)".to_string()]);
}

#[test]
fn get_passes_missing_key_through() {
    let (store, _seen) = MemStore::new();
    let mut guard = Database::new(store);
    assert_eq!(guard.get(b"missing"), Err(Error::Inner(Failure::NotFound)));
    assert!(!guard.is_corrupted());
}

#[test]
fn corruption_latches_every_operation() {
    let (mut guard, seen) = guard_with_bad_block();
    assert_eq!(guard.get(b"x"), Err(latched("disk read error")));
    assert!(guard.is_corrupted());
    assert_eq!(guard.message(), Some("disk read error".to_string()));
    assert_eq!(guard.has(b"a"), Err(latched("disk read error")));
    assert_eq!(guard.get(b"a"), Err(latched("disk read error")));
    assert_eq!(guard.put(b"b", b"2"), Err(latched("disk read error")));
    assert_eq!(guard.delete(b"a"), Err(latched("disk read error")));
    assert_eq!(guard.close(), Err(latched("disk read error")));
    assert_eq!(guard.health_check(), Err(latched("disk read error")));
    assert_eq!(guard.message(), Some("disk read error".to_string()));
    // Only the lookup that found the corruption reached the store.
    assert_eq!(*seen.borrow(), vec!["get(x)".to_string()]);
}

#[test]
fn has_latches_on_corruption() {
    let (mut guard, seen) = guard_with_bad_block();
    assert_eq!(guard.has(b"x"), Err(latched("disk read error")));
    assert!(guard.is_corrupted());
    assert_eq!(guard.has(b"missing"), Err(latched("disk read error")));
    assert_eq!(*seen.borrow(), vec!["get(x)".to_string()]);
}

#[test]
fn latched_guard_refuses_iterators_without_asking() {
    let (mut guard, seen) = guard_with_bad_block();
    assert_eq!(guard.get(b"x"), Err(latched("disk read error")));
    let before = seen.borrow().len();
    assert_eq!(guard.new_iterator(), Err(latched("disk read error")));
    assert_eq!(guard.new_iterator_with_start(b"a"), Err(latched("disk read error")));
    assert_eq!(guard.new_iterator_with_prefix(b"a"), Err(latched("disk read error")));
    assert_eq!(
        guard.new_iterator_with_start_and_prefix(b"a", b"a"),
        Err(latched("disk read error"))
    );
    assert_eq!(seen.borrow().len(), before);
}

#[test]
fn latch_outlasts_a_long_run() {
    let (mut guard, seen) = guard_with_bad_block();
    assert_eq!(guard.put(b"k", b"v"), Ok(()));
    assert_eq!(guard.get(b"x"), Err(latched("disk read error")));
    for round in 0..50u8 {
        let key = [round];
        assert_eq!(guard.put(&key, b"v"), Err(latched("disk read error")));
        assert_eq!(guard.get(&key), Err(latched("disk read error")));
        assert_eq!(guard.has(&key), Err(latched("disk read error")));
        assert_eq!(guard.delete(&key), Err(latched("disk read error")));
        assert_eq!(guard.new_iterator(), Err(latched("disk read error")));
    }
    assert_eq!(guard.message(), Some("disk read error".to_string()));
    assert_eq!(*seen.borrow(), vec!["put(k,v)".to_string(), "get(x)".to_string()]);
}

#[test]
fn other_failures_pass_through_and_do_not_latch() {
    let (mut store, seen) = MemStore::new();
    store.broken = Some(Failure::Closed);
    let mut guard = Database::new(store);
    assert_eq!(guard.get(b"a"), Err(Error::Inner(Failure::Closed)));
    assert_eq!(guard.has(b"a"), Err(Error::Inner(Failure::Closed)));
    assert_eq!(guard.put(b"a", b"1"), Err(Error::Inner(Failure::Closed)));
    assert_eq!(guard.delete(b"a"), Err(Error::Inner(Failure::Closed)));
    assert_eq!(guard.close(), Err(Error::Inner(Failure::Closed)));
    assert_eq!(guard.health_check(), Err(Error::Inner(Failure::Closed)));
    assert!(!guard.is_corrupted());
    // Every one of them reached the store.
    assert_eq!(seen.borrow().len(), 6);
}

#[test]
fn not_found_from_other_operations_passes_through() {
    let (mut store, _seen) = MemStore::new();
    store.broken = Some(Failure::NotFound);
    let mut guard = Database::new(store);
    assert_eq!(guard.put(b"a", b"1"), Err(Error::Inner(Failure::NotFound)));
    assert_eq!(guard.delete(b"a"), Err(Error::Inner(Failure::NotFound)));
    assert_eq!(guard.close(), Err(Error::Inner(Failure::NotFound)));
    assert_eq!(guard.health_check(), Err(Error::Inner(Failure::NotFound)));
    assert_eq!(guard.has(b"a"), Ok(false));
    assert!(!guard.is_corrupted());
}

#[test]
fn every_classified_operation_can_latch() {
    // put, delete, close and health_check in turn, each on a fresh guard.
    for which in 0..4u8 {
        let (mut store, seen) = MemStore::new();
        store.broken = Some(Failure::Corrupt("bad block".to_string()));
        let mut guard = Database::new(store);
        let result = match which {
            0 => guard.put(b"a", b"1"),
            1 => guard.delete(b"a"),
            2 => guard.close(),
            _ => guard.health_check().map(|_| ()),
        };
        assert_eq!(result, Err(latched("bad block")));
        assert_eq!(guard.message(), Some("bad block".to_string()));
        assert_eq!(guard.get(b"a"), Err(latched("bad block")));
        assert_eq!(seen.borrow().len(), 1);
    }
}

#[test]
fn healthy_operations_reach_the_store_unchanged() {
    let (store, seen) = MemStore::new();
    let mut guard = Database::new(store);
    assert_eq!(guard.put(b"a", b"1"), Ok(()));
    assert_eq!(guard.health_check(), Ok(b"healthy".to_vec()));
    assert_eq!(guard.delete(b"a"), Ok(()));
    assert_eq!(guard.has(b"a"), Ok(false));
    assert_eq!(guard.close(), Ok(()));
    assert_eq!(
        *seen.borrow(),
        vec![
            "put(a,1)".to_string(),
            "health_check()".to_string(),
            "delete(a)".to_string(),
            "get(a)".to_string(),
            "close()".to_string(),
        ]
    );
}

#[test]
fn iterators_fill_missing_bounds_with_nothing() {
    let (mut store, seen) = MemStore::new();
    store.entries.insert(b"apple".to_vec(), b"1".to_vec());
    store.entries.insert(b"avocado".to_vec(), b"2".to_vec());
    store.entries.insert(b"banana".to_vec(), b"3".to_vec());
    let mut guard = Database::new(store);
    assert_eq!(
        guard.new_iterator(),
        Ok(vec![pair("apple", "1"), pair("avocado", "2"), pair("banana", "3")])
    );
    assert_eq!(
        guard.new_iterator_with_start(b"av"),
        Ok(vec![pair("avocado", "2"), pair("banana", "3")])
    );
    assert_eq!(
        guard.new_iterator_with_prefix(b"a"),
        Ok(vec![pair("apple", "1"), pair("avocado", "2")])
    );
    assert_eq!(
        guard.new_iterator_with_start_and_prefix(b"av", b"a"),
        Ok(vec![pair("avocado", "2")])
    );
    assert_eq!(
        *seen.borrow(),
        vec![
            "new_iterator_with_start_and_prefix(,)".to_string(),
            "new_iterator_with_start_and_prefix(av,)".to_string(),
            "new_iterator_with_start_and_prefix(,a)".to_string(),
            "new_iterator_with_start_and_prefix(av,a)".to_string(),
        ]
    );
}

#[test]
fn iterator_failure_is_not_classified() {
    let (mut store, seen) = MemStore::new();
    store.broken = Some(Failure::Corrupt("bad block".to_string()));
    let mut guard = Database::new(store);
    let expected = Err(Error::Inner(Failure::Corrupt("bad block".to_string())));
    assert_eq!(guard.new_iterator(), expected);
    assert_eq!(guard.new_iterator_with_start(b"a"), expected);
    assert_eq!(guard.new_iterator_with_prefix(b"a"), expected);
    assert_eq!(guard.new_iterator_with_start_and_prefix(b"a", b"b"), expected);
    assert!(!guard.is_corrupted());
    assert_eq!(seen.borrow().len(), 4);
    // The next classified operation sees the same failure and latches.
    assert_eq!(guard.get(b"a"), Err(latched("bad block")));
    assert!(guard.is_corrupted());
}

#[test]
fn empty_message_latches_too() {
    let (mut store, seen) = MemStore::new();
    store.bad_keys.insert(b"x".to_vec(), Failure::Corrupt(String::new()));
    let mut guard = Database::new(store);
    assert_eq!(guard.get(b"x"), Err(latched("")));
    assert!(guard.is_corrupted());
    assert_eq!(guard.message(), Some(String::new()));
    assert_eq!(guard.put(b"a", b"1"), Err(latched("")));
    assert_eq!(seen.borrow().len(), 1);
}

#[test]
fn guards_can_be_stacked() {
    let (inner, seen) = guard_with_bad_block();
    let mut outer = Database::new(inner);
    assert_eq!(outer.get(b"a"), Ok(b"1".to_vec()));
    assert_eq!(outer.has(b"missing"), Ok(false));
    assert_eq!(outer.get(b"missing"), Err(Error::Inner(Error::Inner(Failure::NotFound))));
    assert!(!outer.is_corrupted());
    // The inner guard latches and rejects; the outer one takes the rejection
    // for corruption and latches on the same message.
    assert_eq!(outer.get(b"x"), Err(latched("disk read error")));
    assert_eq!(outer.message(), Some("disk read error".to_string()));
    assert_eq!(outer.get(b"a"), Err(latched("disk read error")));
    assert_eq!(seen.borrow().len(), 4);
}

#[test]
fn classify_asks_about_corruption_first() {
    assert_eq!(
        classify(Failure::Corrupt("bad block".to_string())),
        Classified::Corruption("bad block".to_string())
    );
    assert_eq!(classify(Failure::NotFound), Classified::NotFound(Failure::NotFound));
    assert_eq!(classify(Failure::Closed), Classified::Other(Failure::Closed));
}

#[test]
fn from_answers_puts_corruption_first() {
    let both = Classified::from_answers(Failure::Closed, Some("bad block".to_string()), true);
    assert_eq!(both, Classified::Corruption("bad block".to_string()));
    let corrupt = Classified::from_answers(Failure::Closed, Some("bad block".to_string()), false);
    assert_eq!(corrupt, Classified::Corruption("bad block".to_string()));
    let absent = Classified::from_answers(Failure::NotFound, None, true);
    assert_eq!(absent, Classified::NotFound(Failure::NotFound));
    let other = Classified::from_answers(Failure::Closed, None, false);
    assert_eq!(other, Classified::Other(Failure::Closed));
}

#[test]
fn guard_error_is_a_fault() {
    let rejected: Error<Failure> = latched("bad block");
    assert_eq!(rejected.corruption(), Some("bad block".to_string()));
    assert!(!rejected.is_not_found());
    let absent = Error::Inner(Failure::NotFound);
    assert_eq!(absent.corruption(), None);
    assert!(absent.is_not_found());
    let corrupt = Error::Inner(Failure::Corrupt("m".to_string()));
    assert_eq!(corrupt.corruption(), Some("m".to_string()));
    assert!(!corrupt.is_not_found());
    let closed = Error::Inner(Failure::Closed);
    assert_eq!(closed.corruption(), None);
    assert!(!closed.is_not_found());
}

#[test]
fn forward_keeps_the_answer() {
    let fine: Result<u8, Failure> = Ok(3);
    assert_eq!(forward(fine), Ok(3));
    let corrupt: Result<u8, Failure> = Err(Failure::Corrupt("m".to_string()));
    assert_eq!(forward(corrupt), Err(Error::Inner(Failure::Corrupt("m".to_string()))));
    let absent: Result<u8, Failure> = Err(Failure::NotFound);
    assert_eq!(forward(absent), Err(Error::Inner(Failure::NotFound)));
}
