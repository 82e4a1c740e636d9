use rs_mytools::{CowCell, FieldSplit, MutShared, SelfRef, SplitBorrow, TakeReplace};

#[test]
fn take_leaves_default() {
    let mut v: Vec<u32> = vec![1, 2, 3];
    let taken = v.take();
    assert_eq!(taken, vec![1, 2, 3]);
    assert!(v.is_empty());
}

#[test]
fn replace_returns_previous() {
    let mut s = String::from("old");
    let prev = TakeReplace::replace(&mut s, String::from("new"));
    assert_eq!(prev, "old");
    assert_eq!(s, "new");
}

#[test]
fn update_applies_function() {
    let mut n: u64 = 20;
    TakeReplace::update(&mut n, |x| x * 2 + 1);
    assert_eq!(n, 41);
}

#[test]
fn self_ref_with_mut_then_with() {
    let mut cell = SelfRef::new(10);
    cell.with_mut(|v: &mut i32| *v += 1);
    assert_eq!(*cell.borrow(), 11);
    let seen = cell.with(|v: &i32| *v);
    assert_eq!(seen, 11);
    // nothing is left borrowed: a fresh exclusive borrow is granted
    *cell.borrow_mut() = 12;
    assert_eq!(*cell.borrow(), 12);
}

#[test]
fn self_ref_exclusive_borrow_again_after_release() {
    let mut cell = SelfRef::new(vec![1u8]);
    {
        let first = cell.borrow_mut();
        first.push(2);
    }
    let second = cell.borrow_mut();
    second.push(3);
    assert_eq!(*cell.borrow(), vec![1u8, 2, 3]);
}

#[test]
fn self_ref_default_holds_default() {
    let cell: SelfRef<u32> = SelfRef::default();
    assert_eq!(*cell.borrow(), 0);
}

#[test]
fn field_split_disjoint_fields() {
    let mut pair = (1u32, String::from("a"));
    {
        let mut split = FieldSplit::new(&mut pair);
        *split.field(|p: &mut (u32, String)| &mut p.0) += 41;
        split.field(|p: &mut (u32, String)| &mut p.1).push('b');
        assert_eq!(*split.field(|p: &mut (u32, String)| &mut p.0), 42);
    }
    assert_eq!(pair, (42, String::from("ab")));
}

#[test]
fn split_pair_and_triple() {
    let mut pair = (1u8, 2u8);
    let (a, b) = pair.split();
    *a = 10;
    *b = 20;
    assert_eq!(pair, (10, 20));
    let mut triple = (1u8, 'x', false);
    let (x, y, z) = triple.split();
    *x += 1;
    *y = 'y';
    *z = true;
    assert_eq!(triple, (2, 'y', true));
}

#[test]
fn cow_cell_with_cow_replaces_by_copy() {
    let mut cell = CowCell::new(vec![1, 2]);
    let len = cell.with_cow(
        |v: &Vec<i32>| {
            let mut c = v.clone();
            c.push(3);
            c
        },
        |v: &mut Vec<i32>| {
            v.push(4);
            v.len()
        },
    );
    assert_eq!(len, 4);
    assert_eq!(*cell.get(), vec![1, 2, 3, 4]);
    cell.get_mut().clear();
    assert!(cell.get().is_empty());
}

#[test]
fn mut_shared_get_returns_last_set() {
    let mut c = MutShared::new(5i64);
    assert_eq!(c.get(), 5);
    c.set(7);
    assert_eq!(c.get(), 7);
    c.set(-3);
    c.set(9);
    assert_eq!(c.get(), 9);
}

#[test]
fn mut_shared_update_applies_function() {
    let mut c = MutShared::new(6u32);
    c.update(|v| v * 7);
    assert_eq!(c.get(), 42);
}

#[test]
fn field_split_finish_keeps_untouched_field() {
    let mut triple = (1u8, 2u8, 3u8);
    let mut split = FieldSplit::new(&mut triple);
    *split.field(|p: &mut (u8, u8, u8)| &mut p.2) = 30;
    split.finish();
    assert_eq!(triple, (1, 2, 30));
}
