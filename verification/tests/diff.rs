use iter_diff::Diff;
use iter_diff::DiffIter;
use iter_diff::IterDiff;

#[test]
fn remove() {
    let a = vec![0, 1, 2, 4];
    let b = vec![0, 2];

    let diffs = a.iter_diff(b).collect();
    assert_eq!(diffs.len(), 4);

    assert_eq!(diffs[0], Diff::Keep);
    assert_eq!(diffs[1], Diff::Change(2));
    assert_eq!(diffs[2], Diff::Remove);
    assert_eq!(diffs[3], Diff::Remove);
}

#[test]
fn add() {
    let a = vec![0, 2];
    let b = vec![0, 1, 2, 4];

    let diffs = a.iter_diff(b).collect();
    assert_eq!(diffs.len(), 4);

    assert_eq!(diffs[0], Diff::Keep);
    assert_eq!(diffs[1], Diff::Change(1));
    assert_eq!(diffs[2], Diff::Add(2));
    assert_eq!(diffs[3], Diff::Add(4));
}

#[test]
fn multi_change() {
    let a = vec![0, 1, 2, 3];
    let b = vec![0, 3, 1, 3];

    let diffs = a.iter_diff(b).collect();
    assert_eq!(diffs.len(), 4);

    assert_eq!(diffs[0], Diff::Keep);
    assert_eq!(diffs[1], Diff::Change(3));
    assert_eq!(diffs[2], Diff::Change(1));
    assert_eq!(diffs[3], Diff::Keep);
}

struct TestInt(i32);

impl PartialEq<i32> for TestInt {
    fn eq(&self, other: &i32) -> bool {
        self.0 == *other
    }
}

#[test]
fn add_mixed() {
    let a = vec![TestInt(0), TestInt(2)];
    let b = vec![0, 1, 2, 4];

    let diffs = a.iter_diff(b).collect();
    assert_eq!(diffs.len(), 4);

    assert_eq!(diffs[0], Diff::Keep);
    assert_eq!(diffs[1], Diff::Change(1));
    assert_eq!(diffs[2], Diff::Add(2));
    assert_eq!(diffs[3], Diff::Add(4));
}

#[test]
fn keep_and_change_then_remove() {
    let a = vec![0, 1, 2, 3];
    let b = vec![0, 2, 2];

    let diffs = a.iter_diff(b).collect();
    assert_eq!(diffs.len(), 4);

    assert_eq!(diffs[0], Diff::Keep);
    assert_eq!(diffs[1], Diff::Change(2));
    assert_eq!(diffs[2], Diff::Keep);
    assert_eq!(diffs[3], Diff::Remove);
}

#[test]
fn keep_and_change_then_add() {
    let a = vec![0, 1, 2];
    let b = vec![0, 3, 2, 3];

    let diffs = a.iter_diff(b).collect();
    assert_eq!(diffs.len(), 4);

    assert_eq!(diffs[0], Diff::Keep);
    assert_eq!(diffs[1], Diff::Change(3));
    assert_eq!(diffs[2], Diff::Keep);
    assert_eq!(diffs[3], Diff::Add(3));
}

#[test]
fn length_is_longer_input() {
    let a = vec![9, 9, 9, 9, 9];
    let b = vec![9, 9];
    assert_eq!(a.iter_diff(b).collect().len(), 5);

    let a = vec![9, 9];
    let b = vec![9, 9, 9, 9, 9];
    assert_eq!(a.iter_diff(b).collect().len(), 5);
}

#[test]
fn equal_inputs_all_keep() {
    let a = vec![4, 5, 6];
    let b = vec![4, 5, 6];

    let diffs = a.iter_diff(b).collect();
    assert_eq!(diffs, vec![Diff::Keep, Diff::Keep, Diff::Keep]);
}

#[test]
fn empty_lhs_all_add_in_order() {
    let a: Vec<i32> = vec![];
    let b = vec![7, 8, 9];

    let diffs = a.iter_diff(b).collect();
    assert_eq!(diffs, vec![Diff::Add(7), Diff::Add(8), Diff::Add(9)]);
}

#[test]
fn empty_rhs_all_remove() {
    let a = vec![7, 8, 9];
    let b: Vec<i32> = vec![];

    let diffs = a.iter_diff(b).collect();
    assert_eq!(diffs, vec![Diff::Remove, Diff::Remove, Diff::Remove]);
}

#[test]
fn both_empty_no_edits() {
    let a: Vec<i32> = vec![];
    let b: Vec<i32> = vec![];

    let diffs = a.iter_diff(b).collect();
    assert_eq!(diffs, vec![]);
}

#[test]
fn change_carries_right_element() {
    let a = vec![1];
    let b = vec![2];

    let diffs = a.iter_diff(b).collect();
    assert_eq!(diffs, vec![Diff::Change(2)]);
}

#[test]
fn rerun_yields_identical_edits() {
    let first = vec![3, 1, 4, 1, 5].iter_diff(vec![3, 1, 4, 2]).collect();
    let second = vec![3, 1, 4, 1, 5].iter_diff(vec![3, 1, 4, 2]).collect();
    assert_eq!(first, second);
}

struct NearTen(i32);

impl PartialEq<i32> for NearTen {
    fn eq(&self, other: &i32) -> bool {
        self.0 % 10 == *other % 10
    }
}

#[test]
fn custom_relation_decides_keep() {
    let a = vec![NearTen(12), NearTen(25)];
    let b = vec![2, 6];

    let diffs = a.iter_diff(b).collect();
    assert_eq!(diffs, vec![Diff::Keep, Diff::Change(6)]);
}

#[test]
fn next_steps_through_positions() {
    let mut engine = DiffIter::new(vec![0, 1], vec![0, 2, 3]);
    assert_eq!(engine.remaining_len(), 3);

    assert_eq!(engine.next(), Some(Diff::Keep));
    assert_eq!(engine.next(), Some(Diff::Change(2)));
    assert_eq!(engine.remaining_len(), 1);
    assert_eq!(engine.next(), Some(Diff::Add(3)));
    assert_eq!(engine.remaining_len(), 0);
    assert_eq!(engine.next(), None);
}

#[test]
fn exhausted_engine_stays_exhausted() {
    let mut engine = DiffIter::new(vec![1], vec![1]);
    assert_eq!(engine.next(), Some(Diff::Keep));
    assert_eq!(engine.next(), None);
    assert_eq!(engine.next(), None);
    assert_eq!(engine.next(), None);
    assert_eq!(engine.remaining_len(), 0);
}
