use my_rust_course::myrust::MyPrint;
use my_rust_course::mysorting::{sort_bubble, sort_insert};

#[test]
fn bubble_sort_trace() {
    let mut p = MyPrint::new();
    sort_bubble(&mut p);
    assert_eq!(
        p.flush(),
        "0: [5, 1, 4, 2, 8]\n1: [1, 4, 2, 5, 8]\n2: [1, 2, 4, 5, 8]\n3: [1, 2, 4, 5, 8]\n4: [1, 2, 4, 5, 8]\n5: [1, 2, 4, 5, 8]\n"
    );
}

#[test]
fn insertion_sort_trace() {
    let mut p = MyPrint::new();
    sort_insert(&mut p);
    assert_eq!(
        p.flush(),
        "0: [5, 1, 4, 2, 8]\n1: [1, 5, 4, 2, 8]\n2: [1, 4, 5, 2, 8]\n3: [1, 2, 4, 5, 8]\n4: [1, 2, 4, 5, 8]\n"
    );
}

#[test]
fn sorts_agree_and_sort() {
    let mut a = MyPrint::new();
    sort_bubble(&mut a);
    let mut b = MyPrint::new();
    sort_insert(&mut b);
    let last_a = a.get().lines().last().unwrap().to_string();
    let last_b = b.get().lines().last().unwrap().to_string();
    assert_eq!(last_a[3..], last_b[3..]);
    assert_eq!(&last_a[3..], "[1, 2, 4, 5, 8]");
}

#[test]
fn sorting_appends_to_earlier_output() {
    let mut p = MyPrint::new();
    p.print("before\n");
    sort_insert(&mut p);
    assert!(p.get().starts_with("before\n0: [5, 1, 4, 2, 8]\n"));
}
