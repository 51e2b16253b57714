use module_cache::ascending::sorted;

#[test]
fn sorted_of_nothing() {
    assert_eq!(sorted(&vec![]), Vec::<u64>::new());
}

#[test]
fn sorted_of_one() {
    assert_eq!(sorted(&vec![5]), vec![5]);
}

#[test]
fn sorted_keeps_what_occurs_twice() {
    assert_eq!(sorted(&vec![3, 1, 3, 2, 1]), vec![1, 1, 2, 3, 3]);
}

#[test]
fn sorted_of_descending_numbers() {
    assert_eq!(sorted(&vec![u64::MAX, 9, 8, 1, 0]), vec![0, 1, 8, 9, u64::MAX]);
}

#[test]
fn sorted_leaves_its_input_alone() {
    let items = vec![2, 1];
    let _ = sorted(&items);
    assert_eq!(items, vec![2, 1]);
}

#[test]
fn sorted_agrees_with_the_standard_sort() {
    let mut items: Vec<u64> = vec![];
    let mut n: u64 = 12345;
    for _ in 0..200 {
        n = n.wrapping_mul(6364136223846793005).wrapping_add(1442695040888963407);
        items.push(n % 50);
    }
    let mut expected = items.clone();
    expected.sort();
    assert_eq!(sorted(&items), expected);
}
