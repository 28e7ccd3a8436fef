use lessons::linked_list::List;

#[test]
fn test_basics() {
    let mut list = List::new();

    assert_eq!(list.pop(), None);

    list.push(1);
    list.push(2);
    list.push(3);

    assert_eq!(list.pop(), Some(3));
    assert_eq!(list.pop(), Some(2));

    list.push(4);
    list.push(5);
    assert_eq!(list.pop(), Some(5));
    assert_eq!(list.pop(), Some(4));

    assert_eq!(list.pop(), Some(1));
    assert_eq!(list.pop(), None);
}

#[test]
fn test_peek() {
    let mut list = List::new();
    list.push("who");
    list.push("am");
    list.push("i");

    assert_eq!(list.peek(), Some(&"i"));

    assert_eq!(list.pop(), Some("i"));
    assert_eq!(list.pop(), Some("am"));
    assert_eq!(list.pop(), Some("who"));

    list.push("whoami");
    if let Some(v) = list.peek_mut() {
        *v = "iamwho";
    }
    assert_eq!(list.pop(), Some("iamwho"));
}

#[test]
fn test_into_iter() {
    let mut list = List::new();
    list.push(1);
    list.push(2);
    list.push(3);

    let mut iter = list.into_iter();
    assert_eq!(iter.next(), Some(3));
    assert_eq!(iter.next(), Some(2));
    assert_eq!(iter.next(), Some(1));
}

#[test]
fn test_iter() {
    let mut list = List::new();
    list.push(1);
    list.push(2);
    list.push(3);

    let mut iter = list.iter();
    assert_eq!(iter.next(), Some(&3));
    assert_eq!(iter.next(), Some(&2));
    assert_eq!(iter.next(), Some(&1));
    assert_eq!(iter.next(), None);
}

#[test]
fn pops_return_pushes_in_reverse() {
    let values = [7u64, 0, 42, 7, u64::MAX, 13];
    let mut list = List::new();
    list.push(99);
    for v in values.iter() {
        list.push(*v);
    }
    for v in values.iter().rev() {
        assert_eq!(list.pop(), Some(*v));
    }
    assert_eq!(list.pop(), Some(99));
    assert_eq!(list.pop(), None);
}

#[test]
fn pop_on_new_list_is_none() {
    let mut list: List<String> = List::new();
    assert_eq!(list.pop(), None);
    assert_eq!(list.peek(), None);
    assert!(list.peek_mut().is_none());
    assert_eq!(list.pop(), None);
}

#[test]
fn peek_repeated_leaves_list_alone() {
    let mut list = List::new();
    list.push(10);
    list.push(20);
    for _ in 0..5 {
        assert_eq!(list.peek(), Some(&20));
    }
    assert_eq!(list.pop(), Some(20));
    assert_eq!(list.peek(), Some(&10));
    assert_eq!(list.pop(), Some(10));
    assert_eq!(list.peek(), None);
}

#[test]
fn peek_mut_change_is_popped() {
    let mut list = List::new();
    list.push(1);
    list.push(2);
    if let Some(v) = list.peek_mut() {
        *v *= 21;
    }
    assert_eq!(list.peek(), Some(&42));
    assert_eq!(list.pop(), Some(42));
    assert_eq!(list.pop(), Some(1));
    assert_eq!(list.pop(), None);
}

#[test]
fn iter_walks_head_to_tail_and_keeps_list() {
    let mut list = List::new();
    for v in 1..=4 {
        list.push(v);
    }
    let mut seen = Vec::new();
    let mut iter = list.iter();
    while let Some(v) = iter.next() {
        seen.push(*v);
    }
    assert_eq!(seen, vec![4, 3, 2, 1]);
    let mut again = list.iter();
    assert_eq!(again.next(), Some(&4));
    assert_eq!(list.pop(), Some(4));
    assert_eq!(list.pop(), Some(3));
    assert_eq!(list.pop(), Some(2));
    assert_eq!(list.pop(), Some(1));
    assert_eq!(list.pop(), None);
}

#[test]
fn iter_on_empty_list_ends_at_once() {
    let list: List<u8> = List::new();
    let mut iter = list.iter();
    assert_eq!(iter.next(), None);
    assert_eq!(iter.next(), None);
}

#[test]
fn into_iter_follows_pop_order_and_ends() {
    let mut list = List::new();
    for v in ["a", "b", "c", "d"] {
        list.push(String::from(v));
    }
    let mut iter = list.into_iter();
    let mut out = Vec::new();
    while let Some(v) = iter.next() {
        out.push(v);
    }
    assert_eq!(out, vec!["d", "c", "b", "a"]);
    assert_eq!(iter.next(), None);
}

#[test]
fn long_list_is_dropped_without_deep_recursion() {
    let mut list = List::new();
    for i in 0..100_000u32 {
        list.push(i);
    }
    assert_eq!(list.peek(), Some(&99_999));
    drop(list);
}

#[test]
fn long_list_left_to_drop_after_partial_drain() {
    let mut list = List::new();
    for i in 0..200_000u64 {
        list.push(i);
    }
    let mut iter = list.into_iter();
    assert_eq!(iter.next(), Some(199_999));
    assert_eq!(iter.next(), Some(199_998));
}
