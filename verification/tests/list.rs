use fontview::list::StatefulList;

fn letters(n: usize) -> Vec<char> {
    "abcdefghij".chars().take(n).collect()
}

#[test]
fn new_puts_the_cursor_on_the_first_item() {
    let list = StatefulList::new(letters(3));
    assert_eq!(list.selected_index(), Some(0));
    assert_eq!(list.selected(), Some(&'a'));
    assert_eq!(list.len(), 3);
    assert!(!list.is_empty());
    assert_eq!(list.items(), &vec!['a', 'b', 'c']);
}

#[test]
fn new_on_no_items_has_no_cursor() {
    let list: StatefulList<char> = StatefulList::new(Vec::new());
    assert_eq!(list.selected_index(), None);
    assert_eq!(list.selected(), None);
    assert_eq!(list.len(), 0);
    assert!(list.is_empty());
}

#[test]
fn next_advances_by_one() {
    let mut list = StatefulList::new(letters(3));
    list.next();
    assert_eq!(list.selected_index(), Some(1));
    assert_eq!(list.selected(), Some(&'b'));
    list.next();
    assert_eq!(list.selected_index(), Some(2));
    assert_eq!(list.selected(), Some(&'c'));
}

#[test]
fn next_wraps_from_the_last_item_to_the_first() {
    let mut list = StatefulList::new(letters(3));
    list.next();
    list.next();
    list.next();
    assert_eq!(list.selected_index(), Some(0));
}

#[test]
fn prev_wraps_from_the_first_item_to_the_last() {
    let mut list = StatefulList::new(letters(3));
    list.prev();
    assert_eq!(list.selected_index(), Some(2));
    assert_eq!(list.selected(), Some(&'c'));
    list.prev();
    assert_eq!(list.selected_index(), Some(1));
}

#[test]
fn as_many_steps_down_as_items_return_to_the_start() {
    for len in 1..=7usize {
        for start in 0..len {
            let mut list = StatefulList::new(letters(len));
            for _ in 0..start {
                list.next();
            }
            assert_eq!(list.selected_index(), Some(start));
            for _ in 0..len {
                list.next();
            }
            assert_eq!(list.selected_index(), Some(start));
        }
    }
}

#[test]
fn a_step_down_and_a_step_up_cancel() {
    for len in 1..=5usize {
        for start in 0..len {
            let mut list = StatefulList::new(letters(len));
            for _ in 0..start {
                list.next();
            }
            list.next();
            list.prev();
            assert_eq!(list.selected_index(), Some(start));
            list.prev();
            list.next();
            assert_eq!(list.selected_index(), Some(start));
        }
    }
}

#[test]
fn steps_on_an_empty_list_do_nothing() {
    let mut list: StatefulList<u8> = StatefulList::new(Vec::new());
    for _ in 0..10 {
        list.next();
        assert_eq!(list.selected_index(), None);
        assert_eq!(list.len(), 0);
    }
    for _ in 0..10 {
        list.prev();
        assert_eq!(list.selected_index(), None);
        assert_eq!(list.selected(), None);
    }
}

#[test]
fn a_single_item_stays_selected() {
    let mut list = StatefulList::new(vec![42u8]);
    list.next();
    assert_eq!(list.selected(), Some(&42));
    list.prev();
    assert_eq!(list.selected_index(), Some(0));
}

#[test]
fn replace_items_resets_the_cursor_to_the_first_item() {
    let mut list = StatefulList::new(letters(5));
    list.next();
    list.next();
    list.next();
    assert_eq!(list.selected_index(), Some(3));
    list.replace_items(vec!['x', 'y']);
    assert_eq!(list.selected_index(), Some(0));
    assert_eq!(list.selected(), Some(&'x'));
    assert_eq!(list.items(), &vec!['x', 'y']);
}

#[test]
fn replace_items_never_leaves_the_cursor_out_of_bounds() {
    for before in 0..5usize {
        for after in 0..5usize {
            let mut list = StatefulList::new(letters(before));
            list.prev();
            list.replace_items(letters(after));
            assert_eq!(list.len(), after);
            match list.selected_index() {
                Some(i) => assert!(i < after),
                None => assert_eq!(after, 0),
            }
            assert_eq!(list.selected_index(), if after > 0 { Some(0) } else { None });
        }
    }
}

#[test]
fn replace_items_with_nothing_removes_the_cursor() {
    let mut list = StatefulList::new(letters(4));
    list.replace_items(Vec::new());
    assert_eq!(list.selected_index(), None);
    assert_eq!(list.selected(), None);
    list.next();
    assert_eq!(list.selected_index(), None);
}
