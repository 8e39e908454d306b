use nmrs_tui::ui::list::StatefulList;

#[test]
fn new_list_selects_first_row() {
    let l = StatefulList::new(vec![1, 2, 3]);
    assert_eq!(l.selected, Some(0));
    let e: StatefulList<u8> = StatefulList::new(Vec::new());
    assert_eq!(e.selected, Some(0));
}

#[test]
fn next_wraps_to_the_top() {
    let mut l = StatefulList::new(vec!['a', 'b', 'c']);
    l.next();
    assert_eq!(l.selected, Some(1));
    l.next();
    l.next();
    assert_eq!(l.selected, Some(0));
}

#[test]
fn previous_wraps_to_the_bottom() {
    let mut l = StatefulList::new(vec!['a', 'b', 'c']);
    l.previous();
    assert_eq!(l.selected, Some(2));
    l.previous();
    assert_eq!(l.selected, Some(1));
}

#[test]
fn next_then_previous_returns() {
    let mut l = StatefulList::new(vec![10, 20, 30, 40]);
    for start in 0..4 {
        l.selected = Some(start);
        l.next();
        l.previous();
        assert_eq!(l.selected, Some(start));
        l.previous();
        l.next();
        assert_eq!(l.selected, Some(start));
    }
}

#[test]
fn empty_list_does_not_move() {
    let mut l: StatefulList<u8> = StatefulList::new(Vec::new());
    l.next();
    assert_eq!(l.selected, Some(0));
    l.selected = None;
    l.previous();
    assert_eq!(l.selected, None);
}

#[test]
fn none_selection_moves_to_first() {
    let mut l = StatefulList::new(vec![1, 2]);
    l.selected = None;
    l.next();
    assert_eq!(l.selected, Some(0));
    l.selected = None;
    l.previous();
    assert_eq!(l.selected, Some(0));
}

#[test]
fn set_items_keeps_or_resets_selection() {
    let mut l = StatefulList::new(vec![1, 2, 3, 4]);
    l.selected = Some(2);
    l.set_items(vec![5, 6, 7]);
    assert_eq!(l.selected, Some(2));
    assert_eq!(l.items, vec![5, 6, 7]);
    l.set_items(vec![8, 9]);
    assert_eq!(l.selected, Some(0));
    l.selected = None;
    l.set_items(vec![1]);
    assert_eq!(l.selected, Some(0));
}
