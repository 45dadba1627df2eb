use lang_tour::linked_list::List;

#[test]
fn empty_list_has_length_zero_and_renders_nil() {
    let list = List::new();
    assert_eq!(list.len(), 0);
    assert_eq!(list.stringify(), "Nil");
}

#[test]
fn three_prepends_render_in_reverse_insertion_order() {
    let mut list = List::new();
    list = list.prepend(1);
    list = list.prepend(2);
    list = list.prepend(3);
    assert_eq!(list.len(), 3);
    assert_eq!(list.stringify(), "3, 2, 1, Nil");
}

#[test]
fn length_counts_every_prepend() {
    let mut list = List::new();
    for i in 0..10 {
        list = list.prepend(i);
        assert_eq!(list.len(), (i + 1) as usize);
    }
}

#[test]
fn negative_elements_render_with_their_sign() {
    let list = List::new().prepend(-7).prepend(0).prepend(42);
    assert_eq!(list.stringify(), "42, 0, -7, Nil");
}

#[test]
fn read_only_operations_are_idempotent() {
    let list = List::new().prepend(5).prepend(9);
    assert_eq!(list.len(), list.len());
    assert_eq!(list.stringify(), list.stringify());
    assert_eq!(list.len(), 2);
    assert_eq!(list.stringify(), "9, 5, Nil");
}
