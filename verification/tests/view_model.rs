use bbs_post::popover_view_model::{checkbox_sage, checkbox_state, PopoverViewModel};
use std::cell::RefCell;
use std::rc::Rc;

#[test]
fn new_form_has_sage_on() {
    let vm: PopoverViewModel<fn(String)> = PopoverViewModel::new();
    assert!(vm.get_sage());
}

#[test]
fn sage_follows_the_switch() {
    let mut vm: PopoverViewModel<fn(String)> = PopoverViewModel::new();
    vm.set_sage(false);
    assert!(!vm.get_sage());
    vm.set_sage(true);
    assert!(vm.get_sage());
}

#[test]
fn post_hands_out_what_was_typed_and_clears_the_comment() {
    let mut vm: PopoverViewModel<fn(String)> = PopoverViewModel::new();
    vm.set_url("https://bbs.jpnkn.com/progre/".to_string());
    vm.set_comment("hello".to_string());
    let first = vm.on_post_clicked();
    assert_eq!(first.url, "https://bbs.jpnkn.com/progre/");
    assert_eq!(first.name, "");
    assert_eq!(first.email, "sage");
    assert_eq!(first.comment, "hello");
    let second = vm.on_post_clicked();
    assert_eq!(second.url, "https://bbs.jpnkn.com/progre/");
    assert_eq!(second.email, "sage");
    assert_eq!(second.comment, "");
}

#[test]
fn post_without_sage_has_an_empty_mail() {
    let mut vm: PopoverViewModel<fn(String)> = PopoverViewModel::new();
    vm.set_sage(false);
    vm.set_comment("x".to_string());
    let s = vm.on_post_clicked();
    assert_eq!(s.email, "");
    assert_eq!(s.comment, "x");
    assert_eq!(s.url, "");
    assert!(!vm.get_sage());
}

#[test]
fn observer_is_told_of_every_comment() {
    let seen: Rc<RefCell<Vec<String>>> = Rc::new(RefCell::new(Vec::new()));
    let sink = seen.clone();
    let mut vm = PopoverViewModel::new();
    vm.set_comment("before".to_string());
    vm.subscribe_comment(move |text: String| sink.borrow_mut().push(text));
    vm.set_comment("one".to_string());
    vm.set_comment("two".to_string());
    let s = vm.on_post_clicked();
    assert_eq!(s.comment, "two");
    assert_eq!(
        *seen.borrow(),
        vec!["one".to_string(), "two".to_string(), String::new()]
    );
}

#[test]
fn checkbox_state_stands_for_the_switch() {
    assert_eq!(checkbox_state(true), 1);
    assert_eq!(checkbox_state(false), 0);
    assert!(checkbox_sage(1));
    assert!(!checkbox_sage(0));
    assert!(!checkbox_sage(-1));
    assert!(!checkbox_sage(2));
    assert!(checkbox_sage(checkbox_state(true)));
    assert!(!checkbox_sage(checkbox_state(false)));
}
