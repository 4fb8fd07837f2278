use rust_basics::borrowing;
use rust_basics::ip_addr::{route, IpAddrKind};
use rust_basics::ownership;
use rust_basics::rectangle::{area, area_struct, area_tuple, Rectangle};
use rust_basics::slices::{first_word, first_word_slice, first_word_slice_as_parameter};
use rust_basics::user::build_user;

#[test]
fn ownership_moves() {
    assert_eq!(ownership::gives_ownership(), "zenus");
    assert_eq!(ownership::takes_and_gives_back(String::from("hello")), "hello");
    let (s, len) = ownership::calculate_length(String::from("grazia"));
    assert_eq!(s, "grazia");
    assert_eq!(len, 6);
}

#[test]
fn lengths_count_bytes() {
    assert_eq!(borrowing::calculate_length(&String::from("hello")), 5);
    assert_eq!(borrowing::calculate_length(&String::new()), 0);
    assert_eq!(borrowing::calculate_length(&String::from("héllo")), 6);
}

#[test]
fn mutable_borrow_appends() {
    let mut s = String::from("hello");
    borrowing::change_mut_string(&mut s);
    assert_eq!(s, "hello, world!");
}

#[test]
fn dangle_returns_owned_hello() {
    assert_eq!(borrowing::dangle(), "hello");
}

#[test]
fn first_word_positions() {
    assert_eq!(first_word(&String::from("hello world")), 5);
    assert_eq!(first_word(&String::from("hello")), 5);
    assert_eq!(first_word(&String::new()), 0);
    assert_eq!(first_word(&String::from(" lead")), 0);
}

#[test]
fn first_word_slices() {
    let s = String::from("hello world, I'm your ruler!");
    assert_eq!(first_word_slice(&s), "hello");
    assert_eq!(first_word_slice(&String::from("alone")), "alone");
    assert_eq!(first_word_slice_as_parameter("hello literal"), "hello");
    assert_eq!(first_word_slice_as_parameter("héllo wörld"), "héllo");
    assert_eq!(first_word_slice_as_parameter(""), "");
}

#[test]
fn rectangle_methods() {
    let rect1 = Rectangle { width: 50, height: 30 };
    let rect2 = Rectangle { width: 40, height: 20 };
    let rect3 = Rectangle { width: 50, height: 60 };
    assert_eq!(rect1.area(), 1500);
    assert!(rect1.can_hold(&rect2));
    assert!(!rect1.can_hold(&rect3));
    assert!(!rect1.can_hold(&rect1));
    let sq = Rectangle::square(30);
    assert_eq!(sq, Rectangle { width: 30, height: 30 });
    assert_eq!(sq.area(), 900);
}

#[test]
fn area_functions() {
    assert_eq!(area(50, 30), 1500);
    assert_eq!(area_tuple((50, 30)), 1500);
    assert_eq!(area_struct(&Rectangle { width: 30, height: 30 }), 900);
    assert_eq!(area(0, 7), 0);
}

#[test]
fn built_user_fields() {
    let user = build_user(String::from("aaa@bbb.com"), String::from("aaabbb"));
    assert_eq!(user.email, "aaa@bbb.com");
    assert_eq!(user.username, "aaabbb");
    assert!(!user.active);
    assert_eq!(user.sign_in_count, 2);
}

#[test]
fn route_accepts_both_kinds() {
    route(IpAddrKind::V4);
    route(IpAddrKind::V6);
}
