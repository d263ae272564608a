use minigrep::basics;
use minigrep::borrow;
use minigrep::coins::{
    add_fancy_hat, move_player, plus_one, remove_fancy_hat, value_in_cents, value_in_cents_3,
    Coin, Message, Moneda, Provincia,
};
use minigrep::owner;
use minigrep::rect::{area_1, area_2, area_3, Rectangle};
use minigrep::text::{line_contains, lower_char, str_eq};
use minigrep::user::build_user;
use minigrep::words::{first_word, first_word_word};

#[test]
fn ownership_helpers() {
    assert_eq!(owner::gives_ownership(), "yours");
    assert_eq!(owner::takes_and_gives_back(String::from("hello")), "hello");
    let (s, len) = owner::calculate_length(String::from("hello"));
    assert_eq!(s, "hello");
    assert_eq!(len, 5);
}

#[test]
fn borrowing_helpers() {
    assert_eq!(borrow::calculate_length(&String::from("hello")), 5);
    let mut s = String::from("hello");
    borrow::change(&mut s);
    assert_eq!(s, "hello, worldo");
    assert_eq!(borrow::no_dangle(), "hello");
}

#[test]
fn first_word_by_index() {
    assert_eq!(first_word(&String::from("hello worldo")), 5);
    assert_eq!(first_word(&String::from("nospace")), 7);
    assert_eq!(first_word(&String::from(" leading")), 0);
}

#[test]
fn first_word_by_slice() {
    assert_eq!(first_word_word("hello world"), "hello");
    assert_eq!(first_word_word("nospace"), "nospace");
    assert_eq!(first_word_word(""), "");
}

#[test]
fn building_a_user() {
    let u = build_user(String::from("lol@lol.com"), String::from("loler"));
    assert!(u.active);
    assert_eq!(u.email, "lol@lol.com");
    assert_eq!(u.username, "loler");
    assert_eq!(u.sign_in_count, 1);
}

#[test]
fn rectangle_areas_agree() {
    let r = Rectangle {
        width: 30,
        height: 50,
    };
    assert_eq!(r.area(), 1500);
    assert_eq!(area_1(30, 50), 1500);
    assert_eq!(area_2((30, 50)), 1500);
    assert_eq!(area_3(&r), 1500);
}

#[test]
fn rectangle_predicates() {
    let r1 = Rectangle {
        width: 30,
        height: 50,
    };
    let r2 = Rectangle {
        width: 10,
        height: 40,
    };
    let r3 = Rectangle {
        width: 60,
        height: 45,
    };
    assert!(r1.width());
    assert!(r1.height());
    assert!(r1.can_hold(&r2));
    assert!(!r1.can_hold(&r3));
    let sq = Rectangle::square(3);
    assert_eq!(sq.area(), 9);
}

#[test]
fn coin_values() {
    assert_eq!(value_in_cents(&Coin::Penny), 1);
    assert_eq!(value_in_cents(&Coin::Nickel), 5);
    assert_eq!(value_in_cents(&Coin::Dime), 10);
    assert_eq!(value_in_cents(&Coin::Quarter), 25);
    assert_eq!(value_in_cents_3(&Moneda::Quarter(Provincia::Cocle)), 25);
    assert_eq!(value_in_cents_3(&Moneda::Dime), 10);
}

#[test]
fn message_call_and_hat_actions_run() {
    Message::Quit.call();
    Message::Move { x: 1, y: 2 }.call();
    Message::Write(String::from("hello")).call();
    Message::ChangeColor(1, 2, 3).call();
    add_fancy_hat();
    remove_fancy_hat();
    move_player(9);
}

#[test]
fn option_plus_one() {
    assert_eq!(plus_one(Some(5)), Some(6));
    assert_eq!(plus_one(None), None);
}

#[test]
fn basic_functions() {
    assert_eq!(basics::five(), 5);
    assert_eq!(basics::plus_one(5), 6);
    basics::plus_one_unit(5);
}

#[test]
fn text_helpers() {
    assert_eq!(lower_char('A'), 'a');
    assert_eq!(lower_char('z'), 'z');
    assert_eq!(lower_char('!'), '!');
    assert!(str_eq("same", "same"));
    assert!(!str_eq("same", "sane"));
    assert!(!str_eq("same", "sam"));
    assert!(line_contains("hello world", "wor", true));
    assert!(!line_contains("hello world", "WOR", true));
    assert!(line_contains("hello world", "WOR", false));
    assert!(line_contains("anything", "", true));
    assert!(!line_contains("", "x", true));
}
