//! Enums and pattern matching: coin denominations, a coin type that carries
//! data in one variant, and a message type with several payload shapes.

use vstd::prelude::*;

verus! {

/// A coin denomination.
#[derive(Clone, Copy, PartialEq, Eq, Structural)]
pub enum Coin {
    Penny,
    Nickel,
    Dime,
    Quarter,
}

/// Value of a coin in cents.
pub open spec fn coin_value(coin: Coin) -> u8 {
    match coin {
        Coin::Penny => 1,
        Coin::Nickel => 5,
        Coin::Dime => 10,
        Coin::Quarter => 25,
    }
}

/// Returns the value of the coin in cents.
pub fn value_in_cents(coin: &Coin) -> (v: u8)
    ensures
        v == coin_value(*coin),
{
    match coin {
        Coin::Penny => 1,
        Coin::Nickel => 5,
        Coin::Dime => 10,
        Coin::Quarter => 25,
    }
}

/// A province, stamped on some quarters.
#[derive(Clone, Copy, PartialEq, Eq, Structural)]
pub enum Provincia {
    BocasDelToro,
    Cocle,
}

/// A coin denomination whose quarter variant carries the issuing province.
#[derive(Clone, Copy, PartialEq, Eq, Structural)]
pub enum Moneda {
    Penny,
    Nickel,
    Dime,
    Quarter(Provincia),
}

/// Value of a stamped coin in cents; the province does not change the value.
pub open spec fn moneda_value(moneda: Moneda) -> u8 {
    match moneda {
        Moneda::Penny => 1,
        Moneda::Nickel => 5,
        Moneda::Dime => 10,
        Moneda::Quarter(_) => 25,
    }
}

/// Returns the value of the stamped coin in cents.
pub fn value_in_cents_3(moneda: &Moneda) -> (v: u8)
    ensures
        v == moneda_value(*moneda),
{
    match moneda {
        Moneda::Penny => 1,
        Moneda::Nickel => 5,
        Moneda::Dime => 10,
        Moneda::Quarter(_prov) => 25,
    }
}

/// A message whose variants carry different payload shapes.
pub enum Message {
    Quit,
    Move { x: i32, y: i32 },
    Write(String),
    ChangeColor(i32, i32, i32),
}

impl Message {
    /// Receives the message; the call has no externally visible effect.
    pub fn call(&self) {
    }
}

/// Adds one inside the option, keeping `None` as `None`.
pub fn plus_one(x: Option<i32>) -> (r: Option<i32>)
    requires
        x is Some ==> x->0 < i32::MAX,
    ensures
        x is None ==> r is None,
        x is Some ==> r is Some && r->0 == x->0 + 1,
{
    match x {
        None => None,
        Some(i) => Some(i + 1),
    }
}

/// Dice-roll reward: puts the fancy hat on; no observable effect here.
pub fn add_fancy_hat() {
}

/// Dice-roll penalty: takes the fancy hat off; no observable effect here.
pub fn remove_fancy_hat() {
}

/// Dice-roll default: moves the player; no observable effect here.
pub fn move_player(_num_spaces: u8) {
}

} // verus!
