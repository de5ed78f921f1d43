//! United States coins and their face value in cents.

use vstd::prelude::*;

verus! {

/// One of the four common United States coins.
pub enum Coin {
    Penny,
    Nickel,
    Dime,
    Quarter,
}

/// The face value of a coin, in cents.
pub open spec fn coin_value(coin: Coin) -> u8 {
    match coin {
        Coin::Penny => 1,
        Coin::Nickel => 5,
        Coin::Dime => 10,
        Coin::Quarter => 25,
    }
}

/// Returns the face value of `coin` in cents.
pub fn value_in_cents(coin: Coin) -> (cents: u8)
    ensures
        cents == coin_value(coin),
{
    match coin {
        Coin::Penny => 1,
        Coin::Nickel => 5,
        Coin::Dime => 10,
        Coin::Quarter => 25,
    }
}

} // verus!
