use vstd::prelude::*;

use crate::item::Item;

verus! {

/// Where a drink stands in its lifecycle.
#[derive(Clone, Copy, Debug, PartialEq, Eq, Structural)]
pub enum DrinkState {
    NonOrdered,
    Ordered,
    Served,
}

/// The mathematical model of a drink.
pub struct DrinkView {
    pub name: Seq<char>,
    pub price: u16,
    pub caloric_value: u16,
    pub state: DrinkState,
}

/// A beverage with a fixed price, a fixed caloric value in kilocalories and a
/// lifecycle state.
pub struct Drink {
    pub name: String,
    status: DrinkState,
    price: u16,
    caloric_value: u16,
}

impl View for Drink {
    type V = DrinkView;

    closed spec fn view(&self) -> DrinkView {
        DrinkView {
            name: self.name@,
            price: self.price,
            caloric_value: self.caloric_value,
            state: self.status,
        }
    }
}

/// The models of a sequence of drinks.
pub open spec fn drink_views(drinks: Seq<Drink>) -> Seq<DrinkView> {
    drinks.map_values(|d: Drink| d@)
}

/// The model of `d` with its state replaced by `state`.
pub open spec fn drink_in_state(d: DrinkView, state: DrinkState) -> DrinkView {
    DrinkView { state, ..d }
}

impl Drink {
    pub fn new(name: &str, price: u16, caloric_value: u16) -> (r: Drink)
        ensures
            r@ == (DrinkView { name: name@, price, caloric_value, state: DrinkState::NonOrdered }),
    {
        Drink { name: String::from_str(name), status: DrinkState::NonOrdered, price, caloric_value }
    }

    pub fn order_drink(&mut self)
        ensures
            final(self)@ == drink_in_state(old(self)@, DrinkState::Ordered),
    {
        self.status = DrinkState::Ordered;
    }

    pub fn serve_drink(&mut self)
        ensures
            final(self)@ == drink_in_state(old(self)@, DrinkState::Served),
    {
        self.status = DrinkState::Served;
    }

    pub fn get_price(&self) -> (r: u16)
        ensures
            r == self@.price,
    {
        self.price
    }

    pub fn get_state(&self) -> (r: DrinkState)
        ensures
            r == self@.state,
    {
        self.status
    }
}

impl Clone for Drink {
    fn clone(&self) -> (r: Self)
        ensures
            r@ == self@,
    {
        Drink {
            name: self.name.clone(),
            status: self.status,
            price: self.price,
            caloric_value: self.caloric_value,
        }
    }
}

impl Item for Drink {
    open spec fn spec_name(&self) -> Seq<char> {
        self@.name
    }

    open spec fn spec_caloric_value(&self) -> int {
        self@.caloric_value * 100
    }

    fn get_name(&self) -> (r: &String) {
        &self.name
    }

    /// The drink's fixed caloric value, in hundredths of a kilocalorie.
    fn get_caloric_value(&self) -> (r: u128) {
        self.caloric_value as u128 * 100
    }
}

} // verus!
