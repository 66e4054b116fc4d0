use vstd::prelude::*;

use crate::item::Item;
use crate::product::{Ingredient, Product};

verus! {

/// Where a pizza stands in its lifecycle.
#[derive(Clone, Copy, Debug, PartialEq, Eq, Structural)]
pub enum PizzaState {
    NonOrdered,
    Ordered,
    Cooking,
    Served,
}

/// The largest caloric contribution of one ingredient, in hundredths of a
/// kilocalorie: the largest `u16` value squared.
pub open spec fn max_ingredient_calories() -> int {
    4294836225
}

/// The caloric value of one ingredient in hundredths of a kilocalorie:
/// `caloric_value * weight / 100` kilocalories.
pub open spec fn ingredient_calories(i: Ingredient) -> int {
    i.caloric_value * i.weight
}

/// The caloric value of a sequence of ingredients in hundredths of a kilocalorie.
pub open spec fn calories_of(ingredients: Seq<Ingredient>) -> int
    decreases ingredients.len(),
{
    if ingredients.len() == 0 {
        0
    } else {
        calories_of(ingredients.drop_last()) + ingredient_calories(ingredients.last())
    }
}

/// The mathematical model of a pizza.
pub struct PizzaView {
    pub name: Seq<char>,
    pub ingredients: Seq<Ingredient>,
    pub price: u16,
    pub state: PizzaState,
}

/// A named dish made of ingredients, with a price and a lifecycle state.
pub struct Pizza {
    name: String,
    ingredients: Vec<Ingredient>,
    state: PizzaState,
    price: u16,
}

impl View for Pizza {
    type V = PizzaView;

    closed spec fn view(&self) -> PizzaView {
        PizzaView {
            name: self.name@,
            ingredients: self.ingredients@,
            price: self.price,
            state: self.state,
        }
    }
}

/// The models of a sequence of pizzas.
pub open spec fn pizza_views(pizzas: Seq<Pizza>) -> Seq<PizzaView> {
    pizzas.map_values(|p: Pizza| p@)
}

/// The model of `p` with its state replaced by `state`.
pub open spec fn pizza_in_state(p: PizzaView, state: PizzaState) -> PizzaView {
    PizzaView { state, ..p }
}

proof fn lemma_calories_bound(ingredients: Seq<Ingredient>)
    ensures
        0 <= calories_of(ingredients) <= ingredients.len() * max_ingredient_calories(),
    decreases ingredients.len(),
{
    if ingredients.len() > 0 {
        let last = ingredients.last();
        lemma_calories_bound(ingredients.drop_last());
        assert(0 <= last.caloric_value * last.weight <= 65535 * 65535) by (nonlinear_arith)
            requires
                0 <= last.caloric_value <= 65535,
                0 <= last.weight <= 65535,
        ;
    }
}

/// A pizza without ingredients has no caloric value.
pub proof fn lemma_no_ingredients_no_calories(p: Pizza)
    requires
        p@.ingredients.len() == 0,
    ensures
        p.spec_caloric_value() == 0,
{
}

impl Pizza {
    pub fn new(name: &String, ingredients: Vec<Ingredient>, price: u16) -> (r: Pizza)
        ensures
            r@ == (PizzaView {
                name: name@,
                ingredients: ingredients@,
                price,
                state: PizzaState::NonOrdered,
            }),
    {
        Pizza { name: name.clone(), ingredients, state: PizzaState::NonOrdered, price }
    }

    pub fn get_price(&self) -> (r: u16)
        ensures
            r == self@.price,
    {
        self.price
    }

    pub fn get_state(&self) -> (r: PizzaState)
        ensures
            r == self@.state,
    {
        self.state
    }

    pub fn get_ingredients(&self) -> (r: &Vec<Ingredient>)
        ensures
            r@ == self@.ingredients,
    {
        &self.ingredients
    }

    pub fn order_pizza(&mut self)
        ensures
            final(self)@ == pizza_in_state(old(self)@, PizzaState::Ordered),
    {
        self.state = PizzaState::Ordered;
    }

    pub fn cook_pizza(&mut self)
        ensures
            final(self)@ == pizza_in_state(old(self)@, PizzaState::Cooking),
    {
        self.state = PizzaState::Cooking;
    }

    pub fn serve_pizza(&mut self)
        ensures
            final(self)@ == pizza_in_state(old(self)@, PizzaState::Served),
    {
        self.state = PizzaState::Served;
    }
}

impl Clone for Pizza {
    fn clone(&self) -> (r: Self)
        ensures
            r@ == self@,
    {
        let ingredients = self.ingredients.clone();
        assert(ingredients@ =~= self.ingredients@);
        Pizza { name: self.name.clone(), ingredients, state: self.state, price: self.price }
    }
}

impl Item for Pizza {
    open spec fn spec_name(&self) -> Seq<char> {
        self@.name
    }

    open spec fn spec_caloric_value(&self) -> int {
        calories_of(self@.ingredients)
    }

    fn get_name(&self) -> (r: &String) {
        &self.name
    }

    /// The sum over the ingredients of `caloric_value * weight`, which is the
    /// pizza's caloric value in hundredths of a kilocalorie; zero for a pizza
    /// without ingredients.
    fn get_caloric_value(&self) -> (r: u128) {
        let mut total: u128 = 0;
        let mut i: usize = 0;
        while i < self.ingredients.len()
            invariant
                i <= self.ingredients@.len(),
                total == calories_of(self.ingredients@.take(i as int)),
            decreases self.ingredients@.len() - i,
        {
            let ingredient = &self.ingredients[i];
            let cv = ingredient.caloric_value as u128;
            let w = ingredient.weight as u128;
            proof {
                let prefix = self.ingredients@.take(i as int + 1);
                assert(prefix.drop_last() =~= self.ingredients@.take(i as int));
                lemma_calories_bound(self.ingredients@.take(i as int));
                assert(cv * w <= 4294836225) by (nonlinear_arith)
                    requires
                        cv <= 65535,
                        w <= 65535,
                ;
                assert(i * max_ingredient_calories() <= 18446744073709551615 * 4294836225)
                    by (nonlinear_arith)
                    requires
                        i <= 18446744073709551615,
                ;
            }
            total = total + cv * w;
            i = i + 1;
        }
        assert(self.ingredients@.take(i as int) =~= self.ingredients@);
        total
    }
}

/// Assembles a pizza from a name, a price and ingredients added one by one.
/// Building does not reset the builder: later additions accumulate.
pub struct PizzaBuilder {
    name: String,
    ingredients: Vec<Ingredient>,
    price: u16,
}

impl PizzaBuilder {
    pub closed spec fn spec_name(&self) -> Seq<char> {
        self.name@
    }

    pub closed spec fn spec_ingredients(&self) -> Seq<Ingredient> {
        self.ingredients@
    }

    pub closed spec fn spec_price(&self) -> u16 {
        self.price
    }

    pub fn new(name: &str, price: u16) -> (r: Self)
        ensures
            r.spec_name() == name@,
            r.spec_ingredients() == Seq::<Ingredient>::empty(),
            r.spec_price() == price,
    {
        Self { name: String::from_str(name), ingredients: Vec::new(), price }
    }

    pub fn add_ingredient(&mut self, product: &Product, weight: u16) -> (r: &mut Self)
        ensures
            r.spec_name() == old(self).spec_name(),
            r.spec_price() == old(self).spec_price(),
            r.spec_ingredients().len() == old(self).spec_ingredients().len() + 1,
            r.spec_ingredients().drop_last() == old(self).spec_ingredients(),
            r.spec_ingredients().last().name@ == product.name@,
            r.spec_ingredients().last().caloric_value == product.caloric_value,
            r.spec_ingredients().last().weight == weight,
            *final(self) == *final(r),
    {
        self.ingredients.push(Ingredient::new_from_product(product, weight));
        proof {
            assert(self.ingredients@.drop_last() =~= old(self).ingredients@);
        }
        self
    }

    pub fn build_pizza(&self) -> (r: Pizza)
        ensures
            r@ == (PizzaView {
                name: self.spec_name(),
                ingredients: self.spec_ingredients(),
                price: self.spec_price(),
                state: PizzaState::NonOrdered,
            }),
    {
        Pizza::new(&self.name, self.ingredients.clone(), self.price)
    }
}

} // verus!
