//! A restaurant ordering model: products and ingredients, pizzas and drinks,
//! a menu assembled by builders, and an order that copies menu entries into
//! line items and drives them through their lifecycle.

pub mod item;
pub mod product;
pub mod pizza;
pub mod drink;
pub mod menu;
pub mod order;
