use pizzeria::drink::{Drink, DrinkState};
use pizzeria::item::Item;
use pizzeria::menu::{Menu, MenuBuilder, MenuSection};
use pizzeria::order::{Order, OrderError, OrderStatus};
use pizzeria::pizza::{Pizza, PizzaBuilder, PizzaState};
use pizzeria::product::{Ingredient, Product};

fn sample_menu() -> Menu {
    let tomato = Product::new("tomato", 18);
    let mozzarella = Product::new("mozzarella", 280);
    let first = PizzaBuilder::new("Margherita", 20)
        .add_ingredient(&tomato, 200)
        .add_ingredient(&mozzarella, 100)
        .build_pizza();
    let second = PizzaBuilder::new("Quattro_stagioni", 22)
        .add_ingredient(&tomato, 200)
        .build_pizza();
    MenuBuilder::new()
        .add_pizza(first)
        .add_pizza(second)
        .add_drink(Drink::new("Coca-Cola", 2, 400))
        .add_drink(Drink::new("Fanta", 2, 400))
        .build_menu()
}

#[test]
fn product_and_ingredient_copy_values() {
    let basil = Product::new("basil", 20);
    assert_eq!(basil.name, "basil");
    assert_eq!(basil.caloric_value, 20);
    let ingredient = Ingredient::new_from_product(&basil, 35);
    assert_eq!(ingredient.name, "basil");
    assert_eq!(ingredient.caloric_value, 20);
    assert_eq!(ingredient.weight, 35);
}

#[test]
fn pizza_caloric_value_sums_ingredients() {
    let tomato = Product::new("tomato", 18);
    let mushrooms = Product::new("mushrooms", 20);
    let olive_oil = Product::new("olive_oil", 884);
    let pizza = PizzaBuilder::new("Margherita", 20)
        .add_ingredient(&tomato, 200)
        .add_ingredient(&mushrooms, 100)
        .add_ingredient(&olive_oil, 80)
        .build_pizza();
    // 18 * 200 / 100 + 20 * 100 / 100 + 884 * 80 / 100 = 36 + 20 + 707.2
    assert_eq!(pizza.get_caloric_value(), 76320);
    assert_eq!(pizza.get_caloric_value() as f64 / 100.0, 763.2);
    assert_eq!(pizza.get_name(), "Margherita");
    assert_eq!(pizza.get_price(), 20);
    assert_eq!(pizza.get_state(), PizzaState::NonOrdered);
    assert_eq!(pizza.get_ingredients().len(), 3);
}

#[test]
fn pizza_without_ingredients_has_no_calories() {
    let pizza = PizzaBuilder::new("Plain", 5).build_pizza();
    assert_eq!(pizza.get_caloric_value(), 0);
    assert_eq!(pizza.get_caloric_value() as f64 / 100.0, 0.0);
}

#[test]
fn largest_ingredients_do_not_overflow() {
    let heavy = Product::new("heavy", u16::MAX);
    let pizza = PizzaBuilder::new("Heavy", u16::MAX)
        .add_ingredient(&heavy, u16::MAX)
        .add_ingredient(&heavy, u16::MAX)
        .build_pizza();
    assert_eq!(pizza.get_caloric_value(), 2 * 65535u128 * 65535u128);
}

#[test]
fn pizza_builder_accumulates_across_builds() {
    let tomato = Product::new("tomato", 18);
    let mut builder = PizzaBuilder::new("Growing", 10);
    builder.add_ingredient(&tomato, 100);
    let first = builder.build_pizza();
    builder.add_ingredient(&tomato, 100);
    let second = builder.build_pizza();
    assert_eq!(first.get_ingredients().len(), 1);
    assert_eq!(second.get_ingredients().len(), 2);
    assert_eq!(first.get_caloric_value(), 1800);
    assert_eq!(second.get_caloric_value(), 3600);
}

#[test]
fn pizza_lifecycle_methods_set_state() {
    let mut pizza = Pizza::new(&String::from("Diavola"), Vec::new(), 25);
    pizza.order_pizza();
    assert_eq!(pizza.get_state(), PizzaState::Ordered);
    pizza.cook_pizza();
    assert_eq!(pizza.get_state(), PizzaState::Cooking);
    pizza.serve_pizza();
    assert_eq!(pizza.get_state(), PizzaState::Served);
}

#[test]
fn drink_values_and_lifecycle() {
    let mut drink = Drink::new("Beer", 3, 320);
    assert_eq!(drink.name, "Beer");
    assert_eq!(drink.get_name(), "Beer");
    assert_eq!(drink.get_price(), 3);
    assert_eq!(drink.get_caloric_value(), 32000);
    assert_eq!(drink.get_state(), DrinkState::NonOrdered);
    drink.order_drink();
    assert_eq!(drink.get_state(), DrinkState::Ordered);
    drink.serve_drink();
    assert_eq!(drink.get_state(), DrinkState::Served);
}

#[test]
fn menu_builder_accumulates_across_builds() {
    let mut builder = MenuBuilder::new();
    builder.add_drink(Drink::new("Pepsi", 1, 380));
    let first = builder.build_menu();
    builder.add_drink(Drink::new("Rakia", 5, 150));
    builder.add_pizza(PizzaBuilder::new("Vegetariana", 18).build_pizza());
    let second = builder.build_menu();
    assert_eq!(first.drinks.len(), 1);
    assert_eq!(first.pizzas.len(), 0);
    assert_eq!(second.drinks.len(), 2);
    assert_eq!(second.pizzas.len(), 1);
    assert_eq!(second.drinks[1].name, "Rakia");
}

#[test]
fn list_menu_reports_drinks_then_pizzas() {
    let tomato = Product::new("tomato", 18);
    let menu = MenuBuilder::new()
        .add_drink(Drink::new("A", 1, 10))
        .add_drink(Drink::new("B", 2, 20))
        .add_pizza(PizzaBuilder::new("X", 9).add_ingredient(&tomato, 50).build_pizza())
        .build_menu();
    let lines = menu.list_menu();
    assert_eq!(lines.len(), 3);
    assert_eq!(lines[0].section, MenuSection::Drinks);
    assert_eq!(lines[0].position, 1);
    assert_eq!(lines[0].name, "A");
    assert_eq!(lines[0].caloric_value, 1000);
    assert_eq!(lines[1].section, MenuSection::Drinks);
    assert_eq!(lines[1].position, 2);
    assert_eq!(lines[1].name, "B");
    assert_eq!(lines[1].caloric_value, 2000);
    assert_eq!(lines[2].section, MenuSection::Pizzas);
    assert_eq!(lines[2].position, 1);
    assert_eq!(lines[2].name, "X");
    assert_eq!(lines[2].caloric_value, 900);
}

#[test]
fn list_menu_of_empty_menu_is_empty() {
    let menu = MenuBuilder::new().build_menu();
    assert!(menu.list_menu().is_empty());
}

#[test]
fn checkout_adds_price_and_quantity() {
    let mut order = Order::new(sample_menu());
    assert_eq!(order.order_pizza(1, 2), Ok(()));
    assert_eq!(order.order_drink(2, 3), Ok(()));
    assert_eq!(order.checkout_order(), 27);
}

#[test]
fn checkout_of_empty_order_is_zero() {
    let order = Order::new(sample_menu());
    assert_eq!(order.checkout_order(), 0);
}

#[test]
fn checkout_counts_each_line_item() {
    let mut order = Order::new(sample_menu());
    assert_eq!(order.order_pizza(2, 1), Ok(()));
    assert_eq!(order.order_pizza(2, 1), Ok(()));
    assert_eq!(order.order_drink(1, 255), Ok(()));
    assert_eq!(order.pizza_line_items().len(), 2);
    // (22 + 1) + (22 + 1) + (2 + 255)
    assert_eq!(order.checkout_order(), 303);
}

#[test]
fn order_pizza_out_of_range() {
    let mut order = Order::new(sample_menu());
    assert_eq!(order.order_pizza(0, 1), Err(OrderError::OutOfRange));
    assert_eq!(order.order_pizza(3, 1), Err(OrderError::OutOfRange));
    assert_eq!(order.order_pizza(usize::MAX, 1), Err(OrderError::OutOfRange));
    assert_eq!(order.order_pizza(0, 0), Err(OrderError::OutOfRange));
    assert!(order.pizza_line_items().is_empty());
}

#[test]
fn order_drink_out_of_range() {
    let mut order = Order::new(sample_menu());
    assert_eq!(order.order_drink(0, 1), Err(OrderError::OutOfRange));
    assert_eq!(order.order_drink(3, 1), Err(OrderError::OutOfRange));
    assert!(order.drink_line_items().is_empty());
}

#[test]
fn order_with_zero_quantity_is_refused() {
    let mut order = Order::new(sample_menu());
    assert_eq!(order.order_pizza(1, 0), Err(OrderError::ZeroQuantity));
    assert_eq!(order.order_drink(1, 0), Err(OrderError::ZeroQuantity));
    assert!(order.pizza_line_items().is_empty());
    assert!(order.drink_line_items().is_empty());
}

#[test]
fn ordered_item_copies_menu_entry() {
    let mut order = Order::new(sample_menu());
    assert_eq!(order.order_pizza(2, 4), Ok(()));
    assert_eq!(order.order_drink(1, 2), Ok(()));
    let pizza_item = &order.pizza_line_items()[0];
    assert_eq!(pizza_item.get_quantity(), 4);
    assert_eq!(pizza_item.get_pizza().get_name(), "Quattro_stagioni");
    assert_eq!(pizza_item.get_pizza().get_price(), 22);
    let drink_item = &order.drink_line_items()[0];
    assert_eq!(drink_item.get_quantity(), 2);
    assert_eq!(drink_item.get_drink().get_name(), "Coca-Cola");
    order.finish_order();
    order.cook_pizzas();
    order.serve_pizzas();
    order.serve_drinks();
    assert_eq!(order.pizza_line_items()[0].get_pizza().get_state(), PizzaState::Served);
    assert_eq!(order.drink_line_items()[0].get_drink().get_state(), DrinkState::Served);
    assert_eq!(order.get_menu().pizzas[1].get_state(), PizzaState::NonOrdered);
    assert_eq!(order.get_menu().drinks[0].get_state(), DrinkState::NonOrdered);
    assert_eq!(order.get_menu().pizzas.len(), 2);
    assert_eq!(order.get_menu().drinks.len(), 2);
}

#[test]
fn finish_order_marks_everything_ordered() {
    let mut order = Order::new(sample_menu());
    assert_eq!(order.get_status(), OrderStatus::Creating);
    assert_eq!(order.order_pizza(1, 1), Ok(()));
    assert_eq!(order.order_pizza(2, 1), Ok(()));
    assert_eq!(order.order_drink(2, 1), Ok(()));
    let (drinks, pizzas) = order.finish_order();
    assert_eq!(drinks, vec![String::from("Fanta")]);
    assert_eq!(pizzas, vec![String::from("Margherita"), String::from("Quattro_stagioni")]);
    assert_eq!(order.get_status(), OrderStatus::Ordered);
    for item in order.pizza_line_items() {
        assert_eq!(item.get_pizza().get_state(), PizzaState::Ordered);
    }
    for item in order.drink_line_items() {
        assert_eq!(item.get_drink().get_state(), DrinkState::Ordered);
    }
}

#[test]
fn finish_order_twice_changes_nothing_more() {
    let mut order = Order::new(sample_menu());
    assert_eq!(order.order_pizza(1, 1), Ok(()));
    order.finish_order();
    let (drinks, pizzas) = order.finish_order();
    assert!(drinks.is_empty());
    assert_eq!(pizzas, vec![String::from("Margherita")]);
    assert_eq!(order.get_status(), OrderStatus::Ordered);
    assert_eq!(order.pizza_line_items()[0].get_pizza().get_state(), PizzaState::Ordered);
}

#[test]
fn cook_then_pay() {
    let mut order = Order::new(sample_menu());
    assert_eq!(order.order_pizza(1, 2), Ok(()));
    order.finish_order();
    order.cook_pizzas();
    assert_eq!(order.pizza_line_items()[0].get_pizza().get_state(), PizzaState::Cooking);
    order.serve_pizzas();
    assert_eq!(order.checkout_order(), 22);
    order.pay_order();
    assert_eq!(order.get_status(), OrderStatus::Paid);
    assert_eq!(order.checkout_order(), 22);
}
