use vstd::prelude::*;

use crate::drink::{drink_in_state, Drink, DrinkState, DrinkView};
use crate::menu::{Menu, MenuView};
use crate::item::Item;
use crate::pizza::{pizza_in_state, Pizza, PizzaState, PizzaView};

verus! {

/// Where an order stands: it is built, then placed, then paid.
#[derive(Clone, Copy, Debug, PartialEq, Eq, Structural)]
pub enum OrderStatus {
    Creating,
    Ordered,
    Paid,
}

/// Why an entry could not be added to an order.
#[derive(Clone, Copy, Debug, PartialEq, Eq, Structural)]
pub enum OrderError {
    /// The 1-based position is not within the menu's list.
    OutOfRange,
    /// A line item must hold at least one unit.
    ZeroQuantity,
}

/// An ordered quantity of a pizza, holding its own copy of the menu entry.
pub struct PizzaLineItem {
    pizza: Pizza,
    quantity: u8,
}

impl View for PizzaLineItem {
    type V = (PizzaView, u8);

    closed spec fn view(&self) -> (PizzaView, u8) {
        (self.pizza@, self.quantity)
    }
}

impl PizzaLineItem {
    pub fn new(pizza: Pizza, quantity: u8) -> (r: Self)
        ensures
            r@ == (pizza@, quantity),
    {
        Self { pizza, quantity }
    }

    pub fn get_quantity(&self) -> (r: u8)
        ensures
            r == self@.1,
    {
        self.quantity
    }

    pub fn get_pizza(&self) -> (r: &Pizza)
        ensures
            r@ == self@.0,
    {
        &self.pizza
    }
}

/// An ordered quantity of a drink, holding its own copy of the menu entry.
pub struct DrinkLineItem {
    drink: Drink,
    quantity: u8,
}

impl View for DrinkLineItem {
    type V = (DrinkView, u8);

    closed spec fn view(&self) -> (DrinkView, u8) {
        (self.drink@, self.quantity)
    }
}

impl DrinkLineItem {
    pub fn new(drink: Drink, quantity: u8) -> (r: Self)
        ensures
            r@ == (drink@, quantity),
    {
        Self { drink, quantity }
    }

    pub fn get_quantity(&self) -> (r: u8)
        ensures
            r == self@.1,
    {
        self.quantity
    }

    pub fn get_drink(&self) -> (r: &Drink)
        ensures
            r@ == self@.0,
    {
        &self.drink
    }
}

/// The mathematical model of an order.
pub struct OrderView {
    pub menu: MenuView,
    pub pizza_items: Seq<(PizzaView, u8)>,
    pub drink_items: Seq<(DrinkView, u8)>,
    pub status: OrderStatus,
}

impl OrderView {
    /// Every line item holds at least one unit.
    pub open spec fn wf(self) -> bool {
        &&& forall|i: int| 0 <= i < self.pizza_items.len() ==> #[trigger] self.pizza_items[i].1 >= 1
        &&& forall|i: int| 0 <= i < self.drink_items.len() ==> #[trigger] self.drink_items[i].1 >= 1
    }
}

/// Whether `position` is a 1-based position within a list of `len` entries.
pub open spec fn in_range(position: int, len: int) -> bool {
    1 <= position <= len
}

/// `o` with a new pizza line item: a copy of menu pizza `position` (1-based)
/// with `quantity` units.
pub open spec fn with_pizza(o: OrderView, position: int, quantity: u8) -> OrderView {
    OrderView { pizza_items: o.pizza_items.push((o.menu.pizzas[position - 1], quantity)), ..o }
}

/// `o` with a new drink line item: a copy of menu drink `position` (1-based)
/// with `quantity` units.
pub open spec fn with_drink(o: OrderView, position: int, quantity: u8) -> OrderView {
    OrderView { drink_items: o.drink_items.push((o.menu.drinks[position - 1], quantity)), ..o }
}

/// Pizza line items with each pizza put in `state`.
pub open spec fn pizzas_in_state(items: Seq<(PizzaView, u8)>, state: PizzaState) -> Seq<(PizzaView, u8)> {
    items.map_values(|li: (PizzaView, u8)| (pizza_in_state(li.0, state), li.1))
}

/// Drink line items with each drink put in `state`.
pub open spec fn drinks_in_state(items: Seq<(DrinkView, u8)>, state: DrinkState) -> Seq<(DrinkView, u8)> {
    items.map_values(|li: (DrinkView, u8)| (drink_in_state(li.0, state), li.1))
}

/// `o` once placed: every pizza and every drink ordered, the order too.
pub open spec fn finished(o: OrderView) -> OrderView {
    OrderView {
        pizza_items: pizzas_in_state(o.pizza_items, PizzaState::Ordered),
        drink_items: drinks_in_state(o.drink_items, DrinkState::Ordered),
        status: OrderStatus::Ordered,
        ..o
    }
}

/// `o` with every pizza in `state`.
pub open spec fn pizzas_set(o: OrderView, state: PizzaState) -> OrderView {
    OrderView { pizza_items: pizzas_in_state(o.pizza_items, state), ..o }
}

/// `o` with every drink in `state`.
pub open spec fn drinks_set(o: OrderView, state: DrinkState) -> OrderView {
    OrderView { drink_items: drinks_in_state(o.drink_items, state), ..o }
}

/// `o` once paid.
pub open spec fn paid(o: OrderView) -> OrderView {
    OrderView { status: OrderStatus::Paid, ..o }
}

/// The sum over pizza line items of unit price plus quantity.
pub open spec fn pizza_bill(items: Seq<(PizzaView, u8)>) -> int
    decreases items.len(),
{
    if items.len() == 0 {
        0
    } else {
        pizza_bill(items.drop_last()) + items.last().0.price + items.last().1
    }
}

/// The sum over drink line items of unit price plus quantity.
pub open spec fn drink_bill(items: Seq<(DrinkView, u8)>) -> int
    decreases items.len(),
{
    if items.len() == 0 {
        0
    } else {
        drink_bill(items.drop_last()) + items.last().0.price + items.last().1
    }
}

/// The bill of an order: over all its line items, unit price plus quantity.
pub open spec fn bill(o: OrderView) -> int {
    pizza_bill(o.pizza_items) + drink_bill(o.drink_items)
}

/// The most that one line item adds to a bill.
pub open spec fn max_line_bill() -> int {
    65790
}

proof fn lemma_pizza_bill_bound(items: Seq<(PizzaView, u8)>)
    ensures
        0 <= pizza_bill(items) <= items.len() * max_line_bill(),
    decreases items.len(),
{
    if items.len() > 0 {
        lemma_pizza_bill_bound(items.drop_last());
    }
}

proof fn lemma_drink_bill_bound(items: Seq<(DrinkView, u8)>)
    ensures
        0 <= drink_bill(items) <= items.len() * max_line_bill(),
    decreases items.len(),
{
    if items.len() > 0 {
        lemma_drink_bill_bound(items.drop_last());
    }
}

/// The names of the pizzas of some line items, in order.
pub open spec fn pizza_names(items: Seq<(PizzaView, u8)>) -> Seq<Seq<char>> {
    items.map_values(|li: (PizzaView, u8)| li.0.name)
}

/// The names of the drinks of some line items, in order.
pub open spec fn drink_names(items: Seq<(DrinkView, u8)>) -> Seq<Seq<char>> {
    items.map_values(|li: (DrinkView, u8)| li.0.name)
}

/// The texts of a sequence of strings.
pub open spec fn string_views(strings: Seq<String>) -> Seq<Seq<char>> {
    strings.map_values(|s: String| s@)
}

/// Ordering the pizza at 1-based position `position` appends a line item that
/// copies that menu entry with the given quantity; neither the ordering nor
/// any later lifecycle step of the order changes the menu.
pub proof fn lemma_ordered_pizza_copies_menu_entry(o: OrderView, position: int, quantity: u8)
    requires
        in_range(position, o.menu.pizzas.len() as int),
    ensures
        with_pizza(o, position, quantity).pizza_items.len() == o.pizza_items.len() + 1,
        with_pizza(o, position, quantity).pizza_items.last() == (o.menu.pizzas[position - 1], quantity),
        with_pizza(o, position, quantity).menu == o.menu,
        finished(with_pizza(o, position, quantity)).menu == o.menu,
        forall|s: PizzaState| #[trigger] pizzas_set(with_pizza(o, position, quantity), s).menu == o.menu,
        forall|s: DrinkState| #[trigger] drinks_set(with_pizza(o, position, quantity), s).menu == o.menu,
        paid(with_pizza(o, position, quantity)).menu == o.menu,
{
}

/// Ordering the drink at 1-based position `position` appends a line item that
/// copies that menu entry with the given quantity; neither the ordering nor
/// any later lifecycle step of the order changes the menu.
pub proof fn lemma_ordered_drink_copies_menu_entry(o: OrderView, position: int, quantity: u8)
    requires
        in_range(position, o.menu.drinks.len() as int),
    ensures
        with_drink(o, position, quantity).drink_items.len() == o.drink_items.len() + 1,
        with_drink(o, position, quantity).drink_items.last() == (o.menu.drinks[position - 1], quantity),
        with_drink(o, position, quantity).menu == o.menu,
        finished(with_drink(o, position, quantity)).menu == o.menu,
        forall|s: PizzaState| #[trigger] pizzas_set(with_drink(o, position, quantity), s).menu == o.menu,
        forall|s: DrinkState| #[trigger] drinks_set(with_drink(o, position, quantity), s).menu == o.menu,
        paid(with_drink(o, position, quantity)).menu == o.menu,
{
}

/// Placing an order puts every pizza and every drink of its line items in the
/// ordered state, keeps their quantities, and marks the order as ordered.
pub proof fn lemma_finished_all_ordered(o: OrderView)
    ensures
        finished(o).status == OrderStatus::Ordered,
        finished(o).pizza_items.len() == o.pizza_items.len(),
        finished(o).drink_items.len() == o.drink_items.len(),
        forall|i: int|
            0 <= i < o.pizza_items.len() ==> (#[trigger] finished(o).pizza_items[i]).0.state
                == PizzaState::Ordered && finished(o).pizza_items[i].1 == o.pizza_items[i].1,
        forall|i: int|
            0 <= i < o.drink_items.len() ==> (#[trigger] finished(o).drink_items[i]).0.state
                == DrinkState::Ordered && finished(o).drink_items[i].1 == o.drink_items[i].1,
{
}

/// Every step of the lifecycle keeps the order well formed.
pub proof fn lemma_lifecycle_keeps_wf(o: OrderView, position: int, quantity: u8)
    requires
        o.wf(),
        quantity >= 1,
    ensures
        in_range(position, o.menu.pizzas.len() as int) ==> with_pizza(o, position, quantity).wf(),
        in_range(position, o.menu.drinks.len() as int) ==> with_drink(o, position, quantity).wf(),
        finished(o).wf(),
        forall|s: PizzaState| (#[trigger] pizzas_set(o, s)).wf(),
        forall|s: DrinkState| (#[trigger] drinks_set(o, s)).wf(),
        paid(o).wf(),
{
    assert forall|s: PizzaState| (#[trigger] pizzas_set(o, s)).wf() by {
        assert forall|i: int| 0 <= i < pizzas_set(o, s).pizza_items.len() implies #[trigger] pizzas_set(o, s).pizza_items[i].1 >= 1 by {
            assert(o.pizza_items[i].1 >= 1);
        }
    }
    assert forall|s: DrinkState| (#[trigger] drinks_set(o, s)).wf() by {
        assert forall|i: int| 0 <= i < drinks_set(o, s).drink_items.len() implies #[trigger] drinks_set(o, s).drink_items[i].1 >= 1 by {
            assert(o.drink_items[i].1 >= 1);
        }
    }
    assert(finished(o).wf()) by {
        assert(finished(o).pizza_items == pizzas_set(o, PizzaState::Ordered).pizza_items);
        assert(finished(o).drink_items == drinks_set(o, DrinkState::Ordered).drink_items);
    }
    if in_range(position, o.menu.pizzas.len() as int) {
        let o2 = with_pizza(o, position, quantity);
        assert forall|i: int| 0 <= i < o2.pizza_items.len() implies #[trigger] o2.pizza_items[i].1 >= 1 by {
            if i < o.pizza_items.len() {
                assert(o2.pizza_items[i] == o.pizza_items[i]);
            }
        }
    }
    if in_range(position, o.menu.drinks.len() as int) {
        let o2 = with_drink(o, position, quantity);
        assert forall|i: int| 0 <= i < o2.drink_items.len() implies #[trigger] o2.drink_items[i].1 >= 1 by {
            if i < o.drink_items.len() {
                assert(o2.drink_items[i] == o.drink_items[i]);
            }
        }
    }
}

/// The bill of an order once a line item is added grows by that item's unit
/// price plus its quantity.
pub proof fn lemma_bill_of_added_pizza(o: OrderView, position: int, quantity: u8)
    requires
        in_range(position, o.menu.pizzas.len() as int),
    ensures
        bill(with_pizza(o, position, quantity)) == bill(o) + o.menu.pizzas[position - 1].price + quantity,
{
    assert(with_pizza(o, position, quantity).pizza_items.drop_last() =~= o.pizza_items);
}

/// The bill of an order once a line item is added grows by that item's unit
/// price plus its quantity.
pub proof fn lemma_bill_of_added_drink(o: OrderView, position: int, quantity: u8)
    requires
        in_range(position, o.menu.drinks.len() as int),
    ensures
        bill(with_drink(o, position, quantity)) == bill(o) + o.menu.drinks[position - 1].price + quantity,
{
    assert(with_drink(o, position, quantity).drink_items.drop_last() =~= o.drink_items);
}

/// An order of pizzas and drinks taken from its own menu. The lifecycle steps
/// are not guarded by the order's status: each may be called at any time, and
/// calling one twice in a row has the effect of calling it once.
pub struct Order {
    menu: Menu,
    pizza_line_items: Vec<PizzaLineItem>,
    drink_line_items: Vec<DrinkLineItem>,
    status: OrderStatus,
}

/// The models of a sequence of pizza line items.
pub open spec fn pizza_item_views(items: Seq<PizzaLineItem>) -> Seq<(PizzaView, u8)> {
    items.map_values(|li: PizzaLineItem| li@)
}

/// The models of a sequence of drink line items.
pub open spec fn drink_item_views(items: Seq<DrinkLineItem>) -> Seq<(DrinkView, u8)> {
    items.map_values(|li: DrinkLineItem| li@)
}

impl View for Order {
    type V = OrderView;

    closed spec fn view(&self) -> OrderView {
        OrderView {
            menu: self.menu@,
            pizza_items: pizza_item_views(self.pizza_line_items@),
            drink_items: drink_item_views(self.drink_line_items@),
            status: self.status,
        }
    }
}

impl Order {
    pub fn new(menu: Menu) -> (r: Self)
        ensures
            r@ == (OrderView {
                menu: menu@,
                pizza_items: Seq::empty(),
                drink_items: Seq::empty(),
                status: OrderStatus::Creating,
            }),
            r@.wf(),
    {
        let r = Self {
            menu,
            pizza_line_items: Vec::new(),
            drink_line_items: Vec::new(),
            status: OrderStatus::Creating,
        };
        proof {
            assert(pizza_item_views(r.pizza_line_items@) =~= Seq::empty());
            assert(drink_item_views(r.drink_line_items@) =~= Seq::empty());
        }
        r
    }

    pub fn get_status(&self) -> (r: OrderStatus)
        ensures
            r == self@.status,
    {
        self.status
    }

    pub fn get_menu(&self) -> (r: &Menu)
        ensures
            r@ == self@.menu,
    {
        &self.menu
    }

    pub fn pizza_line_items(&self) -> (r: &Vec<PizzaLineItem>)
        ensures
            pizza_item_views(r@) == self@.pizza_items,
    {
        &self.pizza_line_items
    }

    pub fn drink_line_items(&self) -> (r: &Vec<DrinkLineItem>)
        ensures
            drink_item_views(r@) == self@.drink_items,
    {
        &self.drink_line_items
    }

    /// Adds a line item with a copy of menu pizza `pizza_number` (1-based) and
    /// `quantity` units. Fails, leaving the order as it was, when the position
    /// is outside the menu's pizzas or the quantity is zero.
    pub fn order_pizza(&mut self, pizza_number: usize, quantity: u8) -> (r: Result<(), OrderError>)
        ensures
            r == Err::<(), OrderError>(OrderError::OutOfRange) <==> !in_range(
                pizza_number as int,
                old(self)@.menu.pizzas.len() as int,
            ),
            r == Err::<(), OrderError>(OrderError::ZeroQuantity) <==> in_range(
                pizza_number as int,
                old(self)@.menu.pizzas.len() as int,
            ) && quantity == 0,
            r is Ok <==> in_range(pizza_number as int, old(self)@.menu.pizzas.len() as int) && quantity >= 1,
            r is Ok ==> final(self)@ == with_pizza(old(self)@, pizza_number as int, quantity),
            r is Err ==> final(self)@ == old(self)@,
            old(self)@.wf() ==> final(self)@.wf(),
    {
        if pizza_number == 0 || pizza_number > self.menu.pizzas.len() {
            return Err(OrderError::OutOfRange);
        }
        if quantity == 0 {
            return Err(OrderError::ZeroQuantity);
        }
        let pizza = self.menu.pizzas[pizza_number - 1].clone();
        let item = PizzaLineItem::new(pizza, quantity);
        let ghost before = self.pizza_line_items@;
        self.pizza_line_items.push(item);
        proof {
            assert(pizza_item_views(self.pizza_line_items@) =~= pizza_item_views(before).push(
                item@,
            ));
        }
        Ok(())
    }

    /// Adds a line item with a copy of menu drink `drink_number` (1-based) and
    /// `quantity` units. Fails, leaving the order as it was, when the position
    /// is outside the menu's drinks or the quantity is zero.
    pub fn order_drink(&mut self, drink_number: usize, quantity: u8) -> (r: Result<(), OrderError>)
        ensures
            r == Err::<(), OrderError>(OrderError::OutOfRange) <==> !in_range(
                drink_number as int,
                old(self)@.menu.drinks.len() as int,
            ),
            r == Err::<(), OrderError>(OrderError::ZeroQuantity) <==> in_range(
                drink_number as int,
                old(self)@.menu.drinks.len() as int,
            ) && quantity == 0,
            r is Ok <==> in_range(drink_number as int, old(self)@.menu.drinks.len() as int) && quantity >= 1,
            r is Ok ==> final(self)@ == with_drink(old(self)@, drink_number as int, quantity),
            r is Err ==> final(self)@ == old(self)@,
            old(self)@.wf() ==> final(self)@.wf(),
    {
        if drink_number == 0 || drink_number > self.menu.drinks.len() {
            return Err(OrderError::OutOfRange);
        }
        if quantity == 0 {
            return Err(OrderError::ZeroQuantity);
        }
        let drink = self.menu.drinks[drink_number - 1].clone();
        let item = DrinkLineItem::new(drink, quantity);
        let ghost before = self.drink_line_items@;
        self.drink_line_items.push(item);
        proof {
            assert(drink_item_views(self.drink_line_items@) =~= drink_item_views(before).push(
                item@,
            ));
        }
        Ok(())
    }

    /// The bill: the sum over all line items of unit price plus quantity (the
    /// quantity is added to the price, not multiplied with it).
    pub fn checkout_order(&self) -> (r: u128)
        ensures
            r as int == bill(self@),
    {
        let mut total: u128 = 0;
        let mut i: usize = 0;
        while i < self.pizza_line_items.len()
            invariant
                i <= self.pizza_line_items@.len(),
                total == pizza_bill(pizza_item_views(self.pizza_line_items@).take(i as int)),
            decreases self.pizza_line_items@.len() - i,
        {
            let item = &self.pizza_line_items[i];
            let price = item.pizza.get_price();
            let quantity = item.get_quantity();
            proof {
                let all = pizza_item_views(self.pizza_line_items@);
                assert(all.take(i as int + 1).drop_last() =~= all.take(i as int));
                lemma_pizza_bill_bound(all.take(i as int));
                assert(i * max_line_bill() <= 18446744073709551615 * 65790) by (nonlinear_arith)
                    requires
                        i <= 18446744073709551615,
                ;
            }
            total = total + price as u128 + quantity as u128;
            i = i + 1;
        }
        proof {
            assert(pizza_item_views(self.pizza_line_items@).take(i as int) =~= pizza_item_views(
                self.pizza_line_items@,
            ));
        }
        proof {
            let n = self.pizza_line_items@.len();
            lemma_pizza_bill_bound(pizza_item_views(self.pizza_line_items@));
            assert(n * max_line_bill() <= 18446744073709551615 * 65790) by (nonlinear_arith)
                requires
                    n <= 18446744073709551615,
            ;
        }
        let ghost pizzas_total = total as int;
        let mut j: usize = 0;
        while j < self.drink_line_items.len()
            invariant
                j <= self.drink_line_items@.len(),
                pizzas_total == pizza_bill(pizza_item_views(self.pizza_line_items@)),
                0 <= pizzas_total <= 18446744073709551615 * 65790,
                total == pizzas_total + drink_bill(
                    drink_item_views(self.drink_line_items@).take(j as int),
                ),
            decreases self.drink_line_items@.len() - j,
        {
            let item = &self.drink_line_items[j];
            let price = item.drink.get_price();
            let quantity = item.get_quantity();
            proof {
                let all = drink_item_views(self.drink_line_items@);
                assert(all.take(j as int + 1).drop_last() =~= all.take(j as int));
                lemma_drink_bill_bound(all.take(j as int));
                assert(j * max_line_bill() <= 18446744073709551615 * 65790) by (nonlinear_arith)
                    requires
                        j <= 18446744073709551615,
                ;
            }
            total = total + price as u128 + quantity as u128;
            j = j + 1;
        }
        proof {
            assert(drink_item_views(self.drink_line_items@).take(j as int) =~= drink_item_views(
                self.drink_line_items@,
            ));
        }
        total
    }

    /// Places the order: every pizza and every drink of its line items is
    /// ordered, and so is the order. Returns the names of the drinks and of
    /// the pizzas that were ordered, each in the order of the line items.
    pub fn finish_order(&mut self) -> (r: (Vec<String>, Vec<String>))
        ensures
            final(self)@ == finished(old(self)@),
            final(self)@.status == OrderStatus::Ordered,
            forall|i: int|
                0 <= i < final(self)@.pizza_items.len()
                    ==> #[trigger] final(self)@.pizza_items[i].0.state == PizzaState::Ordered,
            forall|i: int|
                0 <= i < final(self)@.drink_items.len()
                    ==> #[trigger] final(self)@.drink_items[i].0.state == DrinkState::Ordered,
            string_views(r.0@) == drink_names(old(self)@.drink_items),
            string_views(r.1@) == pizza_names(old(self)@.pizza_items),
    {
        let mut ordered_drinks: Vec<String> = Vec::new();
        let mut ordered_pizzas: Vec<String> = Vec::new();
        {
        let ghost start = pizza_item_views(self.pizza_line_items@);
        let ghost drinks0 = self.drink_line_items;
        let ghost menu0 = self.menu;
        let ghost status0 = self.status;
        let mut i: usize = 0;
        while i < self.pizza_line_items.len()
            invariant
                self.pizza_line_items@.len() == start.len(),
                i <= start.len(),
                self.drink_line_items == drinks0,
                self.menu == menu0,
                self.status == status0,
                string_views(ordered_pizzas@) == pizza_names(start.take(i as int)),
                forall|j: int|
                    0 <= j < i ==> #[trigger] self.pizza_line_items@[j]@ == (
                        pizza_in_state(start[j].0, PizzaState::Ordered),
                        start[j].1,
                    ),
                forall|j: int| i <= j < start.len() ==> #[trigger] self.pizza_line_items@[j]@ == start[j],
            decreases start.len() - i,
        {
            proof {
                assert(self.pizza_line_items@[i as int]@ == start[i as int]);
            }
            self.pizza_line_items[i].pizza.order_pizza();
            let ghost names_before = ordered_pizzas@;
            ordered_pizzas.push(self.pizza_line_items[i].pizza.get_name().clone());
            proof {
                assert(start.take(i as int + 1) =~= start.take(i as int).push(start[i as int]));
                assert(string_views(ordered_pizzas@) =~= string_views(names_before).push(start[i as int].0.name));
                assert(pizza_names(start.take(i as int + 1)) =~= pizza_names(start.take(i as int)).push(
                    start[i as int].0.name,
                ));
            }
            i = i + 1;
        }
        proof {
            assert(pizza_item_views(self.pizza_line_items@) =~= pizzas_in_state(start, PizzaState::Ordered));
            assert(start.take(i as int) =~= start);
        }
        }
        {
        let ghost start = drink_item_views(self.drink_line_items@);
        let ghost pizzas0 = self.pizza_line_items;
        let ghost menu0 = self.menu;
        let ghost status0 = self.status;
        let mut i: usize = 0;
        while i < self.drink_line_items.len()
            invariant
                self.drink_line_items@.len() == start.len(),
                i <= start.len(),
                self.pizza_line_items == pizzas0,
                self.menu == menu0,
                self.status == status0,
                string_views(ordered_drinks@) == drink_names(start.take(i as int)),
                forall|j: int|
                    0 <= j < i ==> #[trigger] self.drink_line_items@[j]@ == (
                        drink_in_state(start[j].0, DrinkState::Ordered),
                        start[j].1,
                    ),
                forall|j: int| i <= j < start.len() ==> #[trigger] self.drink_line_items@[j]@ == start[j],
            decreases start.len() - i,
        {
            proof {
                assert(self.drink_line_items@[i as int]@ == start[i as int]);
            }
            self.drink_line_items[i].drink.order_drink();
            let ghost names_before = ordered_drinks@;
            ordered_drinks.push(self.drink_line_items[i].drink.get_name().clone());
            proof {
                assert(start.take(i as int + 1) =~= start.take(i as int).push(start[i as int]));
                assert(string_views(ordered_drinks@) =~= string_views(names_before).push(start[i as int].0.name));
                assert(drink_names(start.take(i as int + 1)) =~= drink_names(start.take(i as int)).push(
                    start[i as int].0.name,
                ));
            }
            i = i + 1;
        }
        proof {
            assert(drink_item_views(self.drink_line_items@) =~= drinks_in_state(start, DrinkState::Ordered));
            assert(start.take(i as int) =~= start);
        }
        }
        self.status = OrderStatus::Ordered;
        (ordered_drinks, ordered_pizzas)
    }

    /// Serves every drink of the order's line items.
    pub fn serve_drinks(&mut self)
        ensures
            final(self)@ == drinks_set(old(self)@, DrinkState::Served),
    {
        let ghost start = drink_item_views(self.drink_line_items@);
        let ghost pizzas0 = self.pizza_line_items;
        let ghost menu0 = self.menu;
        let ghost status0 = self.status;
        let mut i: usize = 0;
        while i < self.drink_line_items.len()
            invariant
                self.drink_line_items@.len() == start.len(),
                i <= start.len(),
                self.pizza_line_items == pizzas0,
                self.menu == menu0,
                self.status == status0,
                forall|j: int|
                    0 <= j < i ==> #[trigger] self.drink_line_items@[j]@ == (
                        drink_in_state(start[j].0, DrinkState::Served),
                        start[j].1,
                    ),
                forall|j: int| i <= j < start.len() ==> #[trigger] self.drink_line_items@[j]@ == start[j],
            decreases start.len() - i,
        {
            proof {
                assert(self.drink_line_items@[i as int]@ == start[i as int]);
            }
            self.drink_line_items[i].drink.serve_drink();
            i = i + 1;
        }
        proof {
            assert(drink_item_views(self.drink_line_items@) =~= drinks_in_state(start, DrinkState::Served));
        }
    }

    /// Starts cooking every pizza of the order's line items.
    pub fn cook_pizzas(&mut self)
        ensures
            final(self)@ == pizzas_set(old(self)@, PizzaState::Cooking),
    {
        let ghost start = pizza_item_views(self.pizza_line_items@);
        let ghost drinks0 = self.drink_line_items;
        let ghost menu0 = self.menu;
        let ghost status0 = self.status;
        let mut i: usize = 0;
        while i < self.pizza_line_items.len()
            invariant
                self.pizza_line_items@.len() == start.len(),
                i <= start.len(),
                self.drink_line_items == drinks0,
                self.menu == menu0,
                self.status == status0,
                forall|j: int|
                    0 <= j < i ==> #[trigger] self.pizza_line_items@[j]@ == (
                        pizza_in_state(start[j].0, PizzaState::Cooking),
                        start[j].1,
                    ),
                forall|j: int| i <= j < start.len() ==> #[trigger] self.pizza_line_items@[j]@ == start[j],
            decreases start.len() - i,
        {
            proof {
                assert(self.pizza_line_items@[i as int]@ == start[i as int]);
            }
            self.pizza_line_items[i].pizza.cook_pizza();
            i = i + 1;
        }
        proof {
            assert(pizza_item_views(self.pizza_line_items@) =~= pizzas_in_state(start, PizzaState::Cooking));
        }
    }

    /// Serves every pizza of the order's line items.
    pub fn serve_pizzas(&mut self)
        ensures
            final(self)@ == pizzas_set(old(self)@, PizzaState::Served),
    {
        let ghost start = pizza_item_views(self.pizza_line_items@);
        let ghost drinks0 = self.drink_line_items;
        let ghost menu0 = self.menu;
        let ghost status0 = self.status;
        let mut i: usize = 0;
        while i < self.pizza_line_items.len()
            invariant
                self.pizza_line_items@.len() == start.len(),
                i <= start.len(),
                self.drink_line_items == drinks0,
                self.menu == menu0,
                self.status == status0,
                forall|j: int|
                    0 <= j < i ==> #[trigger] self.pizza_line_items@[j]@ == (
                        pizza_in_state(start[j].0, PizzaState::Served),
                        start[j].1,
                    ),
                forall|j: int| i <= j < start.len() ==> #[trigger] self.pizza_line_items@[j]@ == start[j],
            decreases start.len() - i,
        {
            proof {
                assert(self.pizza_line_items@[i as int]@ == start[i as int]);
            }
            self.pizza_line_items[i].pizza.serve_pizza();
            i = i + 1;
        }
        proof {
            assert(pizza_item_views(self.pizza_line_items@) =~= pizzas_in_state(start, PizzaState::Served));
        }
    }

    /// Marks the order as paid.
    pub fn pay_order(&mut self)
        ensures
            final(self)@ == paid(old(self)@),
    {
        self.status = OrderStatus::Paid;
    }
}

} // verus!
