use vstd::prelude::*;

use crate::drink::{drink_views, Drink, DrinkView};
use crate::item::Item;
use crate::pizza::{pizza_views, Pizza, PizzaView};

verus! {

/// The mathematical model of a menu.
pub struct MenuView {
    pub pizzas: Seq<PizzaView>,
    pub drinks: Seq<DrinkView>,
}

/// A catalog of pizzas and drinks, each addressed by its 1-based position in
/// its own list.
pub struct Menu {
    pub pizzas: Vec<Pizza>,
    pub drinks: Vec<Drink>,
}

impl View for Menu {
    type V = MenuView;

    open spec fn view(&self) -> MenuView {
        MenuView { pizzas: pizza_views(self.pizzas@), drinks: drink_views(self.drinks@) }
    }
}

/// The part of a menu listing that a line belongs to.
#[derive(Clone, Copy, Debug, PartialEq, Eq, Structural)]
pub enum MenuSection {
    Drinks,
    Pizzas,
}

/// The mathematical model of a line of a menu listing.
pub struct MenuLineView {
    pub section: MenuSection,
    pub position: int,
    pub name: Seq<char>,
    pub caloric_value: int,
}

/// One line of a menu listing: the 1-based position of an entry in its
/// section, its name and its caloric value in hundredths of a kilocalorie.
pub struct MenuLine {
    pub section: MenuSection,
    pub position: usize,
    pub name: String,
    pub caloric_value: u128,
}

impl View for MenuLine {
    type V = MenuLineView;

    open spec fn view(&self) -> MenuLineView {
        MenuLineView {
            section: self.section,
            position: self.position as int,
            name: self.name@,
            caloric_value: self.caloric_value as int,
        }
    }
}

/// The models of a sequence of listing lines.
pub open spec fn line_views(lines: Seq<MenuLine>) -> Seq<MenuLineView> {
    lines.map_values(|l: MenuLine| l@)
}

/// The lines that list `items` in order under `section`, numbered from 1.
pub open spec fn item_lines<T: Item>(items: Seq<T>, section: MenuSection) -> Seq<MenuLineView> {
    Seq::new(
        items.len(),
        |i: int|
            MenuLineView {
                section,
                position: i + 1,
                name: items[i].spec_name(),
                caloric_value: items[i].spec_caloric_value(),
            },
    )
}

/// The full listing of a menu: its drinks first, then its pizzas.
pub open spec fn menu_listing(menu: Menu) -> Seq<MenuLineView> {
    item_lines(menu.drinks@, MenuSection::Drinks) + item_lines(menu.pizzas@, MenuSection::Pizzas)
}

impl Menu {
    /// Appends to `lines` one line for each of `items`, in order.
    fn list_items_names<T: Item>(&self, items: &Vec<T>, section: MenuSection, lines: &mut Vec<MenuLine>)
        ensures
            line_views(final(lines)@) == line_views(old(lines)@) + item_lines(items@, section),
    {
        let ghost start = line_views(lines@);
        let mut i: usize = 0;
        while i < items.len()
            invariant
                i <= items@.len(),
                line_views(lines@) == start + item_lines(items@, section).take(i as int),
            decreases items@.len() - i,
        {
            let item = &items[i];
            let line = MenuLine {
                section,
                position: i + 1,
                name: item.get_name().clone(),
                caloric_value: item.get_caloric_value(),
            };
            let ghost before = lines@;
            lines.push(line);
            proof {
                assert(line_views(lines@) =~= line_views(before).push(line@));
                assert(item_lines(items@, section).take(i as int + 1) =~= item_lines(
                    items@,
                    section,
                ).take(i as int).push(line@));
            }
            i = i + 1;
        }
        proof {
            assert(item_lines(items@, section).take(i as int) =~= item_lines(items@, section));
        }
    }

    /// Lists the menu: the drinks in order, then the pizzas in order, each
    /// with its 1-based position, name and caloric value.
    pub fn list_menu(&self) -> (r: Vec<MenuLine>)
        ensures
            line_views(r@) == menu_listing(*self),
    {
        let mut lines: Vec<MenuLine> = Vec::new();
        proof {
            assert(line_views(lines@) =~= Seq::<MenuLineView>::empty());
        }
        self.list_items_names(&self.drinks, MenuSection::Drinks, &mut lines);
        self.list_items_names(&self.pizzas, MenuSection::Pizzas, &mut lines);
        proof {
            assert(line_views(lines@) =~= menu_listing(*self));
        }
        lines
    }
}

/// Assembles a menu from pizzas and drinks added one by one. Building does not
/// reset the builder: later additions accumulate.
pub struct MenuBuilder {
    pizzas: Vec<Pizza>,
    drinks: Vec<Drink>,
}

impl MenuBuilder {
    pub closed spec fn spec_pizzas(&self) -> Seq<Pizza> {
        self.pizzas@
    }

    pub closed spec fn spec_drinks(&self) -> Seq<Drink> {
        self.drinks@
    }

    pub fn new() -> (r: Self)
        ensures
            r.spec_pizzas() == Seq::<Pizza>::empty(),
            r.spec_drinks() == Seq::<Drink>::empty(),
    {
        Self { pizzas: Vec::new(), drinks: Vec::new() }
    }

    pub fn add_pizza(&mut self, pizza: Pizza) -> (r: &mut Self)
        ensures
            r.spec_pizzas() == old(self).spec_pizzas().push(pizza),
            r.spec_drinks() == old(self).spec_drinks(),
            *final(self) == *final(r),
    {
        self.pizzas.push(pizza);
        self
    }

    pub fn add_drink(&mut self, drink: Drink) -> (r: &mut Self)
        ensures
            r.spec_pizzas() == old(self).spec_pizzas(),
            r.spec_drinks() == old(self).spec_drinks().push(drink),
            *final(self) == *final(r),
    {
        self.drinks.push(drink);
        self
    }

    /// A menu holding copies of every pizza and drink added so far, in order.
    pub fn build_menu(&mut self) -> (r: Menu)
        ensures
            *final(self) == *old(self),
            r@ == (MenuView {
                pizzas: pizza_views(old(self).spec_pizzas()),
                drinks: drink_views(old(self).spec_drinks()),
            }),
    {
        let pizzas = self.pizzas.clone();
        let drinks = self.drinks.clone();
        proof {
            assert(pizza_views(pizzas@) =~= pizza_views(self.pizzas@));
            assert(drink_views(drinks@) =~= drink_views(self.drinks@));
        }
        Menu { pizzas, drinks }
    }
}

} // verus!
