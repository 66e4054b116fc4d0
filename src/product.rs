use vstd::prelude::*;

verus! {

/// A catalog entry: a name and its caloric value per 100 units of weight.
pub struct Product {
    pub name: String,
    pub caloric_value: u16,
}

impl Product {
    pub fn new(name: &str, caloric_value: u16) -> (r: Self)
        ensures
            r.name@ == name@,
            r.caloric_value == caloric_value,
    {
        Self { name: String::from_str(name), caloric_value }
    }
}

/// A product taken with a given weight into one pizza. The caloric value is
/// copied from the product when the ingredient is made.
pub struct Ingredient {
    pub name: String,
    pub weight: u16,
    pub caloric_value: u16,
}

impl Ingredient {
    pub fn new_from_product(product: &Product, weight: u16) -> (r: Self)
        ensures
            r.name@ == product.name@,
            r.caloric_value == product.caloric_value,
            r.weight == weight,
    {
        Self { name: product.name.clone(), caloric_value: product.caloric_value, weight }
    }
}

impl Clone for Ingredient {
    fn clone(&self) -> (r: Self)
        ensures
            r == *self,
    {
        Self { name: self.name.clone(), weight: self.weight, caloric_value: self.caloric_value }
    }
}

} // verus!
