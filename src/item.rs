use vstd::prelude::*;

verus! {

/// What every entry of a menu offers, whatever its kind: a name and a caloric
/// value. Caloric values are exact integers in hundredths of a kilocalorie.
pub trait Item {
    spec fn spec_name(&self) -> Seq<char>;

    spec fn spec_caloric_value(&self) -> int;

    fn get_name(&self) -> (r: &String)
        ensures
            r@ == self.spec_name(),
    ;

    /// The caloric value in hundredths of a kilocalorie.
    fn get_caloric_value(&self) -> (r: u128)
        ensures
            r as int == self.spec_caloric_value(),
    ;
}

} // verus!
