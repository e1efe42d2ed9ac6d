//! Method lookup through `Deref`: a `Monkey` answers with its `Animal`'s name.

use vstd::prelude::*;

verus! {

pub struct Animal;

impl Animal {
    pub fn new() -> (r: Option<&'static Animal>)
        ensures
            r is Some,
    {
        Some(&Animal)
    }

    pub fn name(&self) -> (r: &'static str)
        ensures
            r@ == "动物"@,
    {
        "动物"
    }
}

pub struct Monkey;

impl core::ops::Deref for Monkey {
    type Target = Animal;

    fn deref(&self) -> &Animal {
        Animal::new().unwrap()
    }
}

} // verus!
