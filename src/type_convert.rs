//! Conversion into an animal through an associated type: every animal is its
//! own animal, and `People` turn into an `Apeman`.

use vstd::prelude::*;

verus! {

pub trait Animal {
    /// The animal's name.
    spec fn name_spec(&self) -> Seq<char>;

    fn name(&self) -> (r: String)
        ensures
            r@ == self.name_spec(),
    ;
}

pub trait IntoAnimal {
    type IntoAnimal: Animal;

    /// The animal that `self` turns into.
    spec fn animal_of(self) -> Self::IntoAnimal;

    fn into_animal(self) -> (r: Self::IntoAnimal)
        ensures
            r == self.animal_of(),
    ;
}

#[derive(PartialEq, Eq, Structural)]
pub struct Apeman;

impl Apeman {
    pub fn new() -> (r: Apeman)
        ensures
            r == Apeman,
            r.name_spec() == "猿人"@,
    {
        Apeman
    }
}

impl Animal for Apeman {
    open spec fn name_spec(&self) -> Seq<char> {
        "猿人"@
    }

    fn name(&self) -> (r: String) {
        "猿人".to_owned()
    }
}

impl<A: Animal> IntoAnimal for A {
    type IntoAnimal = A;

    open spec fn animal_of(self) -> A {
        self
    }

    fn into_animal(self) -> (r: A) {
        self
    }
}

pub struct People;

impl IntoAnimal for People {
    type IntoAnimal = Apeman;

    open spec fn animal_of(self) -> Apeman {
        Apeman
    }

    fn into_animal(self) -> (r: Apeman) {
        Apeman::new()
    }
}

} // verus!
