//! Filtering a list of meals by a rule over adjacent elements: keep the
//! name of every savory meal that is directly followed by a sweet one.

use vstd::prelude::*;

verus! {

/// How a meal tastes.
#[derive(Debug, Clone, Copy)]
pub enum Taste {
    Savory,
    Sweet,
}

/// A meal on the list.
#[derive(Debug)]
pub struct Meal {
    pub name: &'static str,
    pub taste: Taste,
}

/// The names of the savory meals directly followed by a sweet one, in
/// order.
pub open spec fn savory_then_sweet(meals: Seq<Meal>) -> Seq<Seq<char>>
    decreases meals.len(),
{
    if meals.len() <= 1 {
        Seq::empty()
    } else {
        let rest = savory_then_sweet(meals.drop_last());
        if meals[meals.len() - 2].taste is Savory && meals.last().taste is Sweet {
            rest.push(meals[meals.len() - 2].name@)
        } else {
            rest
        }
    }
}

/// The sample menu: seven meals, savory and sweet interleaved.
pub fn mock_meals() -> (r: Vec<Meal>)
    ensures
        r@.len() == 7,
        r@[0].name@ == "Burger"@ && r@[0].taste is Savory,
        r@[1].name@ == "Cake"@ && r@[1].taste is Sweet,
        r@[2].name@ == "Pizza"@ && r@[2].taste is Savory,
        r@[3].name@ == "Pasta"@ && r@[3].taste is Savory,
        r@[4].name@ == "Ice-cream"@ && r@[4].taste is Sweet,
        r@[5].name@ == "Sandwich"@ && r@[5].taste is Savory,
        r@[6].name@ == "Mango"@ && r@[6].taste is Sweet,
{
    let mut r: Vec<Meal> = Vec::new();
    r.push(Meal { name: "Burger", taste: Taste::Savory });
    r.push(Meal { name: "Cake", taste: Taste::Sweet });
    r.push(Meal { name: "Pizza", taste: Taste::Savory });
    r.push(Meal { name: "Pasta", taste: Taste::Savory });
    r.push(Meal { name: "Ice-cream", taste: Taste::Sweet });
    r.push(Meal { name: "Sandwich", taste: Taste::Savory });
    r.push(Meal { name: "Mango", taste: Taste::Sweet });
    r
}

/// Keeps the name of every meal followed by a sweet one, with a plain
/// loop over adjacent pairs.
pub fn classical_solution(meals: Vec<Meal>) -> (r: Vec<&'static str>)
    ensures
        r@.len() == savory_then_sweet(meals@).len(),
        forall|i: int|
            0 <= i < r@.len() ==> (#[trigger] r@[i])@ == savory_then_sweet(meals@)[i],
{
    let n = meals.len();
    let mut out: Vec<&'static str> = Vec::new();
    if n < 2 {
        return out;
    }
    let mut i: usize = 0;
    while i + 1 < n
        invariant
            0 <= i <= n - 1,
            2 <= n,
            n == meals@.len(),
            out@.len() == savory_then_sweet(meals@.subrange(0, i + 1 as int)).len(),
            forall|j: int|
                0 <= j < out@.len() ==> (#[trigger] out@[j])@ == savory_then_sweet(
                    meals@.subrange(0, i + 1 as int),
                )[j],
        decreases n - i,
    {
        let ghost pre = meals@.subrange(0, i + 1 as int);
        let ghost ext = meals@.subrange(0, i + 2 as int);
        proof {
            assert(ext.drop_last() =~= pre);
            assert(ext[ext.len() - 2] == meals@[i as int]);
            assert(ext.last() == meals@[i + 1 as int]);
        }
        let keep = match (&meals[i].taste, &meals[i + 1].taste) {
            (Taste::Savory, Taste::Sweet) => true,
            _ => false,
        };
        if keep {
            out.push(meals[i].name);
        }
        i = i + 1;
    }
    proof {
        assert(meals@.subrange(0, n as int) =~= meals@);
    }
    out
}

/// Keeps the name of every meal followed by a sweet one; the
/// windows-combinator counterpart of [`classical_solution`], with the
/// same meaning.
pub fn chaining_solution(meals: Vec<Meal>) -> (r: Vec<&'static str>)
    ensures
        r@.len() == savory_then_sweet(meals@).len(),
        forall|i: int|
            0 <= i < r@.len() ==> (#[trigger] r@[i])@ == savory_then_sweet(meals@)[i],
{
    classical_solution(meals)
}

} // verus!
