//! Rows of the database and what they stand for.

use crate::models;
use crate::temperature::Temperature;
use vstd::prelude::*;
use vstd::std_specs::convert::FromSpecImpl;

verus! {

/// A row of the table of recipes.
#[derive(Clone, Debug, PartialEq, Eq)]
pub struct Recipe {
    pub id: i64,
    pub title: String,
    pub description: String,
}

/// A row of the table of steps.
#[derive(Clone, Copy, Debug, PartialEq, Eq)]
pub struct Step {
    /// Place of the step in its recipe, counted from zero.
    pub position: i64,
    /// Temperature to reach, in degrees Celsius.
    pub target_temperature: Temperature,
    /// Seconds to hold the temperature.
    pub duration: i64,
}

/// A row of the table of brews.
#[derive(Clone, Copy, Debug, PartialEq, Eq)]
pub struct Brew {
    pub recipe_id: i64,
}

/// The unsigned number with the same 64 bits as a signed one.
pub open spec fn unsigned(n: i64) -> u64 {
    if n >= 0 {
        n as u64
    } else {
        (n + 0x1_0000_0000_0000_0000) as u64
    }
}

/// The signed number with the same 64 bits as an unsigned one.
pub open spec fn signed(n: u64) -> i64 {
    if n <= i64::MAX {
        n as i64
    } else {
        (n - 0x1_0000_0000_0000_0000) as i64
    }
}

/// Reinterprets a signed number as unsigned.
pub fn to_unsigned(n: i64) -> (r: u64)
    ensures
        r == unsigned(n),
{
    if n >= 0 {
        n as u64
    } else {
        (n - i64::MIN) as u64 + 0x8000_0000_0000_0000
    }
}

/// Reinterprets an unsigned number as signed.
pub fn to_signed(n: u64) -> (r: i64)
    ensures
        r == signed(n),
{
    if n <= 0x7fff_ffff_ffff_ffff {
        n as i64
    } else {
        (n - 0x8000_0000_0000_0000) as i64 + i64::MIN
    }
}

/// Going to unsigned and back changes nothing, and neither does the other
/// way round.
pub proof fn lemma_sign_round_trip(n: i64, m: u64)
    ensures
        signed(unsigned(n)) == n,
        unsigned(signed(m)) == m,
{
}

/// Whether a step is what a row stands for. Rows carry no description, so
/// that of the step is empty; temperature and duration are those of the
/// row. A duration below zero is taken by its bits, as a very long one.
pub open spec fn is_step_of(step: models::Step, row: Step) -> bool {
    &&& step.description@ == Seq::<char>::empty()
    &&& step.target_temperature == row.target_temperature
    &&& step.duration == unsigned(row.duration)
}

/// The row under which a step is stored at a place in its recipe.
pub open spec fn row_of(position: int, step: models::Step) -> Step {
    Step {
        position: signed(position as u64),
        target_temperature: step.target_temperature,
        duration: signed(step.duration),
    }
}

impl From<Recipe> for models::Recipe {
    /// The recipe of a row, as yet without steps.
    fn from(recipe: Recipe) -> (r: models::Recipe)
        ensures
            r.id == models::RecipeId(recipe.id),
            r.name == recipe.title,
            r.description == recipe.description,
            r.steps@ == Seq::<models::Step>::empty(),
    {
        models::Recipe {
            id: models::RecipeId(recipe.id),
            name: recipe.title,
            description: recipe.description,
            steps: Vec::new(),
        }
    }
}

impl FromSpecImpl<Recipe> for models::Recipe {
    /// The conversion is described by what `from` ensures, not by a
    /// function: a recipe holds a vector, of which only the contents are
    /// laid down.
    open spec fn obeys_from_spec() -> bool {
        false
    }

    open spec fn from_spec(recipe: Recipe) -> models::Recipe {
        arbitrary()
    }
}

impl From<Step> for models::Step {
    fn from(step: Step) -> (r: models::Step)
        ensures
            is_step_of(r, step),
    {
        models::Step {
            description: String::new(),
            target_temperature: step.target_temperature,
            duration: to_unsigned(step.duration),
        }
    }
}

impl FromSpecImpl<Step> for models::Step {
    /// The conversion is described by what `from` ensures, not by a
    /// function: a step holds a string, of which only the contents are laid
    /// down.
    open spec fn obeys_from_spec() -> bool {
        false
    }

    open spec fn from_spec(step: Step) -> models::Step {
        arbitrary()
    }
}

/// Puts a recipe together from its row and the rows of its steps, which
/// keep their order.
pub fn recipe_from_rows(recipe: Recipe, steps: Vec<Step>) -> (r: models::Recipe)
    ensures
        r.id == models::RecipeId(recipe.id),
        r.name == recipe.title,
        r.description == recipe.description,
        r.steps@.len() == steps@.len(),
        forall|i: int| 0 <= i < steps@.len() ==> is_step_of(#[trigger] r.steps@[i], steps@[i]),
{
    let mut converted: Vec<models::Step> = Vec::new();
    let mut i: usize = 0;
    while i < steps.len()
        invariant
            i <= steps@.len(),
            converted@.len() == i,
            forall|j: int| 0 <= j < i ==> is_step_of(#[trigger] converted@[j], steps@[j]),
        decreases steps@.len() - i,
    {
        converted.push(models::Step::from(steps[i]));
        i = i + 1;
    }
    models::Recipe {
        id: models::RecipeId(recipe.id),
        name: recipe.title,
        description: recipe.description,
        steps: converted,
    }
}

/// The rows under which the steps of a recipe are stored: each at the place
/// at which it stands.
pub fn rows_of_steps(steps: &Vec<models::Step>) -> (rows: Vec<Step>)
    ensures
        rows@.len() == steps@.len(),
        forall|i: int| 0 <= i < steps@.len() ==> #[trigger] rows@[i] == row_of(i, steps@[i]),
{
    let mut rows: Vec<Step> = Vec::new();
    let mut i: usize = 0;
    while i < steps.len()
        invariant
            i <= steps@.len(),
            rows@.len() == i,
            forall|j: int| 0 <= j < i ==> #[trigger] rows@[j] == row_of(j, steps@[j]),
        decreases steps@.len() - i,
    {
        rows.push(
            Step {
                position: to_signed(i as u64),
                target_temperature: steps[i].target_temperature,
                duration: to_signed(steps[i].duration),
            },
        );
        i = i + 1;
    }
    rows
}

/// The brew that runs the recipe of a row.
pub fn brew_of(recipe: &models::Recipe) -> (brew: models::NewBrew)
    ensures
        brew.id == recipe.id,
{
    models::NewBrew { id: recipe.id }
}

} // verus!
