//! What the core and its callers exchange: the state of the device,
//! recipes and their steps, and the identifiers of recipes and brews.

use crate::temperature::Temperature;
use vstd::prelude::*;
use vstd::std_specs::convert::FromSpecImpl;

verus! {

/// Device state.
#[derive(Clone, Copy, Debug, PartialEq, Eq)]
pub struct Device {
    /// Current temperature or `None` if sensor reading failed.
    pub current_temperature: Option<Temperature>,
    /// Target temperature or `None` if sensor reading failed.
    pub target_temperature: Option<Temperature>,
    pub stirrer_on: bool,
    pub heater_on: bool,
    /// Set by whoever talks to the device when a transaction failed.
    pub serial_problem: bool,
}

impl Default for Device {
    /// A device of which nothing is known: no temperatures, everything off.
    fn default() -> (device: Device)
        ensures
            device == (Device {
                current_temperature: None,
                target_temperature: None,
                stirrer_on: false,
                heater_on: false,
                serial_problem: false,
            }),
    {
        Device {
            current_temperature: None,
            target_temperature: None,
            stirrer_on: false,
            heater_on: false,
            serial_problem: false,
        }
    }
}

/// Recipe step.
#[derive(Clone, Debug, PartialEq, Eq)]
pub struct Step {
    pub description: String,
    /// Temperature to reach, in degrees Celsius.
    pub target_temperature: Temperature,
    /// Seconds to hold the temperature once it is reached.
    pub duration: u64,
}

/// Recipe identifier newtype.
#[derive(Clone, Copy, Debug, PartialEq, Eq)]
pub struct RecipeId(pub i64);

impl Default for RecipeId {
    fn default() -> (id: RecipeId)
        ensures
            id == RecipeId(0),
    {
        RecipeId(0)
    }
}

impl From<i64> for RecipeId {
    fn from(id: i64) -> (r: RecipeId) {
        RecipeId(id)
    }
}

impl FromSpecImpl<i64> for RecipeId {
    open spec fn obeys_from_spec() -> bool {
        true
    }

    open spec fn from_spec(id: i64) -> RecipeId {
        RecipeId(id)
    }
}

impl From<RecipeId> for i64 {
    fn from(id: RecipeId) -> (r: i64) {
        id.0
    }
}

impl FromSpecImpl<RecipeId> for i64 {
    open spec fn obeys_from_spec() -> bool {
        true
    }

    open spec fn from_spec(id: RecipeId) -> i64 {
        id.0
    }
}

/// Single recipe consisting of name and steps, which run in the order in
/// which they stand.
#[derive(Clone, Debug, PartialEq, Eq)]
pub struct Recipe {
    pub id: RecipeId,
    pub name: String,
    pub description: String,
    pub steps: Vec<Step>,
}

impl Default for Recipe {
    fn default() -> (recipe: Recipe)
        ensures
            recipe.id == RecipeId(0),
            recipe.name@ == Seq::<char>::empty(),
            recipe.description@ == Seq::<char>::empty(),
            recipe.steps@ == Seq::<Step>::empty(),
    {
        Recipe { id: RecipeId(0), name: String::new(), description: String::new(), steps: Vec::new() }
    }
}

/// A new recipe going to be stored in the database.
#[derive(Clone, Debug, PartialEq, Eq)]
pub struct NewRecipe {
    pub name: String,
    pub description: String,
    pub steps: Vec<Step>,
}

impl Default for NewRecipe {
    fn default() -> (recipe: NewRecipe)
        ensures
            recipe.name@ == Seq::<char>::empty(),
            recipe.description@ == Seq::<char>::empty(),
            recipe.steps@ == Seq::<Step>::empty(),
    {
        NewRecipe { name: String::new(), description: String::new(), steps: Vec::new() }
    }
}

/// Result identifier of the new recipe.
#[derive(Clone, Copy, Debug, PartialEq, Eq)]
pub struct NewRecipeResponse {
    pub id: RecipeId,
}

/// A new brew of the recipe with this identifier.
#[derive(Clone, Copy, Debug, PartialEq, Eq)]
pub struct NewBrew {
    pub id: RecipeId,
}

/// Brew identifier newtype.
#[derive(Clone, Copy, Debug, PartialEq, Eq)]
pub struct BrewId(i64);

impl BrewId {
    /// The number behind the identifier.
    pub closed spec fn value(self) -> i64 {
        self.0
    }
}

impl Default for BrewId {
    fn default() -> (id: BrewId)
        ensures
            id.value() == 0,
    {
        BrewId(0)
    }
}

impl From<i64> for BrewId {
    fn from(id: i64) -> (r: BrewId) {
        BrewId(id)
    }
}

impl FromSpecImpl<i64> for BrewId {
    open spec fn obeys_from_spec() -> bool {
        true
    }

    closed spec fn from_spec(id: i64) -> BrewId {
        BrewId(id)
    }
}

impl From<BrewId> for i64 {
    fn from(id: BrewId) -> (r: i64) {
        id.0
    }
}

impl FromSpecImpl<BrewId> for i64 {
    open spec fn obeys_from_spec() -> bool {
        true
    }

    closed spec fn from_spec(id: BrewId) -> i64 {
        id.0
    }
}

/// A brew identifier keeps the number it was made from.
pub proof fn lemma_brew_id_round_trip(id: i64)
    ensures
        <BrewId as vstd::std_specs::convert::FromSpec<i64>>::from_spec(id).value() == id,
        <i64 as vstd::std_specs::convert::FromSpec<BrewId>>::from_spec(
            <BrewId as vstd::std_specs::convert::FromSpec<i64>>::from_spec(id),
        ) == id,
{
}

/// Result identifier of a new brew.
#[derive(Clone, Copy, Debug, PartialEq, Eq)]
pub struct NewBrewResponse {
    pub id: BrewId,
}

/// Multiple recipes.
#[derive(Clone, Debug, PartialEq, Eq)]
pub struct Recipes {
    pub recipes: Vec<Recipe>,
}

impl Default for Recipes {
    fn default() -> (all: Recipes)
        ensures
            all.recipes@ == Seq::<Recipe>::empty(),
    {
        Recipes { recipes: Vec::new() }
    }
}

/// A new target temperature to set on the device.
#[derive(Clone, Copy, Debug, PartialEq, Eq)]
pub struct TargetTemperature {
    pub target_temperature: Temperature,
}

} // verus!
