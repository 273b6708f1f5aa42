//! The plan's data: family profile, meals, ingredients, days, weeks and the
//! shopping list, each with the mathematical view that contracts speak of.
use vstd::prelude::*;
use crate::calendar::PlanDate;

verus! {

/// The family the plans are made for.
#[derive(Debug, Clone)]
pub struct FamilyProfile {
    pub adults: Vec<Adult>,
    pub kids: Vec<Kid>,
    pub infant: Option<Infant>,
    pub cuisine: String,
    pub region: String,
}

/// A group of adults of one age range.
#[derive(Debug, Clone)]
pub struct Adult {
    pub age_range: String,
    pub count: u8,
}

/// A group of children of one age range.
#[derive(Debug, Clone)]
pub struct Kid {
    pub age_range: String,
    pub count: u8,
}

/// The infants of the family.
#[derive(Debug, Clone)]
pub struct Infant {
    pub age_years: u8,
    pub count: u8,
}

/// The kind of a meal, which is also its place in the day.
#[derive(Debug, Clone, Copy, PartialEq, Eq, Structural)]
pub enum MealType {
    Breakfast,
    KidsSnack,
    KidsLunch,
    Lunch,
    Dinner,
}

impl MealType {
    /// The name under which the meal kind is shown.
    pub open spec fn label_view(self) -> Seq<char> {
        match self {
            MealType::Breakfast => "Breakfast"@,
            MealType::KidsSnack => "Kids' Snack"@,
            MealType::KidsLunch => "Kids' Lunch"@,
            MealType::Lunch => "Lunch"@,
            MealType::Dinner => "Dinner"@,
        }
    }

    /// The name under which the meal kind is shown.
    pub fn label(&self) -> (r: String)
        ensures
            r@ == self.label_view(),
    {
        match self {
            MealType::Breakfast => String::from_str("Breakfast"),
            MealType::KidsSnack => String::from_str("Kids' Snack"),
            MealType::KidsLunch => String::from_str("Kids' Lunch"),
            MealType::Lunch => String::from_str("Lunch"),
            MealType::Dinner => String::from_str("Dinner"),
        }
    }
}

/// A dish with what goes into it.
#[derive(Debug, Clone)]
pub struct Meal {
    pub meal_type: MealType,
    pub name: String,
    pub description: String,
    pub ingredients: Vec<Ingredient>,
    pub suitable_for: Vec<String>,
}

/// One ingredient of a meal; `quantity` is a decimal numeral in `unit`s.
#[derive(Debug, Clone)]
pub struct Ingredient {
    pub name: String,
    pub quantity: String,
    pub unit: String,
    pub category: IngredientCategory,
}

/// The shelf an ingredient is bought from.
#[derive(Debug, Clone, Copy, PartialEq, Eq, Hash, Structural)]
pub enum IngredientCategory {
    Vegetables,
    Fruits,
    Grains,
    Proteins,
    Dairy,
    Spices,
    Oils,
    Other,
}

impl IngredientCategory {
    /// The heading under which the category is shown.
    pub open spec fn label_view(self) -> Seq<char> {
        match self {
            IngredientCategory::Vegetables => "Vegetables"@,
            IngredientCategory::Fruits => "Fruits"@,
            IngredientCategory::Grains => "Grains & Staples"@,
            IngredientCategory::Proteins => "Proteins (Meat/Eggs/Fish)"@,
            IngredientCategory::Dairy => "Dairy"@,
            IngredientCategory::Spices => "Spices & Condiments"@,
            IngredientCategory::Oils => "Oils & Fats"@,
            IngredientCategory::Other => "Other"@,
        }
    }

    /// The heading under which the category is shown.
    pub fn label(&self) -> (r: String)
        ensures
            r@ == self.label_view(),
    {
        match self {
            IngredientCategory::Vegetables => String::from_str("Vegetables"),
            IngredientCategory::Fruits => String::from_str("Fruits"),
            IngredientCategory::Grains => String::from_str("Grains & Staples"),
            IngredientCategory::Proteins => String::from_str("Proteins (Meat/Eggs/Fish)"),
            IngredientCategory::Dairy => String::from_str("Dairy"),
            IngredientCategory::Spices => String::from_str("Spices & Condiments"),
            IngredientCategory::Oils => String::from_str("Oils & Fats"),
            IngredientCategory::Other => String::from_str("Other"),
        }
    }
}

/// The meals of one day.
#[derive(Debug, Clone)]
pub struct DayPlan {
    pub date: PlanDate,
    pub day_name: String,
    pub meals: Vec<Meal>,
}

/// A week of meals with the shopping list it needs.
#[derive(Debug, Clone)]
pub struct WeeklyPlan {
    pub week_start: PlanDate,
    pub days: Vec<DayPlan>,
    pub shopping_list: Vec<ShoppingItem>,
}

/// The total of one ingredient over a week.
#[derive(Debug, Clone)]
pub struct ShoppingItem {
    pub ingredient: String,
    pub total_quantity: String,
    pub unit: String,
    pub category: IngredientCategory,
}

/// An ingredient as text.
pub struct IngredientView {
    pub name: Seq<char>,
    pub quantity: Seq<char>,
    pub unit: Seq<char>,
    pub category: IngredientCategory,
}

/// A meal as text.
pub struct MealView {
    pub meal_type: MealType,
    pub name: Seq<char>,
    pub description: Seq<char>,
    pub ingredients: Seq<IngredientView>,
    pub suitable_for: Seq<Seq<char>>,
}

/// A day of meals as text.
pub struct DayPlanView {
    pub date: PlanDate,
    pub day_name: Seq<char>,
    pub meals: Seq<MealView>,
}

/// A shopping list line as text.
pub struct ShoppingItemView {
    pub ingredient: Seq<char>,
    pub total_quantity: Seq<char>,
    pub unit: Seq<char>,
    pub category: IngredientCategory,
}

impl View for Ingredient {
    type V = IngredientView;

    open spec fn view(&self) -> IngredientView {
        IngredientView {
            name: self.name@,
            quantity: self.quantity@,
            unit: self.unit@,
            category: self.category,
        }
    }
}

impl View for Meal {
    type V = MealView;

    open spec fn view(&self) -> MealView {
        MealView {
            meal_type: self.meal_type,
            name: self.name@,
            description: self.description@,
            ingredients: self.ingredients@.map_values(|i: Ingredient| i@),
            suitable_for: self.suitable_for@.map_values(|s: String| s@),
        }
    }
}

impl View for DayPlan {
    type V = DayPlanView;

    open spec fn view(&self) -> DayPlanView {
        DayPlanView {
            date: self.date,
            day_name: self.day_name@,
            meals: self.meals@.map_values(|m: Meal| m@),
        }
    }
}

impl View for ShoppingItem {
    type V = ShoppingItemView;

    open spec fn view(&self) -> ShoppingItemView {
        ShoppingItemView {
            ingredient: self.ingredient@,
            total_quantity: self.total_quantity@,
            unit: self.unit@,
            category: self.category,
        }
    }
}

impl Default for FamilyProfile {
    /// Four adults aged 30-37, two children aged 7-10 and one infant of two,
    /// eating South Indian food, Chennai style.
    fn default() -> (r: FamilyProfile)
        ensures
            r.adults@.len() == 1,
            r.adults@[0].age_range@ == "30-37"@,
            r.adults@[0].count == 4,
            r.kids@.len() == 1,
            r.kids@[0].age_range@ == "7-10"@,
            r.kids@[0].count == 2,
            r.infant == Some(Infant { age_years: 2, count: 1 }),
            r.cuisine@ == "South Indian"@,
            r.region@ == "Chennai"@,
    {
        FamilyProfile {
            adults: vec![Adult { age_range: String::from_str("30-37"), count: 4 }],
            kids: vec![Kid { age_range: String::from_str("7-10"), count: 2 }],
            infant: Some(Infant { age_years: 2, count: 1 }),
            cuisine: String::from_str("South Indian"),
            region: String::from_str("Chennai"),
        }
    }
}

} // verus!
