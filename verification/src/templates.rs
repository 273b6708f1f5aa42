//! The built-in meal templates of the offline planner.
use vstd::prelude::*;
use crate::models::{Ingredient, IngredientCategory, IngredientView, Meal, MealType, MealView};

verus! {

/// An ingredient made of literal text.
pub open spec fn ingredient_view(
    name: &str,
    quantity: &str,
    unit: &str,
    category: IngredientCategory,
) -> IngredientView {
    IngredientView { name: name@, quantity: quantity@, unit: unit@, category }
}

/// A meal made of literal text.
pub open spec fn meal_view(
    meal_type: MealType,
    name: &str,
    description: &str,
    ingredients: Seq<IngredientView>,
    suitable_for: Seq<Seq<char>>,
) -> MealView {
    MealView { meal_type, name: name@, description: description@, ingredients, suitable_for }
}

/// Meals meant for the adults and the children.
pub open spec fn adults_and_kids() -> Seq<Seq<char>> {
    seq!["adults"@, "kids"@]
}

/// Meals meant for the children and the infant.
pub open spec fn kids_and_infant() -> Seq<Seq<char>> {
    seq!["kids"@, "infant"@]
}

/// Builds an ingredient from its text.
pub fn ing(name: &str, qty: &str, unit: &str, category: IngredientCategory) -> (r: Ingredient)
    ensures
        r@ == ingredient_view(name, qty, unit, category),
{
    Ingredient {
        name: String::from_str(name),
        quantity: String::from_str(qty),
        unit: String::from_str(unit),
        category,
    }
}

fn for_adults_and_kids() -> (r: Vec<String>)
    ensures
        r@.map_values(|s: String| s@) == adults_and_kids(),
{
    let r = vec![String::from_str("adults"), String::from_str("kids")];
    assert(r@.map_values(|s: String| s@) =~= adults_and_kids());
    r
}

fn for_kids_and_infant() -> (r: Vec<String>)
    ensures
        r@.map_values(|s: String| s@) == kids_and_infant(),
{
    let r = vec![String::from_str("kids"), String::from_str("infant")];
    assert(r@.map_values(|s: String| s@) =~= kids_and_infant());
    r
}

/// The view of the Saturday special breakfast: Ven Pongal.
pub open spec fn saturday_breakfast_view() -> MealView {
    meal_view(
        MealType::Breakfast,
        "Ven Pongal with Sambar & Chutney",
        "Traditional Saturday breakfast - creamy rice and moong dal pongal served with sambar and coconut chutney",
        seq![
            ingredient_view("Raw rice", "500", "g", IngredientCategory::Grains),
            ingredient_view("Moong dal (yellow)", "150", "g", IngredientCategory::Grains),
            ingredient_view("Ghee", "50", "ml", IngredientCategory::Oils),
            ingredient_view("Black pepper", "10", "g", IngredientCategory::Spices),
            ingredient_view("Cumin seeds", "10", "g", IngredientCategory::Spices),
            ingredient_view("Cashews", "30", "g", IngredientCategory::Other),
            ingredient_view("Curry leaves", "2", "sprig", IngredientCategory::Vegetables),
            ingredient_view("Toor dal (for sambar)", "100", "g", IngredientCategory::Grains),
            ingredient_view("Tomatoes", "3", "pcs", IngredientCategory::Vegetables),
            ingredient_view("Onion", "2", "pcs", IngredientCategory::Vegetables),
            ingredient_view("Tamarind", "20", "g", IngredientCategory::Spices),
            ingredient_view("Sambar powder", "20", "g", IngredientCategory::Spices),
            ingredient_view("Coconut (grated)", "100", "g", IngredientCategory::Other),
            ingredient_view("Green chilli", "3", "pcs", IngredientCategory::Vegetables),
        ],
        adults_and_kids(),
    )
}

/// The Saturday special breakfast: Ven Pongal.
pub fn saturday_breakfast() -> (r: Meal)
    ensures
        r@ == saturday_breakfast_view(),
{
    let ingredients = vec![
        ing("Raw rice", "500", "g", IngredientCategory::Grains),
        ing("Moong dal (yellow)", "150", "g", IngredientCategory::Grains),
        ing("Ghee", "50", "ml", IngredientCategory::Oils),
        ing("Black pepper", "10", "g", IngredientCategory::Spices),
        ing("Cumin seeds", "10", "g", IngredientCategory::Spices),
        ing("Cashews", "30", "g", IngredientCategory::Other),
        ing("Curry leaves", "2", "sprig", IngredientCategory::Vegetables),
        ing("Toor dal (for sambar)", "100", "g", IngredientCategory::Grains),
        ing("Tomatoes", "3", "pcs", IngredientCategory::Vegetables),
        ing("Onion", "2", "pcs", IngredientCategory::Vegetables),
        ing("Tamarind", "20", "g", IngredientCategory::Spices),
        ing("Sambar powder", "20", "g", IngredientCategory::Spices),
        ing("Coconut (grated)", "100", "g", IngredientCategory::Other),
        ing("Green chilli", "3", "pcs", IngredientCategory::Vegetables),
    ];
    let r = Meal {
        meal_type: MealType::Breakfast,
        name: String::from_str("Ven Pongal with Sambar & Chutney"),
        description: String::from_str("Traditional Saturday breakfast - creamy rice and moong dal pongal served with sambar and coconut chutney"),
        ingredients,
        suitable_for: for_adults_and_kids(),
    };
    assert(r@.ingredients =~= saturday_breakfast_view().ingredients);
    r
}

/// The view of the Sunday breakfast: egg dosa.
pub open spec fn sunday_breakfast_view() -> MealView {
    meal_view(
        MealType::Breakfast,
        "Egg Dosa with Tomato Chutney",
        "Sunday special crispy dosas topped with spiced egg scramble and fresh tomato chutney",
        seq![
            ingredient_view("Dosa batter (idli rice + urad dal)", "1000", "g", IngredientCategory::Grains),
            ingredient_view("Eggs", "6", "pcs", IngredientCategory::Proteins),
            ingredient_view("Onion", "2", "pcs", IngredientCategory::Vegetables),
            ingredient_view("Green chilli", "3", "pcs", IngredientCategory::Vegetables),
            ingredient_view("Tomatoes", "4", "pcs", IngredientCategory::Vegetables),
            ingredient_view("Coriander leaves", "1", "bunch", IngredientCategory::Vegetables),
            ingredient_view("Oil", "50", "ml", IngredientCategory::Oils),
            ingredient_view("Salt", "10", "g", IngredientCategory::Spices),
            ingredient_view("Turmeric powder", "5", "g", IngredientCategory::Spices),
        ],
        adults_and_kids(),
    )
}

/// The Sunday breakfast: egg dosa.
pub fn sunday_breakfast() -> (r: Meal)
    ensures
        r@ == sunday_breakfast_view(),
{
    let ingredients = vec![
        ing("Dosa batter (idli rice + urad dal)", "1000", "g", IngredientCategory::Grains),
        ing("Eggs", "6", "pcs", IngredientCategory::Proteins),
        ing("Onion", "2", "pcs", IngredientCategory::Vegetables),
        ing("Green chilli", "3", "pcs", IngredientCategory::Vegetables),
        ing("Tomatoes", "4", "pcs", IngredientCategory::Vegetables),
        ing("Coriander leaves", "1", "bunch", IngredientCategory::Vegetables),
        ing("Oil", "50", "ml", IngredientCategory::Oils),
        ing("Salt", "10", "g", IngredientCategory::Spices),
        ing("Turmeric powder", "5", "g", IngredientCategory::Spices),
    ];
    let r = Meal {
        meal_type: MealType::Breakfast,
        name: String::from_str("Egg Dosa with Tomato Chutney"),
        description: String::from_str("Sunday special crispy dosas topped with spiced egg scramble and fresh tomato chutney"),
        ingredients,
        suitable_for: for_adults_and_kids(),
    };
    assert(r@.ingredients =~= sunday_breakfast_view().ingredients);
    r
}

/// The view of the Sunday non-vegetarian special dinner: mutton biryani.
pub open spec fn sunday_nonveg_dinner_view() -> MealView {
    meal_view(
        MealType::Dinner,
        "Mutton Biryani with Raita & Boiled Egg",
        "Sunday special! Aromatic Chettinad-style mutton biryani served with cooling raita and boiled egg",
        seq![
            ingredient_view("Basmati rice", "600", "g", IngredientCategory::Grains),
            ingredient_view("Mutton (bone-in)", "800", "g", IngredientCategory::Proteins),
            ingredient_view("Onion", "4", "pcs", IngredientCategory::Vegetables),
            ingredient_view("Tomatoes", "3", "pcs", IngredientCategory::Vegetables),
            ingredient_view("Ginger-garlic paste", "50", "g", IngredientCategory::Spices),
            ingredient_view("Curd / Yogurt", "200", "ml", IngredientCategory::Dairy),
            ingredient_view("Biryani masala", "30", "g", IngredientCategory::Spices),
            ingredient_view("Bay leaves", "3", "pcs", IngredientCategory::Spices),
            ingredient_view("Cinnamon sticks", "2", "pcs", IngredientCategory::Spices),
            ingredient_view("Cardamom pods", "4", "pcs", IngredientCategory::Spices),
            ingredient_view("Cloves", "4", "pcs", IngredientCategory::Spices),
            ingredient_view("Mint leaves", "1", "bunch", IngredientCategory::Vegetables),
            ingredient_view("Coriander leaves", "1", "bunch", IngredientCategory::Vegetables),
            ingredient_view("Eggs", "6", "pcs", IngredientCategory::Proteins),
            ingredient_view("Coconut milk", "200", "ml", IngredientCategory::Dairy),
            ingredient_view("Ghee", "50", "ml", IngredientCategory::Oils),
            ingredient_view("Saffron", "0.5", "g", IngredientCategory::Spices),
            ingredient_view("Cucumber", "2", "pcs", IngredientCategory::Vegetables),
        ],
        adults_and_kids(),
    )
}

/// The Sunday non-vegetarian special dinner: mutton biryani.
pub fn sunday_nonveg_dinner() -> (r: Meal)
    ensures
        r@ == sunday_nonveg_dinner_view(),
{
    let ingredients = vec![
        ing("Basmati rice", "600", "g", IngredientCategory::Grains),
        ing("Mutton (bone-in)", "800", "g", IngredientCategory::Proteins),
        ing("Onion", "4", "pcs", IngredientCategory::Vegetables),
        ing("Tomatoes", "3", "pcs", IngredientCategory::Vegetables),
        ing("Ginger-garlic paste", "50", "g", IngredientCategory::Spices),
        ing("Curd / Yogurt", "200", "ml", IngredientCategory::Dairy),
        ing("Biryani masala", "30", "g", IngredientCategory::Spices),
        ing("Bay leaves", "3", "pcs", IngredientCategory::Spices),
        ing("Cinnamon sticks", "2", "pcs", IngredientCategory::Spices),
        ing("Cardamom pods", "4", "pcs", IngredientCategory::Spices),
        ing("Cloves", "4", "pcs", IngredientCategory::Spices),
        ing("Mint leaves", "1", "bunch", IngredientCategory::Vegetables),
        ing("Coriander leaves", "1", "bunch", IngredientCategory::Vegetables),
        ing("Eggs", "6", "pcs", IngredientCategory::Proteins),
        ing("Coconut milk", "200", "ml", IngredientCategory::Dairy),
        ing("Ghee", "50", "ml", IngredientCategory::Oils),
        ing("Saffron", "0.5", "g", IngredientCategory::Spices),
        ing("Cucumber", "2", "pcs", IngredientCategory::Vegetables),
    ];
    let r = Meal {
        meal_type: MealType::Dinner,
        name: String::from_str("Mutton Biryani with Raita & Boiled Egg"),
        description: String::from_str("Sunday special! Aromatic Chettinad-style mutton biryani served with cooling raita and boiled egg"),
        ingredients,
        suitable_for: for_adults_and_kids(),
    };
    assert(r@.ingredients =~= sunday_nonveg_dinner_view().ingredients);
    r
}

/// The view of the mid-week chicken dinner.
pub open spec fn chicken_dinner_view() -> MealView {
    meal_view(
        MealType::Dinner,
        "Chicken Chettinad Curry with Rice & Rasam",
        "Aromatic mid-week chicken Chettinad curry with steamed rice and pepper rasam",
        seq![
            ingredient_view("Chicken (curry cut)", "800", "g", IngredientCategory::Proteins),
            ingredient_view("Raw rice", "500", "g", IngredientCategory::Grains),
            ingredient_view("Onion", "3", "pcs", IngredientCategory::Vegetables),
            ingredient_view("Tomatoes", "3", "pcs", IngredientCategory::Vegetables),
            ingredient_view("Ginger-garlic paste", "40", "g", IngredientCategory::Spices),
            ingredient_view("Chettinad masala", "30", "g", IngredientCategory::Spices),
            ingredient_view("Kalpasi (stone flower)", "3", "g", IngredientCategory::Spices),
            ingredient_view("Star anise", "2", "pcs", IngredientCategory::Spices),
            ingredient_view("Coconut (grated)", "100", "g", IngredientCategory::Other),
            ingredient_view("Curry leaves", "3", "sprig", IngredientCategory::Vegetables),
            ingredient_view("Oil", "50", "ml", IngredientCategory::Oils),
            ingredient_view("Toor dal (for rasam)", "50", "g", IngredientCategory::Grains),
            ingredient_view("Tamarind", "20", "g", IngredientCategory::Spices),
            ingredient_view("Pepper", "10", "g", IngredientCategory::Spices),
            ingredient_view("Cumin seeds", "10", "g", IngredientCategory::Spices),
        ],
        adults_and_kids(),
    )
}

/// The mid-week chicken dinner.
pub fn chicken_dinner() -> (r: Meal)
    ensures
        r@ == chicken_dinner_view(),
{
    let ingredients = vec![
        ing("Chicken (curry cut)", "800", "g", IngredientCategory::Proteins),
        ing("Raw rice", "500", "g", IngredientCategory::Grains),
        ing("Onion", "3", "pcs", IngredientCategory::Vegetables),
        ing("Tomatoes", "3", "pcs", IngredientCategory::Vegetables),
        ing("Ginger-garlic paste", "40", "g", IngredientCategory::Spices),
        ing("Chettinad masala", "30", "g", IngredientCategory::Spices),
        ing("Kalpasi (stone flower)", "3", "g", IngredientCategory::Spices),
        ing("Star anise", "2", "pcs", IngredientCategory::Spices),
        ing("Coconut (grated)", "100", "g", IngredientCategory::Other),
        ing("Curry leaves", "3", "sprig", IngredientCategory::Vegetables),
        ing("Oil", "50", "ml", IngredientCategory::Oils),
        ing("Toor dal (for rasam)", "50", "g", IngredientCategory::Grains),
        ing("Tamarind", "20", "g", IngredientCategory::Spices),
        ing("Pepper", "10", "g", IngredientCategory::Spices),
        ing("Cumin seeds", "10", "g", IngredientCategory::Spices),
    ];
    let r = Meal {
        meal_type: MealType::Dinner,
        name: String::from_str("Chicken Chettinad Curry with Rice & Rasam"),
        description: String::from_str("Aromatic mid-week chicken Chettinad curry with steamed rice and pepper rasam"),
        ingredients,
        suitable_for: for_adults_and_kids(),
    };
    assert(r@.ingredients =~= chicken_dinner_view().ingredients);
    r
}

/// The view of the mushroom dinner.
pub open spec fn mushroom_dinner_view() -> MealView {
    meal_view(
        MealType::Dinner,
        "Mushroom Masala with Chapathi & Rice",
        "Earthy mushroom masala in a rich tomato-onion gravy, served with chapathi and rice",
        seq![
            ingredient_view("Button mushrooms", "500", "g", IngredientCategory::Vegetables),
            ingredient_view("Onion", "3", "pcs", IngredientCategory::Vegetables),
            ingredient_view("Tomatoes", "3", "pcs", IngredientCategory::Vegetables),
            ingredient_view("Ginger-garlic paste", "30", "g", IngredientCategory::Spices),
            ingredient_view("Coriander powder", "15", "g", IngredientCategory::Spices),
            ingredient_view("Cumin powder", "10", "g", IngredientCategory::Spices),
            ingredient_view("Garam masala", "10", "g", IngredientCategory::Spices),
            ingredient_view("Chilli powder", "8", "g", IngredientCategory::Spices),
            ingredient_view("Turmeric powder", "3", "g", IngredientCategory::Spices),
            ingredient_view("Coriander leaves", "1", "bunch", IngredientCategory::Vegetables),
            ingredient_view("Oil", "40", "ml", IngredientCategory::Oils),
            ingredient_view("Whole wheat flour (atta)", "300", "g", IngredientCategory::Grains),
            ingredient_view("Raw rice", "300", "g", IngredientCategory::Grains),
        ],
        adults_and_kids(),
    )
}

/// The mushroom dinner.
pub fn mushroom_dinner() -> (r: Meal)
    ensures
        r@ == mushroom_dinner_view(),
{
    let ingredients = vec![
        ing("Button mushrooms", "500", "g", IngredientCategory::Vegetables),
        ing("Onion", "3", "pcs", IngredientCategory::Vegetables),
        ing("Tomatoes", "3", "pcs", IngredientCategory::Vegetables),
        ing("Ginger-garlic paste", "30", "g", IngredientCategory::Spices),
        ing("Coriander powder", "15", "g", IngredientCategory::Spices),
        ing("Cumin powder", "10", "g", IngredientCategory::Spices),
        ing("Garam masala", "10", "g", IngredientCategory::Spices),
        ing("Chilli powder", "8", "g", IngredientCategory::Spices),
        ing("Turmeric powder", "3", "g", IngredientCategory::Spices),
        ing("Coriander leaves", "1", "bunch", IngredientCategory::Vegetables),
        ing("Oil", "40", "ml", IngredientCategory::Oils),
        ing("Whole wheat flour (atta)", "300", "g", IngredientCategory::Grains),
        ing("Raw rice", "300", "g", IngredientCategory::Grains),
    ];
    let r = Meal {
        meal_type: MealType::Dinner,
        name: String::from_str("Mushroom Masala with Chapathi & Rice"),
        description: String::from_str("Earthy mushroom masala in a rich tomato-onion gravy, served with chapathi and rice"),
        ingredients,
        suitable_for: for_adults_and_kids(),
    };
    assert(r@.ingredients =~= mushroom_dinner_view().ingredients);
    r
}

/// The view of entry `i` (0 <= i < 5) of the weekday breakfasts, taken in turn by day offset.
pub open spec fn weekday_breakfast_view(i: int) -> MealView {
    if i == 0 {
        meal_view(
            MealType::Breakfast,
            "Idli with Sambar & Chutneys",
            "Soft steamed rice and lentil cakes served with hot sambar and coconut chutney",
            seq![
                ingredient_view("Idli batter (rice + urad dal)", "800", "g", IngredientCategory::Grains),
                ingredient_view("Toor dal (for sambar)", "100", "g", IngredientCategory::Grains),
                ingredient_view("Tomatoes", "2", "pcs", IngredientCategory::Vegetables),
                ingredient_view("Onion", "1", "pcs", IngredientCategory::Vegetables),
                ingredient_view("Coconut (grated)", "80", "g", IngredientCategory::Other),
                ingredient_view("Sambar powder", "15", "g", IngredientCategory::Spices),
                ingredient_view("Mustard seeds", "5", "g", IngredientCategory::Spices),
                ingredient_view("Curry leaves", "2", "sprig", IngredientCategory::Vegetables),
                ingredient_view("Oil", "30", "ml", IngredientCategory::Oils),
            ],
            adults_and_kids(),
        )
    } else if i == 1 {
        meal_view(
            MealType::Breakfast,
            "Upma with Coconut Chutney",
            "Savory semolina breakfast with vegetables, mustard tempering and fresh coconut chutney",
            seq![
                ingredient_view("Rava (semolina)", "300", "g", IngredientCategory::Grains),
                ingredient_view("Onion", "2", "pcs", IngredientCategory::Vegetables),
                ingredient_view("Green chilli", "3", "pcs", IngredientCategory::Vegetables),
                ingredient_view("Carrot", "1", "pcs", IngredientCategory::Vegetables),
                ingredient_view("Beans", "50", "g", IngredientCategory::Vegetables),
                ingredient_view("Mustard seeds", "5", "g", IngredientCategory::Spices),
                ingredient_view("Urad dal", "15", "g", IngredientCategory::Grains),
                ingredient_view("Curry leaves", "2", "sprig", IngredientCategory::Vegetables),
                ingredient_view("Coconut (grated)", "80", "g", IngredientCategory::Other),
                ingredient_view("Oil", "40", "ml", IngredientCategory::Oils),
                ingredient_view("Ghee", "15", "ml", IngredientCategory::Oils),
            ],
            adults_and_kids(),
        )
    } else if i == 2 {
        meal_view(
            MealType::Breakfast,
            "Dosa with Sambar & Chutney",
            "Crispy fermented crepes with lentil sambar and coconut chutney",
            seq![
                ingredient_view("Dosa batter (idli rice + urad dal)", "1000", "g", IngredientCategory::Grains),
                ingredient_view("Toor dal (for sambar)", "100", "g", IngredientCategory::Grains),
                ingredient_view("Tomatoes", "2", "pcs", IngredientCategory::Vegetables),
                ingredient_view("Onion", "2", "pcs", IngredientCategory::Vegetables),
                ingredient_view("Coconut (grated)", "80", "g", IngredientCategory::Other),
                ingredient_view("Sambar powder", "15", "g", IngredientCategory::Spices),
                ingredient_view("Oil", "50", "ml", IngredientCategory::Oils),
            ],
            adults_and_kids(),
        )
    } else if i == 3 {
        meal_view(
            MealType::Breakfast,
            "Idiyappam with Coconut Milk",
            "Steamed rice noodles served with sweet coconut milk - light and nutritious",
            seq![
                ingredient_view("Rice flour (idiyappam)", "400", "g", IngredientCategory::Grains),
                ingredient_view("Coconut milk", "400", "ml", IngredientCategory::Dairy),
                ingredient_view("Coconut (grated)", "100", "g", IngredientCategory::Other),
                ingredient_view("Jaggery", "50", "g", IngredientCategory::Other),
                ingredient_view("Salt", "5", "g", IngredientCategory::Spices),
            ],
            adults_and_kids(),
        )
    } else {
        meal_view(
            MealType::Breakfast,
            "Poha (Aval) with Curd",
            "Flattened rice tempered with mustard, curry leaves, and served with fresh curd",
            seq![
                ingredient_view("Poha / Aval (flattened rice)", "300", "g", IngredientCategory::Grains),
                ingredient_view("Onion", "1", "pcs", IngredientCategory::Vegetables),
                ingredient_view("Green chilli", "2", "pcs", IngredientCategory::Vegetables),
                ingredient_view("Peanuts", "50", "g", IngredientCategory::Proteins),
                ingredient_view("Mustard seeds", "5", "g", IngredientCategory::Spices),
                ingredient_view("Curry leaves", "2", "sprig", IngredientCategory::Vegetables),
                ingredient_view("Curd / Yogurt", "200", "ml", IngredientCategory::Dairy),
                ingredient_view("Oil", "20", "ml", IngredientCategory::Oils),
            ],
            adults_and_kids(),
        )
    }
}

/// The weekday breakfasts, taken in turn by day offset: entry `day_offset mod 5`.
pub fn weekday_breakfast(day_offset: u64) -> (r: Meal)
    ensures
        r@ == weekday_breakfast_view(((day_offset as usize) % 5) as int),
{
    let idx: usize = (day_offset as usize) % 5;
    if idx == 0 {
        let ingredients = vec![
            ing("Idli batter (rice + urad dal)", "800", "g", IngredientCategory::Grains),
            ing("Toor dal (for sambar)", "100", "g", IngredientCategory::Grains),
            ing("Tomatoes", "2", "pcs", IngredientCategory::Vegetables),
            ing("Onion", "1", "pcs", IngredientCategory::Vegetables),
            ing("Coconut (grated)", "80", "g", IngredientCategory::Other),
            ing("Sambar powder", "15", "g", IngredientCategory::Spices),
            ing("Mustard seeds", "5", "g", IngredientCategory::Spices),
            ing("Curry leaves", "2", "sprig", IngredientCategory::Vegetables),
            ing("Oil", "30", "ml", IngredientCategory::Oils),
        ];
        let r = Meal {
            meal_type: MealType::Breakfast,
            name: String::from_str("Idli with Sambar & Chutneys"),
            description: String::from_str("Soft steamed rice and lentil cakes served with hot sambar and coconut chutney"),
            ingredients,
            suitable_for: for_adults_and_kids(),
        };
        assert(r@.ingredients =~= weekday_breakfast_view(0).ingredients);
        r
    } else if idx == 1 {
        let ingredients = vec![
            ing("Rava (semolina)", "300", "g", IngredientCategory::Grains),
            ing("Onion", "2", "pcs", IngredientCategory::Vegetables),
            ing("Green chilli", "3", "pcs", IngredientCategory::Vegetables),
            ing("Carrot", "1", "pcs", IngredientCategory::Vegetables),
            ing("Beans", "50", "g", IngredientCategory::Vegetables),
            ing("Mustard seeds", "5", "g", IngredientCategory::Spices),
            ing("Urad dal", "15", "g", IngredientCategory::Grains),
            ing("Curry leaves", "2", "sprig", IngredientCategory::Vegetables),
            ing("Coconut (grated)", "80", "g", IngredientCategory::Other),
            ing("Oil", "40", "ml", IngredientCategory::Oils),
            ing("Ghee", "15", "ml", IngredientCategory::Oils),
        ];
        let r = Meal {
            meal_type: MealType::Breakfast,
            name: String::from_str("Upma with Coconut Chutney"),
            description: String::from_str("Savory semolina breakfast with vegetables, mustard tempering and fresh coconut chutney"),
            ingredients,
            suitable_for: for_adults_and_kids(),
        };
        assert(r@.ingredients =~= weekday_breakfast_view(1).ingredients);
        r
    } else if idx == 2 {
        let ingredients = vec![
            ing("Dosa batter (idli rice + urad dal)", "1000", "g", IngredientCategory::Grains),
            ing("Toor dal (for sambar)", "100", "g", IngredientCategory::Grains),
            ing("Tomatoes", "2", "pcs", IngredientCategory::Vegetables),
            ing("Onion", "2", "pcs", IngredientCategory::Vegetables),
            ing("Coconut (grated)", "80", "g", IngredientCategory::Other),
            ing("Sambar powder", "15", "g", IngredientCategory::Spices),
            ing("Oil", "50", "ml", IngredientCategory::Oils),
        ];
        let r = Meal {
            meal_type: MealType::Breakfast,
            name: String::from_str("Dosa with Sambar & Chutney"),
            description: String::from_str("Crispy fermented crepes with lentil sambar and coconut chutney"),
            ingredients,
            suitable_for: for_adults_and_kids(),
        };
        assert(r@.ingredients =~= weekday_breakfast_view(2).ingredients);
        r
    } else if idx == 3 {
        let ingredients = vec![
            ing("Rice flour (idiyappam)", "400", "g", IngredientCategory::Grains),
            ing("Coconut milk", "400", "ml", IngredientCategory::Dairy),
            ing("Coconut (grated)", "100", "g", IngredientCategory::Other),
            ing("Jaggery", "50", "g", IngredientCategory::Other),
            ing("Salt", "5", "g", IngredientCategory::Spices),
        ];
        let r = Meal {
            meal_type: MealType::Breakfast,
            name: String::from_str("Idiyappam with Coconut Milk"),
            description: String::from_str("Steamed rice noodles served with sweet coconut milk - light and nutritious"),
            ingredients,
            suitable_for: for_adults_and_kids(),
        };
        assert(r@.ingredients =~= weekday_breakfast_view(3).ingredients);
        r
    } else {
        let ingredients = vec![
            ing("Poha / Aval (flattened rice)", "300", "g", IngredientCategory::Grains),
            ing("Onion", "1", "pcs", IngredientCategory::Vegetables),
            ing("Green chilli", "2", "pcs", IngredientCategory::Vegetables),
            ing("Peanuts", "50", "g", IngredientCategory::Proteins),
            ing("Mustard seeds", "5", "g", IngredientCategory::Spices),
            ing("Curry leaves", "2", "sprig", IngredientCategory::Vegetables),
            ing("Curd / Yogurt", "200", "ml", IngredientCategory::Dairy),
            ing("Oil", "20", "ml", IngredientCategory::Oils),
        ];
        let r = Meal {
            meal_type: MealType::Breakfast,
            name: String::from_str("Poha (Aval) with Curd"),
            description: String::from_str("Flattened rice tempered with mustard, curry leaves, and served with fresh curd"),
            ingredients,
            suitable_for: for_adults_and_kids(),
        };
        assert(r@.ingredients =~= weekday_breakfast_view(4).ingredients);
        r
    }
}

/// The view of entry `i` (0 <= i < 7) of the children's fruit snacks, taken in turn by day offset.
pub open spec fn kids_fruit_snack_view(i: int) -> MealView {
    if i == 0 {
        meal_view(
            MealType::KidsSnack,
            "Banana & Dates",
            "2 bananas + 4 dates per child",
            seq![
                ingredient_view("Banana", "4", "pcs", IngredientCategory::Fruits),
                ingredient_view("Dates", "8", "pcs", IngredientCategory::Fruits),
            ],
            kids_and_infant(),
        )
    } else if i == 1 {
        meal_view(
            MealType::KidsSnack,
            "Seasonal Fruit Salad",
            "Mixed seasonal fruits with a drizzle of honey",
            seq![
                ingredient_view("Apple", "2", "pcs", IngredientCategory::Fruits),
                ingredient_view("Papaya", "200", "g", IngredientCategory::Fruits),
                ingredient_view("Pomegranate", "1", "pcs", IngredientCategory::Fruits),
                ingredient_view("Honey", "15", "ml", IngredientCategory::Other),
            ],
            kids_and_infant(),
        )
    } else if i == 2 {
        meal_view(
            MealType::KidsSnack,
            "Mango (seasonal) / Sapota",
            "Fresh mango or chiku – a Tamil Nadu favorite",
            seq![
                ingredient_view("Mango", "3", "pcs", IngredientCategory::Fruits),
            ],
            kids_and_infant(),
        )
    } else if i == 3 {
        meal_view(
            MealType::KidsSnack,
            "Guava with Chilli Salt",
            "Fresh guava slices with a pinch of chilli powder and salt",
            seq![
                ingredient_view("Guava", "4", "pcs", IngredientCategory::Fruits),
            ],
            kids_and_infant(),
        )
    } else if i == 4 {
        meal_view(
            MealType::KidsSnack,
            "Orange & Watermelon",
            "Hydrating fruit combo ideal for Chennai weather",
            seq![
                ingredient_view("Orange", "4", "pcs", IngredientCategory::Fruits),
                ingredient_view("Watermelon", "500", "g", IngredientCategory::Fruits),
            ],
            kids_and_infant(),
        )
    } else if i == 5 {
        meal_view(
            MealType::KidsSnack,
            "Banana Smoothie",
            "Blended banana with milk and a pinch of cardamom",
            seq![
                ingredient_view("Banana", "3", "pcs", IngredientCategory::Fruits),
                ingredient_view("Milk", "300", "ml", IngredientCategory::Dairy),
                ingredient_view("Cardamom powder", "2", "g", IngredientCategory::Spices),
            ],
            kids_and_infant(),
        )
    } else {
        meal_view(
            MealType::KidsSnack,
            "Papaya & Pineapple",
            "Enzyme-rich tropical fruit combo",
            seq![
                ingredient_view("Papaya", "300", "g", IngredientCategory::Fruits),
                ingredient_view("Pineapple", "200", "g", IngredientCategory::Fruits),
            ],
            kids_and_infant(),
        )
    }
}

/// The children's fruit snacks, taken in turn by day offset: entry `day_offset mod 7`.
pub fn kids_fruit_snack(day_offset: u64) -> (r: Meal)
    ensures
        r@ == kids_fruit_snack_view(((day_offset as usize) % 7) as int),
{
    let idx: usize = (day_offset as usize) % 7;
    if idx == 0 {
        let ingredients = vec![
            ing("Banana", "4", "pcs", IngredientCategory::Fruits),
            ing("Dates", "8", "pcs", IngredientCategory::Fruits),
        ];
        let r = Meal {
            meal_type: MealType::KidsSnack,
            name: String::from_str("Banana & Dates"),
            description: String::from_str("2 bananas + 4 dates per child"),
            ingredients,
            suitable_for: for_kids_and_infant(),
        };
        assert(r@.ingredients =~= kids_fruit_snack_view(0).ingredients);
        r
    } else if idx == 1 {
        let ingredients = vec![
            ing("Apple", "2", "pcs", IngredientCategory::Fruits),
            ing("Papaya", "200", "g", IngredientCategory::Fruits),
            ing("Pomegranate", "1", "pcs", IngredientCategory::Fruits),
            ing("Honey", "15", "ml", IngredientCategory::Other),
        ];
        let r = Meal {
            meal_type: MealType::KidsSnack,
            name: String::from_str("Seasonal Fruit Salad"),
            description: String::from_str("Mixed seasonal fruits with a drizzle of honey"),
            ingredients,
            suitable_for: for_kids_and_infant(),
        };
        assert(r@.ingredients =~= kids_fruit_snack_view(1).ingredients);
        r
    } else if idx == 2 {
        let ingredients = vec![
            ing("Mango", "3", "pcs", IngredientCategory::Fruits),
        ];
        let r = Meal {
            meal_type: MealType::KidsSnack,
            name: String::from_str("Mango (seasonal) / Sapota"),
            description: String::from_str("Fresh mango or chiku – a Tamil Nadu favorite"),
            ingredients,
            suitable_for: for_kids_and_infant(),
        };
        assert(r@.ingredients =~= kids_fruit_snack_view(2).ingredients);
        r
    } else if idx == 3 {
        let ingredients = vec![
            ing("Guava", "4", "pcs", IngredientCategory::Fruits),
        ];
        let r = Meal {
            meal_type: MealType::KidsSnack,
            name: String::from_str("Guava with Chilli Salt"),
            description: String::from_str("Fresh guava slices with a pinch of chilli powder and salt"),
            ingredients,
            suitable_for: for_kids_and_infant(),
        };
        assert(r@.ingredients =~= kids_fruit_snack_view(3).ingredients);
        r
    } else if idx == 4 {
        let ingredients = vec![
            ing("Orange", "4", "pcs", IngredientCategory::Fruits),
            ing("Watermelon", "500", "g", IngredientCategory::Fruits),
        ];
        let r = Meal {
            meal_type: MealType::KidsSnack,
            name: String::from_str("Orange & Watermelon"),
            description: String::from_str("Hydrating fruit combo ideal for Chennai weather"),
            ingredients,
            suitable_for: for_kids_and_infant(),
        };
        assert(r@.ingredients =~= kids_fruit_snack_view(4).ingredients);
        r
    } else if idx == 5 {
        let ingredients = vec![
            ing("Banana", "3", "pcs", IngredientCategory::Fruits),
            ing("Milk", "300", "ml", IngredientCategory::Dairy),
            ing("Cardamom powder", "2", "g", IngredientCategory::Spices),
        ];
        let r = Meal {
            meal_type: MealType::KidsSnack,
            name: String::from_str("Banana Smoothie"),
            description: String::from_str("Blended banana with milk and a pinch of cardamom"),
            ingredients,
            suitable_for: for_kids_and_infant(),
        };
        assert(r@.ingredients =~= kids_fruit_snack_view(5).ingredients);
        r
    } else {
        let ingredients = vec![
            ing("Papaya", "300", "g", IngredientCategory::Fruits),
            ing("Pineapple", "200", "g", IngredientCategory::Fruits),
        ];
        let r = Meal {
            meal_type: MealType::KidsSnack,
            name: String::from_str("Papaya & Pineapple"),
            description: String::from_str("Enzyme-rich tropical fruit combo"),
            ingredients,
            suitable_for: for_kids_and_infant(),
        };
        assert(r@.ingredients =~= kids_fruit_snack_view(6).ingredients);
        r
    }
}

/// The view of entry `i` (0 <= i < 7) of the children's lunches, taken in turn by day offset.
pub open spec fn kids_lunch_view(i: int) -> MealView {
    if i == 0 {
        meal_view(
            MealType::KidsLunch,
            "Rice + Sambar + Egg Curry",
            "Steamed rice with mild sambar and a simple egg curry, easy on kids' stomachs",
            seq![
                ingredient_view("Raw rice", "300", "g", IngredientCategory::Grains),
                ingredient_view("Toor dal (for sambar)", "80", "g", IngredientCategory::Grains),
                ingredient_view("Eggs", "4", "pcs", IngredientCategory::Proteins),
                ingredient_view("Onion", "1", "pcs", IngredientCategory::Vegetables),
                ingredient_view("Tomatoes", "2", "pcs", IngredientCategory::Vegetables),
                ingredient_view("Coriander powder", "10", "g", IngredientCategory::Spices),
                ingredient_view("Oil", "20", "ml", IngredientCategory::Oils),
            ],
            kids_and_infant(),
        )
    } else if i == 1 {
        meal_view(
            MealType::KidsLunch,
            "Curd Rice with Pickle",
            "Creamy curd rice with a small portion of mango pickle - a kid favorite",
            seq![
                ingredient_view("Raw rice", "300", "g", IngredientCategory::Grains),
                ingredient_view("Curd / Yogurt", "300", "ml", IngredientCategory::Dairy),
                ingredient_view("Milk", "100", "ml", IngredientCategory::Dairy),
                ingredient_view("Mango pickle", "20", "g", IngredientCategory::Spices),
                ingredient_view("Mustard seeds", "5", "g", IngredientCategory::Spices),
                ingredient_view("Curry leaves", "1", "sprig", IngredientCategory::Vegetables),
            ],
            kids_and_infant(),
        )
    } else if i == 2 {
        meal_view(
            MealType::KidsLunch,
            "Mini Idlis with Ghee & Sambar",
            "Bite-size idlis drizzled with ghee in sambar - perfect for young kids",
            seq![
                ingredient_view("Idli batter (rice + urad dal)", "600", "g", IngredientCategory::Grains),
                ingredient_view("Ghee", "30", "ml", IngredientCategory::Oils),
                ingredient_view("Toor dal (for sambar)", "80", "g", IngredientCategory::Grains),
                ingredient_view("Tomatoes", "2", "pcs", IngredientCategory::Vegetables),
                ingredient_view("Onion", "1", "pcs", IngredientCategory::Vegetables),
            ],
            kids_and_infant(),
        )
    } else if i == 3 {
        meal_view(
            MealType::KidsLunch,
            "Vegetable Khichdi",
            "Soft rice-lentil porridge with mixed vegetables, easy to digest for all ages",
            seq![
                ingredient_view("Raw rice", "200", "g", IngredientCategory::Grains),
                ingredient_view("Moong dal (yellow)", "100", "g", IngredientCategory::Grains),
                ingredient_view("Carrot", "1", "pcs", IngredientCategory::Vegetables),
                ingredient_view("Potato", "1", "pcs", IngredientCategory::Vegetables),
                ingredient_view("Beans", "50", "g", IngredientCategory::Vegetables),
                ingredient_view("Ghee", "20", "ml", IngredientCategory::Oils),
                ingredient_view("Turmeric powder", "3", "g", IngredientCategory::Spices),
            ],
            kids_and_infant(),
        )
    } else if i == 4 {
        meal_view(
            MealType::KidsLunch,
            "Chapathi with Dal & Vegetables",
            "Soft wheat rotis with mild lentil curry and vegetables",
            seq![
                ingredient_view("Whole wheat flour (atta)", "250", "g", IngredientCategory::Grains),
                ingredient_view("Moong dal (yellow)", "100", "g", IngredientCategory::Grains),
                ingredient_view("Spinach", "100", "g", IngredientCategory::Vegetables),
                ingredient_view("Carrot", "1", "pcs", IngredientCategory::Vegetables),
                ingredient_view("Ghee", "20", "ml", IngredientCategory::Oils),
                ingredient_view("Cumin seeds", "5", "g", IngredientCategory::Spices),
            ],
            kids_and_infant(),
        )
    } else if i == 5 {
        meal_view(
            MealType::KidsLunch,
            "Rice + Fish Curry (mild, deboned)",
            "Steamed rice with mild fish curry using deboned fish pieces - rich in omega-3",
            seq![
                ingredient_view("Raw rice", "300", "g", IngredientCategory::Grains),
                ingredient_view("Fish (Tilapia / Rohu, cleaned)", "400", "g", IngredientCategory::Proteins),
                ingredient_view("Coconut milk", "200", "ml", IngredientCategory::Dairy),
                ingredient_view("Onion", "1", "pcs", IngredientCategory::Vegetables),
                ingredient_view("Tomatoes", "2", "pcs", IngredientCategory::Vegetables),
                ingredient_view("Turmeric powder", "3", "g", IngredientCategory::Spices),
                ingredient_view("Coriander powder", "10", "g", IngredientCategory::Spices),
                ingredient_view("Oil", "25", "ml", IngredientCategory::Oils),
            ],
            kids_and_infant(),
        )
    } else {
        meal_view(
            MealType::KidsLunch,
            "Tomato Rice with Raita",
            "Tangy tomato rice with a cooling cucumber raita - nutritious and easy",
            seq![
                ingredient_view("Raw rice", "300", "g", IngredientCategory::Grains),
                ingredient_view("Tomatoes", "4", "pcs", IngredientCategory::Vegetables),
                ingredient_view("Onion", "1", "pcs", IngredientCategory::Vegetables),
                ingredient_view("Curd / Yogurt", "200", "ml", IngredientCategory::Dairy),
                ingredient_view("Cucumber", "1", "pcs", IngredientCategory::Vegetables),
                ingredient_view("Oil", "20", "ml", IngredientCategory::Oils),
                ingredient_view("Mustard seeds", "5", "g", IngredientCategory::Spices),
            ],
            kids_and_infant(),
        )
    }
}

/// The children's lunches, taken in turn by day offset: entry `day_offset mod 7`.
pub fn kids_lunch(day_offset: u64) -> (r: Meal)
    ensures
        r@ == kids_lunch_view(((day_offset as usize) % 7) as int),
{
    let idx: usize = (day_offset as usize) % 7;
    if idx == 0 {
        let ingredients = vec![
            ing("Raw rice", "300", "g", IngredientCategory::Grains),
            ing("Toor dal (for sambar)", "80", "g", IngredientCategory::Grains),
            ing("Eggs", "4", "pcs", IngredientCategory::Proteins),
            ing("Onion", "1", "pcs", IngredientCategory::Vegetables),
            ing("Tomatoes", "2", "pcs", IngredientCategory::Vegetables),
            ing("Coriander powder", "10", "g", IngredientCategory::Spices),
            ing("Oil", "20", "ml", IngredientCategory::Oils),
        ];
        let r = Meal {
            meal_type: MealType::KidsLunch,
            name: String::from_str("Rice + Sambar + Egg Curry"),
            description: String::from_str("Steamed rice with mild sambar and a simple egg curry, easy on kids' stomachs"),
            ingredients,
            suitable_for: for_kids_and_infant(),
        };
        assert(r@.ingredients =~= kids_lunch_view(0).ingredients);
        r
    } else if idx == 1 {
        let ingredients = vec![
            ing("Raw rice", "300", "g", IngredientCategory::Grains),
            ing("Curd / Yogurt", "300", "ml", IngredientCategory::Dairy),
            ing("Milk", "100", "ml", IngredientCategory::Dairy),
            ing("Mango pickle", "20", "g", IngredientCategory::Spices),
            ing("Mustard seeds", "5", "g", IngredientCategory::Spices),
            ing("Curry leaves", "1", "sprig", IngredientCategory::Vegetables),
        ];
        let r = Meal {
            meal_type: MealType::KidsLunch,
            name: String::from_str("Curd Rice with Pickle"),
            description: String::from_str("Creamy curd rice with a small portion of mango pickle - a kid favorite"),
            ingredients,
            suitable_for: for_kids_and_infant(),
        };
        assert(r@.ingredients =~= kids_lunch_view(1).ingredients);
        r
    } else if idx == 2 {
        let ingredients = vec![
            ing("Idli batter (rice + urad dal)", "600", "g", IngredientCategory::Grains),
            ing("Ghee", "30", "ml", IngredientCategory::Oils),
            ing("Toor dal (for sambar)", "80", "g", IngredientCategory::Grains),
            ing("Tomatoes", "2", "pcs", IngredientCategory::Vegetables),
            ing("Onion", "1", "pcs", IngredientCategory::Vegetables),
        ];
        let r = Meal {
            meal_type: MealType::KidsLunch,
            name: String::from_str("Mini Idlis with Ghee & Sambar"),
            description: String::from_str("Bite-size idlis drizzled with ghee in sambar - perfect for young kids"),
            ingredients,
            suitable_for: for_kids_and_infant(),
        };
        assert(r@.ingredients =~= kids_lunch_view(2).ingredients);
        r
    } else if idx == 3 {
        let ingredients = vec![
            ing("Raw rice", "200", "g", IngredientCategory::Grains),
            ing("Moong dal (yellow)", "100", "g", IngredientCategory::Grains),
            ing("Carrot", "1", "pcs", IngredientCategory::Vegetables),
            ing("Potato", "1", "pcs", IngredientCategory::Vegetables),
            ing("Beans", "50", "g", IngredientCategory::Vegetables),
            ing("Ghee", "20", "ml", IngredientCategory::Oils),
            ing("Turmeric powder", "3", "g", IngredientCategory::Spices),
        ];
        let r = Meal {
            meal_type: MealType::KidsLunch,
            name: String::from_str("Vegetable Khichdi"),
            description: String::from_str("Soft rice-lentil porridge with mixed vegetables, easy to digest for all ages"),
            ingredients,
            suitable_for: for_kids_and_infant(),
        };
        assert(r@.ingredients =~= kids_lunch_view(3).ingredients);
        r
    } else if idx == 4 {
        let ingredients = vec![
            ing("Whole wheat flour (atta)", "250", "g", IngredientCategory::Grains),
            ing("Moong dal (yellow)", "100", "g", IngredientCategory::Grains),
            ing("Spinach", "100", "g", IngredientCategory::Vegetables),
            ing("Carrot", "1", "pcs", IngredientCategory::Vegetables),
            ing("Ghee", "20", "ml", IngredientCategory::Oils),
            ing("Cumin seeds", "5", "g", IngredientCategory::Spices),
        ];
        let r = Meal {
            meal_type: MealType::KidsLunch,
            name: String::from_str("Chapathi with Dal & Vegetables"),
            description: String::from_str("Soft wheat rotis with mild lentil curry and vegetables"),
            ingredients,
            suitable_for: for_kids_and_infant(),
        };
        assert(r@.ingredients =~= kids_lunch_view(4).ingredients);
        r
    } else if idx == 5 {
        let ingredients = vec![
            ing("Raw rice", "300", "g", IngredientCategory::Grains),
            ing("Fish (Tilapia / Rohu, cleaned)", "400", "g", IngredientCategory::Proteins),
            ing("Coconut milk", "200", "ml", IngredientCategory::Dairy),
            ing("Onion", "1", "pcs", IngredientCategory::Vegetables),
            ing("Tomatoes", "2", "pcs", IngredientCategory::Vegetables),
            ing("Turmeric powder", "3", "g", IngredientCategory::Spices),
            ing("Coriander powder", "10", "g", IngredientCategory::Spices),
            ing("Oil", "25", "ml", IngredientCategory::Oils),
        ];
        let r = Meal {
            meal_type: MealType::KidsLunch,
            name: String::from_str("Rice + Fish Curry (mild, deboned)"),
            description: String::from_str("Steamed rice with mild fish curry using deboned fish pieces - rich in omega-3"),
            ingredients,
            suitable_for: for_kids_and_infant(),
        };
        assert(r@.ingredients =~= kids_lunch_view(5).ingredients);
        r
    } else {
        let ingredients = vec![
            ing("Raw rice", "300", "g", IngredientCategory::Grains),
            ing("Tomatoes", "4", "pcs", IngredientCategory::Vegetables),
            ing("Onion", "1", "pcs", IngredientCategory::Vegetables),
            ing("Curd / Yogurt", "200", "ml", IngredientCategory::Dairy),
            ing("Cucumber", "1", "pcs", IngredientCategory::Vegetables),
            ing("Oil", "20", "ml", IngredientCategory::Oils),
            ing("Mustard seeds", "5", "g", IngredientCategory::Spices),
        ];
        let r = Meal {
            meal_type: MealType::KidsLunch,
            name: String::from_str("Tomato Rice with Raita"),
            description: String::from_str("Tangy tomato rice with a cooling cucumber raita - nutritious and easy"),
            ingredients,
            suitable_for: for_kids_and_infant(),
        };
        assert(r@.ingredients =~= kids_lunch_view(6).ingredients);
        r
    }
}

/// The view of entry `i` (0 <= i < 5) of the everyday dinners, taken in turn by day offset.
pub open spec fn regular_dinner_view(i: int) -> MealView {
    if i == 0 {
        meal_view(
            MealType::Dinner,
            "Fish Curry with Rice & Papad",
            "Traditional Chennai fish curry (meen kulambu) with steamed rice and crispy papad",
            seq![
                ingredient_view("Fish (Seer fish / Vanjaram)", "600", "g", IngredientCategory::Proteins),
                ingredient_view("Raw rice", "500", "g", IngredientCategory::Grains),
                ingredient_view("Onion", "2", "pcs", IngredientCategory::Vegetables),
                ingredient_view("Tomatoes", "3", "pcs", IngredientCategory::Vegetables),
                ingredient_view("Tamarind", "30", "g", IngredientCategory::Spices),
                ingredient_view("Chilli powder", "15", "g", IngredientCategory::Spices),
                ingredient_view("Coriander powder", "15", "g", IngredientCategory::Spices),
                ingredient_view("Turmeric powder", "5", "g", IngredientCategory::Spices),
                ingredient_view("Fenugreek seeds", "5", "g", IngredientCategory::Spices),
                ingredient_view("Coconut (grated)", "100", "g", IngredientCategory::Other),
                ingredient_view("Mustard seeds", "5", "g", IngredientCategory::Spices),
                ingredient_view("Curry leaves", "3", "sprig", IngredientCategory::Vegetables),
                ingredient_view("Sesame oil (nallennai)", "40", "ml", IngredientCategory::Oils),
                ingredient_view("Papad", "6", "pcs", IngredientCategory::Other),
            ],
            adults_and_kids(),
        )
    } else if i == 1 {
        meal_view(
            MealType::Dinner,
            "Sambar Rice + Kootu + Poriyal",
            "Comforting one-pot sambar rice with vegetable kootu and stir-fry poriyal",
            seq![
                ingredient_view("Raw rice", "500", "g", IngredientCategory::Grains),
                ingredient_view("Toor dal (for sambar)", "150", "g", IngredientCategory::Grains),
                ingredient_view("Drumstick (Murungakkai)", "2", "pcs", IngredientCategory::Vegetables),
                ingredient_view("Eggplant / Brinjal", "200", "g", IngredientCategory::Vegetables),
                ingredient_view("Carrot", "2", "pcs", IngredientCategory::Vegetables),
                ingredient_view("Cabbage", "200", "g", IngredientCategory::Vegetables),
                ingredient_view("Chana dal", "50", "g", IngredientCategory::Grains),
                ingredient_view("Coconut (grated)", "100", "g", IngredientCategory::Other),
                ingredient_view("Tamarind", "25", "g", IngredientCategory::Spices),
                ingredient_view("Sambar powder", "25", "g", IngredientCategory::Spices),
                ingredient_view("Mustard seeds", "10", "g", IngredientCategory::Spices),
                ingredient_view("Curry leaves", "3", "sprig", IngredientCategory::Vegetables),
                ingredient_view("Oil", "40", "ml", IngredientCategory::Oils),
            ],
            adults_and_kids(),
        )
    } else if i == 2 {
        meal_view(
            MealType::Dinner,
            "Egg Masala Curry with Rice & Rasam",
            "Boiled eggs in spicy masala gravy with steamed rice and pepper-cumin rasam",
            seq![
                ingredient_view("Eggs", "8", "pcs", IngredientCategory::Proteins),
                ingredient_view("Raw rice", "500", "g", IngredientCategory::Grains),
                ingredient_view("Onion", "3", "pcs", IngredientCategory::Vegetables),
                ingredient_view("Tomatoes", "3", "pcs", IngredientCategory::Vegetables),
                ingredient_view("Ginger-garlic paste", "30", "g", IngredientCategory::Spices),
                ingredient_view("Chilli powder", "12", "g", IngredientCategory::Spices),
                ingredient_view("Coriander powder", "12", "g", IngredientCategory::Spices),
                ingredient_view("Toor dal (for rasam)", "50", "g", IngredientCategory::Grains),
                ingredient_view("Tamarind", "20", "g", IngredientCategory::Spices),
                ingredient_view("Pepper", "8", "g", IngredientCategory::Spices),
                ingredient_view("Oil", "40", "ml", IngredientCategory::Oils),
                ingredient_view("Curry leaves", "2", "sprig", IngredientCategory::Vegetables),
            ],
            adults_and_kids(),
        )
    } else if i == 3 {
        meal_view(
            MealType::Dinner,
            "Chettinad Prawns / Fish Fry with Rice & Keerai Masiyal",
            "Spicy Chettinad-style prawns or fish fry with steamed rice and spinach masiyal",
            seq![
                ingredient_view("Prawns / Fish fillet", "600", "g", IngredientCategory::Proteins),
                ingredient_view("Raw rice", "500", "g", IngredientCategory::Grains),
                ingredient_view("Spinach (keerai)", "300", "g", IngredientCategory::Vegetables),
                ingredient_view("Onion", "2", "pcs", IngredientCategory::Vegetables),
                ingredient_view("Chilli powder", "15", "g", IngredientCategory::Spices),
                ingredient_view("Turmeric powder", "5", "g", IngredientCategory::Spices),
                ingredient_view("Fennel seeds", "10", "g", IngredientCategory::Spices),
                ingredient_view("Garlic", "6", "pcs", IngredientCategory::Spices),
                ingredient_view("Sesame oil (nallennai)", "50", "ml", IngredientCategory::Oils),
                ingredient_view("Coconut (grated)", "50", "g", IngredientCategory::Other),
                ingredient_view("Toor dal", "50", "g", IngredientCategory::Grains),
            ],
            adults_and_kids(),
        )
    } else {
        meal_view(
            MealType::Dinner,
            "Chicken Kuzhambu with Rice & Beans Poriyal",
            "Country-style chicken kuzhambu with coconut milk base, rice and green beans stir-fry",
            seq![
                ingredient_view("Chicken (bone-in)", "700", "g", IngredientCategory::Proteins),
                ingredient_view("Raw rice", "500", "g", IngredientCategory::Grains),
                ingredient_view("Coconut milk", "300", "ml", IngredientCategory::Dairy),
                ingredient_view("Green beans", "200", "g", IngredientCategory::Vegetables),
                ingredient_view("Onion", "2", "pcs", IngredientCategory::Vegetables),
                ingredient_view("Tomatoes", "2", "pcs", IngredientCategory::Vegetables),
                ingredient_view("Chilli powder", "15", "g", IngredientCategory::Spices),
                ingredient_view("Coriander powder", "15", "g", IngredientCategory::Spices),
                ingredient_view("Coconut (grated)", "80", "g", IngredientCategory::Other),
                ingredient_view("Oil", "40", "ml", IngredientCategory::Oils),
                ingredient_view("Curry leaves", "3", "sprig", IngredientCategory::Vegetables),
                ingredient_view("Mustard seeds", "5", "g", IngredientCategory::Spices),
            ],
            adults_and_kids(),
        )
    }
}

/// The everyday dinners, taken in turn by day offset: entry `day_offset mod 5`.
pub fn regular_dinner(day_offset: u64) -> (r: Meal)
    ensures
        r@ == regular_dinner_view(((day_offset as usize) % 5) as int),
{
    let idx: usize = (day_offset as usize) % 5;
    if idx == 0 {
        let ingredients = vec![
            ing("Fish (Seer fish / Vanjaram)", "600", "g", IngredientCategory::Proteins),
            ing("Raw rice", "500", "g", IngredientCategory::Grains),
            ing("Onion", "2", "pcs", IngredientCategory::Vegetables),
            ing("Tomatoes", "3", "pcs", IngredientCategory::Vegetables),
            ing("Tamarind", "30", "g", IngredientCategory::Spices),
            ing("Chilli powder", "15", "g", IngredientCategory::Spices),
            ing("Coriander powder", "15", "g", IngredientCategory::Spices),
            ing("Turmeric powder", "5", "g", IngredientCategory::Spices),
            ing("Fenugreek seeds", "5", "g", IngredientCategory::Spices),
            ing("Coconut (grated)", "100", "g", IngredientCategory::Other),
            ing("Mustard seeds", "5", "g", IngredientCategory::Spices),
            ing("Curry leaves", "3", "sprig", IngredientCategory::Vegetables),
            ing("Sesame oil (nallennai)", "40", "ml", IngredientCategory::Oils),
            ing("Papad", "6", "pcs", IngredientCategory::Other),
        ];
        let r = Meal {
            meal_type: MealType::Dinner,
            name: String::from_str("Fish Curry with Rice & Papad"),
            description: String::from_str("Traditional Chennai fish curry (meen kulambu) with steamed rice and crispy papad"),
            ingredients,
            suitable_for: for_adults_and_kids(),
        };
        assert(r@.ingredients =~= regular_dinner_view(0).ingredients);
        r
    } else if idx == 1 {
        let ingredients = vec![
            ing("Raw rice", "500", "g", IngredientCategory::Grains),
            ing("Toor dal (for sambar)", "150", "g", IngredientCategory::Grains),
            ing("Drumstick (Murungakkai)", "2", "pcs", IngredientCategory::Vegetables),
            ing("Eggplant / Brinjal", "200", "g", IngredientCategory::Vegetables),
            ing("Carrot", "2", "pcs", IngredientCategory::Vegetables),
            ing("Cabbage", "200", "g", IngredientCategory::Vegetables),
            ing("Chana dal", "50", "g", IngredientCategory::Grains),
            ing("Coconut (grated)", "100", "g", IngredientCategory::Other),
            ing("Tamarind", "25", "g", IngredientCategory::Spices),
            ing("Sambar powder", "25", "g", IngredientCategory::Spices),
            ing("Mustard seeds", "10", "g", IngredientCategory::Spices),
            ing("Curry leaves", "3", "sprig", IngredientCategory::Vegetables),
            ing("Oil", "40", "ml", IngredientCategory::Oils),
        ];
        let r = Meal {
            meal_type: MealType::Dinner,
            name: String::from_str("Sambar Rice + Kootu + Poriyal"),
            description: String::from_str("Comforting one-pot sambar rice with vegetable kootu and stir-fry poriyal"),
            ingredients,
            suitable_for: for_adults_and_kids(),
        };
        assert(r@.ingredients =~= regular_dinner_view(1).ingredients);
        r
    } else if idx == 2 {
        let ingredients = vec![
            ing("Eggs", "8", "pcs", IngredientCategory::Proteins),
            ing("Raw rice", "500", "g", IngredientCategory::Grains),
            ing("Onion", "3", "pcs", IngredientCategory::Vegetables),
            ing("Tomatoes", "3", "pcs", IngredientCategory::Vegetables),
            ing("Ginger-garlic paste", "30", "g", IngredientCategory::Spices),
            ing("Chilli powder", "12", "g", IngredientCategory::Spices),
            ing("Coriander powder", "12", "g", IngredientCategory::Spices),
            ing("Toor dal (for rasam)", "50", "g", IngredientCategory::Grains),
            ing("Tamarind", "20", "g", IngredientCategory::Spices),
            ing("Pepper", "8", "g", IngredientCategory::Spices),
            ing("Oil", "40", "ml", IngredientCategory::Oils),
            ing("Curry leaves", "2", "sprig", IngredientCategory::Vegetables),
        ];
        let r = Meal {
            meal_type: MealType::Dinner,
            name: String::from_str("Egg Masala Curry with Rice & Rasam"),
            description: String::from_str("Boiled eggs in spicy masala gravy with steamed rice and pepper-cumin rasam"),
            ingredients,
            suitable_for: for_adults_and_kids(),
        };
        assert(r@.ingredients =~= regular_dinner_view(2).ingredients);
        r
    } else if idx == 3 {
        let ingredients = vec![
            ing("Prawns / Fish fillet", "600", "g", IngredientCategory::Proteins),
            ing("Raw rice", "500", "g", IngredientCategory::Grains),
            ing("Spinach (keerai)", "300", "g", IngredientCategory::Vegetables),
            ing("Onion", "2", "pcs", IngredientCategory::Vegetables),
            ing("Chilli powder", "15", "g", IngredientCategory::Spices),
            ing("Turmeric powder", "5", "g", IngredientCategory::Spices),
            ing("Fennel seeds", "10", "g", IngredientCategory::Spices),
            ing("Garlic", "6", "pcs", IngredientCategory::Spices),
            ing("Sesame oil (nallennai)", "50", "ml", IngredientCategory::Oils),
            ing("Coconut (grated)", "50", "g", IngredientCategory::Other),
            ing("Toor dal", "50", "g", IngredientCategory::Grains),
        ];
        let r = Meal {
            meal_type: MealType::Dinner,
            name: String::from_str("Chettinad Prawns / Fish Fry with Rice & Keerai Masiyal"),
            description: String::from_str("Spicy Chettinad-style prawns or fish fry with steamed rice and spinach masiyal"),
            ingredients,
            suitable_for: for_adults_and_kids(),
        };
        assert(r@.ingredients =~= regular_dinner_view(3).ingredients);
        r
    } else {
        let ingredients = vec![
            ing("Chicken (bone-in)", "700", "g", IngredientCategory::Proteins),
            ing("Raw rice", "500", "g", IngredientCategory::Grains),
            ing("Coconut milk", "300", "ml", IngredientCategory::Dairy),
            ing("Green beans", "200", "g", IngredientCategory::Vegetables),
            ing("Onion", "2", "pcs", IngredientCategory::Vegetables),
            ing("Tomatoes", "2", "pcs", IngredientCategory::Vegetables),
            ing("Chilli powder", "15", "g", IngredientCategory::Spices),
            ing("Coriander powder", "15", "g", IngredientCategory::Spices),
            ing("Coconut (grated)", "80", "g", IngredientCategory::Other),
            ing("Oil", "40", "ml", IngredientCategory::Oils),
            ing("Curry leaves", "3", "sprig", IngredientCategory::Vegetables),
            ing("Mustard seeds", "5", "g", IngredientCategory::Spices),
        ];
        let r = Meal {
            meal_type: MealType::Dinner,
            name: String::from_str("Chicken Kuzhambu with Rice & Beans Poriyal"),
            description: String::from_str("Country-style chicken kuzhambu with coconut milk base, rice and green beans stir-fry"),
            ingredients,
            suitable_for: for_adults_and_kids(),
        };
        assert(r@.ingredients =~= regular_dinner_view(4).ingredients);
        r
    }
}

} // verus!
