//! What holds of every week that the offline planner makes: its days follow
//! the calendar, each weekday comes once, and the weekly meal rules hold.
use vstd::prelude::*;
use crate::calendar::{lemma_weekday_after, weekday_index_of, PlanDate, Weekday};
use crate::models::{IngredientCategory, MealType, MealView, WeeklyPlan};
use crate::planner::{day_meals_view, is_offline_plan, plan_day_weekday, weekday_name_view};
use crate::templates::{
    adults_and_kids, kids_and_infant, chicken_dinner_view, kids_fruit_snack_view, kids_lunch_view, mushroom_dinner_view,
    regular_dinner_view, saturday_breakfast_view, sunday_breakfast_view,
    sunday_nonveg_dinner_view, weekday_breakfast_view,
};

verus! {

/// A meal with a name, a description and at least one ingredient.
pub open spec fn meal_is_filled(m: MealView) -> bool {
    &&& m.name.len() > 0
    &&& m.description.len() > 0
    &&& m.ingredients.len() > 0
}

proof fn lemma_saturday_breakfast_filled()
    ensures
        meal_is_filled(saturday_breakfast_view()),
{
    reveal_strlit("Ven Pongal with Sambar & Chutney");
    reveal_strlit("Traditional Saturday breakfast - creamy rice and moong dal pongal served with sambar and coconut chutney");
}

proof fn lemma_sunday_breakfast_filled()
    ensures
        meal_is_filled(sunday_breakfast_view()),
{
    reveal_strlit("Egg Dosa with Tomato Chutney");
    reveal_strlit("Sunday special crispy dosas topped with spiced egg scramble and fresh tomato chutney");
}

proof fn lemma_sunday_nonveg_dinner_filled()
    ensures
        meal_is_filled(sunday_nonveg_dinner_view()),
{
    reveal_strlit("Mutton Biryani with Raita & Boiled Egg");
    reveal_strlit("Sunday special! Aromatic Chettinad-style mutton biryani served with cooling raita and boiled egg");
}

proof fn lemma_chicken_dinner_filled()
    ensures
        meal_is_filled(chicken_dinner_view()),
{
    reveal_strlit("Chicken Chettinad Curry with Rice & Rasam");
    reveal_strlit("Aromatic mid-week chicken Chettinad curry with steamed rice and pepper rasam");
}

proof fn lemma_mushroom_dinner_filled()
    ensures
        meal_is_filled(mushroom_dinner_view()),
{
    reveal_strlit("Mushroom Masala with Chapathi & Rice");
    reveal_strlit("Earthy mushroom masala in a rich tomato-onion gravy, served with chapathi and rice");
}

proof fn lemma_weekday_breakfast_filled()
    ensures
        forall|j: int| meal_is_filled(#[trigger] weekday_breakfast_view(j)),
{
    reveal_strlit("Idli with Sambar & Chutneys");
    reveal_strlit("Soft steamed rice and lentil cakes served with hot sambar and coconut chutney");
    reveal_strlit("Upma with Coconut Chutney");
    reveal_strlit("Savory semolina breakfast with vegetables, mustard tempering and fresh coconut chutney");
    reveal_strlit("Dosa with Sambar & Chutney");
    reveal_strlit("Crispy fermented crepes with lentil sambar and coconut chutney");
    reveal_strlit("Idiyappam with Coconut Milk");
    reveal_strlit("Steamed rice noodles served with sweet coconut milk - light and nutritious");
    reveal_strlit("Poha (Aval) with Curd");
    reveal_strlit("Flattened rice tempered with mustard, curry leaves, and served with fresh curd");
}

proof fn lemma_kids_fruit_snack_filled()
    ensures
        forall|j: int| meal_is_filled(#[trigger] kids_fruit_snack_view(j)),
{
    reveal_strlit("Banana & Dates");
    reveal_strlit("2 bananas + 4 dates per child");
    reveal_strlit("Seasonal Fruit Salad");
    reveal_strlit("Mixed seasonal fruits with a drizzle of honey");
    reveal_strlit("Mango (seasonal) / Sapota");
    reveal_strlit("Fresh mango or chiku – a Tamil Nadu favorite");
    reveal_strlit("Guava with Chilli Salt");
    reveal_strlit("Fresh guava slices with a pinch of chilli powder and salt");
    reveal_strlit("Orange & Watermelon");
    reveal_strlit("Hydrating fruit combo ideal for Chennai weather");
    reveal_strlit("Banana Smoothie");
    reveal_strlit("Blended banana with milk and a pinch of cardamom");
    reveal_strlit("Papaya & Pineapple");
    reveal_strlit("Enzyme-rich tropical fruit combo");
}

proof fn lemma_kids_lunch_filled()
    ensures
        forall|j: int| meal_is_filled(#[trigger] kids_lunch_view(j)),
{
    reveal_strlit("Rice + Sambar + Egg Curry");
    reveal_strlit("Steamed rice with mild sambar and a simple egg curry, easy on kids' stomachs");
    reveal_strlit("Curd Rice with Pickle");
    reveal_strlit("Creamy curd rice with a small portion of mango pickle - a kid favorite");
    reveal_strlit("Mini Idlis with Ghee & Sambar");
    reveal_strlit("Bite-size idlis drizzled with ghee in sambar - perfect for young kids");
    reveal_strlit("Vegetable Khichdi");
    reveal_strlit("Soft rice-lentil porridge with mixed vegetables, easy to digest for all ages");
    reveal_strlit("Chapathi with Dal & Vegetables");
    reveal_strlit("Soft wheat rotis with mild lentil curry and vegetables");
    reveal_strlit("Rice + Fish Curry (mild, deboned)");
    reveal_strlit("Steamed rice with mild fish curry using deboned fish pieces - rich in omega-3");
    reveal_strlit("Tomato Rice with Raita");
    reveal_strlit("Tangy tomato rice with a cooling cucumber raita - nutritious and easy");
}

proof fn lemma_regular_dinner_filled()
    ensures
        forall|j: int| meal_is_filled(#[trigger] regular_dinner_view(j)),
{
    reveal_strlit("Fish Curry with Rice & Papad");
    reveal_strlit("Traditional Chennai fish curry (meen kulambu) with steamed rice and crispy papad");
    reveal_strlit("Sambar Rice + Kootu + Poriyal");
    reveal_strlit("Comforting one-pot sambar rice with vegetable kootu and stir-fry poriyal");
    reveal_strlit("Egg Masala Curry with Rice & Rasam");
    reveal_strlit("Boiled eggs in spicy masala gravy with steamed rice and pepper-cumin rasam");
    reveal_strlit("Chettinad Prawns / Fish Fry with Rice & Keerai Masiyal");
    reveal_strlit("Spicy Chettinad-style prawns or fish fry with steamed rice and spinach masiyal");
    reveal_strlit("Chicken Kuzhambu with Rice & Beans Poriyal");
    reveal_strlit("Country-style chicken kuzhambu with coconut milk base, rice and green beans stir-fry");
}

/// Each weekday comes exactly once among the seven days of a week, whatever
/// day the week starts on.
pub proof fn law_each_weekday_once(week_start: PlanDate, w: Weekday)
    ensures
        exists|i: int| 0 <= i < 7 && plan_day_weekday(week_start, i) == w,
        forall|i: int, j: int|
            0 <= i < j < 7 ==> plan_day_weekday(week_start, i) != plan_day_weekday(
                week_start,
                j,
            ),
{
    let n = week_start.day_num();
    lemma_weekday_after(n, 0);
    let w0 = weekday_index_of(n);
    let i = (w.index() - w0 + 7) % 7;
    lemma_weekday_after(n, i);
    assert(plan_day_weekday(week_start, i) == w);
    assert forall|i: int, j: int| 0 <= i < j < 7 implies plan_day_weekday(week_start, i)
        != plan_day_weekday(week_start, j) by {
        lemma_weekday_after(n, i);
        lemma_weekday_after(n, j);
    }
}

/// Day `i` of a plan is `i` days after the week's start, its weekday is `i`
/// weekdays after the start's, and it is named after its weekday.
pub proof fn law_days_follow_the_calendar(plan: WeeklyPlan, week_start: PlanDate)
    requires
        is_offline_plan(plan, week_start),
    ensures
        forall|i: int|
            0 <= i < 7 ==> {
                &&& (#[trigger] plan.days@[i]).date.day_num() == week_start.day_num() + i
                &&& plan.days@[i].date.weekday_spec().index() == (
                week_start.weekday_spec().index() + i) % 7
                &&& plan.days@[i]@.day_name == weekday_name_view(plan.days@[i].date.weekday_spec())
            },
{
    assert forall|i: int| 0 <= i < 7 implies {
        &&& (#[trigger] plan.days@[i]).date.day_num() == week_start.day_num() + i
        &&& plan.days@[i].date.weekday_spec().index() == (week_start.weekday_spec().index() + i)
            % 7
        &&& plan.days@[i]@.day_name == weekday_name_view(plan.days@[i].date.weekday_spec())
    } by {
        lemma_weekday_after(week_start.day_num(), i);
    }
}

/// The meals of every day: breakfast, the children's fruit snack, the
/// children's lunch and dinner, in that order, each with a name, a
/// description and ingredients, the snack holding at least one fruit;
/// Saturday's breakfast is Ven Pongal, Sunday's is egg dosa and its dinner
/// the mutton biryani special, Wednesday's dinner is the chicken curry and
/// Tuesday's the mushroom masala.
pub proof fn law_weekly_meal_rules(plan: WeeklyPlan, week_start: PlanDate)
    requires
        is_offline_plan(plan, week_start),
    ensures
        forall|i: int|
            0 <= i < 7 ==> {
                let m = (#[trigger] plan.days@[i])@.meals;
                let w = plan.days@[i].date.weekday_spec();
                &&& m.len() == 4
                &&& m[0].meal_type == MealType::Breakfast
                &&& m[1].meal_type == MealType::KidsSnack
                &&& m[2].meal_type == MealType::KidsLunch
                &&& m[3].meal_type == MealType::Dinner
                &&& forall|k: int| 0 <= k < 4 ==> meal_is_filled(#[trigger] m[k])
                &&& exists|f: int|
                    0 <= f < m[1].ingredients.len() && (#[trigger] m[1].ingredients[f]).category
                        == IngredientCategory::Fruits
                &&& (w == Weekday::Sat ==> m[0] == saturday_breakfast_view())
                &&& (w == Weekday::Sun ==> m[0] == sunday_breakfast_view())
                &&& (w == Weekday::Sun ==> m[3] == sunday_nonveg_dinner_view())
                &&& (w == Weekday::Wed ==> m[3] == chicken_dinner_view())
                &&& (w == Weekday::Tue ==> m[3] == mushroom_dinner_view())
            },
{
    lemma_saturday_breakfast_filled();
    lemma_sunday_breakfast_filled();
    lemma_sunday_nonveg_dinner_filled();
    lemma_chicken_dinner_filled();
    lemma_mushroom_dinner_filled();
    lemma_weekday_breakfast_filled();
    lemma_kids_fruit_snack_filled();
    lemma_kids_lunch_filled();
    lemma_regular_dinner_filled();
    assert forall|i: int| 0 <= i < 7 implies {
        let m = (#[trigger] plan.days@[i])@.meals;
        let w = plan.days@[i].date.weekday_spec();
        &&& m.len() == 4
        &&& m[0].meal_type == MealType::Breakfast
        &&& m[1].meal_type == MealType::KidsSnack
        &&& m[2].meal_type == MealType::KidsLunch
        &&& m[3].meal_type == MealType::Dinner
        &&& forall|k: int| 0 <= k < 4 ==> meal_is_filled(#[trigger] m[k])
        &&& exists|f: int|
            0 <= f < m[1].ingredients.len() && (#[trigger] m[1].ingredients[f]).category
                == IngredientCategory::Fruits
        &&& (w == Weekday::Sat ==> m[0] == saturday_breakfast_view())
        &&& (w == Weekday::Sun ==> m[0] == sunday_breakfast_view())
        &&& (w == Weekday::Sun ==> m[3] == sunday_nonveg_dinner_view())
        &&& (w == Weekday::Wed ==> m[3] == chicken_dinner_view())
        &&& (w == Weekday::Tue ==> m[3] == mushroom_dinner_view())
    } by {
        let m = plan.days@[i]@.meals;
        let j = ((i as u64 as usize) % 7) as int;
        assert(m[1] == kids_fruit_snack_view(j));
        assert(m[1].ingredients[0].category == IngredientCategory::Fruits);
        assert(meal_is_filled(m[0]));
        assert(meal_is_filled(m[1]));
        assert(meal_is_filled(m[2]));
        assert(meal_is_filled(m[3]));
    }
}

/// Every week has the Saturday Pongal breakfast, the Sunday biryani dinner,
/// a Wednesday chicken dinner and a Tuesday mushroom dinner.
pub proof fn law_every_week_has_the_specials(plan: WeeklyPlan, week_start: PlanDate)
    requires
        is_offline_plan(plan, week_start),
    ensures
        exists|i: int|
            0 <= i < 7 && (#[trigger] plan.days@[i])@.meals[0] == saturday_breakfast_view(),
        exists|i: int|
            0 <= i < 7 && (#[trigger] plan.days@[i])@.meals[3] == sunday_nonveg_dinner_view(),
        exists|i: int| 0 <= i < 7 && (#[trigger] plan.days@[i])@.meals[3] == chicken_dinner_view(),
        exists|i: int|
            0 <= i < 7 && (#[trigger] plan.days@[i])@.meals[3] == mushroom_dinner_view(),
{
    law_weekly_meal_rules(plan, week_start);
    law_each_weekday_once(week_start, Weekday::Sat);
    law_each_weekday_once(week_start, Weekday::Sun);
    law_each_weekday_once(week_start, Weekday::Wed);
    law_each_weekday_once(week_start, Weekday::Tue);
    let sat = choose|i: int| 0 <= i < 7 && plan_day_weekday(week_start, i) == Weekday::Sat;
    let sun = choose|i: int| 0 <= i < 7 && plan_day_weekday(week_start, i) == Weekday::Sun;
    let wed = choose|i: int| 0 <= i < 7 && plan_day_weekday(week_start, i) == Weekday::Wed;
    let tue = choose|i: int| 0 <= i < 7 && plan_day_weekday(week_start, i) == Weekday::Tue;
    assert(plan.days@[sat]@.meals[0] == saturday_breakfast_view());
    assert(plan.days@[sun]@.meals[3] == sunday_nonveg_dinner_view());
    assert(plan.days@[wed]@.meals[3] == chicken_dinner_view());
    assert(plan.days@[tue]@.meals[3] == mushroom_dinner_view());
}

/// The rotating templates repeat with their number of entries: the day
/// offset `d` gives the entry `d mod 5` (breakfasts, dinners) or `d mod 7`
/// (snacks, lunches), for every offset that a `usize` holds as it is (a
/// narrower `usize` cuts the offset before the remainder is taken).
pub proof fn law_templates_rotate(d: u64)
    requires
        d <= usize::MAX,
    ensures
        weekday_breakfast_view(((d as usize) % 5) as int) == weekday_breakfast_view((d % 5) as int),
        regular_dinner_view(((d as usize) % 5) as int) == regular_dinner_view((d % 5) as int),
        kids_lunch_view(((d as usize) % 7) as int) == kids_lunch_view((d % 7) as int),
        kids_fruit_snack_view(((d as usize) % 7) as int) == kids_fruit_snack_view((d % 7) as int),
{
    assert((d as usize) as int == d as int);
}

/// Every entry of the rotating templates is of its meal kind, meant for its
/// eaters and has ingredients; every snack holds a fruit.
pub proof fn law_template_entries()
    ensures
        forall|j: int|
            {
                let m = #[trigger] weekday_breakfast_view(j);
                m.meal_type == MealType::Breakfast && m.suitable_for == adults_and_kids()
                    && m.ingredients.len() > 0
            },
        forall|j: int|
            {
                let m = #[trigger] regular_dinner_view(j);
                m.meal_type == MealType::Dinner && m.suitable_for == adults_and_kids()
                    && m.ingredients.len() > 0
            },
        forall|j: int|
            {
                let m = #[trigger] kids_lunch_view(j);
                m.meal_type == MealType::KidsLunch && m.suitable_for == kids_and_infant()
                    && m.ingredients.len() > 0
            },
        forall|j: int|
            {
                let m = #[trigger] kids_fruit_snack_view(j);
                &&& m.meal_type == MealType::KidsSnack
                &&& m.suitable_for == kids_and_infant()
                &&& m.ingredients.len() > 0
                &&& exists|f: int|
                    0 <= f < m.ingredients.len() && (#[trigger] m.ingredients[f]).category
                        == IngredientCategory::Fruits
            },
{
    assert forall|j: int| {
        let m = #[trigger] kids_fruit_snack_view(j);
        &&& m.meal_type == MealType::KidsSnack
        &&& m.suitable_for == kids_and_infant()
        &&& m.ingredients.len() > 0
        &&& exists|f: int|
            0 <= f < m.ingredients.len() && (#[trigger] m.ingredients[f]).category
                == IngredientCategory::Fruits
    } by {
        assert(kids_fruit_snack_view(j).ingredients[0].category == IngredientCategory::Fruits);
    }
}

/// The special dinners and breakfasts differ from each other and from every
/// entry of the rotating dinners and breakfasts.
proof fn lemma_specials_distinct()
    ensures
        forall|j: int|
            0 <= j < 5 ==> {
                let r = #[trigger] regular_dinner_view(j);
                &&& r.name != mushroom_dinner_view().name
                &&& r.name != chicken_dinner_view().name
                &&& r.name != sunday_nonveg_dinner_view().name
            },
        mushroom_dinner_view().name != chicken_dinner_view().name,
        mushroom_dinner_view().name != sunday_nonveg_dinner_view().name,
        chicken_dinner_view().name != sunday_nonveg_dinner_view().name,
        forall|j: int|
            0 <= j < 5 ==> {
                let b = #[trigger] weekday_breakfast_view(j);
                &&& b.name != saturday_breakfast_view().name
                &&& b.name != sunday_breakfast_view().name
            },
        saturday_breakfast_view().name != sunday_breakfast_view().name,
{
    reveal_strlit("Fish Curry with Rice & Papad");
    reveal_strlit("Sambar Rice + Kootu + Poriyal");
    reveal_strlit("Egg Masala Curry with Rice & Rasam");
    reveal_strlit("Chettinad Prawns / Fish Fry with Rice & Keerai Masiyal");
    reveal_strlit("Chicken Kuzhambu with Rice & Beans Poriyal");
    reveal_strlit("Mushroom Masala with Chapathi & Rice");
    reveal_strlit("Chicken Chettinad Curry with Rice & Rasam");
    reveal_strlit("Mutton Biryani with Raita & Boiled Egg");
    reveal_strlit("Idli with Sambar & Chutneys");
    reveal_strlit("Upma with Coconut Chutney");
    reveal_strlit("Dosa with Sambar & Chutney");
    reveal_strlit("Idiyappam with Coconut Milk");
    reveal_strlit("Poha (Aval) with Curd");
    reveal_strlit("Ven Pongal with Sambar & Chutney");
    reveal_strlit("Egg Dosa with Tomato Chutney");
    assert(mushroom_dinner_view().name[0] != chicken_dinner_view().name[0]);
    assert(mushroom_dinner_view().name[2] != sunday_nonveg_dinner_view().name[2]);
    assert(chicken_dinner_view().name[0] != sunday_nonveg_dinner_view().name[0]);
    assert(saturday_breakfast_view().name[0] != sunday_breakfast_view().name[0]);
    assert forall|j: int| 0 <= j < 5 implies {
        let r = #[trigger] regular_dinner_view(j);
        &&& r.name != mushroom_dinner_view().name
        &&& r.name != chicken_dinner_view().name
        &&& r.name != sunday_nonveg_dinner_view().name
    } by {
        let r = regular_dinner_view(j);
        assert(r.name[0] != mushroom_dinner_view().name[0]);
        assert(r.name[0] != sunday_nonveg_dinner_view().name[0]);
        if j < 3 {
            assert(r.name[0] != chicken_dinner_view().name[0]);
        } else if j == 3 {
            assert(r.name[2] != chicken_dinner_view().name[2]);
        } else {
            assert(r.name[8] != chicken_dinner_view().name[8]);
        }
    }
    assert forall|j: int| 0 <= j < 5 implies {
        let b = #[trigger] weekday_breakfast_view(j);
        &&& b.name != saturday_breakfast_view().name
        &&& b.name != sunday_breakfast_view().name
    } by {
        let b = weekday_breakfast_view(j);
        assert(b.name[0] != saturday_breakfast_view().name[0]);
        assert(b.name[0] != sunday_breakfast_view().name[0]);
    }
}

/// The meals of a day with weekday `w` at offset `d` in the week: the
/// mushroom masala is the dinner exactly on Tuesday, the chicken curry
/// exactly on Wednesday and the biryani exactly on Sunday; on Monday,
/// Thursday, Friday and Saturday the dinner is the everyday dinner `d mod 5`.
/// Pongal is the breakfast exactly on Saturday and egg dosa exactly on
/// Sunday; on the other days the breakfast is the weekday breakfast
/// `d mod 5`. The snack and the children's lunch are entries `d mod 7`.
pub proof fn law_day_meals(w: Weekday, d: u64)
    requires
        d <= usize::MAX,
    ensures
        ({
            let m = day_meals_view(w, d);
            &&& m.len() == 4
            &&& (m[3] == mushroom_dinner_view() <==> w == Weekday::Tue)
            &&& (m[3] == chicken_dinner_view() <==> w == Weekday::Wed)
            &&& (m[3] == sunday_nonveg_dinner_view() <==> w == Weekday::Sun)
            &&& (w == Weekday::Mon || w == Weekday::Thu || w == Weekday::Fri || w == Weekday::Sat
                ==> m[3] == regular_dinner_view((d % 5) as int))
            &&& (m[0] == saturday_breakfast_view() <==> w == Weekday::Sat)
            &&& (m[0] == sunday_breakfast_view() <==> w == Weekday::Sun)
            &&& (w != Weekday::Sat && w != Weekday::Sun ==> m[0] == weekday_breakfast_view(
                (d % 5) as int,
            ))
            &&& m[1] == kids_fruit_snack_view((d % 7) as int)
            &&& m[2] == kids_lunch_view((d % 7) as int)
        }),
{
    law_templates_rotate(d);
    lemma_specials_distinct();
    let m = day_meals_view(w, d);
    let r = regular_dinner_view((d % 5) as int);
    let b = weekday_breakfast_view((d % 5) as int);
    assert(r.name != mushroom_dinner_view().name);
    assert(r.name != chicken_dinner_view().name);
    assert(r.name != sunday_nonveg_dinner_view().name);
    assert(b.name != saturday_breakfast_view().name);
    assert(b.name != sunday_breakfast_view().name);
}

} // verus!
