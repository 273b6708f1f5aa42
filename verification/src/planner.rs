//! The offline planner: the meals of each day of a week by the weekly rules,
//! and the shopping list that totals their ingredients.
use vstd::prelude::*;
use crate::calendar::{weekday_of_day_number, PlanDate, Weekday, MAX_DAY_NUMBER};
use crate::models::{
    DayPlan, DayPlanView, Ingredient, IngredientCategory, IngredientView, Meal, MealView,
    ShoppingItem, ShoppingItemView, WeeklyPlan,
};
use crate::quantity::{add_amounts, format_amount, quantity_amount, quantity_or_one, Amount, Decimal};
use crate::templates::{
    chicken_dinner, chicken_dinner_view, kids_fruit_snack, kids_fruit_snack_view, kids_lunch,
    kids_lunch_view, mushroom_dinner, mushroom_dinner_view, regular_dinner, regular_dinner_view,
    saturday_breakfast, saturday_breakfast_view, sunday_breakfast, sunday_breakfast_view,
    sunday_nonveg_dinner, sunday_nonveg_dinner_view, weekday_breakfast, weekday_breakfast_view,
};
use crate::text::{chars_less, chars_of, seq_less};

verus! {

/// The English name of a weekday.
pub open spec fn weekday_name_view(weekday: Weekday) -> Seq<char> {
    match weekday {
        Weekday::Mon => "Monday"@,
        Weekday::Tue => "Tuesday"@,
        Weekday::Wed => "Wednesday"@,
        Weekday::Thu => "Thursday"@,
        Weekday::Fri => "Friday"@,
        Weekday::Sat => "Saturday"@,
        Weekday::Sun => "Sunday"@,
    }
}

/// The English name of a weekday.
pub fn weekday_name(weekday: Weekday) -> (r: String)
    ensures
        r@ == weekday_name_view(weekday),
{
    match weekday {
        Weekday::Mon => String::from_str("Monday"),
        Weekday::Tue => String::from_str("Tuesday"),
        Weekday::Wed => String::from_str("Wednesday"),
        Weekday::Thu => String::from_str("Thursday"),
        Weekday::Fri => String::from_str("Friday"),
        Weekday::Sat => String::from_str("Saturday"),
        Weekday::Sun => String::from_str("Sunday"),
    }
}

/// The breakfast of a day: Pongal on Saturday, egg dosa on Sunday, else the
/// weekday breakfasts in turn.
pub open spec fn breakfast_view(weekday: Weekday, day_offset: u64) -> MealView {
    match weekday {
        Weekday::Sat => saturday_breakfast_view(),
        Weekday::Sun => sunday_breakfast_view(),
        _ => weekday_breakfast_view(((day_offset as usize) % 5) as int),
    }
}

/// The dinner of a day: the non-vegetarian special on Sunday, chicken on
/// Wednesday, mushroom on Tuesday, else the everyday dinners in turn.
pub open spec fn dinner_view(weekday: Weekday, day_offset: u64) -> MealView {
    match weekday {
        Weekday::Sun => sunday_nonveg_dinner_view(),
        Weekday::Wed => chicken_dinner_view(),
        Weekday::Tue => mushroom_dinner_view(),
        _ => regular_dinner_view(((day_offset as usize) % 5) as int),
    }
}

/// The four meals of a day: breakfast, the children's snack, the children's
/// lunch and dinner.
pub open spec fn day_meals_view(weekday: Weekday, day_offset: u64) -> Seq<MealView> {
    seq![
        breakfast_view(weekday, day_offset),
        kids_fruit_snack_view(((day_offset as usize) % 7) as int),
        kids_lunch_view(((day_offset as usize) % 7) as int),
        dinner_view(weekday, day_offset),
    ]
}

/// The weekday of day `i` of a week that starts on `week_start`.
pub open spec fn plan_day_weekday(week_start: PlanDate, i: int) -> Weekday {
    weekday_of_day_number(week_start.day_num() + i)
}

/// The ingredients of some meals, meal after meal.
pub open spec fn meal_ingredients(meals: Seq<MealView>) -> Seq<IngredientView>
    decreases meals.len(),
{
    if meals.len() == 0 {
        Seq::empty()
    } else {
        meal_ingredients(meals.drop_last()) + meals.last().ingredients
    }
}

/// The ingredients of some days, day after day.
pub open spec fn plan_ingredients(days: Seq<DayPlanView>) -> Seq<IngredientView>
    decreases days.len(),
{
    if days.len() == 0 {
        Seq::empty()
    } else {
        plan_ingredients(days.drop_last()) + meal_ingredients(days.last().meals)
    }
}

/// The running total of one ingredient, in its unit.
pub struct Tally {
    pub name: Seq<char>,
    pub amount: Amount,
    pub unit: Seq<char>,
    pub category: IngredientCategory,
}

/// The index of the first tally of ingredient `name`, or -1.
pub open spec fn find_tally(t: Seq<Tally>, name: Seq<char>) -> int
    decreases t.len(),
{
    if t.len() == 0 {
        -1
    } else if t[0].name == name {
        0
    } else {
        let r = find_tally(t.drop_first(), name);
        if r < 0 {
            -1
        } else {
            r + 1
        }
    }
}

/// Counts one more ingredient: added to the tally of the same name, which
/// keeps the unit and category it was opened with, or opening a new tally.
pub open spec fn add_ingredient(t: Seq<Tally>, i: IngredientView) -> Seq<Tally> {
    let j = find_tally(t, i.name);
    if j >= 0 {
        t.update(
            j,
            Tally {
                name: t[j].name,
                amount: add_amounts(t[j].amount, quantity_or_one(i.quantity)),
                unit: t[j].unit,
                category: t[j].category,
            },
        )
    } else {
        t.push(
            Tally {
                name: i.name,
                amount: quantity_or_one(i.quantity),
                unit: i.unit,
                category: i.category,
            },
        )
    }
}

/// The tallies of a list of ingredients, in the order names first appear.
pub open spec fn tally(ings: Seq<IngredientView>) -> Seq<Tally>
    decreases ings.len(),
{
    if ings.len() == 0 {
        Seq::empty()
    } else {
        add_ingredient(tally(ings.drop_last()), ings.last())
    }
}

/// The sort key of a tally: its category's heading followed by its name.
pub open spec fn tally_key(t: Tally) -> Seq<char> {
    t.category.label_view() + t.name
}

/// Inserts `x` before the first tally whose key is greater than its own.
pub open spec fn insert_by_key(s: Seq<Tally>, x: Tally) -> Seq<Tally>
    decreases s.len(),
{
    if s.len() == 0 {
        seq![x]
    } else if seq_less(tally_key(x), tally_key(s[0])) {
        seq![x] + s
    } else {
        seq![s[0]] + insert_by_key(s.drop_first(), x)
    }
}

/// The tallies in order of their keys (insertion sort, stable).
pub open spec fn sort_by_key(s: Seq<Tally>) -> Seq<Tally>
    decreases s.len(),
{
    if s.len() == 0 {
        Seq::empty()
    } else {
        insert_by_key(sort_by_key(s.drop_last()), s.last())
    }
}

/// A tally as a shopping list line.
pub open spec fn shopping_item_view(t: Tally) -> ShoppingItemView {
    ShoppingItemView {
        ingredient: t.name,
        total_quantity: format_amount(t.amount),
        unit: t.unit,
        category: t.category,
    }
}

/// The shopping list of some days: one line per ingredient name with its
/// total, sorted by category heading and name.
pub open spec fn shopping_list_view(days: Seq<DayPlanView>) -> Seq<ShoppingItemView> {
    sort_by_key(tally(plan_ingredients(days))).map_values(|t: Tally| shopping_item_view(t))
}

/// What the offline planner gives for the week that starts on `week_start`.
pub open spec fn is_offline_plan(plan: WeeklyPlan, week_start: PlanDate) -> bool {
    &&& plan.week_start == week_start
    &&& plan.days@.len() == 7
    &&& forall|i: int|
        0 <= i < 7 ==> (#[trigger] plan.days@[i]).date.day_num() == week_start.day_num() + i
    &&& forall|i: int|
        0 <= i < 7 ==> (#[trigger] plan.days@[i])@.day_name == weekday_name_view(
            plan_day_weekday(week_start, i),
        )
    &&& forall|i: int|
        0 <= i < 7 ==> (#[trigger] plan.days@[i])@.meals == day_meals_view(
            plan_day_weekday(week_start, i),
            i as u64,
        )
    &&& plan.shopping_list@.map_values(|s: ShoppingItem| s@) == shopping_list_view(
        plan.days@.map_values(|d: DayPlan| d@),
    )
}

/// The planner of the built-in South Indian templates.
pub struct MealPlanner;

impl MealPlanner {
    /// The week of meals that starts on `week_start`, by the built-in
    /// templates, with its shopping list. The last day of the week must be a
    /// date that chrono can represent.
    pub fn generate_offline_plan(week_start: PlanDate) -> (plan: WeeklyPlan)
        requires
            week_start.day_num() + 6 <= MAX_DAY_NUMBER,
        ensures
            is_offline_plan(plan, week_start),
    {
        let mut days: Vec<DayPlan> = Vec::new();
        let mut day_offset: u64 = 0;
        while day_offset < 7
            invariant
                day_offset <= 7,
                week_start.day_num() + 6 <= MAX_DAY_NUMBER,
                days@.len() == day_offset,
                forall|i: int|
                    0 <= i < day_offset ==> (#[trigger] days@[i]).date.day_num()
                        == week_start.day_num() + i,
                forall|i: int|
                    0 <= i < day_offset ==> (#[trigger] days@[i])@.day_name == weekday_name_view(
                        plan_day_weekday(week_start, i),
                    ),
                forall|i: int|
                    0 <= i < day_offset ==> (#[trigger] days@[i])@.meals == day_meals_view(
                        plan_day_weekday(week_start, i),
                        i as u64,
                    ),
            decreases 7 - day_offset,
        {
            let date = match week_start.checked_add_days(day_offset as i32) {
                Some(d) => d,
                None => unreached(),
            };
            let weekday = date.weekday();
            let day_name = weekday_name(weekday);
            let meals = Self::meals_for_day(weekday, day_offset);
            days.push(DayPlan { date, day_name, meals });
            day_offset = day_offset + 1;
        }
        let shopping_list = Self::build_shopping_list(days.as_slice());
        WeeklyPlan { week_start, days, shopping_list }
    }

    /// The four meals of a day with the given weekday and offset in the week:
    /// breakfast (Pongal on Saturday, egg dosa on Sunday, else the weekday
    /// breakfasts in turn), the children's fruit snack, the children's lunch,
    /// and dinner (the biryani special on Sunday, chicken on Wednesday,
    /// mushroom on Tuesday, else the everyday dinners in turn).
    pub fn meals_for_day(weekday: Weekday, day_offset: u64) -> (r: Vec<Meal>)
        ensures
            r@.map_values(|m: Meal| m@) == day_meals_view(weekday, day_offset),
    {
        let mut meals: Vec<Meal> = Vec::new();
        let breakfast = match weekday {
            Weekday::Sat => saturday_breakfast(),
            Weekday::Sun => sunday_breakfast(),
            _ => weekday_breakfast(day_offset),
        };
        meals.push(breakfast);
        meals.push(kids_fruit_snack(day_offset));
        meals.push(kids_lunch(day_offset));
        let dinner = match weekday {
            Weekday::Sun => sunday_nonveg_dinner(),
            Weekday::Wed => chicken_dinner(),
            _ => {
                if weekday == Weekday::Tue {
                    mushroom_dinner()
                } else {
                    regular_dinner(day_offset)
                }
            },
        };
        meals.push(dinner);
        assert(meals@.map_values(|m: Meal| m@) =~= day_meals_view(weekday, day_offset));
        meals
    }

    /// The shopping list of some days (see `shopping_list_view`).
    fn build_shopping_list(days: &[DayPlan]) -> (r: Vec<ShoppingItem>)
        ensures
            r@.map_values(|s: ShoppingItem| s@) == shopping_list_view(
                days@.map_values(|d: DayPlan| d@),
            ),
    {
        let rows = tally_days(days);
        let sorted = sort_rows(rows);
        let mut items: Vec<ShoppingItem> = Vec::new();
        let mut i: usize = 0;
        while i < sorted.len()
            invariant
                i <= sorted@.len(),
                items@.map_values(|s: ShoppingItem| s@) == rows_view(sorted@).take(
                    i as int,
                ).map_values(|t: Tally| shopping_item_view(t)),
            decreases sorted.len() - i,
        {
            let row = &sorted[i];
            let item = ShoppingItem {
                ingredient: row.name.clone(),
                total_quantity: row.total.to_text(),
                unit: row.unit.clone(),
                category: row.category,
            };
            assert(rows_view(sorted@)[i as int] == sorted@[i as int]@);
            assert(item@ == shopping_item_view(rows_view(sorted@)[i as int]));
            let ghost old_items = items@;
            items.push(item);
            assert(items@.map_values(|s: ShoppingItem| s@) =~= old_items.map_values(
                |s: ShoppingItem| s@,
            ).push(item@));
            assert(rows_view(sorted@).take(i + 1) =~= rows_view(sorted@).take(i as int).push(
                rows_view(sorted@)[i as int],
            ));
            assert(rows_view(sorted@).take(i + 1).map_values(|t: Tally| shopping_item_view(t))
                =~= rows_view(sorted@).take(i as int).map_values(
                |t: Tally| shopping_item_view(t),
            ).push(shopping_item_view(rows_view(sorted@)[i as int])));
            assert(items@.map_values(|s: ShoppingItem| s@) =~= rows_view(sorted@).take(
                i + 1,
            ).map_values(|t: Tally| shopping_item_view(t)));
            i = i + 1;
        }
        assert(rows_view(sorted@).take(sorted@.len() as int) =~= rows_view(sorted@));
        items
    }
}

/// A running total while the shopping list is built.
struct TallyRow {
    name: String,
    total: Decimal,
    unit: String,
    category: IngredientCategory,
}

impl View for TallyRow {
    type V = Tally;

    closed spec fn view(&self) -> Tally {
        Tally {
            name: self.name@,
            amount: self.total@,
            unit: self.unit@,
            category: self.category,
        }
    }
}

spec fn rows_view(rows: Seq<TallyRow>) -> Seq<Tally> {
    rows.map_values(|r: TallyRow| r@)
}

proof fn lemma_find_tally(t: Seq<Tally>, name: Seq<char>, j: int)
    requires
        0 <= j <= t.len(),
        forall|k: int| 0 <= k < j ==> (#[trigger] t[k]).name != name,
        j < t.len() ==> t[j].name == name,
    ensures
        find_tally(t, name) == if j < t.len() {
            j
        } else {
            -1
        },
    decreases j,
{
    if j > 0 {
        assert(t[0].name != name);
        assert forall|k: int| 0 <= k < j - 1 implies (#[trigger] t.drop_first()[k]).name != name by {
            assert(t.drop_first()[k] == t[k + 1]);
        }
        lemma_find_tally(t.drop_first(), name, j - 1);
    }
}

/// Adds one ingredient to the running totals.
fn add_to_rows(rows: &mut Vec<TallyRow>, ing: &Ingredient)
    ensures
        rows_view(final(rows)@) == add_ingredient(rows_view(old(rows)@), ing@),
{
    let q = quantity_amount(ing.quantity.as_str());
    let mut j: usize = 0;
    while j < rows.len() && !(rows[j].name == ing.name)
        invariant
            j <= rows@.len(),
            forall|k: int| 0 <= k < j ==> (#[trigger] rows@[k]).name@ != ing.name@,
        decreases rows.len() - j,
    {
        j = j + 1;
    }
    proof {
        assert forall|k: int| 0 <= k < j implies (#[trigger] rows_view(rows@)[k]).name
            != ing.name@ by {
            assert(rows_view(rows@)[k] == rows@[k]@);
        }
        lemma_find_tally(rows_view(rows@), ing.name@, j as int);
    }
    if j < rows.len() {
        let row = TallyRow {
            name: rows[j].name.clone(),
            total: rows[j].total.add(&q),
            unit: rows[j].unit.clone(),
            category: rows[j].category,
        };
        rows.set(j, row);
        assert(rows_view(rows@) =~= add_ingredient(rows_view(old(rows)@), ing@));
    } else {
        let row = TallyRow {
            name: ing.name.clone(),
            total: q,
            unit: ing.unit.clone(),
            category: ing.category,
        };
        rows.push(row);
        assert(rows_view(rows@) =~= add_ingredient(rows_view(old(rows)@), ing@));
    }
}

proof fn lemma_tally_push(a: Seq<IngredientView>, x: IngredientView)
    ensures
        tally(a.push(x)) == add_ingredient(tally(a), x),
{
    assert(a.push(x).drop_last() =~= a);
}

/// The running totals of the ingredients of some days.
fn tally_days(days: &[DayPlan]) -> (r: Vec<TallyRow>)
    ensures
        rows_view(r@) == tally(plan_ingredients(days@.map_values(|d: DayPlan| d@))),
{
    let ghost dv = days@.map_values(|d: DayPlan| d@);
    let mut rows: Vec<TallyRow> = Vec::new();
    let mut d: usize = 0;
    assert(rows_view(rows@) =~= tally(plan_ingredients(dv.take(0))));
    while d < days.len()
        invariant
            d <= days@.len(),
            dv == days@.map_values(|d: DayPlan| d@),
            rows_view(rows@) == tally(plan_ingredients(dv.take(d as int))),
        decreases days.len() - d,
    {
        let meals = &days[d].meals;
        let ghost before = plan_ingredients(dv.take(d as int));
        let ghost mv = meals@.map_values(|m: Meal| m@);
        let mut m: usize = 0;
        assert(before + meal_ingredients(mv.take(0)) =~= before);
        while m < meals.len()
            invariant
                m <= meals@.len(),
                mv == meals@.map_values(|m: Meal| m@),
                rows_view(rows@) == tally(before + meal_ingredients(mv.take(m as int))),
            decreases meals.len() - m,
        {
            let ings = &meals[m].ingredients;
            let ghost before_meal = before + meal_ingredients(mv.take(m as int));
            let ghost iv = ings@.map_values(|i: Ingredient| i@);
            let mut k: usize = 0;
            assert(before_meal + iv.take(0) =~= before_meal);
            while k < ings.len()
                invariant
                    k <= ings@.len(),
                    iv == ings@.map_values(|i: Ingredient| i@),
                    rows_view(rows@) == tally(before_meal + iv.take(k as int)),
                decreases ings.len() - k,
            {
                add_to_rows(&mut rows, &ings[k]);
                proof {
                    lemma_tally_push(before_meal + iv.take(k as int), iv[k as int]);
                    assert((before_meal + iv.take(k as int)).push(iv[k as int]) =~= before_meal
                        + iv.take(k + 1));
                }
                k = k + 1;
            }
            proof {
                assert(mv.take(m + 1).drop_last() =~= mv.take(m as int));
                assert(mv.take(m + 1).last() == mv[m as int]);
                assert(iv.take(k as int) =~= mv[m as int].ingredients);
                assert(before_meal + iv.take(k as int) =~= before + meal_ingredients(
                    mv.take(m + 1),
                ));
            }
            m = m + 1;
        }
        proof {
            assert(dv.take(d + 1).drop_last() =~= dv.take(d as int));
            assert(dv.take(d + 1).last() == dv[d as int]);
            assert(mv.take(m as int) =~= dv[d as int].meals);
        }
        d = d + 1;
    }
    assert(dv.take(d as int) =~= dv);
    rows
}

/// The sort key of a running total: category heading then name, as characters.
fn row_key(row: &TallyRow) -> (r: Vec<char>)
    ensures
        r@ == tally_key(row@),
{
    let label = row.category.label();
    let key = label.concat(row.name.as_str());
    chars_of(key.as_str())
}

proof fn lemma_insert_by_key(s: Seq<Tally>, x: Tally, p: int)
    requires
        0 <= p <= s.len(),
        forall|k: int| 0 <= k < p ==> !seq_less(tally_key(x), tally_key(#[trigger] s[k])),
        p < s.len() ==> seq_less(tally_key(x), tally_key(s[p])),
    ensures
        insert_by_key(s, x) == s.insert(p, x),
    decreases p,
{
    if p == 0 {
        if s.len() == 0 {
            assert(s.insert(0, x) =~= seq![x]);
        } else {
            assert(s.insert(0, x) =~= seq![x] + s);
        }
    } else {
        assert(!seq_less(tally_key(x), tally_key(s[0])));
        assert forall|k: int| 0 <= k < p - 1 implies !seq_less(
            tally_key(x),
            tally_key(#[trigger] s.drop_first()[k]),
        ) by {
            assert(s.drop_first()[k] == s[k + 1]);
        }
        lemma_insert_by_key(s.drop_first(), x, p - 1);
        assert(seq![s[0]] + s.drop_first().insert(p - 1, x) =~= s.insert(p, x));
    }
}

/// The running totals in order of their keys.
fn sort_rows(rows: Vec<TallyRow>) -> (r: Vec<TallyRow>)
    ensures
        rows_view(r@) == sort_by_key(rows_view(rows@)),
{
    let ghost all = rows_view(rows@);
    let total = rows.len();
    let mut rest = rows;
    let mut sorted: Vec<TallyRow> = Vec::new();
    let mut i: usize = 0;
    assert(rows_view(sorted@) =~= sort_by_key(all.take(0)));
    while rest.len() > 0
        invariant
            i + rest@.len() == all.len() == total,
            rows_view(rest@) == all.skip(i as int),
            rows_view(sorted@) == sort_by_key(all.take(i as int)),
        decreases rest.len(),
    {
        let ghost old_rest = rest@;
        let x = rest.remove(0);
        assert(rows_view(rest@) =~= rows_view(old_rest).drop_first());
        assert(all.skip(i as int).drop_first() =~= all.skip(i + 1));
        let kx = row_key(&x);
        let mut p: usize = 0;
        while p < sorted.len() && !chars_less(&kx, &row_key(&sorted[p]))
            invariant
                p <= sorted@.len(),
                kx@ == tally_key(x@),
                forall|k: int|
                    0 <= k < p ==> !seq_less(tally_key(x@), tally_key(#[trigger] rows_view(sorted@)[k])),
            decreases sorted.len() - p,
        {
            p = p + 1;
        }
        proof {
            assert(all.skip(i as int)[0] == x@);
            assert(all.take(i + 1).drop_last() =~= all.take(i as int));
            assert(all.take(i + 1).last() == x@);
            lemma_insert_by_key(rows_view(sorted@), x@, p as int);
        }
        let ghost prev = sorted@;
        let ghost xv = x@;
        sorted.insert(p, x);
        assert(rows_view(sorted@) =~= rows_view(prev).insert(p as int, xv));
        i = i + 1;
    }
    assert(all.take(i as int) =~= all);
    sorted
}

} // verus!
