//! What holds of every plan and every shopping list: the library's laws,
//! stated over the spec functions that the planner's contract uses.
use vstd::prelude::*;
use crate::models::{DayPlanView, IngredientView, MealView, ShoppingItemView};
use crate::planner::{
    add_ingredient, find_tally, insert_by_key, meal_ingredients, plan_ingredients,
    shopping_item_view, shopping_list_view, sort_by_key, tally, tally_key, Tally,
};
use crate::text::{lemma_seq_less_total, lemma_seq_less_transitive, seq_less};
use crate::quantity::{add_amounts, amount_zero, format_amount, lemma_add_zero, quantity_or_one, Amount};

verus! {

/// The exact total of the quantities of the ingredients named `n`.
pub open spec fn name_total(ings: Seq<IngredientView>, n: Seq<char>) -> Amount
    decreases ings.len(),
{
    if ings.len() == 0 {
        amount_zero()
    } else {
        let r = name_total(ings.drop_last(), n);
        if ings.last().name == n {
            add_amounts(r, quantity_or_one(ings.last().quantity))
        } else {
            r
        }
    }
}

/// The index of the first ingredient named `n`, or -1.
pub open spec fn first_occurrence(ings: Seq<IngredientView>, n: Seq<char>) -> int
    decreases ings.len(),
{
    if ings.len() == 0 {
        -1
    } else {
        let r = first_occurrence(ings.drop_last(), n);
        if r >= 0 {
            r
        } else if ings.last().name == n {
            ings.len() - 1
        } else {
            -1
        }
    }
}

proof fn lemma_find_tally_facts(t: Seq<Tally>, n: Seq<char>)
    ensures
        -1 <= find_tally(t, n) < t.len(),
        find_tally(t, n) >= 0 ==> t[find_tally(t, n)].name == n,
        find_tally(t, n) == -1 ==> forall|k: int| 0 <= k < t.len() ==> (#[trigger] t[k]).name != n,
    decreases t.len(),
{
    if t.len() > 0 {
        lemma_find_tally_facts(t.drop_first(), n);
        if find_tally(t, n) == -1 {
            assert forall|k: int| 0 <= k < t.len() implies (#[trigger] t[k]).name != n by {
                if k > 0 {
                    assert(t[k] == t.drop_first()[k - 1]);
                }
            }
        }
    }
}

proof fn lemma_first_occurrence_facts(ings: Seq<IngredientView>, n: Seq<char>)
    ensures
        -1 <= first_occurrence(ings, n) < ings.len(),
        first_occurrence(ings, n) >= 0 ==> ings[first_occurrence(ings, n)].name == n,
        first_occurrence(ings, n) == -1 ==> name_total(ings, n) == amount_zero(),
        first_occurrence(ings, n) == -1 ==> forall|k: int|
            0 <= k < ings.len() ==> (#[trigger] ings[k]).name != n,
    decreases ings.len(),
{
    if ings.len() > 0 {
        lemma_first_occurrence_facts(ings.drop_last(), n);
        if first_occurrence(ings, n) == -1 {
            assert forall|k: int| 0 <= k < ings.len() implies (#[trigger] ings[k]).name != n by {
                if k < ings.len() - 1 {
                    assert(ings[k] == ings.drop_last()[k]);
                }
            }
        }
    }
}

/// What the tallies of a list of ingredients hold.
spec fn tally_matches(t: Seq<Tally>, ings: Seq<IngredientView>) -> bool {
    &&& forall|i: int, j: int| 0 <= i < j < t.len() ==> (#[trigger] t[i]).name != (#[trigger] t[j]).name
    &&& forall|i: int|
        0 <= i < t.len() ==> {
            let f = first_occurrence(ings, (#[trigger] t[i]).name);
            &&& 0 <= f < ings.len()
            &&& t[i].unit == ings[f].unit
            &&& t[i].category == ings[f].category
            &&& t[i].amount == name_total(ings, t[i].name)
        }
    &&& forall|k: int| 0 <= k < ings.len() ==> find_tally(t, (#[trigger] ings[k]).name) >= 0
}

proof fn lemma_tally(ings: Seq<IngredientView>)
    ensures
        tally_matches(tally(ings), ings),
    decreases ings.len(),
{
    if ings.len() > 0 {
        let prev = ings.drop_last();
        let x = ings.last();
        lemma_tally(prev);
        let t = tally(prev);
        let t2 = tally(ings);
        assert(t2 == add_ingredient(t, x));
        lemma_find_tally_facts(t, x.name);
        lemma_first_occurrence_facts(prev, x.name);
        lemma_add_zero(quantity_or_one(x.quantity));
        let j = find_tally(t, x.name);
        assert forall|i: int| 0 <= i < t.len() implies first_occurrence(
            prev,
            (#[trigger] t[i]).name,
        ) >= 0 by {}
        if j >= 0 {
            assert forall|i: int| 0 <= i < t2.len() implies {
                let f = first_occurrence(ings, (#[trigger] t2[i]).name);
                &&& 0 <= f < ings.len()
                &&& t2[i].unit == ings[f].unit
                &&& t2[i].category == ings[f].category
                &&& t2[i].amount == name_total(ings, t2[i].name)
            } by {
                let f = first_occurrence(prev, t[i].name);
                assert(t2[i].name == t[i].name);
                assert(ings[f] == prev[f]);
            }
        } else {
            assert(first_occurrence(prev, x.name) == -1) by {
                if first_occurrence(prev, x.name) >= 0 {
                    let k = first_occurrence(prev, x.name);
                    assert(prev[k].name == x.name);
                    assert(find_tally(t, prev[k].name) >= 0);
                }
            }
            assert forall|i: int| 0 <= i < t2.len() implies {
                let f = first_occurrence(ings, (#[trigger] t2[i]).name);
                &&& 0 <= f < ings.len()
                &&& t2[i].unit == ings[f].unit
                &&& t2[i].category == ings[f].category
                &&& t2[i].amount == name_total(ings, t2[i].name)
            } by {
                if i < t.len() {
                    let f = first_occurrence(prev, t[i].name);
                    assert(t2[i] == t[i]);
                    assert(ings[f] == prev[f]);
                }
            }
        }
        assert forall|k: int| 0 <= k < ings.len() implies find_tally(
            t2,
            (#[trigger] ings[k]).name,
        ) >= 0 by {
            lemma_find_tally_facts(t2, ings[k].name);
            if k < prev.len() {
                assert(ings[k] == prev[k]);
                let m = find_tally(t, prev[k].name);
                lemma_find_tally_facts(t, prev[k].name);
                assert(t2[m].name == prev[k].name);
            } else {
                if j >= 0 {
                    assert(t2[j].name == x.name);
                } else {
                    assert(t2[t.len() as int].name == x.name);
                }
            }
        }
    }
}

/// Where `insert_by_key` puts `x`: before the first tally with a greater key.
spec fn insert_index(s: Seq<Tally>, x: Tally) -> int
    decreases s.len(),
{
    if s.len() == 0 {
        0
    } else if seq_less(tally_key(x), tally_key(s[0])) {
        0
    } else {
        1 + insert_index(s.drop_first(), x)
    }
}

proof fn lemma_insert_index(s: Seq<Tally>, x: Tally)
    ensures
        0 <= insert_index(s, x) <= s.len(),
        insert_by_key(s, x) == s.insert(insert_index(s, x), x),
        forall|k: int|
            0 <= k < insert_index(s, x) ==> !seq_less(tally_key(x), tally_key(#[trigger] s[k])),
        insert_index(s, x) < s.len() ==> seq_less(tally_key(x), tally_key(s[insert_index(s, x)])),
    decreases s.len(),
{
    if s.len() == 0 {
        assert(s.insert(0, x) =~= seq![x]);
    } else if seq_less(tally_key(x), tally_key(s[0])) {
        assert(s.insert(0, x) =~= seq![x] + s);
    } else {
        let r = s.drop_first();
        lemma_insert_index(r, x);
        let p = insert_index(r, x);
        assert(seq![s[0]] + r.insert(p, x) =~= s.insert(p + 1, x));
        assert forall|k: int|
            0 <= k < insert_index(s, x) implies !seq_less(tally_key(x), tally_key(#[trigger] s[k])) by {
            if k > 0 {
                assert(s[k] == r[k - 1]);
            }
        }
        if p < r.len() {
            assert(s[p + 1] == r[p]);
        }
    }
}

/// The keys of `s` never go down.
pub open spec fn keys_ordered(s: Seq<Tally>) -> bool {
    forall|i: int, j: int|
        0 <= i < j < s.len() ==> !seq_less(tally_key(#[trigger] s[j]), tally_key(#[trigger] s[i]))
}

proof fn lemma_sort_by_key(s: Seq<Tally>)
    ensures
        sort_by_key(s).to_multiset() == s.to_multiset(),
        sort_by_key(s).len() == s.len(),
        keys_ordered(sort_by_key(s)),
    decreases s.len(),
{
    broadcast use vstd::seq_lib::group_to_multiset_ensures;

    if s.len() > 0 {
        let prev = s.drop_last();
        let x = s.last();
        lemma_sort_by_key(prev);
        let t = sort_by_key(prev);
        lemma_insert_index(t, x);
        let p = insert_index(t, x);
        let u = t.insert(p, x);
        assert(s =~= prev.push(x));
        assert forall|i: int, j: int| 0 <= i < j < u.len() implies !seq_less(
            tally_key(#[trigger] u[j]),
            tally_key(#[trigger] u[i]),
        ) by {
            let ki = tally_key(u[i]);
            let kj = tally_key(u[j]);
            let kx = tally_key(x);
            lemma_seq_less_total(kx, kj);
            lemma_seq_less_total(kx, ki);
            if i < p && j < p {
                assert(u[i] == t[i] && u[j] == t[j]);
            } else if i < p && j == p {
                assert(u[i] == t[i]);
                assert(!seq_less(kx, ki));
            } else if i < p && j > p {
                assert(u[i] == t[i] && u[j] == t[j - 1]);
            } else if i == p {
                assert(u[j] == t[j - 1]);
                assert(seq_less(kx, tally_key(t[p])));
                if seq_less(kj, kx) {
                    if j - 1 == p {
                        lemma_seq_less_total(kx, tally_key(t[p]));
                    } else {
                        lemma_seq_less_transitive(kj, kx, tally_key(t[p]));
                        assert(!seq_less(tally_key(t[j - 1]), tally_key(t[p])));
                    }
                }
            } else {
                assert(u[i] == t[i - 1] && u[j] == t[j - 1]);
            }
        }
    }
}

/// Tallies with one key have one category and one name: no category
/// heading is the beginning of another.
pub proof fn lemma_key_injective(a: Tally, b: Tally)
    requires
        tally_key(a) == tally_key(b),
    ensures
        a.category == b.category,
        a.name == b.name,
{
    reveal_strlit("Vegetables");
    reveal_strlit("Fruits");
    reveal_strlit("Grains & Staples");
    reveal_strlit("Proteins (Meat/Eggs/Fish)");
    reveal_strlit("Dairy");
    reveal_strlit("Spices & Condiments");
    reveal_strlit("Oils & Fats");
    reveal_strlit("Other");
    let la = a.category.label_view();
    let lb = b.category.label_view();
    assert(tally_key(a)[0] == la[0]);
    assert(tally_key(b)[0] == lb[0]);
    assert(tally_key(a)[1] == la[1]);
    assert(tally_key(b)[1] == lb[1]);
    assert(a.category == b.category);
    assert(a.name =~= tally_key(a).skip(la.len() as int));
    assert(b.name =~= tally_key(b).skip(lb.len() as int));
}

/// No two lines of the list are for the same ingredient name.
pub open spec fn one_line_per_name(list: Seq<ShoppingItemView>) -> bool {
    forall|i: int, j: int|
        0 <= i < j < list.len() ==> (#[trigger] list[i]).ingredient != (#[trigger] list[j]).ingredient
}

/// Every ingredient has a line with its name.
pub open spec fn every_ingredient_listed(
    list: Seq<ShoppingItemView>,
    ings: Seq<IngredientView>,
) -> bool {
    forall|k: int|
        0 <= k < ings.len() ==> exists|i: int|
            0 <= i < list.len() && (#[trigger] list[i]).ingredient == (#[trigger] ings[k]).name
}

/// A line is for an ingredient that occurs, with the total of all its
/// quantities and the unit and category of its first occurrence.
pub open spec fn line_totals_ingredient(line: ShoppingItemView, ings: Seq<IngredientView>) -> bool {
    let f = first_occurrence(ings, line.ingredient);
    &&& 0 <= f < ings.len()
    &&& line.unit == ings[f].unit
    &&& line.category == ings[f].category
    &&& line.total_quantity == format_amount(name_total(ings, line.ingredient))
}

/// The lines go strictly up by category heading followed by name.
pub open spec fn lines_sorted(list: Seq<ShoppingItemView>) -> bool {
    forall|i: int, j: int|
        0 <= i < j < list.len() ==> seq_less(
            (#[trigger] list[i]).category.label_view() + list[i].ingredient,
            (#[trigger] list[j]).category.label_view() + list[j].ingredient,
        )
}

/// The shopping list of any days has one line per ingredient name, a line
/// for every ingredient of those days, each line holding the total of all
/// quantities of that name with the unit and category of its first use, and
/// the lines in strictly increasing order of category heading and name.
pub proof fn law_shopping_list(days: Seq<DayPlanView>)
    ensures
        one_line_per_name(shopping_list_view(days)),
        every_ingredient_listed(shopping_list_view(days), plan_ingredients(days)),
        forall|i: int|
            0 <= i < shopping_list_view(days).len() ==> line_totals_ingredient(
                #[trigger] shopping_list_view(days)[i],
                plan_ingredients(days),
            ),
        lines_sorted(shopping_list_view(days)),
{
    broadcast use vstd::seq_lib::group_to_multiset_ensures;

    let ings = plan_ingredients(days);
    let t = tally(ings);
    let st = sort_by_key(t);
    let list = shopping_list_view(days);
    lemma_tally(ings);
    lemma_sort_by_key(t);
    assert(list == st.map_values(|x: Tally| shopping_item_view(x)));
    assert(t.no_duplicates()) by {
        assert forall|i: int, j: int| 0 <= i < t.len() && 0 <= j < t.len() && i != j implies t[i]
            != t[j] by {
            if i < j {
                assert(t[i].name != t[j].name);
            } else {
                assert(t[j].name != t[i].name);
            }
        }
    }
    t.lemma_multiset_has_no_duplicates();
    st.lemma_multiset_has_no_duplicates_conv();
    // each sorted tally is one of the tallies
    assert forall|i: int| 0 <= i < st.len() implies exists|k: int|
        0 <= k < t.len() && t[k] == #[trigger] st[i] by {
        assert(st.contains(st[i]));
        assert(t.to_multiset().count(st[i]) > 0);
        assert(t.contains(st[i]));
    }
    assert forall|i: int, j: int| 0 <= i < j < list.len() implies (#[trigger] list[i]).ingredient
        != (#[trigger] list[j]).ingredient by {
        let ki = choose|k: int| 0 <= k < t.len() && t[k] == st[i];
        let kj = choose|k: int| 0 <= k < t.len() && t[k] == st[j];
        assert(st[i] != st[j]);
        assert(ki != kj);
        if ki < kj {
            assert(t[ki].name != t[kj].name);
        } else {
            assert(t[kj].name != t[ki].name);
        }
    }
    assert forall|k: int| 0 <= k < ings.len() implies exists|i: int|
        0 <= i < list.len() && (#[trigger] list[i]).ingredient == (#[trigger] ings[k]).name by {
        lemma_find_tally_facts(t, ings[k].name);
        let m = find_tally(t, ings[k].name);
        assert(t.contains(t[m]));
        assert(st.to_multiset().count(t[m]) > 0);
        assert(st.contains(t[m]));
        let i = choose|i: int| 0 <= i < st.len() && st[i] == t[m];
        assert(list[i].ingredient == ings[k].name);
    }
    assert forall|i: int| 0 <= i < list.len() implies line_totals_ingredient(
        #[trigger] list[i],
        ings,
    ) by {
        let k = choose|k: int| 0 <= k < t.len() && t[k] == st[i];
        assert(list[i] == shopping_item_view(t[k]));
    }
    assert forall|i: int, j: int| 0 <= i < j < list.len() implies seq_less(
        (#[trigger] list[i]).category.label_view() + list[i].ingredient,
        (#[trigger] list[j]).category.label_view() + list[j].ingredient,
    ) by {
        assert(list[i].ingredient != list[j].ingredient);
        assert(tally_key(st[i]) == list[i].category.label_view() + list[i].ingredient);
        assert(tally_key(st[j]) == list[j].category.label_view() + list[j].ingredient);
        if tally_key(st[i]) == tally_key(st[j]) {
            lemma_key_injective(st[i], st[j]);
        }
        lemma_seq_less_total(tally_key(st[i]), tally_key(st[j]));
    }
}

proof fn lemma_meal_ingredients_flatten(meals: Seq<MealView>)
    ensures
        meal_ingredients(meals) == meals.map_values(|m: MealView| m.ingredients).flatten_alt(),
    decreases meals.len(),
{
    let f = |m: MealView| m.ingredients;
    if meals.len() > 0 {
        lemma_meal_ingredients_flatten(meals.drop_last());
        assert(meals.map_values(f).drop_last() =~= meals.drop_last().map_values(f));
        assert(meals.map_values(f).last() == meals.last().ingredients);
    } else {
        assert(meals.map_values(f) =~= Seq::<Seq<IngredientView>>::empty());
    }
}

/// The ingredients of a day's meals, meal after meal.
pub open spec fn day_ingredients(d: DayPlanView) -> Seq<IngredientView> {
    d.meals.map_values(|m: MealView| m.ingredients).flatten()
}

proof fn lemma_plan_ingredients_flatten_alt(days: Seq<DayPlanView>)
    ensures
        plan_ingredients(days) == days.map_values(|d: DayPlanView| day_ingredients(d)).flatten_alt(),
    decreases days.len(),
{
    let g = |d: DayPlanView| day_ingredients(d);
    if days.len() > 0 {
        lemma_plan_ingredients_flatten_alt(days.drop_last());
        assert(days.map_values(g).drop_last() =~= days.drop_last().map_values(g));
        let last = days.last();
        lemma_meal_ingredients_flatten(last.meals);
        last.meals.map_values(|m: MealView| m.ingredients).lemma_flatten_and_flatten_alt_are_equivalent();
        assert(days.map_values(g).last() == day_ingredients(last));
    } else {
        assert(days.map_values(g) =~= Seq::<Seq<IngredientView>>::empty());
    }
}

/// The ingredients that a shopping list counts are those of every meal of
/// every day, day after day and meal after meal, none left out and none
/// added.
pub proof fn law_counted_ingredients_are_all_meals(days: Seq<DayPlanView>)
    ensures
        plan_ingredients(days) == days.map_values(
            |d: DayPlanView| d.meals.map_values(|m: MealView| m.ingredients).flatten(),
        ).flatten(),
{
    lemma_plan_ingredients_flatten_alt(days);
    let g = |d: DayPlanView| day_ingredients(d);
    days.map_values(g).lemma_flatten_and_flatten_alt_are_equivalent();
    assert(days.map_values(g) =~= days.map_values(
        |d: DayPlanView| d.meals.map_values(|m: MealView| m.ingredients).flatten(),
    ));
}

proof fn lemma_meal_ingredient_position(meals: Seq<MealView>, m: int, k: int)
    requires
        0 <= m < meals.len(),
        0 <= k < meals[m].ingredients.len(),
    ensures
        exists|p: int|
            0 <= p < meal_ingredients(meals).len() && meal_ingredients(meals)[p]
                == meals[m].ingredients[k],
    decreases meals.len(),
{
    let rest = meal_ingredients(meals.drop_last());
    let all = meal_ingredients(meals);
    assert(all == rest + meals.last().ingredients);
    if m == meals.len() - 1 {
        assert(all[rest.len() + k] == meals[m].ingredients[k]);
    } else {
        lemma_meal_ingredient_position(meals.drop_last(), m, k);
        let p = choose|p: int|
            0 <= p < rest.len() && rest[p] == meals.drop_last()[m].ingredients[k];
        assert(all[p] == rest[p]);
    }
}

proof fn lemma_plan_ingredient_position(days: Seq<DayPlanView>, d: int, m: int, k: int)
    requires
        0 <= d < days.len(),
        0 <= m < days[d].meals.len(),
        0 <= k < days[d].meals[m].ingredients.len(),
    ensures
        exists|p: int|
            0 <= p < plan_ingredients(days).len() && plan_ingredients(days)[p]
                == days[d].meals[m].ingredients[k],
    decreases days.len(),
{
    let rest = plan_ingredients(days.drop_last());
    let all = plan_ingredients(days);
    assert(all == rest + meal_ingredients(days.last().meals));
    if d == days.len() - 1 {
        lemma_meal_ingredient_position(days[d].meals, m, k);
        let q = choose|q: int|
            0 <= q < meal_ingredients(days[d].meals).len() && meal_ingredients(days[d].meals)[q]
                == days[d].meals[m].ingredients[k];
        assert(all[rest.len() + q] == days[d].meals[m].ingredients[k]);
    } else {
        lemma_plan_ingredient_position(days.drop_last(), d, m, k);
        let p = choose|p: int|
            0 <= p < rest.len() && rest[p] == days.drop_last()[d].meals[m].ingredients[k];
        assert(all[p] == rest[p]);
    }
}

/// Every ingredient of every meal of every day has a line of the shopping
/// list with its name.
pub proof fn law_every_meal_ingredient_listed(days: Seq<DayPlanView>, d: int, m: int, k: int)
    requires
        0 <= d < days.len(),
        0 <= m < days[d].meals.len(),
        0 <= k < days[d].meals[m].ingredients.len(),
    ensures
        exists|i: int|
            0 <= i < shopping_list_view(days).len() && (#[trigger] shopping_list_view(days)[i]).ingredient
                == days[d].meals[m].ingredients[k].name,
{
    lemma_plan_ingredient_position(days, d, m, k);
    law_shopping_list(days);
    let ings = plan_ingredients(days);
    let p = choose|p: int| 0 <= p < ings.len() && ings[p] == days[d].meals[m].ingredients[k];
    assert(ings[p].name == days[d].meals[m].ingredients[k].name);
    let list = shopping_list_view(days);
    assert(exists|i: int| 0 <= i < list.len() && (#[trigger] list[i]).ingredient == (#[trigger] ings[p]).name);
}

} // verus!
