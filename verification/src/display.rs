//! Choices made when a plan is shown.
use vstd::prelude::*;
use crate::models::{IngredientCategory, Meal, MealType, MealView, ShoppingItem, ShoppingItemView};
use crate::text::same_text;

verus! {

/// The emoji shown beside a day: one per weekday name, a calendar otherwise.
pub open spec fn day_emoji_view(day_name: Seq<char>) -> Seq<char> {
    if day_name == "Monday"@ {
        "💻"@
    } else if day_name == "Tuesday"@ {
        "☕"@
    } else if day_name == "Wednesday"@ {
        "🍗"@
    } else if day_name == "Thursday"@ {
        "🌿"@
    } else if day_name == "Friday"@ {
        "🎉"@
    } else if day_name == "Saturday"@ {
        "🍚"@
    } else if day_name == "Sunday"@ {
        "🥩"@
    } else {
        "📅"@
    }
}

/// The emoji shown beside a day (see `day_emoji_view`).
pub fn day_emoji(day_name: &str) -> (r: &'static str)
    ensures
        r@ == day_emoji_view(day_name@),
{
    if same_text(day_name, "Monday") {
        "💻"
    } else if same_text(day_name, "Tuesday") {
        "☕"
    } else if same_text(day_name, "Wednesday") {
        "🍗"
    } else if same_text(day_name, "Thursday") {
        "🌿"
    } else if same_text(day_name, "Friday") {
        "🎉"
    } else if same_text(day_name, "Saturday") {
        "🍚"
    } else if same_text(day_name, "Sunday") {
        "🥩"
    } else {
        "📅"
    }
}

/// The emoji shown beside a meal: one per kind of meal, with the chicken
/// dinner marked by a drumstick in place of the moon of other dinners.
pub open spec fn meal_emoji_view(meal: MealView) -> Seq<char> {
    match meal.meal_type {
        MealType::Breakfast => "🌅"@,
        MealType::KidsSnack => "🍎"@,
        MealType::KidsLunch => "🎒"@,
        MealType::Lunch => "🍽️"@,
        MealType::Dinner => if meal.name == "Chicken Chettinad Curry with Rice & Rasam"@ {
            "🍗"@
        } else {
            "🌙"@
        },
    }
}

/// The emoji shown beside a meal (see `meal_emoji_view`).
pub fn meal_emoji(meal: &Meal) -> (r: &'static str)
    ensures
        r@ == meal_emoji_view(meal@),
{
    match meal.meal_type {
        MealType::Breakfast => "🌅",
        MealType::KidsSnack => "🍎",
        MealType::KidsLunch => "🎒",
        MealType::Lunch => "🍽️",
        MealType::Dinner => {
            if same_text(meal.name.as_str(), "Chicken Chettinad Curry with Rice & Rasam") {
                "🍗"
            } else {
                "🌙"
            }
        },
    }
}

/// What follows a meal's name on its line: a mushroom after the week's
/// mushroom dish, nothing after any other.
pub open spec fn meal_suffix_view(meal: MealView) -> Seq<char> {
    if meal.name == "Mushroom Masala with Chapathi & Rice"@ {
        "   🍄"@
    } else {
        ""@
    }
}

/// What follows a meal's name on its line (see `meal_suffix_view`).
pub fn meal_suffix(meal: &Meal) -> (r: &'static str)
    ensures
        r@ == meal_suffix_view(meal@),
{
    if same_text(meal.name.as_str(), "Mushroom Masala with Chapathi & Rice") {
        "   🍄"
    } else {
        ""
    }
}

/// The order in which the shopping list's categories are shown.
pub open spec fn category_order() -> Seq<IngredientCategory> {
    seq![
        IngredientCategory::Grains,
        IngredientCategory::Proteins,
        IngredientCategory::Vegetables,
        IngredientCategory::Fruits,
        IngredientCategory::Dairy,
        IngredientCategory::Spices,
        IngredientCategory::Oils,
        IngredientCategory::Other,
    ]
}

/// The lines of a category, in list order.
pub open spec fn lines_of_category(
    list: Seq<ShoppingItemView>,
    c: IngredientCategory,
) -> Seq<ShoppingItemView>
    decreases list.len(),
{
    if list.len() == 0 {
        Seq::empty()
    } else if list.last().category == c {
        lines_of_category(list.drop_last(), c).push(list.last())
    } else {
        lines_of_category(list.drop_last(), c)
    }
}

/// A heading of the shopping list with its lines.
pub struct ShoppingSection {
    pub heading: String,
    pub items: Vec<ShoppingItem>,
}

/// A section as text: its heading and its lines.
pub struct ShoppingSectionView {
    pub heading: Seq<char>,
    pub items: Seq<ShoppingItemView>,
}

impl View for ShoppingSection {
    type V = ShoppingSectionView;

    open spec fn view(&self) -> ShoppingSectionView {
        ShoppingSectionView {
            heading: self.heading@,
            items: self.items@.map_values(|i: ShoppingItem| i@),
        }
    }
}

/// The sections for the categories `cats`, in that order, leaving out the
/// categories without lines.
pub open spec fn sections_view(
    list: Seq<ShoppingItemView>,
    cats: Seq<IngredientCategory>,
) -> Seq<ShoppingSectionView>
    decreases cats.len(),
{
    if cats.len() == 0 {
        Seq::empty()
    } else {
        let rest = sections_view(list, cats.drop_last());
        let lines = lines_of_category(list, cats.last());
        if lines.len() > 0 {
            rest.push(ShoppingSectionView { heading: cats.last().label_view(), items: lines })
        } else {
            rest
        }
    }
}

fn category_at(i: usize) -> (c: IngredientCategory)
    requires
        i < 8,
    ensures
        c == category_order()[i as int],
{
    if i == 0 {
        IngredientCategory::Grains
    } else if i == 1 {
        IngredientCategory::Proteins
    } else if i == 2 {
        IngredientCategory::Vegetables
    } else if i == 3 {
        IngredientCategory::Fruits
    } else if i == 4 {
        IngredientCategory::Dairy
    } else if i == 5 {
        IngredientCategory::Spices
    } else if i == 6 {
        IngredientCategory::Oils
    } else {
        IngredientCategory::Other
    }
}

fn clone_item(item: &ShoppingItem) -> (r: ShoppingItem)
    ensures
        r@ == item@,
{
    ShoppingItem {
        ingredient: item.ingredient.clone(),
        total_quantity: item.total_quantity.clone(),
        unit: item.unit.clone(),
        category: item.category,
    }
}

/// The lines of `list` in category `c`, in list order.
fn lines_in(list: &Vec<ShoppingItem>, c: IngredientCategory) -> (r: Vec<ShoppingItem>)
    ensures
        r@.map_values(|i: ShoppingItem| i@) == lines_of_category(
            list@.map_values(|i: ShoppingItem| i@),
            c,
        ),
{
    let ghost lv = list@.map_values(|i: ShoppingItem| i@);
    let mut r: Vec<ShoppingItem> = Vec::new();
    let mut k: usize = 0;
    while k < list.len()
        invariant
            k <= list@.len(),
            lv == list@.map_values(|i: ShoppingItem| i@),
            r@.map_values(|i: ShoppingItem| i@) == lines_of_category(lv.take(k as int), c),
        decreases list.len() - k,
    {
        assert(lv.take(k + 1).drop_last() =~= lv.take(k as int));
        assert(lv.take(k + 1).last() == list@[k as int]@);
        if list[k].category == c {
            let ghost before = r@;
            r.push(clone_item(&list[k]));
            assert(r@.map_values(|i: ShoppingItem| i@) =~= before.map_values(
                |i: ShoppingItem| i@,
            ).push(list@[k as int]@));
        }
        k = k + 1;
    }
    assert(lv.take(list@.len() as int) =~= lv);
    r
}

/// The shopping list by category heading, in the shown order of categories,
/// each with its lines in list order; categories without lines are left out.
pub fn shopping_sections(list: &Vec<ShoppingItem>) -> (r: Vec<ShoppingSection>)
    ensures
        r@.map_values(|s: ShoppingSection| s@) == sections_view(
            list@.map_values(|i: ShoppingItem| i@),
            category_order(),
        ),
{
    let ghost lv = list@.map_values(|i: ShoppingItem| i@);
    let mut r: Vec<ShoppingSection> = Vec::new();
    let mut i: usize = 0;
    while i < 8
        invariant
            i <= 8,
            lv == list@.map_values(|i: ShoppingItem| i@),
            r@.map_values(|s: ShoppingSection| s@) == sections_view(
                lv,
                category_order().take(i as int),
            ),
        decreases 8 - i,
    {
        let c = category_at(i);
        assert(category_order().take(i + 1).drop_last() =~= category_order().take(i as int));
        assert(category_order().take(i + 1).last() == c);
        let items = lines_in(list, c);
        if items.len() > 0 {
            let ghost before = r@;
            let section = ShoppingSection { heading: c.label(), items };
            let ghost sv = section@;
            r.push(section);
            assert(r@.map_values(|s: ShoppingSection| s@) =~= before.map_values(
                |s: ShoppingSection| s@,
            ).push(sv));
        }
        i = i + 1;
    }
    assert(category_order().take(8) =~= category_order());
    r
}

proof fn lemma_lines_of_category(list: Seq<ShoppingItemView>, c: IngredientCategory)
    ensures
        forall|k: int|
            0 <= k < list.len() && list[k].category == c ==> lines_of_category(list, c).contains(
                #[trigger] list[k],
            ),
        forall|m: int|
            0 <= m < lines_of_category(list, c).len() ==> (#[trigger] lines_of_category(
                list,
                c,
            )[m]).category == c,
    decreases list.len(),
{
    if list.len() > 0 {
        let prev = list.drop_last();
        lemma_lines_of_category(prev, c);
        let lp = lines_of_category(prev, c);
        let l = lines_of_category(list, c);
        assert forall|k: int| 0 <= k < list.len() && list[k].category == c implies l.contains(
            #[trigger] list[k],
        ) by {
            if k < list.len() - 1 {
                assert(list[k] == prev[k]);
                let m = choose|m: int| 0 <= m < lp.len() && lp[m] == prev[k];
                assert(l[m] == lp[m]);
            } else {
                assert(l[l.len() - 1] == list[k]);
            }
        }
        assert forall|m: int| 0 <= m < l.len() implies (#[trigger] l[m]).category == c by {
            if m < lp.len() {
                assert(l[m] == lp[m]);
            }
        }
    }
}

proof fn lemma_sections(list: Seq<ShoppingItemView>, cats: Seq<IngredientCategory>)
    ensures
        forall|c: IngredientCategory|
            cats.contains(c) && lines_of_category(list, c).len() > 0 ==> exists|s: int|
                0 <= s < sections_view(list, cats).len() && (#[trigger] sections_view(
                    list,
                    cats,
                )[s]).heading == c.label_view() && sections_view(list, cats)[s].items
                    == lines_of_category(list, c),
        forall|s: int|
            0 <= s < sections_view(list, cats).len() ==> exists|c: IngredientCategory|
                cats.contains(c) && (#[trigger] sections_view(list, cats)[s]).heading
                    == c.label_view() && sections_view(list, cats)[s].items == lines_of_category(
                    list,
                    c,
                ),
    decreases cats.len(),
{
    if cats.len() > 0 {
        let prev = cats.drop_last();
        lemma_sections(list, prev);
        let sp = sections_view(list, prev);
        let sv = sections_view(list, cats);
        assert forall|c: IngredientCategory|
            cats.contains(c) && lines_of_category(list, c).len() > 0 implies exists|s: int|
                0 <= s < sv.len() && (#[trigger] sv[s]).heading == c.label_view() && sv[s].items
                    == lines_of_category(list, c) by {
            if prev.contains(c) {
                let s = choose|s: int|
                    0 <= s < sp.len() && (#[trigger] sp[s]).heading == c.label_view()
                        && sp[s].items == lines_of_category(list, c);
                assert(sv[s] == sp[s]);
            } else {
                let k = choose|k: int| 0 <= k < cats.len() && cats[k] == c;
                if k < prev.len() {
                    assert(prev[k] == c);
                }
                assert(c == cats.last());
                assert(sv[sv.len() - 1].heading == c.label_view());
            }
        }
        assert forall|s: int| 0 <= s < sv.len() implies exists|c: IngredientCategory|
            cats.contains(c) && (#[trigger] sv[s]).heading == c.label_view() && sv[s].items
                == lines_of_category(list, c) by {
            if s < sp.len() {
                let c = choose|c: IngredientCategory|
                    prev.contains(c) && (#[trigger] sp[s]).heading == c.label_view()
                        && sp[s].items == lines_of_category(list, c);
                assert(sv[s] == sp[s]);
                let k = choose|k: int| 0 <= k < prev.len() && prev[k] == c;
                assert(cats[k] == c);
            } else {
                assert(cats[cats.len() - 1] == cats.last());
            }
        }
    }
}

/// Every line of a shopping list is shown in the section under its
/// category's heading, and each section holds only lines of the category
/// whose heading it bears.
pub proof fn law_every_line_under_its_heading(list: Seq<ShoppingItemView>)
    ensures
        forall|k: int|
            0 <= k < list.len() ==> exists|s: int|
                0 <= s < sections_view(list, category_order()).len() && (#[trigger] sections_view(
                    list,
                    category_order(),
                )[s]).heading == (#[trigger] list[k]).category.label_view() && sections_view(
                    list,
                    category_order(),
                )[s].items.contains(list[k]),
        forall|s: int, m: int|
            0 <= s < sections_view(list, category_order()).len() && 0 <= m < sections_view(
                list,
                category_order(),
            )[s].items.len() ==> (#[trigger] sections_view(list, category_order())[s].items[m]).category.label_view()
                == sections_view(list, category_order())[s].heading,
{
    let cats = category_order();
    let sv = sections_view(list, cats);
    lemma_sections(list, cats);
    assert forall|k: int| 0 <= k < list.len() implies exists|s: int|
        0 <= s < sv.len() && (#[trigger] sv[s]).heading == (#[trigger] list[k]).category.label_view()
            && sv[s].items.contains(list[k]) by {
        let c = list[k].category;
        lemma_lines_of_category(list, c);
        assert(lines_of_category(list, c).contains(list[k]));
        assert(cats.contains(c)) by {
            match c {
                IngredientCategory::Grains => assert(cats[0] == c),
                IngredientCategory::Proteins => assert(cats[1] == c),
                IngredientCategory::Vegetables => assert(cats[2] == c),
                IngredientCategory::Fruits => assert(cats[3] == c),
                IngredientCategory::Dairy => assert(cats[4] == c),
                IngredientCategory::Spices => assert(cats[5] == c),
                IngredientCategory::Oils => assert(cats[6] == c),
                IngredientCategory::Other => assert(cats[7] == c),
            }
        }
    }
    assert forall|s: int, m: int|
        0 <= s < sv.len() && 0 <= m < sv[s].items.len() implies (#[trigger] sv[s].items[m]).category.label_view()
        == sv[s].heading by {
        let c = choose|c: IngredientCategory|
            cats.contains(c) && (#[trigger] sv[s]).heading == c.label_view() && sv[s].items
                == lines_of_category(list, c);
        lemma_lines_of_category(list, c);
    }
}

} // verus!
