//! The library's own behaviour on concrete values: calendar, quantities,
//! shopping list totals, weekly rules, the Copilot text and the settings.
use food_planner::ai::{
    build_system_prompt, check_reply_status, choose_plan_source, extract_json, first_choice_content, join_strings, prepare_chat_request,
    AiError, ChatMessage, PlanSource,
};
use food_planner::calendar::{
    next_monday, parse_week_start, week_start_from, PlanDate, WeekStartError, Weekday,
};
use food_planner::config::{AiConfig, Config, FamilyConfig, TokenSource};
use food_planner::display::{day_emoji, meal_emoji, meal_suffix, shopping_sections};
use food_planner::models::{FamilyProfile, IngredientCategory, MealType};
use food_planner::planner::{weekday_name, MealPlanner};
use food_planner::quantity::{parse_quantity, quantity_amount};
use food_planner::templates::{
    chicken_dinner, ing, kids_fruit_snack, kids_lunch, mushroom_dinner, regular_dinner,
    saturday_breakfast, sunday_breakfast, sunday_nonveg_dinner, weekday_breakfast,
};

fn date(y: i32, m: u32, d: u32) -> PlanDate {
    PlanDate::from_ymd(y, m, d).unwrap()
}

#[test]
fn day_numbers_follow_chrono() {
    assert_eq!(date(1, 1, 1).num_days_from_ce(), 1);
    assert_eq!(date(1970, 1, 1).num_days_from_ce(), 719_163);
    assert_eq!(date(0, 1, 1).num_days_from_ce(), -365);
    assert_eq!(date(2024, 3, 25).num_days_from_ce(), 738_970);
}

#[test]
fn invalid_calendar_dates_are_refused() {
    assert!(PlanDate::from_ymd(2015, 2, 29).is_none());
    assert!(PlanDate::from_ymd(2015, 0, 14).is_none());
    assert!(PlanDate::from_ymd(2015, 4, 31).is_none());
    assert!(PlanDate::from_ymd(400000, 1, 1).is_none());
    assert!(PlanDate::from_ymd(2024, 2, 29).is_some());
}

#[test]
fn weekdays_follow_the_day_number() {
    assert_eq!(date(2024, 3, 25).weekday(), Weekday::Mon);
    assert_eq!(date(2024, 3, 30).weekday(), Weekday::Sat);
    assert_eq!(date(1, 1, 1).weekday(), Weekday::Mon);
    assert_eq!(date(1970, 1, 1).weekday(), Weekday::Thu);
    assert_eq!(date(0, 12, 31).weekday(), Weekday::Sun);
    let d = date(-100, 7, 4);
    assert_eq!(d.weekday().num_days_from_monday() as i64, (d.num_days_from_ce() as i64 - 1).rem_euclid(7));
}

#[test]
fn day_number_range_is_chronos() {
    assert!(PlanDate::from_num_days_from_ce(95_745_399).is_some());
    assert!(PlanDate::from_num_days_from_ce(95_745_400).is_none());
    assert!(PlanDate::from_num_days_from_ce(-95_746_129).is_some());
    assert!(PlanDate::from_num_days_from_ce(-95_746_130).is_none());
    let last = PlanDate::from_num_days_from_ce(95_745_399).unwrap();
    assert!(last.checked_add_days(1).is_none());
    assert_eq!(last.checked_add_days(-1).unwrap().num_days_from_ce(), 95_745_398);
}

#[test]
fn adding_days_moves_the_date() {
    assert_eq!(date(2024, 2, 28).checked_add_days(1).unwrap(), date(2024, 2, 29));
    assert_eq!(date(2024, 12, 31).checked_add_days(1).unwrap(), date(2025, 1, 1));
    assert_eq!(date(2024, 3, 25).checked_add_days(-25).unwrap(), date(2024, 2, 29));
}

#[test]
fn next_monday_is_the_first_monday_on_or_after() {
    assert_eq!(next_monday(date(2024, 3, 25)), date(2024, 3, 25));
    assert_eq!(next_monday(date(2024, 3, 26)), date(2024, 4, 1));
    assert_eq!(next_monday(date(2024, 3, 27)), date(2024, 4, 1));
    assert_eq!(next_monday(date(2024, 3, 31)), date(2024, 4, 1));
}

#[test]
fn week_start_is_parsed_or_refused() {
    assert_eq!(parse_week_start(Some("2024-03-25".to_string())), Ok(date(2024, 3, 25)));
    assert_eq!(parse_week_start(Some("25/03/2024".to_string())), Err(WeekStartError::InvalidFormat));
    assert_eq!(parse_week_start(Some("2024-02-30".to_string())), Err(WeekStartError::InvalidFormat));
    assert_eq!(
        WeekStartError::InvalidFormat.message(),
        "Invalid date format. Use YYYY-MM-DD (e.g. 2024-03-25)"
    );
    let monday = parse_week_start(None).unwrap();
    assert_eq!(monday.weekday(), Weekday::Mon);
}

fn read(s: &str) -> Option<String> {
    parse_quantity(s).map(|d| d.to_text())
}

fn total(parts: &[&str]) -> String {
    let mut sum = quantity_amount(parts[0]);
    for p in &parts[1..] {
        sum = sum.add(&quantity_amount(p));
    }
    sum.to_text()
}

#[test]
fn quantities_are_read_exactly() {
    assert_eq!(read("500"), Some("500".to_string()));
    assert_eq!(read("0.5"), Some("0.5".to_string()));
    assert_eq!(read(".25"), Some("0.25".to_string()));
    assert_eq!(read("3."), Some("3".to_string()));
    assert_eq!(read("+2"), Some("2".to_string()));
    assert_eq!(read("1.125"), Some("1.125".to_string()));
    assert_eq!(read("1.2345"), Some("1.2345".to_string()));
    assert_eq!(read("1.500"), Some("1.5".to_string()));
    assert_eq!(read("007"), Some("7".to_string()));
    assert_eq!(read("0.000"), Some("0".to_string()));
    assert_eq!(read("1000000000000000"), Some("1000000000000000".to_string()));
    assert_eq!(read("123456789012345678901234567890"), Some("123456789012345678901234567890".to_string()));
    assert_eq!(read("abc"), None);
    assert_eq!(read(""), None);
    assert_eq!(read("."), None);
    assert_eq!(read("+"), None);
    assert_eq!(read("1.2.3"), None);
    assert_eq!(read("-1"), Some("-1".to_string()));
    assert_eq!(read("-.5"), Some("-0.5".to_string()));
    assert_eq!(read("-0"), Some("0".to_string()));
    assert_eq!(read("-"), None);
    assert_eq!(read("+-1"), None);
    assert_eq!(read("1e3"), None);
    assert_eq!(read(" 1"), None);
}

#[test]
fn unreadable_quantities_count_as_one() {
    assert_eq!(quantity_amount("a pinch").to_text(), "1");
    assert_eq!(quantity_amount("").to_text(), "1");
    assert_eq!(quantity_amount("1.2345").to_text(), "1.2345");
}

#[test]
fn totals_are_exact_sums() {
    assert_eq!(total(&["500", "500", "600"]), "1600");
    assert_eq!(total(&["0.25", "0.25"]), "0.5");
    assert_eq!(total(&["12", "0.25"]), "12.25");
    assert_eq!(total(&["0.1", "0.2"]), "0.3");
    assert_eq!(total(&["0.001"]), "0.001");
    assert_eq!(total(&["1.2345", "1"]), "2.2345");
    assert_eq!(total(&["9.99", "0.01"]), "10");
    assert_eq!(total(&["999", "1"]), "1000");
    assert_eq!(total(&["1000000000000000", "1"]), "1000000000000001");
    assert_eq!(total(&["2", "pinch"]), "3");
    assert_eq!(total(&["0", "0.0"]), "0");
    assert_eq!(total(&["-1", "2"]), "1");
    assert_eq!(total(&["1", "-3.5"]), "-2.5");
    assert_eq!(total(&["-1", "1"]), "0");
    assert_eq!(total(&["-0.5", "-0.25"]), "-0.75");
    assert_eq!(total(&["-10", "0.01"]), "-9.99");
    assert_eq!(total(&["0.01", "-10"]), "-9.99");
}

#[test]
fn shopping_list_of_the_sample_week() {
    let plan = MealPlanner::generate_offline_plan(date(2024, 3, 25));
    let expected: Vec<(&str, &str, &str, IngredientCategory)> = vec![
        ("Coconut milk", "1100", "ml", IngredientCategory::Dairy),
        ("Curd / Yogurt", "900", "ml", IngredientCategory::Dairy),
        ("Milk", "400", "ml", IngredientCategory::Dairy),
        ("Apple", "2", "pcs", IngredientCategory::Fruits),
        ("Banana", "7", "pcs", IngredientCategory::Fruits),
        ("Dates", "8", "pcs", IngredientCategory::Fruits),
        ("Guava", "4", "pcs", IngredientCategory::Fruits),
        ("Mango", "3", "pcs", IngredientCategory::Fruits),
        ("Orange", "4", "pcs", IngredientCategory::Fruits),
        ("Papaya", "500", "g", IngredientCategory::Fruits),
        ("Pineapple", "200", "g", IngredientCategory::Fruits),
        ("Pomegranate", "1", "pcs", IngredientCategory::Fruits),
        ("Watermelon", "500", "g", IngredientCategory::Fruits),
        ("Basmati rice", "600", "g", IngredientCategory::Grains),
        ("Dosa batter (idli rice + urad dal)", "2000", "g", IngredientCategory::Grains),
        ("Idli batter (rice + urad dal)", "1400", "g", IngredientCategory::Grains),
        ("Moong dal (yellow)", "350", "g", IngredientCategory::Grains),
        ("Poha / Aval (flattened rice)", "300", "g", IngredientCategory::Grains),
        ("Rava (semolina)", "300", "g", IngredientCategory::Grains),
        ("Raw rice", "4700", "g", IngredientCategory::Grains),
        ("Rice flour (idiyappam)", "400", "g", IngredientCategory::Grains),
        ("Toor dal", "50", "g", IngredientCategory::Grains),
        ("Toor dal (for rasam)", "50", "g", IngredientCategory::Grains),
        ("Toor dal (for sambar)", "460", "g", IngredientCategory::Grains),
        ("Urad dal", "15", "g", IngredientCategory::Grains),
        ("Whole wheat flour (atta)", "550", "g", IngredientCategory::Grains),
        ("Ghee", "185", "ml", IngredientCategory::Oils),
        ("Oil", "385", "ml", IngredientCategory::Oils),
        ("Sesame oil (nallennai)", "130", "ml", IngredientCategory::Oils),
        ("Cashews", "30", "g", IngredientCategory::Other),
        ("Coconut (grated)", "870", "g", IngredientCategory::Other),
        ("Honey", "15", "ml", IngredientCategory::Other),
        ("Jaggery", "50", "g", IngredientCategory::Other),
        ("Papad", "12", "pcs", IngredientCategory::Other),
        ("Chicken (bone-in)", "700", "g", IngredientCategory::Proteins),
        ("Chicken (curry cut)", "800", "g", IngredientCategory::Proteins),
        ("Eggs", "16", "pcs", IngredientCategory::Proteins),
        ("Fish (Seer fish / Vanjaram)", "1200", "g", IngredientCategory::Proteins),
        ("Fish (Tilapia / Rohu, cleaned)", "400", "g", IngredientCategory::Proteins),
        ("Mutton (bone-in)", "800", "g", IngredientCategory::Proteins),
        ("Peanuts", "50", "g", IngredientCategory::Proteins),
        ("Prawns / Fish fillet", "600", "g", IngredientCategory::Proteins),
        ("Bay leaves", "3", "pcs", IngredientCategory::Spices),
        ("Biryani masala", "30", "g", IngredientCategory::Spices),
        ("Black pepper", "10", "g", IngredientCategory::Spices),
        ("Cardamom pods", "4", "pcs", IngredientCategory::Spices),
        ("Cardamom powder", "2", "g", IngredientCategory::Spices),
        ("Chettinad masala", "30", "g", IngredientCategory::Spices),
        ("Chilli powder", "68", "g", IngredientCategory::Spices),
        ("Cinnamon sticks", "2", "pcs", IngredientCategory::Spices),
        ("Cloves", "4", "pcs", IngredientCategory::Spices),
        ("Coriander powder", "80", "g", IngredientCategory::Spices),
        ("Cumin powder", "10", "g", IngredientCategory::Spices),
        ("Cumin seeds", "25", "g", IngredientCategory::Spices),
        ("Fennel seeds", "10", "g", IngredientCategory::Spices),
        ("Fenugreek seeds", "10", "g", IngredientCategory::Spices),
        ("Garam masala", "10", "g", IngredientCategory::Spices),
        ("Garlic", "6", "pcs", IngredientCategory::Spices),
        ("Ginger-garlic paste", "120", "g", IngredientCategory::Spices),
        ("Kalpasi (stone flower)", "3", "g", IngredientCategory::Spices),
        ("Mango pickle", "20", "g", IngredientCategory::Spices),
        ("Mustard seeds", "40", "g", IngredientCategory::Spices),
        ("Pepper", "10", "g", IngredientCategory::Spices),
        ("Saffron", "0.5", "g", IngredientCategory::Spices),
        ("Salt", "15", "g", IngredientCategory::Spices),
        ("Sambar powder", "50", "g", IngredientCategory::Spices),
        ("Star anise", "2", "pcs", IngredientCategory::Spices),
        ("Tamarind", "100", "g", IngredientCategory::Spices),
        ("Turmeric powder", "29", "g", IngredientCategory::Spices),
        ("Beans", "100", "g", IngredientCategory::Vegetables),
        ("Button mushrooms", "500", "g", IngredientCategory::Vegetables),
        ("Carrot", "3", "pcs", IngredientCategory::Vegetables),
        ("Coriander leaves", "3", "bunch", IngredientCategory::Vegetables),
        ("Cucumber", "3", "pcs", IngredientCategory::Vegetables),
        ("Curry leaves", "21", "sprig", IngredientCategory::Vegetables),
        ("Green beans", "200", "g", IngredientCategory::Vegetables),
        ("Green chilli", "11", "pcs", IngredientCategory::Vegetables),
        ("Mint leaves", "1", "bunch", IngredientCategory::Vegetables),
        ("Onion", "32", "pcs", IngredientCategory::Vegetables),
        ("Potato", "1", "pcs", IngredientCategory::Vegetables),
        ("Spinach", "100", "g", IngredientCategory::Vegetables),
        ("Spinach (keerai)", "300", "g", IngredientCategory::Vegetables),
        ("Tomatoes", "38", "pcs", IngredientCategory::Vegetables),
    ];
    assert_eq!(plan.shopping_list.len(), expected.len());
    for (item, (name, qty, unit, category)) in plan.shopping_list.iter().zip(expected.iter()) {
        assert_eq!(item.ingredient, *name);
        assert_eq!(item.total_quantity, *qty);
        assert_eq!(item.unit, *unit);
        assert_eq!(item.category, *category);
    }
}

#[test]
fn days_follow_the_weekdays_from_any_start() {
    let start = date(2024, 3, 27);
    let plan = MealPlanner::generate_offline_plan(start);
    let names = ["Wednesday", "Thursday", "Friday", "Saturday", "Sunday", "Monday", "Tuesday"];
    for (i, day) in plan.days.iter().enumerate() {
        assert_eq!(day.day_name, names[i]);
        assert_eq!(day.date.num_days_from_ce(), start.num_days_from_ce() + i as i32);
        assert_eq!(day.meals[0].meal_type, MealType::Breakfast);
        assert_eq!(day.meals[1].meal_type, MealType::KidsSnack);
        assert_eq!(day.meals[2].meal_type, MealType::KidsLunch);
        assert_eq!(day.meals[3].meal_type, MealType::Dinner);
    }
    assert_eq!(plan.days[0].meals[3].name, "Chicken Chettinad Curry with Rice & Rasam");
    assert_eq!(plan.days[3].meals[0].name, "Ven Pongal with Sambar & Chutney");
    assert_eq!(plan.days[4].meals[3].name, "Mutton Biryani with Raita & Boiled Egg");
    assert_eq!(plan.days[4].meals[0].name, "Egg Dosa with Tomato Chutney");
    assert_eq!(plan.days[6].meals[3].name, "Mushroom Masala with Chapathi & Rice");
    assert_eq!(plan.days[1].meals[1].name, "Seasonal Fruit Salad");
    assert_eq!(plan.days[1].meals[2].name, "Curd Rice with Pickle");
}

#[test]
fn templates_rotate_by_day_offset() {
    assert_eq!(weekday_breakfast(0).name, "Idli with Sambar & Chutneys");
    assert_eq!(weekday_breakfast(5).name, "Idli with Sambar & Chutneys");
    assert_eq!(weekday_breakfast(3).name, "Idiyappam with Coconut Milk");
    assert_eq!(kids_fruit_snack(8).name, "Seasonal Fruit Salad");
    assert_eq!(kids_fruit_snack(8).meal_type, MealType::KidsSnack);
    assert_eq!(kids_lunch(6).name, "Tomato Rice with Raita");
    assert_eq!(regular_dinner(4).name, "Chicken Kuzhambu with Rice & Beans Poriyal");
    assert_eq!(regular_dinner(4).ingredients.len(), 12);
    assert_eq!(kids_lunch(0).suitable_for, vec!["kids".to_string(), "infant".to_string()]);
    assert_eq!(saturday_breakfast().ingredients.len(), 14);
    assert_eq!(sunday_breakfast().ingredients[1].name, "Eggs");
    assert_eq!(sunday_nonveg_dinner().ingredients[16].quantity, "0.5");
    assert_eq!(chicken_dinner().suitable_for, vec!["adults".to_string(), "kids".to_string()]);
    assert_eq!(mushroom_dinner().ingredients[0].name, "Button mushrooms");
    let i = ing("Salt", "10", "g", IngredientCategory::Spices);
    assert_eq!((i.name.as_str(), i.quantity.as_str(), i.unit.as_str(), i.category), ("Salt", "10", "g", IngredientCategory::Spices));
}

#[test]
fn weekday_names_and_emojis() {
    assert_eq!(weekday_name(Weekday::Mon), "Monday");
    assert_eq!(weekday_name(Weekday::Sun), "Sunday");
    assert_eq!(day_emoji("Monday"), "💻");
    assert_eq!(day_emoji("Sunday"), "🥩");
    assert_eq!(day_emoji("Funday"), "📅");
    assert_eq!(day_emoji("monday"), "📅");
}

#[test]
fn labels_of_meals_and_categories() {
    assert_eq!(MealType::KidsSnack.label(), "Kids' Snack");
    assert_eq!(MealType::Dinner.label(), "Dinner");
    assert_eq!(IngredientCategory::Grains.label(), "Grains & Staples");
    assert_eq!(IngredientCategory::Proteins.label(), "Proteins (Meat/Eggs/Fish)");
}

#[test]
fn json_is_taken_out_of_replies() {
    assert_eq!(extract_json("Here:\n```json\n  {\"a\": 1}  \n```\nDone"), "{\"a\": 1}");
    assert_eq!(extract_json("x ```json {\"a\": 1} without end"), "{\"a\": 1}");
    assert_eq!(extract_json("prefix {\"a\": {\"b\": 2}} suffix"), "{\"a\": {\"b\": 2}}");
    assert_eq!(extract_json("no json here"), "no json here");
    assert_eq!(extract_json("} then {"), "} then {");
    assert_eq!(extract_json("```json\n\u{3000}[1, 2]\t```"), "[1, 2]");
}

#[test]
fn system_prompt_carries_the_family() {
    let family = FamilyConfig::default();
    let expected = format!(
        "You are a specialized South Indian nutritionist and meal planner assistant for a Chennai-based developer family.\n\nFamily Profile:\n- {} adults (ages 30-37 years)\n- {} kids (ages 7-10 years)  \n- {} infant (age 2 years)\n- Cuisine: {} ({}), specifically Chennai style\n\nDietary Preferences & Rules:\n- Protein sources allowed: {}\n- Diet focus: balanced nutrition appropriate for each age group\n- Breakfast: South Indian breakfast for everyone\n- Saturday morning: Pongal or Poori (traditional Saturday special)\n- Sunday: Non-vegetarian special dinner\n- Mid-week (Wednesday/Thursday): Chicken dinner\n- Mushroom dish: Include once per week\n- Kids' snacks: Mostly seasonal fruits\n- Kids' lunch: Nutritious, child-friendly South Indian meals\n- Dinner: South Indian style for the whole family\n- Infant (2yr): Soft, easily digestible foods adapted from family meals\n\nMeal Planning Guidelines:\n- Use traditional Chennai/Tamil Nadu recipes\n- Include a variety of dal/sambar, rice dishes, and curries\n- Balance between vegetarian and non-vegetarian meals\n- Include traditional breakfast items: idli, dosa, upma, pongal, poori, etc.\n- Use seasonal vegetables and local ingredients\n- Ensure adequate protein, calcium (dairy for kids), iron, and fiber\n\nOutput Format:\nWhen generating a weekly plan, provide a structured JSON response with days of the week, each containing:\n- breakfast: meal name and ingredients\n- kids_snack: fruit-based snack\n- kids_lunch: child-friendly meal\n- dinner: family dinner\n- special_notes: any special preparation notes\n\nAlways end with a consolidated shopping list grouped by category.",
        family.adults_count,
        family.kids_count,
        family.infant_count,
        family.cuisine,
        family.region,
        family.protein_preferences.join(", ")
    );
    assert_eq!(build_system_prompt(&family), expected);
    assert!(build_system_prompt(&family).contains("- 4 adults (ages 30-37 years)"));
    assert_eq!(join_strings(&vec!["a".to_string(), "b".to_string()], ", "), "a, b");
    assert_eq!(join_strings(&vec![], ", "), "");
}

#[test]
fn chat_request_needs_a_token() {
    let config = Config::default();
    assert!(matches!(prepare_chat_request(&config, None, "plan"), Err(AiError::TokenMissing)));
    let parts = prepare_chat_request(&config, Some("env-token".to_string()), "plan").ok().unwrap();
    assert_eq!(parts.token, "env-token");
    assert_eq!(parts.url, "https://api.githubcopilot.com/chat/completions");
    assert_eq!(parts.model, "gpt-4o");
    assert_eq!(parts.messages.len(), 2);
    assert_eq!(parts.messages[0].role, "system");
    assert_eq!(parts.messages[1].content, "plan");
    let mut own = Config::default();
    own.ai.github_token = Some("own-token".to_string());
    let parts = prepare_chat_request(&own, Some("env-token".to_string()), "plan").ok().unwrap();
    assert_eq!(parts.token, "own-token");
    assert!(AiError::TokenMissing.message().starts_with("GitHub token not configured."));
}

#[test]
fn first_choice_is_the_reply() {
    assert_eq!(first_choice_content(vec![]), Err(AiError::NoResponse));
    let reply = first_choice_content(vec![
        ChatMessage { role: "assistant".to_string(), content: "one".to_string() },
        ChatMessage { role: "assistant".to_string(), content: "two".to_string() },
    ]);
    assert_eq!(reply, Ok("one".to_string()));
    assert_eq!(AiError::NoResponse.message(), "No response from AI");
}

#[test]
fn settings_defaults_tokens_and_updates() {
    let ai = AiConfig::default();
    assert_eq!(ai.github_token, None);
    assert_eq!(ai.copilot_api_url, "https://api.githubcopilot.com");
    let mut config = Config::default();
    assert_eq!(config.family.protein_preferences, vec!["egg", "fish", "chicken", "mutton"]);
    assert_eq!(config.get_token(Some("env".to_string())), Some("env".to_string()));
    assert_eq!(config.get_token(None), None);
    assert!(!config.update(None, None, None));
    assert!(config.update(Some("t".to_string()), None, Some("gpt-x".to_string())));
    assert_eq!(config.get_token(Some("env".to_string())), Some("t".to_string()));
    assert_eq!(config.ai.model, "gpt-x");
    assert_eq!(config.ai.copilot_api_url, "https://api.githubcopilot.com");
    let profile = FamilyProfile::default();
    assert_eq!(profile.adults[0].count, 4);
    assert_eq!(profile.kids[0].age_range, "7-10");
    assert_eq!(profile.region, "Chennai");
}

#[test]
fn shopping_list_by_category_heading() {
    let plan = MealPlanner::generate_offline_plan(date(2024, 3, 25));
    let sections = shopping_sections(&plan.shopping_list);
    let headings: Vec<&str> = sections.iter().map(|s| s.heading.as_str()).collect();
    assert_eq!(
        headings,
        vec![
            "Grains & Staples",
            "Proteins (Meat/Eggs/Fish)",
            "Vegetables",
            "Fruits",
            "Dairy",
            "Spices & Condiments",
            "Oils & Fats",
            "Other"
        ]
    );
    let total: usize = sections.iter().map(|s| s.items.len()).sum();
    assert_eq!(total, plan.shopping_list.len());
    assert_eq!(sections[1].items[0].ingredient, "Chicken (bone-in)");
    assert_eq!(sections[1].items.len(), 8);
    let only_fruit = vec![plan.shopping_list[3].clone()];
    let one = shopping_sections(&only_fruit);
    assert_eq!(one.len(), 1);
    assert_eq!(one[0].heading, "Fruits");
    assert!(shopping_sections(&vec![]).is_empty());
}

#[test]
fn token_source_prefers_the_settings() {
    let mut config = Config::default();
    assert_eq!(config.token_source(false), TokenSource::Missing);
    assert_eq!(config.token_source(true), TokenSource::Environment);
    config.ai.github_token = Some("t".to_string());
    assert_eq!(config.token_source(false), TokenSource::Configured);
    assert_eq!(config.token_source(true), TokenSource::Configured);
}

#[test]
fn totals_read_back_exactly() {
    for v in ["0", "1", "10", "0.5", "0.999", "1500", "12.25", "4700", "99999999999999.999", "0.0001", "-3.75"] {
        assert_eq!(read(v), Some(v.to_string()));
        assert_eq!(read(&read(v).unwrap()), Some(v.to_string()));
    }
}

fn leap(y: i64) -> bool {
    y.rem_euclid(4) == 0 && (y.rem_euclid(100) != 0 || y.rem_euclid(400) == 0)
}

fn month_days(y: i64, m: i64) -> i64 {
    match m {
        2 => {
            if leap(y) {
                29
            } else {
                28
            }
        }
        4 | 6 | 9 | 11 => 30,
        _ => 31,
    }
}

#[test]
fn day_numbers_match_the_calendar_formula() {
    let mut year: i64 = -2000;
    while year <= 2600 {
        for month in 0..14i64 {
            for day in 0..33i64 {
                let got = PlanDate::from_ymd(year as i32, month as u32, day as u32);
                let valid = (1..=12).contains(&month) && day >= 1 && day <= month_days(year, month);
                assert_eq!(got.is_some(), valid, "{}-{}-{}", year, month, day);
                if let Some(d) = got {
                    let z = year - 1;
                    let before: i64 = (1..month).map(|m| month_days(year, m)).sum();
                    let expected = 365 * z + z.div_euclid(4) - z.div_euclid(100) + z.div_euclid(400) + before + day;
                    assert_eq!(d.num_days_from_ce() as i64, expected);
                    assert_eq!(d.weekday().num_days_from_monday() as i64, (expected - 1).rem_euclid(7));
                }
            }
        }
        year += 13;
    }
    assert!(PlanDate::from_ymd(-262143, 1, 1).is_some());
    assert!(PlanDate::from_ymd(-262144, 12, 31).is_none());
    assert!(PlanDate::from_ymd(262142, 12, 31).is_some());
    assert!(PlanDate::from_ymd(262143, 1, 1).is_none());
    assert_eq!(PlanDate::from_ymd(-262143, 1, 1).unwrap().num_days_from_ce(), -95_746_129);
    assert_eq!(PlanDate::from_ymd(262142, 12, 31).unwrap().num_days_from_ce(), 95_745_399);
}

#[test]
fn week_start_from_today() {
    assert_eq!(week_start_from(date(2024, 3, 25)), Ok(date(2024, 3, 25)));
    assert_eq!(week_start_from(date(2024, 3, 26)), Ok(date(2024, 4, 1)));
    assert_eq!(week_start_from(date(2024, 3, 31)), Ok(date(2024, 4, 1)));
    // December 31, 262142, the last date, is a Monday: every date of its
    // week starts the week on it.
    let last = PlanDate::from_num_days_from_ce(95_745_399).unwrap();
    assert_eq!(last.weekday(), Weekday::Mon);
    assert_eq!(week_start_from(last), Ok(last));
    let tuesday = last.checked_add_days(-6).unwrap();
    assert_eq!(tuesday.weekday(), Weekday::Tue);
    assert_eq!(week_start_from(tuesday), Ok(last));
    let monday = parse_week_start(None).unwrap();
    assert_eq!(monday.weekday(), Weekday::Mon);
}

#[test]
fn meals_of_a_day_by_weekday() {
    let sat = MealPlanner::meals_for_day(Weekday::Sat, 5);
    assert_eq!(sat[0].name, "Ven Pongal with Sambar & Chutney");
    assert_eq!(sat[3].name, regular_dinner(5).name);
    let tue = MealPlanner::meals_for_day(Weekday::Tue, 12);
    assert_eq!(tue[0].name, weekday_breakfast(12).name);
    assert_eq!(tue[1].name, kids_fruit_snack(12).name);
    assert_eq!(tue[2].name, kids_lunch(12).name);
    assert_eq!(tue[3].name, "Mushroom Masala with Chapathi & Rice");
    assert_eq!(kids_lunch(7).name, "Rice + Sambar + Egg Curry");
    assert_eq!(regular_dinner(u64::MAX).name, regular_dinner(u64::MAX % 5).name);
}

#[test]
fn meal_emojis_and_reply_status() {
    assert_eq!(meal_emoji(&weekday_breakfast(0)), "🌅");
    assert_eq!(meal_emoji(&kids_fruit_snack(0)), "🍎");
    assert_eq!(meal_emoji(&kids_lunch(0)), "🎒");
    assert_eq!(meal_emoji(&chicken_dinner()), "🍗");
    assert_eq!(meal_emoji(&mushroom_dinner()), "🌙");
    assert_eq!(meal_emoji(&regular_dinner(0)), "🌙");
    assert_eq!(meal_suffix(&mushroom_dinner()), "   🍄");
    assert_eq!(meal_suffix(&chicken_dinner()), "");
    assert_eq!(meal_suffix(&weekday_breakfast(1)), "");
    assert_eq!(check_reply_status(true, "200 OK", ""), Ok(()));
    assert_eq!(
        check_reply_status(false, "401 Unauthorized", "bad token"),
        Err("API request failed with status 401 Unauthorized: bad token".to_string())
    );
    let config = Config::default();
    let parts = prepare_chat_request(&config, Some("tok".to_string()), "plan").ok().unwrap();
    assert_eq!(parts.authorization, "Bearer tok");
    assert_eq!(parts.content_type, "application/json");
    assert_eq!(parts.integration_id, "food-planner-cli");
    assert_eq!(parts.max_tokens, 4096);
}

#[test]
fn plan_source_follows_the_flag_and_the_token() {
    assert_eq!(choose_plan_source(true, true), PlanSource::Templates);
    assert_eq!(choose_plan_source(true, false), PlanSource::Templates);
    assert_eq!(choose_plan_source(false, false), PlanSource::TemplatesWithoutToken);
    assert_eq!(choose_plan_source(false, true), PlanSource::Copilot);
}
