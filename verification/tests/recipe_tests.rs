use talan::recipe::{
    ApiRecipe, CraftType, ItemIngredient, Material, Recipe, RecipeLevelTable, convert_ingredient,
    get_recipe_for_job,
};

fn level_table(durability: u32, difficulty: u32, quality: u32, level: u32) -> RecipeLevelTable {
    RecipeLevelTable {
        ClassJobLevel: level,
        Difficulty: difficulty,
        Durability: durability,
        ID: 1,
        Quality: quality,
        Stars: 0,
        SuggestedControl: 0,
        SuggestedCraftsmanship: 0,
    }
}

fn api_recipe(id: u32, name: &str, job: u32) -> ApiRecipe {
    ApiRecipe {
        ID: id,
        Name: name.to_string(),
        CraftType: CraftType { ID: job },
        RecipeLevelTable: level_table(80, 200, 1000, 50),
        AmountIngredient0: 3,
        AmountIngredient1: 1,
        AmountIngredient2: 0,
        AmountIngredient3: 0,
        AmountIngredient4: 0,
        AmountIngredient5: 0,
        DifficultyFactor: 100,
        DurabilityFactor: 50,
        QualityFactor: 120,
        ItemIngredient0: Some(ItemIngredient { Name: "Iron Ingot".to_string(), ID: 11 }),
        ItemIngredient1: Some(ItemIngredient { Name: "Leather".to_string(), ID: 12 }),
        ItemIngredient2: None,
        ItemIngredient3: None,
        ItemIngredient4: None,
        ItemIngredient5: None,
    }
}

#[test]
fn lookup_matches_name_case_insensitively() {
    let results = vec![api_recipe(7, "Rakshasa Axe", 1), api_recipe(8, "Other", 1)];
    let r = get_recipe_for_job(results, "rakshasa axe", 1);
    let r = r.expect("the record differs only in case and must match");
    assert_eq!(r.id, 7);
    assert_eq!(r.name, "Rakshasa Axe");
    assert_eq!(r.index, 0);
}

#[test]
fn lookup_scales_stats_by_reply_factors() {
    let results = vec![api_recipe(7, "Axe", 1)];
    let r = get_recipe_for_job(results, "Axe", 1).unwrap();
    // durability 80 at factor 50%, difficulty 200 at 100%, quality 1000 at 120%
    assert_eq!(r.durability, 40);
    assert_eq!(r.difficulty, 200);
    assert_eq!(r.quality, 1200);
    assert_eq!(r.level, 50);
    assert_eq!(r.job, 1);
}

#[test]
fn lookup_collects_present_ingredients_in_order() {
    let results = vec![api_recipe(7, "Axe", 1)];
    let r = get_recipe_for_job(results, "Axe", 1).unwrap();
    assert_eq!(
        r.mats,
        vec![
            Material { id: 11, count: 3, name: "Iron Ingot".to_string() },
            Material { id: 12, count: 1, name: "Leather".to_string() },
        ]
    );
}

#[test]
fn lookup_prefers_the_requested_job() {
    let results = vec![
        api_recipe(1, "Cloud Pearl", 2),
        api_recipe(2, "Cloud Pearl", 5),
        api_recipe(3, "Cloud Pearl Components", 5),
    ];
    let r = get_recipe_for_job(results, "Cloud Pearl", 5).unwrap();
    assert_eq!(r.id, 2);
    assert_eq!(r.index, 1);
}

#[test]
fn lookup_takes_the_first_of_equal_matches() {
    let results = vec![api_recipe(4, "Pearl", 5), api_recipe(6, "Pearl", 5)];
    let r = get_recipe_for_job(results, "Pearl", 5).unwrap();
    assert_eq!(r.id, 4);
    assert_eq!(r.index, 0);
}

#[test]
fn single_result_is_accepted_whatever_its_job() {
    let results = vec![api_recipe(9, "Cloud Pearl", 2)];
    let r = get_recipe_for_job(results, "Cloud Pearl", 5).unwrap();
    assert_eq!(r.id, 9);
}

#[test]
fn lookup_without_match_returns_nothing() {
    let results = vec![api_recipe(1, "Cloud Pearl", 2), api_recipe(2, "Pearl", 5)];
    assert!(get_recipe_for_job(results, "Axe", 5).is_none());
    assert!(get_recipe_for_job(Vec::new(), "Axe", 5).is_none());
}

#[test]
fn wrong_job_among_many_results_matches_nothing() {
    let results = vec![api_recipe(1, "Pearl", 2), api_recipe(2, "Pearl", 3)];
    assert!(get_recipe_for_job(results, "Pearl", 5).is_none());
}

#[test]
fn convert_ingredient_appends_only_present_entries() {
    let mut r = Recipe::default();
    convert_ingredient(&mut r, &None, 4);
    assert!(r.mats.is_empty());
    let ing = Some(ItemIngredient { Name: "Ore".to_string(), ID: 21 });
    convert_ingredient(&mut r, &ing, 4);
    assert_eq!(r.mats, vec![Material { id: 21, count: 4, name: "Ore".to_string() }]);
}

#[test]
fn default_records_are_zeroed() {
    let m = Material::default();
    assert_eq!(m, Material { id: 0, count: 0, name: String::new() });
    let r = Recipe::default();
    assert_eq!(r.durability, 0);
    assert_eq!(r.index, 0);
    assert!(r.mats.is_empty());
    assert_eq!(r.name, "");
}
