//! Recipe data: the structured records the frame callback works with, and
//! the selection step that picks the right recipe out of a search reply.
//!
//! Fetching and decoding the reply is the collaborator's blocking I/O and
//! stays outside; the records arrive here as plain values.

use vstd::prelude::*;

verus! {

/// One ingredient of a recipe.
#[derive(Debug, PartialEq, Eq)]
pub struct Material {
    pub id: u32,
    pub count: u32,
    pub name: String,
}

impl Default for Material {
    /// The zero material: empty name, zero id and count.
    fn default() -> (r: Material)
        ensures
            r.id == 0 && r.count == 0 && r.name@ == Seq::<char>::empty(),
    {
        Material { id: 0, count: 0, name: String::new() }
    }
}

/// One selected recipe, its stats already scaled by the reply's factors.
#[derive(Debug, PartialEq, Eq)]
pub struct Recipe {
    pub durability: u32,
    pub difficulty: u32,
    pub quality: u32,
    pub level: u32,
    pub id: u32,
    pub index: usize,
    pub job: u32,
    pub mats: Vec<Material>,
    pub name: String,
}

impl Default for Recipe {
    /// The zero recipe: every stat zero, no ingredients, empty name.
    fn default() -> (r: Recipe)
        ensures
            r.durability == 0 && r.difficulty == 0 && r.quality == 0 && r.level == 0,
            r.id == 0 && r.index == 0 && r.job == 0,
            r.mats@ == Seq::<Material>::empty(),
            r.name@ == Seq::<char>::empty(),
    {
        Recipe {
            durability: 0,
            difficulty: 0,
            quality: 0,
            level: 0,
            id: 0,
            index: 0,
            job: 0,
            mats: Vec::new(),
            name: String::new(),
        }
    }
}

/// One ingredient entry of a search reply.
#[allow(non_snake_case)]
#[derive(Clone, Debug, PartialEq, Eq)]
pub struct ItemIngredient {
    pub Name: String,
    pub ID: u32,
}

/// The craft-job entry of a search reply.
#[allow(non_snake_case)]
#[derive(Clone, Copy, Debug, PartialEq, Eq, Structural)]
pub struct CraftType {
    pub ID: u32,
}

/// The level-table entry of a search reply.
#[allow(non_snake_case)]
#[derive(Clone, Copy, Debug, PartialEq, Eq, Structural)]
pub struct RecipeLevelTable {
    pub ClassJobLevel: u32,
    pub Difficulty: u32,
    pub Durability: u32,
    pub ID: u32,
    pub Quality: u32,
    pub Stars: u32,
    pub SuggestedControl: u32,
    pub SuggestedCraftsmanship: u32,
}

/// One recipe record of a search reply, field for field.
#[allow(non_snake_case)]
#[derive(Clone, Debug, PartialEq, Eq)]
pub struct ApiRecipe {
    pub ID: u32,
    pub Name: String,
    pub CraftType: CraftType,
    pub RecipeLevelTable: RecipeLevelTable,
    pub AmountIngredient0: u32,
    pub AmountIngredient1: u32,
    pub AmountIngredient2: u32,
    pub AmountIngredient3: u32,
    pub AmountIngredient4: u32,
    pub AmountIngredient5: u32,
    pub DifficultyFactor: u32,
    pub DurabilityFactor: u32,
    pub QualityFactor: u32,
    pub ItemIngredient0: Option<ItemIngredient>,
    pub ItemIngredient1: Option<ItemIngredient>,
    pub ItemIngredient2: Option<ItemIngredient>,
    pub ItemIngredient3: Option<ItemIngredient>,
    pub ItemIngredient4: Option<ItemIngredient>,
    pub ItemIngredient5: Option<ItemIngredient>,
}

/// The lowercase equivalent of a character sequence, as Unicode case
/// folding computes it.
pub uninterp spec fn lower_of(s: Seq<char>) -> Seq<char>;

/// Relies on str::to_lowercase: the lowercase equivalent of the slice, a
/// function of its characters alone; an empty string stays empty.
#[verifier::external_body]
fn lowercase(s: &str) -> (r: String)
    ensures
        r@ == lower_of(s@),
        s@.len() == 0 ==> r@.len() == 0,
{
    s.to_lowercase()
}

/// Whether two names are the same once case is folded away.
fn names_match(a: &str, b: &str) -> (r: bool)
    ensures
        r == (lower_of(a@) == lower_of(b@)),
{
    let la = lowercase(a);
    let lb = lowercase(b);
    la == lb
}

/// The material an ingredient entry contributes, with its amount.
pub open spec fn ingredient_material(ing: ItemIngredient, amount: u32) -> Material {
    Material { id: ing.ID, count: amount, name: ing.Name }
}

/// A present ingredient entry appends its material; an absent one appends
/// nothing.
pub open spec fn push_ingredient(
    s: Seq<Material>,
    ing: Option<ItemIngredient>,
    amount: u32,
) -> Seq<Material> {
    match ing {
        Some(ii) => s.push(ingredient_material(ii, amount)),
        None => s,
    }
}

/// All materials of a reply record, in ingredient-slot order.
pub open spec fn mats_of(a: ApiRecipe) -> Seq<Material> {
    let s0 = push_ingredient(Seq::empty(), a.ItemIngredient0, a.AmountIngredient0);
    let s1 = push_ingredient(s0, a.ItemIngredient1, a.AmountIngredient1);
    let s2 = push_ingredient(s1, a.ItemIngredient2, a.AmountIngredient2);
    let s3 = push_ingredient(s2, a.ItemIngredient3, a.AmountIngredient3);
    let s4 = push_ingredient(s3, a.ItemIngredient4, a.AmountIngredient4);
    push_ingredient(s4, a.ItemIngredient5, a.AmountIngredient5)
}

/// A base stat scaled by its reply factor, in percent.
pub open spec fn scaled(base: u32, factor: u32) -> int {
    (base * factor) / 100
}

/// The reply record's scaled stats stay within the machine word.
pub open spec fn recipe_fits(a: ApiRecipe) -> bool {
    &&& a.RecipeLevelTable.Durability * a.DurabilityFactor <= u32::MAX
    &&& a.RecipeLevelTable.Difficulty * a.DifficultyFactor <= u32::MAX
    &&& a.RecipeLevelTable.Quality * a.QualityFactor <= u32::MAX
}

/// Whether reply record `i` is the one asked for: its name equals the
/// queried name once case is folded, and — unless the reply holds a single
/// record, which is accepted as-is — its craft job is the queried job.
pub open spec fn match_at(rs: Seq<ApiRecipe>, item: Seq<char>, job: u32, i: int) -> bool {
    &&& lower_of(rs[i].Name@) == lower_of(item)
    &&& (rs.len() == 1 || rs[i].CraftType.ID == job)
}

/// How a returned recipe is built from reply record `a` standing at
/// position `i`: stats scaled by the reply's percent factors, identity
/// fields copied, and the materials taken in ingredient-slot order.
pub open spec fn built_from(rec: Recipe, a: ApiRecipe, i: int) -> bool {
    &&& rec.level == a.RecipeLevelTable.ClassJobLevel
    &&& rec.durability == scaled(a.RecipeLevelTable.Durability, a.DurabilityFactor)
    &&& rec.difficulty == scaled(a.RecipeLevelTable.Difficulty, a.DifficultyFactor)
    &&& rec.quality == scaled(a.RecipeLevelTable.Quality, a.QualityFactor)
    &&& rec.id == a.ID
    &&& rec.name == a.Name
    &&& rec.job == a.CraftType.ID
    &&& rec.index == i
    &&& rec.mats@ == mats_of(a)
}

/// What the selection step returns for a whole reply: the recipe built from
/// the first matching record, or nothing when no record matches.
pub open spec fn selection_post(
    r: Option<Recipe>,
    rs: Seq<ApiRecipe>,
    item: Seq<char>,
    job: u32,
) -> bool {
    match r {
        Some(rec) => exists|i: int|
            0 <= i < rs.len() && #[trigger] match_at(rs, item, job, i) && (forall|j: int|
                0 <= j < i ==> !match_at(rs, item, job, j)) && built_from(rec, rs[i], i),
        None => forall|i: int| 0 <= i < rs.len() ==> !match_at(rs, item, job, i),
    }
}

/// Appends one ingredient's material to a recipe being filled in; leaves
/// every other field of the recipe alone.
pub fn convert_ingredient(r: &mut Recipe, ii: &Option<ItemIngredient>, amount: u32)
    ensures
        final(r).mats@ == push_ingredient(old(r).mats@, *ii, amount),
        final(r).durability == old(r).durability,
        final(r).difficulty == old(r).difficulty,
        final(r).quality == old(r).quality,
        final(r).level == old(r).level,
        final(r).id == old(r).id,
        final(r).index == old(r).index,
        final(r).job == old(r).job,
        final(r).name == old(r).name,
{
    if let Some(ing) = ii {
        r.mats.push(Material { id: ing.ID, name: ing.Name.clone(), count: amount });
    }
}

impl Recipe {
    /// Selects the requested recipe out of a search reply: the first record
    /// whose name matches the queried name case-insensitively and — when
    /// the reply holds more than one record — whose craft job is the
    /// queried one, scaled and converted; nothing when no record matches.
    pub fn from_results(recipes: Vec<ApiRecipe>, item_name: &str, job: u32) -> (r: Option<
        Recipe,
    >)
        requires
            forall|k: int| 0 <= k < recipes@.len() ==> recipe_fits(#[trigger] recipes@[k]),
        ensures
            selection_post(r, recipes@, item_name@, job),
    {
        let n = recipes.len();
        let mut i: usize = 0;
        while i < n
            invariant
                0 <= i <= n,
                n == recipes@.len(),
                forall|k: int| 0 <= k < recipes@.len() ==> recipe_fits(#[trigger] recipes@[k]),
                forall|j: int| 0 <= j < i ==> !match_at(recipes@, item_name@, job, j),
            decreases n - i,
        {
            let entry = &recipes[i];
            let name_ok = names_match(entry.Name.as_str(), item_name);
            let job_ok = n == 1 || entry.CraftType.ID == job;
            if name_ok && job_ok {
                assert(recipe_fits(recipes@[i as int]));
                let mut r = Recipe {
                    level: entry.RecipeLevelTable.ClassJobLevel,
                    durability: (entry.RecipeLevelTable.Durability * entry.DurabilityFactor)
                        / 100,
                    difficulty: (entry.RecipeLevelTable.Difficulty * entry.DifficultyFactor)
                        / 100,
                    quality: (entry.RecipeLevelTable.Quality * entry.QualityFactor) / 100,
                    id: entry.ID,
                    name: entry.Name.clone(),
                    job: entry.CraftType.ID,
                    index: i,
                    mats: Vec::new(),
                };
                convert_ingredient(&mut r, &entry.ItemIngredient0, entry.AmountIngredient0);
                convert_ingredient(&mut r, &entry.ItemIngredient1, entry.AmountIngredient1);
                convert_ingredient(&mut r, &entry.ItemIngredient2, entry.AmountIngredient2);
                convert_ingredient(&mut r, &entry.ItemIngredient3, entry.AmountIngredient3);
                convert_ingredient(&mut r, &entry.ItemIngredient4, entry.AmountIngredient4);
                convert_ingredient(&mut r, &entry.ItemIngredient5, entry.AmountIngredient5);
                assert(r.mats@ == mats_of(recipes@[i as int]));
                assert(match_at(recipes@, item_name@, job, i as int));
                assert(built_from(r, recipes@[i as int], i as int));
                return Some(r);
            }
            assert(!match_at(recipes@, item_name@, job, i as int));
            i = i + 1;
        }
        None
    }
}

/// Looks the requested recipe up in an already-fetched search reply: the
/// selection step of the lookup, once the collaborator has fetched and
/// decoded the reply's records.
pub fn get_recipe_for_job(results: Vec<ApiRecipe>, item_name: &str, job: u32) -> (r: Option<
    Recipe,
>)
    requires
        forall|k: int| 0 <= k < results@.len() ==> recipe_fits(#[trigger] results@[k]),
    ensures
        selection_post(r, results@, item_name@, job),
{
    Recipe::from_results(results, item_name, job)
}

} // verus!
