//! Categories and the matching of requested category slugs against the
//! stored catalogue.

use vstd::prelude::*;

verus! {

use crate::strutil::str_eq;

/// One row of the category catalogue.
#[derive(Debug)]
pub struct Category {
    pub id: i32,
    pub category: String,
    pub slug: String,
    pub description: Option<String>,
    pub bots_cnt: i32,
    /// Creation instant, in microseconds since the epoch.
    pub created_at: i64,
}

/// The link row that files a bot under a category.
#[derive(Debug)]
pub struct BotCategory {
    pub bot_id: String,
    pub category_id: i32,
}

/// The columns of a category row to insert or update.
#[derive(Debug)]
pub struct NewCategory<'a> {
    pub category: &'a str,
    pub slug: &'a str,
    pub description: &'a str,
}

/// Whether the catalogue holds a category with this slug.
pub open spec fn spec_has_slug(categories: Seq<Category>, slug: Seq<char>) -> bool {
    exists|i: int| 0 <= i < categories.len() && (#[trigger] categories[i]).slug@ == slug
}

/// The requested slugs that the catalogue does not know, in request order.
pub open spec fn spec_invalid_slugs(categories: Seq<Category>, slugs: Seq<String>) -> Seq<
    Seq<char>,
>
    decreases slugs.len(),
{
    if slugs.len() == 0 {
        Seq::empty()
    } else {
        let rest = spec_invalid_slugs(categories, slugs.drop_last());
        if spec_has_slug(categories, slugs.last()@) {
            rest
        } else {
            rest.push(slugs.last()@)
        }
    }
}

fn has_slug(categories: &Vec<Category>, slug: &str) -> (r: bool)
    ensures
        r == spec_has_slug(categories@, slug@),
{
    let n = categories.len();
    let mut i: usize = 0;
    while i < n
        invariant
            i <= n,
            n == categories@.len(),
            forall|j: int| 0 <= j < i ==> (#[trigger] categories@[j]).slug@ != slug@,
        decreases n - i,
    {
        if str_eq(categories[i].slug.as_str(), slug) {
            return true;
        }
        i = i + 1;
    }
    proof {
        if spec_has_slug(categories@, slug@) {
            let j = choose|j: int|
                0 <= j < categories@.len() && (#[trigger] categories@[j]).slug@ == slug@;
            assert(categories@[j].slug@ != slug@);
        }
    }
    false
}

impl Category {
    /// Splits a bot's requested slugs into the unknown ones — reported
    /// back as warnings — and the link rows to write for the known ones,
    /// one per catalogue row, in catalogue order.
    pub fn match_bot_categories(categories: &Vec<Category>, slugs: &Vec<String>, bot_id: &str)
        -> (r: (Vec<String>, Vec<BotCategory>))
        ensures
            r.0@.map_values(|s: String| s@) == spec_invalid_slugs(categories@, slugs@),
            r.1@.len() == categories@.len(),
            forall|i: int|
                0 <= i < categories@.len() ==> (#[trigger] r.1@[i]).bot_id@ == bot_id@
                    && r.1@[i].category_id == categories@[i].id,
    {
        let n = slugs.len();
        let mut invalid: Vec<String> = Vec::new();
        let mut i: usize = 0;
        while i < n
            invariant
                i <= n,
                n == slugs@.len(),
                invalid@.map_values(|s: String| s@) == spec_invalid_slugs(
                    categories@,
                    slugs@.subrange(0, i as int),
                ),
            decreases n - i,
        {
            let ghost prefix = slugs@.subrange(0, i as int);
            let ghost invalid_prev = invalid@;
            if !has_slug(categories, slugs[i].as_str()) {
                invalid.push(slugs[i].clone());
                proof {
                    assert(invalid@.drop_last() =~= invalid_prev);
                    assert(invalid@.map_values(|s: String| s@).drop_last() =~= invalid_prev.map_values(
                        |s: String| s@));
                    assert(invalid@.map_values(|s: String| s@) =~= invalid_prev.map_values(
                        |s: String| s@).push(slugs@[i as int]@));
                }
            }
            proof {
                assert(slugs@.subrange(0, i + 1).drop_last() =~= prefix);
                assert(slugs@.subrange(0, i + 1).last() == slugs@[i as int]);
            }
            i = i + 1;
        }
        proof {
            assert(slugs@.subrange(0, n as int) =~= slugs@);
        }

        let m = categories.len();
        let mut links: Vec<BotCategory> = Vec::new();
        let mut k: usize = 0;
        while k < m
            invariant
                k <= m,
                m == categories@.len(),
                links@.len() == k,
                forall|i: int|
                    0 <= i < k ==> (#[trigger] links@[i]).bot_id@ == bot_id@
                        && links@[i].category_id == categories@[i].id,
            decreases m - k,
        {
            links.push(BotCategory { category_id: categories[k].id, bot_id: bot_id.to_owned() });
            k = k + 1;
        }
        (invalid, links)
    }
}

} // verus!
