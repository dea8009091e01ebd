//! Catalog entries, users and the paged results that the storage layer hands
//! to the navigation logic.

use vstd::prelude::*;
use crate::item_id::ItemId;

verus! {

#[derive(Clone, Debug, PartialEq, Eq)]
pub struct Tag {
    pub name: String,
}

/// An ingredient or a tool, with its amount.
#[derive(Clone, Debug, PartialEq, Eq)]
pub struct CocktailItem {
    pub name: String,
    pub count: i32,
    pub unit: String,
}

#[derive(Clone, Debug, PartialEq, Eq)]
pub struct Recipe {
    pub steps: Vec<String>,
}

/// One catalog entry.
#[derive(Clone, Debug, PartialEq, Eq)]
pub struct Cocktail {
    pub id: ItemId,
    pub url: Option<String>,
    pub name: Option<String>,
    pub russian_name: String,
    pub country_of_origin: Option<String>,
    pub history: Option<String>,
    pub tags: Option<Vec<Tag>>,
    pub tools: Option<Vec<CocktailItem>>,
    pub composition_elements: Option<Vec<CocktailItem>>,
    pub recipe: Option<Recipe>,
}

/// Relies on uuid's `Uuid::new_v4`: a fresh random identifier. Nothing is
/// promised of its value.
#[verifier::external_body]
fn random_id() -> (r: u128) {
    uuid::Uuid::new_v4().as_u128()
}

impl Cocktail {
    /// A new entry under a fresh random identifier.
    pub fn new(
        name: Option<String>,
        russian_name: String,
        url: Option<String>,
        country_of_origin: Option<String>,
        history: Option<String>,
        tags: Option<Vec<Tag>>,
        tools: Option<Vec<CocktailItem>>,
        composition_elements: Option<Vec<CocktailItem>>,
        recipe: Option<Recipe>,
    ) -> (r: Cocktail)
        ensures
            r.name == name,
            r.russian_name == russian_name,
            r.url == url,
            r.country_of_origin == country_of_origin,
            r.history == history,
            r.tags == tags,
            r.tools == tools,
            r.composition_elements == composition_elements,
            r.recipe == recipe,
    {
        Cocktail {
            id: ItemId(random_id()),
            url,
            name,
            russian_name,
            country_of_origin,
            history,
            tags,
            tools,
            composition_elements,
            recipe,
        }
    }
}

/// One page of entries and the number of entries on all pages together.
#[derive(Clone, Debug, PartialEq, Eq)]
pub struct CocktailsPaged {
    pub items: Vec<Cocktail>,
    pub total_count: u64,
}

#[derive(Clone, Copy, Debug, PartialEq, Eq, Structural)]
pub struct Pagination {
    pub page: u64,
    pub items_per_page: u64,
}

/// What a catalog query asks for; `None` leaves a criterion out.
#[derive(Clone, Debug, PartialEq, Eq)]
pub struct CocktailFilter {
    pub ids: Option<Vec<ItemId>>,
    pub names: Option<Vec<String>>,
    pub russian_names: Option<Vec<String>>,
    pub pagination: Pagination,
}

/// A registered user and the entries they marked as favorites.
#[derive(Clone, Debug, PartialEq, Eq)]
pub struct User {
    /// The user's own identifier (a UUID's 128-bit value).
    pub id: u128,
    pub telegram_id: u64,
    pub favorite_cocktails: Vec<ItemId>,
}

pub open spec fn other_than(item: ItemId) -> spec_fn(ItemId) -> bool {
    |x: ItemId| x != item
}

/// `favs` with `item` marked (`favorite`) or unmarked: the other entries keep
/// their order and a marked `item` stands once, at the end.
pub open spec fn favorites_after(favs: Seq<ItemId>, item: ItemId, favorite: bool) -> Seq<ItemId> {
    favs.filter(other_than(item)) + if favorite {
        seq![item]
    } else {
        Seq::empty()
    }
}

/// After marking or unmarking, `item` is a favorite exactly when it was
/// marked, and every other entry is one exactly when it was before.
pub proof fn lemma_favorites_after(favs: Seq<ItemId>, item: ItemId, favorite: bool, x: ItemId)
    ensures
        favorites_after(favs, item, favorite).contains(x) == if x == item {
            favorite
        } else {
            favs.contains(x)
        },
{
    let kept = favs.filter(other_than(item));
    let r = favorites_after(favs, item, favorite);
    if kept.contains(x) {
        favs.lemma_filter_contains_rev(other_than(item), x);
        let j = choose|j: int| 0 <= j < kept.len() && kept[j] == x;
        favs.lemma_filter_pred(other_than(item), j);
    }
    if x != item && favs.contains(x) {
        let i = choose|i: int| 0 <= i < favs.len() && favs[i] == x;
        favs.lemma_filter_contains(other_than(item), i);
    }
    if r.contains(x) {
        let j = choose|j: int| 0 <= j < r.len() && r[j] == x;
        if j < kept.len() {
            assert(kept[j] == x);
        }
    }
    if kept.contains(x) {
        let j = choose|j: int| 0 <= j < kept.len() && kept[j] == x;
        assert(r[j] == x);
    }
    if x == item && favorite {
        assert(r[kept.len() as int] == x);
    }
}

/// Whether an entry is a favorite of the caller, or `None` when the caller
/// is not registered (and so has no favorites to toggle).
pub open spec fn favorite_flag_of(user: Option<User>, item: ItemId) -> Option<bool> {
    match user {
        Some(u) => Some(u.favorite_cocktails@.contains(item)),
        None => None,
    }
}

impl User {
    /// Whether `item` is among this user's favorites.
    pub fn is_favorite(&self, item: &ItemId) -> (r: bool)
        ensures
            r == self.favorite_cocktails@.contains(*item),
    {
        let mut i: usize = 0;
        while i < self.favorite_cocktails.len()
            invariant
                i <= self.favorite_cocktails@.len(),
                forall|j: int| 0 <= j < i ==> self.favorite_cocktails@[j] != *item,
            decreases self.favorite_cocktails@.len() - i,
        {
            if self.favorite_cocktails[i] == *item {
                return true;
            }
            i = i + 1;
        }
        false
    }

    /// Marks or unmarks `item` as a favorite (see `favorites_after`).
    pub fn set_favorite(&mut self, item: ItemId, favorite: bool)
        ensures
            final(self).id == old(self).id,
            final(self).telegram_id == old(self).telegram_id,
            final(self).favorite_cocktails@ == favorites_after(
                old(self).favorite_cocktails@,
                item,
                favorite,
            ),
    {
        let ghost before = self.favorite_cocktails@;
        let mut kept: Vec<ItemId> = Vec::new();
        let mut i: usize = 0;
        while i < self.favorite_cocktails.len()
            invariant
                i <= self.favorite_cocktails@.len(),
                self.favorite_cocktails@ == before,
                kept@ == before.take(i as int).filter(other_than(item)),
            decreases self.favorite_cocktails@.len() - i,
        {
            let x = self.favorite_cocktails[i];
            proof {
                assert(before.take(i as int + 1) =~= before.take(i as int).push(x));
                before.take(i as int).lemma_filter_push(x, other_than(item));
            }
            if x != item {
                kept.push(x);
            }
            i = i + 1;
        }
        assert(before.take(i as int) =~= before);
        if favorite {
            kept.push(item);
        }
        assert(kept@ =~= favorites_after(before, item, favorite));
        self.favorite_cocktails = kept;
    }
}

/// Whether `item` is a favorite of `user`; `None` when there is no user.
pub fn favorite_flag(user: &Option<User>, item: &ItemId) -> (r: Option<bool>)
    ensures
        r == favorite_flag_of(*user, *item),
{
    match user {
        Some(u) => Some(u.is_favorite(item)),
        None => None,
    }
}

} // verus!
