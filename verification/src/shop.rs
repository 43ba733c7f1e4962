//! The shop catalog.

use vstd::prelude::*;

verus! {

/// One purchasable item as the shop API lists it.
#[derive(Debug)]
pub struct ShopItem {
    pub id: String,
    pub name: String,
    pub description: String,
    pub price: u32,
    pub max_quantity: u32,
}

/// The two catalog entries: the mean boost and the experience boost, at
/// the prices the purchases charge and the per-purchase limits.
pub fn get_shop_items() -> (r: Vec<ShopItem>)
    ensures
        r@.len() == 2,
        r@[0].id@ == "decimal"@ && r@[0].price == 250 && r@[0].max_quantity == 10,
        r@[0].name@ == "Décima Extra"@,
        r@[0].description@ == "Agrega 0.1 puntos a tu promedio general"@,
        r@[1].id@ == "experience"@ && r@[1].price == 150 && r@[1].max_quantity == 20,
        r@[1].name@ == "Experiencia Boost"@,
        r@[1].description@ == "Gana 100 XP instantáneos"@,
{
    let mut items: Vec<ShopItem> = Vec::new();
    items.push(ShopItem {
        id: String::from_str("decimal"),
        name: String::from_str("Décima Extra"),
        description: String::from_str("Agrega 0.1 puntos a tu promedio general"),
        price: 250,
        max_quantity: 10,
    });
    items.push(ShopItem {
        id: String::from_str("experience"),
        name: String::from_str("Experiencia Boost"),
        description: String::from_str("Gana 100 XP instantáneos"),
        price: 150,
        max_quantity: 20,
    });
    items
}

} // verus!
