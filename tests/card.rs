use cocktail_bot::card::render_card_text;
use cocktail_bot::domain::{Cocktail, CocktailItem, Recipe, Tag};
use cocktail_bot::item_id::ItemId;

fn item(name: &str, count: i32, unit: &str) -> CocktailItem {
    CocktailItem { name: name.to_string(), count, unit: unit.to_string() }
}

#[test]
fn card_text_escapes_and_numbers() {
    let c = Cocktail {
        id: ItemId(1),
        url: None,
        name: Some("B-52".to_string()),
        russian_name: "Б-52".to_string(),
        country_of_origin: None,
        history: Some("Из Канады (1977)".to_string()),
        tags: Some(vec![Tag { name: "крепкий шот".to_string() }, Tag { name: "slammer".to_string() }]),
        tools: Some(vec![item("Шот", 1, "шт.")]),
        composition_elements: Some(vec![item("Калуа", 20, "мл"), item("Лёд", -1, "")]),
        recipe: Some(Recipe { steps: vec!["Налить.".to_string(), "Поджечь!".to_string()] }),
    };
    let want = "🍸*Коктейль:* Б\\-52\n\
                *Английское название:* B\\-52\n\
                \n*Ингредиенты:*\n\
                👉 Калуа 20мл\n\
                👉 Лёд -1\n\
                \n*Требуемые инструменты:*\n\
                👉 Шот 1шт\\.\n\
                \n*Способ приготовления:*\n\
                1\\. Налить\\.\n\
                2\\. Поджечь\\!\n\
                \n*История для этого коктейля:*\n\
                Из Канады \\(1977\\)\
                \n\n*Теги:*\n\
                \\#крепкий\\_шот \\#slammer ";
    assert_eq!(render_card_text(&c), want);
}

#[test]
fn card_text_leaves_missing_parts_empty() {
    let c = Cocktail {
        id: ItemId(2),
        url: None,
        name: None,
        russian_name: "Вода".to_string(),
        country_of_origin: None,
        history: None,
        tags: None,
        tools: None,
        composition_elements: None,
        recipe: None,
    };
    let want = "🍸*Коктейль:* Вода\n*Английское название:* \n\n*Ингредиенты:*\n\n*Требуемые инструменты:*\n\n*Способ приготовления:*\n\n*История для этого коктейля:*\n\n\n*Теги:*\n";
    assert_eq!(render_card_text(&c), want);
}
