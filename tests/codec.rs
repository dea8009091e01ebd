use cocktail_bot::commands::{EncodeError, ListCoctailsSource, MenuCommands, MAX_TOKEN_LEN};
use cocktail_bot::item_id::ItemId;
use cocktail_bot::keyboards::list_page_command;
use cocktail_bot::pagination::PageNumber;

const ID: ItemId = ItemId(0xa1a2a3a4b1b2c1c2d1d2d3d4d5d6d7d8);
const ID_TEXT: &str = "a1a2a3a4-b1b2-c1c2-d1d2-d3d4d5d6d7d8";

fn detail(back: MenuCommands) -> MenuCommands {
    let back_list_page = back.list_page();
    MenuCommands::SearchById { item_id: ID, back: Box::new(back), back_list_page }
}

fn round_trip(c: MenuCommands) {
    let token = c.encode().expect("a well formed command encodes");
    assert!(token.len() <= MAX_TOKEN_LEN);
    assert_eq!(MenuCommands::parse(&token), c, "token {token}");
}

#[test]
fn item_id_text_is_hyphenated_lowercase() {
    assert_eq!(ID.to_text(), ID_TEXT);
    assert_eq!(ItemId(0).to_text(), "00000000-0000-0000-0000-000000000000");
    assert_eq!(ItemId::parse(ID_TEXT), Some(ID));
}

#[test]
fn item_id_rejects_other_forms() {
    assert_eq!(ItemId::parse("A1A2A3A4-B1B2-C1C2-D1D2-D3D4D5D6D7D8"), None);
    assert_eq!(ItemId::parse("a1a2a3a4b1b2c1c2d1d2d3d4d5d6d7d8"), None);
    assert_eq!(ItemId::parse("{a1a2a3a4-b1b2-c1c2-d1d2-d3d4d5d6d7d8}"), None);
    assert_eq!(ItemId::parse("a1a2a3a4-b1b2-c1c2-d1d2-d3d4d5d6d7dg"), None);
    assert_eq!(ItemId::parse(""), None);
}

#[test]
fn simple_tokens() {
    assert_eq!(MenuCommands::get_main_menu_command_string(), "mam");
    assert_eq!(MenuCommands::get_cocktails_list_command_string(&PageNumber(3)), "col 3");
    assert_eq!(MenuCommands::get_favorite_cocktails_command_string(&PageNumber(0)), "shf 0");
    assert_eq!(
        MenuCommands::get_cocktail_pages_command_string(&3, &MenuCommands::CocktailsList(2)),
        "cop 3 col 2"
    );
    assert_eq!(MenuCommands::SearchByName.encode(), Ok("sbn".to_string()));
    assert_eq!(MenuCommands::Unknown.encode(), Ok("unk".to_string()));
    assert_eq!(
        MenuCommands::CocktailsListByName(12).encode(),
        Ok("cbn 12".to_string())
    );
}

#[test]
fn nested_tokens_carry_their_back_command() {
    assert_eq!(
        MenuCommands::get_cocktail_by_id_command_string(&ID, &MenuCommands::CocktailsList(2)),
        Ok(format!("sbi {ID_TEXT} col 2"))
    );
    assert_eq!(
        MenuCommands::get_add_cocktail_to_favourite_command_string(
            &ID,
            &MenuCommands::ShowFavorites(4)
        ),
        Ok(format!("atf {ID_TEXT} shf 4"))
    );
    assert_eq!(
        MenuCommands::get_remove_cocktail_from_favourite_command_string(
            &ID,
            &MenuCommands::MainMenu
        ),
        Ok(format!("rff {ID_TEXT} mam"))
    );
}

#[test]
fn every_kind_round_trips() {
    let flat = vec![
        MenuCommands::MainMenu,
        MenuCommands::CocktailsList(0),
        MenuCommands::CocktailsList(u64::MAX),
        MenuCommands::CocktailsListByName(7),
        MenuCommands::SearchByName,
        MenuCommands::Register,
        MenuCommands::ProfilePage,
        MenuCommands::RegisterConfirmation,
        MenuCommands::RemoveAccount,
        MenuCommands::RemoveAccountConfirmation,
        MenuCommands::ShowFavorites(5),
        MenuCommands::Unknown,
    ];
    for c in &flat {
        round_trip(c.clone());
    }
    for back in flat {
        round_trip(MenuCommands::CocktailsPages { total_pages: 9, back: Box::new(back.clone()) });
        if back.list_page().map_or(true, |p| p < 1_000_000) {
            round_trip(detail(back.clone()));
            round_trip(MenuCommands::AddToFavorite { item_id: ID, back: Box::new(back.clone()) });
            round_trip(MenuCommands::RemoveFromFavorite { item_id: ID, back: Box::new(back) });
        }
    }
}

#[test]
fn parse_tolerates_extra_whitespace() {
    assert_eq!(MenuCommands::parse("col   5  "), MenuCommands::CocktailsList(5));
    assert_eq!(MenuCommands::parse("col\t5"), MenuCommands::CocktailsList(5));
    assert_eq!(MenuCommands::parse("col5"), MenuCommands::CocktailsList(5));
    assert_eq!(MenuCommands::parse("mam "), MenuCommands::MainMenu);
    assert_eq!(
        MenuCommands::parse(&format!("sbi  {ID_TEXT}   col 2")),
        detail(MenuCommands::CocktailsList(2))
    );
}

#[test]
fn malformed_tokens_read_as_unknown() {
    for t in [
        "",
        "ma",
        "xyz",
        "col",
        "col x",
        "col 1 2",
        "col -1",
        "col 18446744073709551616",
        "mam 1",
        "sbi not-a-uuid col 1",
        "sbi a1a2a3a4-b1b2-c1c2-d1d2-d3d4d5d6d7d8",
        "sbi a1a2a3a4-b1b2-c1c2-d1d2-d3d4d5d6d7d8 col",
        "sbi a1a2a3a4-b1b2-c1c2-d1d2-d3d4d5d6d7d8 coll 1",
        "cop x col 1",
        "atf a1a2a3a4-b1b2-c1c2-d1d2-d3d4d5d6d7d8 xyz",
    ] {
        assert_eq!(MenuCommands::parse(t), MenuCommands::Unknown, "token {t:?}");
    }
}

#[test]
fn largest_page_number_parses() {
    assert_eq!(
        MenuCommands::parse("col 18446744073709551615"),
        MenuCommands::CocktailsList(u64::MAX)
    );
    assert_eq!(MenuCommands::parse("shf 007"), MenuCommands::ShowFavorites(7));
}

#[test]
fn back_commands_nest_one_level_only() {
    let deep = MenuCommands::CocktailsPages {
        total_pages: 2,
        back: Box::new(detail(MenuCommands::CocktailsList(1))),
    };
    assert_eq!(deep.encode(), Err(EncodeError::InvariantViolation));
    let token = format!("atf {ID_TEXT} sbi {ID_TEXT} col 1");
    assert_eq!(MenuCommands::parse(&token), MenuCommands::Unknown);
}

#[test]
fn detail_page_must_match_its_back_command() {
    let c = MenuCommands::SearchById {
        item_id: ID,
        back: Box::new(MenuCommands::CocktailsList(2)),
        back_list_page: Some(5),
    };
    assert_eq!(c.encode(), Err(EncodeError::InvariantViolation));
}

#[test]
fn token_over_the_transport_limit_fails_to_encode() {
    // "sbi " + 36 + " col " + 20 digits is 65 characters.
    let long = detail(MenuCommands::CocktailsList(10_000_000_000_000_000_000));
    assert_eq!(long.encode(), Err(EncodeError::TokenTooLong));
    assert_eq!(
        MenuCommands::get_add_cocktail_to_favourite_command_string(
            &ID,
            &MenuCommands::CocktailsListByName(u64::MAX)
        ),
        Err(EncodeError::TokenTooLong)
    );
    // One digit fewer fits exactly.
    let fits = detail(MenuCommands::CocktailsList(1_000_000_000_000_000_000));
    assert_eq!(fits.encode().map(|t| t.len()), Ok(64));
}

#[test]
fn list_page_constructor_follows_the_source() {
    assert_eq!(list_page_command(ListCoctailsSource::Catalog, 1), MenuCommands::CocktailsList(1));
    assert_eq!(list_page_command(ListCoctailsSource::Favorites, 1), MenuCommands::ShowFavorites(1));
    assert_eq!(
        list_page_command(ListCoctailsSource::SearchResults, 1),
        MenuCommands::CocktailsListByName(1)
    );
}
