use cocktail_bot::commands::{ListCoctailsSource, MenuCommands};
use cocktail_bot::dialogue::{on_interaction, Action, Incoming, State};
use cocktail_bot::domain::{Cocktail, CocktailsPaged, User};
use cocktail_bot::item_id::ItemId;
use cocktail_bot::keyboards::{
    get_cocktail_card_navigate_keyboard, get_cocktail_pages_keyboard, get_cocktails_list_keyboard,
    get_main_menu_keyboard, get_profile_page_keyboard, get_register_confirmation_keyboard,
    get_remove_user_confirmation_keyboard, Button, ButtonLabel, Keyboard,
};
use cocktail_bot::pagination::{compute, PageNumber};

fn entry(n: u128, name: &str) -> Cocktail {
    Cocktail {
        id: ItemId(n),
        url: None,
        name: None,
        russian_name: name.to_string(),
        country_of_origin: None,
        history: None,
        tags: None,
        tools: None,
        composition_elements: None,
        recipe: None,
    }
}

fn btn(label: ButtonLabel, command: MenuCommands) -> Button {
    Button { label, command }
}

fn nav_labels(kb: &Keyboard) -> Vec<ButtonLabel> {
    let nav = &kb.rows[kb.rows.len() - 2];
    nav.iter().map(|b| b.label.clone()).collect()
}

fn press(state: &State, command: &MenuCommands) -> Action {
    let token = command.encode().expect("button tokens encode");
    on_interaction(state, &Incoming::Button(token)).action
}

#[test]
fn pages_of_twenty_five_entries() {
    let info = compute(25, 10, 0);
    assert_eq!(info.total_pages, 3);
    assert!(info.is_first && !info.is_last);
    assert_eq!((info.human_current, info.human_total), (1, 3));
    let last = compute(25, 10, 2);
    assert!(!last.is_first && last.is_last);
    assert_eq!(last.human_current, 3);
}

#[test]
fn exact_multiple_keeps_a_trailing_page() {
    let info = compute(20, 10, 0);
    assert_eq!(info.total_pages, 3);
    assert!(!compute(20, 10, 1).is_last);
    assert!(compute(20, 10, 2).is_last);
}

#[test]
fn empty_list_has_one_page_that_is_first_and_last() {
    let info = compute(0, 10, 0);
    assert_eq!(info.total_pages, 1);
    assert!(info.is_first && info.is_last);
}

#[test]
fn exactly_one_last_page() {
    for (total, size) in [(0u64, 1u64), (1, 1), (9, 10), (10, 10), (25, 10), (99, 7)] {
        let pages = compute(total, size, 0).total_pages;
        let lasts = (0..pages).filter(|p| compute(total, size, *p).is_last).count();
        assert_eq!(lasts, 1, "total {total} size {size}");
        assert!(compute(total, size, pages - 1).is_last);
    }
}

#[test]
fn stale_page_is_shown_as_the_last() {
    let info = compute(25, 10, 7);
    assert_eq!(info.current, 2);
    assert!(info.is_last);
    assert_eq!(compute(25, 10, u64::MAX).human_current, 3);
}

#[test]
fn page_number_steps() {
    assert_eq!(PageNumber(4).next(), PageNumber(5));
    assert_eq!(PageNumber(4).previous(), PageNumber(3));
    assert_eq!(PageNumber(0).previous(), PageNumber(0));
    assert_eq!(PageNumber(0).human_readable_page_number(), PageNumber(1));
}

#[test]
fn navigation_buttons_of_twenty_five_entries() {
    let paged = CocktailsPaged { items: vec![], total_count: 25 };
    let counter = |c| ButtonLabel::PageCounter { current: c, total: 3 };
    let kb0 = get_cocktails_list_keyboard(&paged, &PageNumber(0), &10, ListCoctailsSource::Catalog);
    assert_eq!(nav_labels(&kb0), vec![counter(1), ButtonLabel::Next]);
    let kb1 = get_cocktails_list_keyboard(&paged, &PageNumber(1), &10, ListCoctailsSource::Catalog);
    assert_eq!(nav_labels(&kb1), vec![ButtonLabel::Previous, counter(2), ButtonLabel::Next]);
    let kb2 = get_cocktails_list_keyboard(&paged, &PageNumber(2), &10, ListCoctailsSource::Catalog);
    assert_eq!(nav_labels(&kb2), vec![ButtonLabel::Previous, counter(3)]);
}

#[test]
fn list_keyboard_layout() {
    let paged = CocktailsPaged { items: vec![entry(1, "Мохито"), entry(2, "Негрони")], total_count: 25 };
    let kb = get_cocktails_list_keyboard(&paged, &PageNumber(1), &10, ListCoctailsSource::Catalog);
    let detail = |n: u128| MenuCommands::SearchById {
        item_id: ItemId(n),
        back: Box::new(MenuCommands::CocktailsList(1)),
        back_list_page: Some(1),
    };
    let want = Keyboard {
        rows: vec![
            vec![btn(ButtonLabel::Title("Мохито".to_string()), detail(1))],
            vec![btn(ButtonLabel::Title("Негрони".to_string()), detail(2))],
            vec![
                btn(ButtonLabel::Previous, MenuCommands::CocktailsList(0)),
                btn(
                    ButtonLabel::PageCounter { current: 2, total: 3 },
                    MenuCommands::CocktailsPages {
                        total_pages: 3,
                        back: Box::new(MenuCommands::CocktailsList(1)),
                    },
                ),
                btn(ButtonLabel::Next, MenuCommands::CocktailsList(2)),
            ],
            vec![btn(ButtonLabel::Back, MenuCommands::MainMenu)],
        ],
    };
    assert_eq!(kb, want);
}

fn mentions(c: &MenuCommands, f: &dyn Fn(&MenuCommands) -> bool) -> bool {
    f(c) || match c {
        MenuCommands::SearchById { back, .. }
        | MenuCommands::CocktailsPages { back, .. }
        | MenuCommands::AddToFavorite { back, .. }
        | MenuCommands::RemoveFromFavorite { back, .. } => f(back),
        _ => false,
    }
}

#[test]
fn catalog_and_favorites_lists_never_mix() {
    let paged = CocktailsPaged { items: vec![entry(1, "a"), entry(2, "b")], total_count: 40 };
    for p in 0..5 {
        let catalog = get_cocktails_list_keyboard(&paged, &PageNumber(p), &10, ListCoctailsSource::Catalog);
        let favorites =
            get_cocktails_list_keyboard(&paged, &PageNumber(p), &10, ListCoctailsSource::Favorites);
        for b in catalog.rows.iter().flatten() {
            assert!(!mentions(&b.command, &|c| matches!(c, MenuCommands::ShowFavorites(_))));
        }
        for b in favorites.rows.iter().flatten() {
            assert!(!mentions(&b.command, &|c| matches!(c, MenuCommands::CocktailsList(_))));
        }
    }
}

#[test]
fn page_picker_rows_of_four() {
    let kb = get_cocktail_pages_keyboard(&6, &MenuCommands::ShowFavorites(3));
    assert_eq!(kb.rows.len(), 2);
    assert_eq!(kb.rows[0].len(), 4);
    assert_eq!(kb.rows[1].len(), 2);
    assert_eq!(kb.rows[1][1], btn(ButtonLabel::Page(6), MenuCommands::ShowFavorites(5)));
    assert_eq!(kb.rows[0][0], btn(ButtonLabel::Page(1), MenuCommands::ShowFavorites(0)));
    let catalog = get_cocktail_pages_keyboard(&4, &MenuCommands::MainMenu);
    assert_eq!(catalog.rows.len(), 1);
    assert_eq!(catalog.rows[0][3], btn(ButtonLabel::Page(4), MenuCommands::CocktailsList(3)));
    assert!(get_cocktail_pages_keyboard(&0, &MenuCommands::MainMenu).rows.is_empty());
}

#[test]
fn detail_keyboard_buttons() {
    let back = MenuCommands::ShowFavorites(2);
    let id = ItemId(9);
    let none = get_cocktail_card_navigate_keyboard(&back, &id, &None);
    assert_eq!(none.rows, vec![vec![btn(ButtonLabel::Back, back.clone())]]);
    let on = get_cocktail_card_navigate_keyboard(&back, &id, &Some(true));
    assert_eq!(
        on.rows[0][1],
        btn(
            ButtonLabel::RemoveFromFavorites,
            MenuCommands::RemoveFromFavorite { item_id: id, back: Box::new(back.clone()) }
        )
    );
    let off = get_cocktail_card_navigate_keyboard(&back, &id, &Some(false));
    assert_eq!(
        off.rows[0][1],
        btn(
            ButtonLabel::AddToFavorites,
            MenuCommands::AddToFavorite { item_id: id, back: Box::new(back) }
        )
    );
}

#[test]
fn menus() {
    let registered = get_main_menu_keyboard(&true);
    assert_eq!(registered.rows.len(), 3);
    assert_eq!(registered.rows[0][0].command, MenuCommands::CocktailsList(0));
    assert_eq!(registered.rows[1][0].command, MenuCommands::SearchByName);
    assert_eq!(registered.rows[2][0].command, MenuCommands::ProfilePage);
    let guest = get_main_menu_keyboard(&false);
    assert_eq!(guest.rows[2][0], btn(ButtonLabel::Registration, MenuCommands::RegisterConfirmation));
    let profile = get_profile_page_keyboard();
    assert_eq!(profile.rows[0][0].command, MenuCommands::ShowFavorites(0));
    assert_eq!(profile.rows[1][0].command, MenuCommands::RemoveAccountConfirmation);
    assert_eq!(profile.rows[2][0].command, MenuCommands::MainMenu);
    let reg = get_register_confirmation_keyboard();
    assert_eq!(reg.rows[0][0].command, MenuCommands::Register);
    assert_eq!(reg.rows[1][0].command, MenuCommands::MainMenu);
    let rm = get_remove_user_confirmation_keyboard();
    assert_eq!(rm.rows[0][0].command, MenuCommands::RemoveAccount);
    assert_eq!(rm.rows[1][0].command, MenuCommands::ProfilePage);
}

#[test]
fn back_from_detail_returns_to_the_same_list_page() {
    let paged = CocktailsPaged { items: vec![entry(5, "Дайкири")], total_count: 30 };
    let list = get_cocktails_list_keyboard(&paged, &PageNumber(2), &10, ListCoctailsSource::Catalog);
    let open_detail = list.rows[0][0].command.clone();
    let (item_id, back) = match press(&State::Start, &open_detail) {
        Action::ShowDetail { item_id, back } => (item_id, back),
        other => panic!("unexpected {other:?}"),
    };
    assert_eq!(item_id, ItemId(5));
    let detail = get_cocktail_card_navigate_keyboard(&back, &item_id, &Some(false));
    let back_button = detail.rows[0][0].command.clone();
    assert_eq!(back_button, MenuCommands::CocktailsList(2));
    assert_eq!(
        press(&State::Start, &back_button),
        Action::ShowList { source: ListCoctailsSource::Catalog, page: 2, name_filter: None }
    );
}

#[test]
fn toggling_favorite_twice_restores_the_detail_view() {
    let id = ItemId(77);
    let back = MenuCommands::ShowFavorites(1);
    let mut user = User { id: 1, telegram_id: 42, favorite_cocktails: vec![ItemId(3), id, ItemId(4)] };
    let start = get_cocktail_card_navigate_keyboard(&back, &id, &Some(user.is_favorite(&id)));
    let mut view = start.clone();
    for _ in 0..2 {
        let toggle = view.rows[0][1].command.clone();
        match press(&State::Start, &toggle) {
            Action::SetFavorite { item_id, favorite, back: b } => {
                user.set_favorite(item_id, favorite);
                view = get_cocktail_card_navigate_keyboard(&b, &item_id, &Some(user.is_favorite(&item_id)));
            }
            other => panic!("unexpected {other:?}"),
        }
    }
    assert_eq!(view, start);
    assert_eq!(user.favorite_cocktails, vec![ItemId(3), ItemId(4), id]);
}

#[test]
fn search_dialogue() {
    let out = on_interaction(&State::Start, &Incoming::Button("sbn".to_string()));
    assert_eq!(out.next_state, Some(State::ReceiveCocktailName));
    assert_eq!(out.action, Action::AskSearchText);
    let waiting = State::ReceiveCocktailName;
    let out = on_interaction(&waiting, &Incoming::NonText);
    assert_eq!((out.next_state, out.action), (None, Action::AskSearchTextAgain));
    let out = on_interaction(&waiting, &Incoming::Text("мохито".to_string()));
    let found = State::ReceivedCocktailName { cocktail_name: "мохито".to_string() };
    assert_eq!(out.next_state, Some(found.clone()));
    assert_eq!(
        out.action,
        Action::ShowList {
            source: ListCoctailsSource::SearchResults,
            page: 0,
            name_filter: Some("мохито".to_string())
        }
    );
    let out = on_interaction(&found, &Incoming::Button("cbn 1".to_string()));
    assert_eq!(
        out.action,
        Action::ShowList {
            source: ListCoctailsSource::SearchResults,
            page: 1,
            name_filter: Some("мохито".to_string())
        }
    );
    let out = on_interaction(&found, &Incoming::Button("mam".to_string()));
    assert_eq!(out.next_state, Some(State::Start));
    assert_eq!(out.action, Action::ShowMainMenu { edit_message: true });
}

#[test]
fn buttons_work_while_waiting_for_text() {
    let out = on_interaction(&State::ReceiveCocktailName, &Incoming::Button("col 3".to_string()));
    assert_eq!(out.next_state, None);
    assert_eq!(
        out.action,
        Action::ShowList { source: ListCoctailsSource::Catalog, page: 3, name_filter: None }
    );
}

#[test]
fn idle_dialogue_ignores_text_and_bad_tokens() {
    let out = on_interaction(&State::Start, &Incoming::Text("hello".to_string()));
    assert_eq!((out.next_state, out.action), (None, Action::Ignore));
    let out = on_interaction(&State::Start, &Incoming::Button("zzz 1".to_string()));
    assert_eq!((out.next_state, out.action), (None, Action::Ignore));
    let out = on_interaction(&State::Start, &Incoming::Button("cbn 0".to_string()));
    assert_eq!(out.action, Action::Ignore);
    let out = on_interaction(&State::Start, &Incoming::MenuCommand);
    assert_eq!(out.action, Action::ShowMainMenu { edit_message: false });
}

#[test]
fn account_buttons() {
    let cases = [
        ("reg", Action::RegisterUser),
        ("rec", Action::ShowRegisterConfirmation),
        ("prp", Action::ShowProfile),
        ("rac", Action::ShowRemoveConfirmation),
        ("rea", Action::RemoveUser),
    ];
    for (token, action) in cases {
        assert_eq!(on_interaction(&State::Start, &Incoming::Button(token.to_string())).action, action);
    }
    let out = on_interaction(&State::Start, &Incoming::Button("cop 4 shf 1".to_string()));
    assert_eq!(
        out.action,
        Action::ShowPagePicker { total_pages: 4, back: MenuCommands::ShowFavorites(1) }
    );
}
