//! Button layouts of every view. A keyboard is a list of rows of buttons;
//! each button carries a label (rendered to text by the transport side) and
//! the command that pressing it sends back.

use vstd::prelude::*;
use crate::commands::{
    ListCoctailsSource, MenuCommands, detail_command, is_flat, list_page, list_source_of,
    well_formed,
};
use crate::domain::{Cocktail, CocktailsPaged};
use crate::item_id::ItemId;
use crate::pagination::{PageInfo, PageNumber, compute, page_info, pageable};

verus! {

/// What a button shows.
#[derive(Clone, Debug, PartialEq, Eq)]
pub enum ButtonLabel {
    /// The name of a catalog entry.
    Title(String),
    CocktailList,
    SearchByName,
    ProfilePage,
    Registration,
    ConfirmRegistration,
    ConfirmAccountRemoval,
    ShowFavorites,
    RemoveAccount,
    Back,
    Previous,
    Next,
    /// `current/total`, one-based.
    PageCounter { current: u64, total: u64 },
    /// A one-based page number of the page picker.
    Page(u64),
    AddToFavorites,
    RemoveFromFavorites,
}

#[derive(Clone, Debug, PartialEq, Eq)]
pub struct Button {
    pub label: ButtonLabel,
    pub command: MenuCommands,
}

#[derive(Clone, Debug, PartialEq, Eq)]
pub struct Keyboard {
    pub rows: Vec<Vec<Button>>,
}

pub open spec fn rows_of(kb: Keyboard) -> Seq<Seq<Button>> {
    kb.rows@.map_values(|r: Vec<Button>| r@)
}

pub open spec fn button(label: ButtonLabel, command: MenuCommands) -> Button {
    Button { label, command }
}

/// The list page command of `source`.
pub fn list_page_command(source: ListCoctailsSource, page: u64) -> (r: MenuCommands)
    ensures
        r == list_page(source, page),
{
    match source {
        ListCoctailsSource::Catalog => MenuCommands::CocktailsList(page),
        ListCoctailsSource::Favorites => MenuCommands::ShowFavorites(page),
        ListCoctailsSource::SearchResults => MenuCommands::CocktailsListByName(page),
    }
}

// ---------- main menu, profile, confirmations ----------

/// A row of one button.
fn single(b: Button) -> (r: Vec<Button>)
    ensures
        r@ == seq![b],
{
    let mut r: Vec<Button> = Vec::new();
    r.push(b);
    assert(r@ =~= seq![b]);
    r
}

/// A keyboard of one-button rows.
fn column(buttons: Vec<Button>) -> (r: Keyboard)
    ensures
        rows_of(r) == Seq::new(buttons@.len(), |i: int| seq![buttons@[i]]),
{
    let mut rows: Vec<Vec<Button>> = Vec::new();
    let mut rest = buttons;
    let ghost all = rest@;
    while rest.len() > 0
        invariant
            rows@.len() + rest@.len() == all.len(),
            rest@ == all.skip(rows@.len() as int),
            forall|k: int| 0 <= k < rows@.len() ==> (#[trigger] rows@[k])@ == seq![all[k]],
        decreases rest@.len(),
    {
        let b = rest.remove(0);
        assert(rest@ =~= all.skip(rows@.len() as int + 1));
        assert(b == all[rows@.len() as int]);
        rows.push(single(b));
    }
    let kb = Keyboard { rows };
    assert(rows_of(kb) =~= Seq::new(all.len(), |i: int| seq![all[i]]));
    kb
}

pub open spec fn main_menu_rows(user_registered: bool) -> Seq<Seq<Button>> {
    seq![
        seq![button(ButtonLabel::CocktailList, MenuCommands::CocktailsList(0))],
        seq![button(ButtonLabel::SearchByName, MenuCommands::SearchByName)],
        if user_registered {
            seq![button(ButtonLabel::ProfilePage, MenuCommands::ProfilePage)]
        } else {
            seq![button(ButtonLabel::Registration, MenuCommands::RegisterConfirmation)]
        },
    ]
}

/// The main menu: the catalog, the search, and the profile page for a
/// registered user or the registration for anyone else.
pub fn get_main_menu_keyboard(user_registered: &bool) -> (r: Keyboard)
    ensures
        rows_of(r) == main_menu_rows(*user_registered),
{
    let last = if *user_registered {
        Button { label: ButtonLabel::ProfilePage, command: MenuCommands::ProfilePage }
    } else {
        Button { label: ButtonLabel::Registration, command: MenuCommands::RegisterConfirmation }
    };
    let mut bs: Vec<Button> = Vec::new();
    bs.push(Button { label: ButtonLabel::CocktailList, command: MenuCommands::CocktailsList(0) });
    bs.push(Button { label: ButtonLabel::SearchByName, command: MenuCommands::SearchByName });
    bs.push(last);
    let kb = column(bs);
    assert(rows_of(kb) =~= main_menu_rows(*user_registered));
    kb
}

pub open spec fn register_confirmation_rows() -> Seq<Seq<Button>> {
    seq![
        seq![button(ButtonLabel::ConfirmRegistration, MenuCommands::Register)],
        seq![button(ButtonLabel::Back, MenuCommands::MainMenu)],
    ]
}

pub fn get_register_confirmation_keyboard() -> (r: Keyboard)
    ensures
        rows_of(r) == register_confirmation_rows(),
{
    let mut bs: Vec<Button> = Vec::new();
    bs.push(Button { label: ButtonLabel::ConfirmRegistration, command: MenuCommands::Register });
    bs.push(Button { label: ButtonLabel::Back, command: MenuCommands::MainMenu });
    let kb = column(bs);
    assert(rows_of(kb) =~= register_confirmation_rows());
    kb
}

pub open spec fn remove_user_confirmation_rows() -> Seq<Seq<Button>> {
    seq![
        seq![button(ButtonLabel::ConfirmAccountRemoval, MenuCommands::RemoveAccount)],
        seq![button(ButtonLabel::Back, MenuCommands::ProfilePage)],
    ]
}

pub fn get_remove_user_confirmation_keyboard() -> (r: Keyboard)
    ensures
        rows_of(r) == remove_user_confirmation_rows(),
{
    let mut bs: Vec<Button> = Vec::new();
    bs.push(Button { label: ButtonLabel::ConfirmAccountRemoval, command: MenuCommands::RemoveAccount });
    bs.push(Button { label: ButtonLabel::Back, command: MenuCommands::ProfilePage });
    let kb = column(bs);
    assert(rows_of(kb) =~= remove_user_confirmation_rows());
    kb
}

pub open spec fn profile_page_rows() -> Seq<Seq<Button>> {
    seq![
        seq![button(ButtonLabel::ShowFavorites, MenuCommands::ShowFavorites(0))],
        seq![button(ButtonLabel::RemoveAccount, MenuCommands::RemoveAccountConfirmation)],
        seq![button(ButtonLabel::Back, MenuCommands::MainMenu)],
    ]
}

pub fn get_profile_page_keyboard() -> (r: Keyboard)
    ensures
        rows_of(r) == profile_page_rows(),
{
    let mut bs: Vec<Button> = Vec::new();
    bs.push(Button { label: ButtonLabel::ShowFavorites, command: MenuCommands::ShowFavorites(0) });
    bs.push(
        Button { label: ButtonLabel::RemoveAccount, command: MenuCommands::RemoveAccountConfirmation },
    );
    bs.push(Button { label: ButtonLabel::Back, command: MenuCommands::MainMenu });
    let kb = column(bs);
    assert(rows_of(kb) =~= profile_page_rows());
    kb
}

// ---------- list views ----------

/// The button of one entry of a list page: it opens the entry's detail
/// view, whose back command returns to this very page.
pub open spec fn item_button(item: Cocktail, source: ListCoctailsSource, page: u64) -> Button {
    button(ButtonLabel::Title(item.russian_name), detail_command(item.id, list_page(source, page)))
}

/// The navigation row: "previous" unless on the first page, the page
/// counter (which opens the page picker), and "next" unless on the last page.
pub open spec fn nav_row(info: PageInfo, source: ListCoctailsSource) -> Seq<Button> {
    (if info.is_first {
        Seq::empty()
    } else {
        seq![button(ButtonLabel::Previous, list_page(source, (info.current - 1) as u64))]
    }) + seq![
        button(
            ButtonLabel::PageCounter { current: info.human_current, total: info.human_total },
            MenuCommands::CocktailsPages {
                total_pages: info.total_pages,
                back: Box::new(list_page(source, info.current)),
            },
        ),
    ] + (if info.is_last {
        Seq::empty()
    } else {
        seq![button(ButtonLabel::Next, list_page(source, (info.current + 1) as u64))]
    })
}

/// A list page: one row per entry, the navigation row, and a row that goes
/// back to the main menu.
pub open spec fn list_rows(items: Seq<Cocktail>, info: PageInfo, source: ListCoctailsSource) -> Seq<
    Seq<Button>,
> {
    Seq::new(items.len(), |i: int| seq![item_button(items[i], source, info.current)]) + seq![
        nav_row(info, source),
        seq![button(ButtonLabel::Back, MenuCommands::MainMenu)],
    ]
}

/// A command that names no list page of another source than `source`.
pub open spec fn in_source(c: MenuCommands, source: ListCoctailsSource) -> bool {
    match list_source_of(c) {
        Some(s) => s == source,
        None => true,
    }
}

/// A command that, with its back command, stays within the lists of `source`.
pub open spec fn keeps_source(c: MenuCommands, source: ListCoctailsSource) -> bool {
    in_source(c, source) && match c {
        MenuCommands::SearchById { back, .. } => in_source(*back, source),
        MenuCommands::CocktailsPages { back, .. } => in_source(*back, source),
        MenuCommands::AddToFavorite { back, .. } => in_source(*back, source),
        MenuCommands::RemoveFromFavorite { back, .. } => in_source(*back, source),
        _ => true,
    }
}

/// Every button of a list page of `source` stays within the lists of
/// `source`: a catalog page never leads to a favorites page, and a
/// favorites page never to a catalog page.
pub proof fn lemma_list_rows_keep_source(
    items: Seq<Cocktail>,
    info: PageInfo,
    source: ListCoctailsSource,
)
    ensures
        forall|i: int, j: int|
            0 <= i < list_rows(items, info, source).len() && 0 <= j < list_rows(
                items,
                info,
                source,
            )[i].len() ==> keeps_source(#[trigger] list_rows(items, info, source)[i][j].command, source),
{
    let rows = list_rows(items, info, source);
    let n = items.len() as int;
    assert forall|i: int, j: int|
        0 <= i < rows.len() && 0 <= j < rows[i].len() implies keeps_source(
        #[trigger] rows[i][j].command,
        source,
    ) by {
        if i < n {
            assert(rows[i] == seq![item_button(items[i], source, info.current)]);
        } else if i == n {
            let nav = nav_row(info, source);
            assert(rows[i] == nav);
        } else {
            assert(rows[i] == seq![button(ButtonLabel::Back, MenuCommands::MainMenu)]);
        }
    }
}

/// Every button of a list page carries a command as this system builds it.
pub proof fn lemma_list_rows_well_formed(
    items: Seq<Cocktail>,
    info: PageInfo,
    source: ListCoctailsSource,
)
    ensures
        forall|i: int, j: int|
            0 <= i < list_rows(items, info, source).len() && 0 <= j < list_rows(
                items,
                info,
                source,
            )[i].len() ==> well_formed(#[trigger] list_rows(items, info, source)[i][j].command),
{
    let rows = list_rows(items, info, source);
    let n = items.len() as int;
    assert forall|i: int, j: int| 0 <= i < rows.len() && 0 <= j < rows[i].len() implies well_formed(
        #[trigger] rows[i][j].command,
    ) by {
        if i < n {
            assert(rows[i] == seq![item_button(items[i], source, info.current)]);
        } else if i == n {
            let nav = nav_row(info, source);
            assert(rows[i] == nav);
        } else {
            assert(rows[i] == seq![button(ButtonLabel::Back, MenuCommands::MainMenu)]);
        }
    }
}

/// The keyboard of a list page. A page beyond the last (from a stale token)
/// is shown as the last page.
pub fn get_cocktails_list_keyboard(
    cocktails_paged: &CocktailsPaged,
    current_page: &PageNumber,
    page_size: &u64,
    source: ListCoctailsSource,
) -> (r: Keyboard)
    requires
        pageable(cocktails_paged.total_count, *page_size),
    ensures
        rows_of(r) == list_rows(
            cocktails_paged.items@,
            page_info(cocktails_paged.total_count, *page_size, current_page.0),
            source,
        ),
        forall|i: int, j: int|
            0 <= i < rows_of(r).len() && 0 <= j < rows_of(r)[i].len() ==> keeps_source(
                #[trigger] rows_of(r)[i][j].command,
                source,
            ),
        forall|i: int, j: int|
            0 <= i < rows_of(r).len() && 0 <= j < rows_of(r)[i].len() ==> well_formed(
                #[trigger] rows_of(r)[i][j].command,
            ),
{
    let info = compute(cocktails_paged.total_count, *page_size, current_page.0);
    let items = &cocktails_paged.items;
    let mut rows: Vec<Vec<Button>> = Vec::new();
    let mut i: usize = 0;
    while i < items.len()
        invariant
            i <= items@.len(),
            rows@.len() == i,
            forall|k: int|
                0 <= k < i ==> (#[trigger] rows@[k])@ == seq![
                    item_button(items@[k], source, info.current),
                ],
        decreases items@.len() - i,
    {
        let item = &items[i];
        let back = list_page_command(source, info.current);
        let b = Button {
            label: ButtonLabel::Title(item.russian_name.clone()),
            command: MenuCommands::SearchById {
                item_id: item.id,
                back: Box::new(back),
                back_list_page: Some(info.current),
            },
        };
        assert(b == item_button(items@[i as int], source, info.current));
        rows.push(single(b));
        i = i + 1;
    }
    let mut nav: Vec<Button> = Vec::new();
    if !info.is_first {
        nav.push(
            Button {
                label: ButtonLabel::Previous,
                command: list_page_command(source, info.current - 1),
            },
        );
    }
    nav.push(
        Button {
            label: ButtonLabel::PageCounter { current: info.human_current, total: info.human_total },
            command: MenuCommands::CocktailsPages {
                total_pages: info.total_pages,
                back: Box::new(list_page_command(source, info.current)),
            },
        },
    );
    if !info.is_last {
        nav.push(
            Button { label: ButtonLabel::Next, command: list_page_command(source, info.current + 1) },
        );
    }
    assert(nav@ =~= nav_row(info, source));
    rows.push(nav);
    rows.push(single(Button { label: ButtonLabel::Back, command: MenuCommands::MainMenu }));
    let kb = Keyboard { rows };
    assert(rows_of(kb) =~= list_rows(items@, info, source)) by {
        let l = list_rows(items@, info, source);
        assert forall|k: int| 0 <= k < l.len() implies #[trigger] rows_of(kb)[k] == l[k] by {
            if k < items@.len() {
                assert(rows_of(kb)[k] == kb.rows@[k]@);
            }
        }
    }
    proof {
        lemma_list_rows_keep_source(items@, info, source);
        lemma_list_rows_well_formed(items@, info, source);
    }
    kb
}

// ---------- page picker ----------

/// The list page that the page picker of `source` opens.
pub open spec fn picker_target(source: MenuCommands, page: u64) -> MenuCommands {
    match list_source_of(source) {
        Some(s) => list_page(s, page),
        None => MenuCommands::CocktailsList(page),
    }
}

pub open spec fn picker_button(source: MenuCommands, k: int) -> Button {
    button(ButtonLabel::Page((k + 1) as u64), picker_target(source, k as u64))
}

pub open spec fn picker_row_count(total_pages: u64) -> int {
    (total_pages as int + 3) / 4
}

/// One button per page, numbered from 1, four to a row.
pub open spec fn picker_rows(total_pages: u64, source: MenuCommands) -> Seq<Seq<Button>> {
    Seq::new(
        picker_row_count(total_pages) as nat,
        |r: int|
            Seq::new(
                (if total_pages - 4 * r < 4 {
                    total_pages - 4 * r
                } else {
                    4
                }) as nat,
                |c: int| picker_button(source, 4 * r + c),
            ),
    )
}

fn picker_target_command(source: &MenuCommands, page: u64) -> (r: MenuCommands)
    ensures
        r == picker_target(*source, page),
{
    match source {
        MenuCommands::CocktailsListByName(_) => MenuCommands::CocktailsListByName(page),
        MenuCommands::ShowFavorites(_) => MenuCommands::ShowFavorites(page),
        _ => MenuCommands::CocktailsList(page),
    }
}

/// The page picker of a list with `total_pages` pages; `source` is the list
/// it was opened from.
pub fn get_cocktail_pages_keyboard(total_pages: &u64, source: &MenuCommands) -> (r: Keyboard)
    ensures
        rows_of(r) == picker_rows(*total_pages, *source),
{
    let total = *total_pages;
    let row_count: u64 = total / 4 + if total % 4 == 0 {
        0
    } else {
        1
    };
    assert(row_count == picker_row_count(total));
    let ghost want = picker_rows(total, *source);
    let mut rows: Vec<Vec<Button>> = Vec::new();
    let mut r: u64 = 0;
    while r < row_count
        invariant
            row_count == picker_row_count(total),
            r <= row_count,
            rows@.len() == r,
            want == picker_rows(total, *source),
            forall|k: int| 0 <= k < r ==> (#[trigger] rows@[k])@ == want[k],
        decreases row_count - r,
    {
        let start = 4 * r;
        let width: u64 = if total - start < 4 {
            total - start
        } else {
            4
        };
        let mut row: Vec<Button> = Vec::new();
        let mut c: u64 = 0;
        while c < width
            invariant
                start == 4 * r,
                start < total,
                width <= 4,
                start + width <= total,
                c <= width,
                row@ =~= Seq::new(c as nat, |j: int| picker_button(*source, start + j)),
            decreases width - c,
        {
            row.push(
                Button {
                    label: ButtonLabel::Page(start + c + 1),
                    command: picker_target_command(source, start + c),
                },
            );
            c = c + 1;
        }
        assert(row@ =~= want[r as int]);
        rows.push(row);
        r = r + 1;
    }
    let kb = Keyboard { rows };
    assert(rows_of(kb) =~= want);
    kb
}

// ---------- detail view ----------

/// The detail view's single row: a back button that returns to `back`
/// verbatim, and for a registered caller the button that toggles the entry
/// in the favorites.
pub open spec fn detail_rows(back: MenuCommands, item: ItemId, favorite: Option<bool>) -> Seq<
    Seq<Button>,
> {
    seq![
        seq![button(ButtonLabel::Back, back)] + match favorite {
            Some(true) => seq![
                button(
                    ButtonLabel::RemoveFromFavorites,
                    MenuCommands::RemoveFromFavorite { item_id: item, back: Box::new(back) },
                ),
            ],
            Some(false) => seq![
                button(
                    ButtonLabel::AddToFavorites,
                    MenuCommands::AddToFavorite { item_id: item, back: Box::new(back) },
                ),
            ],
            None => Seq::empty(),
        },
    ]
}

pub fn get_cocktail_card_navigate_keyboard(
    prev_page: &MenuCommands,
    cocktail_id: &ItemId,
    favorite: &Option<bool>,
) -> (r: Keyboard)
    ensures
        rows_of(r) == detail_rows(*prev_page, *cocktail_id, *favorite),
        is_flat(*prev_page) ==> forall|j: int|
            0 <= j < rows_of(r)[0].len() ==> well_formed(#[trigger] rows_of(r)[0][j].command),
{
    let mut row: Vec<Button> = Vec::new();
    row.push(Button { label: ButtonLabel::Back, command: prev_page.duplicate() });
    match favorite {
        Some(true) => {
            row.push(
                Button {
                    label: ButtonLabel::RemoveFromFavorites,
                    command: MenuCommands::RemoveFromFavorite {
                        item_id: *cocktail_id,
                        back: Box::new(prev_page.duplicate()),
                    },
                },
            );
        },
        Some(false) => {
            row.push(
                Button {
                    label: ButtonLabel::AddToFavorites,
                    command: MenuCommands::AddToFavorite {
                        item_id: *cocktail_id,
                        back: Box::new(prev_page.duplicate()),
                    },
                },
            );
        },
        None => {},
    }
    let mut rows: Vec<Vec<Button>> = Vec::new();
    rows.push(row);
    let kb = Keyboard { rows };
    assert(rows_of(kb) =~= detail_rows(*prev_page, *cocktail_id, *favorite)) by {
        assert(rows_of(kb)[0] =~= detail_rows(*prev_page, *cocktail_id, *favorite)[0]);
    }
    kb
}

} // verus!
