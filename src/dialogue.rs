//! The per-conversation dialogue state and the dispatcher: from the state
//! and one incoming interaction to the next state and the action to perform.
//!
//! The dialogue state only decides how free text is read; buttons are read
//! the same way in every state. The caller performs the action and stores
//! the next state only once the action has succeeded, so a failed action
//! leaves the state as it was.

use vstd::prelude::*;
use crate::commands::{ListCoctailsSource, MenuCommands};
use crate::decode::decode_token;
use crate::domain::{favorites_after, lemma_favorites_after};
use crate::item_id::ItemId;
use crate::keyboards::detail_rows;

verus! {

#[derive(Clone, Debug, PartialEq, Eq, Default)]
pub enum State {
    /// Browsing; free text is ignored.
    #[default]
    Start,
    /// Waiting for the text to search by.
    ReceiveCocktailName,
    /// Browsing the results of a search by `cocktail_name`.
    ReceivedCocktailName { cocktail_name: String },
}

/// One interaction that the transport delivers.
#[derive(Clone, Debug, PartialEq, Eq)]
pub enum Incoming {
    /// A button press, with the button's token.
    Button(String),
    /// A text message.
    Text(String),
    /// A message without text.
    NonText,
    /// The menu slash command.
    MenuCommand,
}

/// What the transport side does for an interaction.
#[derive(Clone, Debug, PartialEq, Eq)]
pub enum Action {
    /// Show the main menu, editing the pressed message or sending a new one.
    ShowMainMenu { edit_message: bool },
    /// Show a page of a list; a search list carries its search text.
    ShowList { source: ListCoctailsSource, page: u64, name_filter: Option<String> },
    /// Ask for the text to search by.
    AskSearchText,
    /// A message without text came while waiting for the search text.
    AskSearchTextAgain,
    /// Show an entry's detail view, which returns to `back`.
    ShowDetail { item_id: ItemId, back: MenuCommands },
    /// Show the page picker of a list with `total_pages` pages.
    ShowPagePicker { total_pages: u64, back: MenuCommands },
    /// Mark or unmark an entry as a favorite, then show its detail view again
    /// with the same `back`.
    SetFavorite { item_id: ItemId, favorite: bool, back: MenuCommands },
    ShowRegisterConfirmation,
    RegisterUser,
    ShowProfile,
    ShowRemoveConfirmation,
    RemoveUser,
    /// Nothing to do (an unreadable token, or text nobody asked for).
    Ignore,
}

#[derive(Clone, Debug, PartialEq, Eq)]
pub struct Outcome {
    /// The state to store once the action succeeded; `None` keeps the state.
    pub next_state: Option<State>,
    pub action: Action,
}

pub open spec fn keep(action: Action) -> Outcome {
    Outcome { next_state: None, action }
}

/// What pressing a button with command `c` does in state `state`.
pub open spec fn command_outcome(state: State, c: MenuCommands) -> Outcome {
    match c {
        MenuCommands::MainMenu => Outcome {
            next_state: Some(State::Start),
            action: Action::ShowMainMenu { edit_message: true },
        },
        MenuCommands::CocktailsList(p) => keep(
            Action::ShowList { source: ListCoctailsSource::Catalog, page: p, name_filter: None },
        ),
        MenuCommands::ShowFavorites(p) => keep(
            Action::ShowList { source: ListCoctailsSource::Favorites, page: p, name_filter: None },
        ),
        MenuCommands::CocktailsListByName(p) => match state {
            State::ReceivedCocktailName { cocktail_name } => keep(
                Action::ShowList {
                    source: ListCoctailsSource::SearchResults,
                    page: p,
                    name_filter: Some(cocktail_name),
                },
            ),
            _ => keep(Action::Ignore),
        },
        MenuCommands::SearchByName => Outcome {
            next_state: Some(State::ReceiveCocktailName),
            action: Action::AskSearchText,
        },
        MenuCommands::Register => keep(Action::RegisterUser),
        MenuCommands::ProfilePage => keep(Action::ShowProfile),
        MenuCommands::SearchById { item_id, back, .. } => keep(
            Action::ShowDetail { item_id, back: *back },
        ),
        MenuCommands::CocktailsPages { total_pages, back } => keep(
            Action::ShowPagePicker { total_pages, back: *back },
        ),
        MenuCommands::AddToFavorite { item_id, back } => keep(
            Action::SetFavorite { item_id, favorite: true, back: *back },
        ),
        MenuCommands::RemoveFromFavorite { item_id, back } => keep(
            Action::SetFavorite { item_id, favorite: false, back: *back },
        ),
        MenuCommands::RegisterConfirmation => keep(Action::ShowRegisterConfirmation),
        MenuCommands::RemoveAccount => keep(Action::RemoveUser),
        MenuCommands::RemoveAccountConfirmation => keep(Action::ShowRemoveConfirmation),
        MenuCommands::Unknown => keep(Action::Ignore),
    }
}

/// What an interaction does in state `state`.
pub open spec fn interaction_outcome(state: State, incoming: Incoming) -> Outcome {
    match incoming {
        Incoming::Button(token) => command_outcome(state, decode_token(token@)),
        Incoming::Text(text) => match state {
            State::ReceiveCocktailName => Outcome {
                next_state: Some(State::ReceivedCocktailName { cocktail_name: text }),
                action: Action::ShowList {
                    source: ListCoctailsSource::SearchResults,
                    page: 0,
                    name_filter: Some(text),
                },
            },
            _ => keep(Action::Ignore),
        },
        Incoming::NonText => match state {
            State::ReceiveCocktailName => keep(Action::AskSearchTextAgain),
            _ => keep(Action::Ignore),
        },
        Incoming::MenuCommand => keep(Action::ShowMainMenu { edit_message: false }),
    }
}

/// What pressing a button with command `c` does in state `state`.
pub fn dispatch_command(state: &State, c: MenuCommands) -> (r: Outcome)
    ensures
        r == command_outcome(*state, c),
{
    match c {
        MenuCommands::MainMenu => Outcome {
            next_state: Some(State::Start),
            action: Action::ShowMainMenu { edit_message: true },
        },
        MenuCommands::CocktailsList(p) => Outcome {
            next_state: None,
            action: Action::ShowList { source: ListCoctailsSource::Catalog, page: p, name_filter: None },
        },
        MenuCommands::ShowFavorites(p) => Outcome {
            next_state: None,
            action: Action::ShowList {
                source: ListCoctailsSource::Favorites,
                page: p,
                name_filter: None,
            },
        },
        MenuCommands::CocktailsListByName(p) => match state {
            State::ReceivedCocktailName { cocktail_name } => Outcome {
                next_state: None,
                action: Action::ShowList {
                    source: ListCoctailsSource::SearchResults,
                    page: p,
                    name_filter: Some(cocktail_name.clone()),
                },
            },
            _ => Outcome { next_state: None, action: Action::Ignore },
        },
        MenuCommands::SearchByName => Outcome {
            next_state: Some(State::ReceiveCocktailName),
            action: Action::AskSearchText,
        },
        MenuCommands::Register => Outcome { next_state: None, action: Action::RegisterUser },
        MenuCommands::ProfilePage => Outcome { next_state: None, action: Action::ShowProfile },
        MenuCommands::SearchById { item_id, back, .. } => Outcome {
            next_state: None,
            action: Action::ShowDetail { item_id, back: *back },
        },
        MenuCommands::CocktailsPages { total_pages, back } => Outcome {
            next_state: None,
            action: Action::ShowPagePicker { total_pages, back: *back },
        },
        MenuCommands::AddToFavorite { item_id, back } => Outcome {
            next_state: None,
            action: Action::SetFavorite { item_id, favorite: true, back: *back },
        },
        MenuCommands::RemoveFromFavorite { item_id, back } => Outcome {
            next_state: None,
            action: Action::SetFavorite { item_id, favorite: false, back: *back },
        },
        MenuCommands::RegisterConfirmation => Outcome {
            next_state: None,
            action: Action::ShowRegisterConfirmation,
        },
        MenuCommands::RemoveAccount => Outcome { next_state: None, action: Action::RemoveUser },
        MenuCommands::RemoveAccountConfirmation => Outcome {
            next_state: None,
            action: Action::ShowRemoveConfirmation,
        },
        MenuCommands::Unknown => Outcome { next_state: None, action: Action::Ignore },
    }
}

/// The dispatcher's entry point: what an interaction does in state `state`.
pub fn on_interaction(state: &State, incoming: &Incoming) -> (r: Outcome)
    ensures
        r == interaction_outcome(*state, *incoming),
{
    match incoming {
        Incoming::Button(token) => dispatch_command(state, MenuCommands::parse(token.as_str())),
        Incoming::Text(text) => match state {
            State::ReceiveCocktailName => Outcome {
                next_state: Some(State::ReceivedCocktailName { cocktail_name: text.clone() }),
                action: Action::ShowList {
                    source: ListCoctailsSource::SearchResults,
                    page: 0,
                    name_filter: Some(text.clone()),
                },
            },
            _ => Outcome { next_state: None, action: Action::Ignore },
        },
        Incoming::NonText => match state {
            State::ReceiveCocktailName => Outcome {
                next_state: None,
                action: Action::AskSearchTextAgain,
            },
            _ => Outcome { next_state: None, action: Action::Ignore },
        },
        Incoming::MenuCommand => Outcome {
            next_state: None,
            action: Action::ShowMainMenu { edit_message: false },
        },
    }
}

/// The detail view of `item` opened from `back` after its favorite toggle is
/// pressed once, when the caller's favorites are `favs`: the view's back
/// command and the caller's favorites afterwards.
pub open spec fn press_favorite_toggle(
    state: State,
    back: MenuCommands,
    item: ItemId,
    favs: Seq<ItemId>,
) -> (MenuCommands, Seq<ItemId>) {
    let toggle = detail_rows(back, item, Some(favs.contains(item)))[0][1].command;
    match command_outcome(state, toggle).action {
        Action::SetFavorite { item_id, favorite, back: b } => (
            b,
            favorites_after(favs, item_id, favorite),
        ),
        _ => (back, favs),
    }
}

/// Toggling an entry's favorite mark twice from its detail view brings the
/// view back to the same buttons, the same back command and the same set of
/// favorites.
pub proof fn lemma_toggle_twice(state: State, back: MenuCommands, item: ItemId, favs: Seq<ItemId>)
    ensures
        ({
            let (b1, f1) = press_favorite_toggle(state, back, item, favs);
            let (b2, f2) = press_favorite_toggle(state, b1, item, f1);
            &&& b2 == back
            &&& forall|x: ItemId| f2.contains(x) == favs.contains(x)
            &&& detail_rows(b2, item, Some(f2.contains(item))) == detail_rows(
                back,
                item,
                Some(favs.contains(item)),
            )
        }),
{
    let f0 = favs.contains(item);
    let (b1, f1) = press_favorite_toggle(state, back, item, favs);
    assert(b1 == back);
    assert(f1 == favorites_after(favs, item, !f0));
    lemma_favorites_after(favs, item, !f0, item);
    let (b2, f2) = press_favorite_toggle(state, b1, item, f1);
    assert(f2 == favorites_after(f1, item, f0));
    lemma_favorites_after(f1, item, f0, item);
    assert forall|x: ItemId| f2.contains(x) == favs.contains(x) by {
        lemma_favorites_after(favs, item, !f0, x);
        lemma_favorites_after(f1, item, f0, x);
    }
}

} // verus!
