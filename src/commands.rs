//! Navigation commands and their token form.
//!
//! A token is a three-character prefix that names the command, followed by
//! its parameters, each preceded by one space. A command that carries a
//! "back" command (the view to return to) writes that command's own token as
//! its last parameters; back commands never carry a back command themselves.

use vstd::prelude::*;
use crate::decimal::{dec_text, lemma_dec_len_u64, push_dec};
use crate::item_id::{ItemId, uuid_text};
use crate::pagination::PageNumber;

verus! {

/// The longest token that the transport carries, in characters (tokens are ASCII).
pub const MAX_TOKEN_LEN: usize = 64;

/// The slash commands of the bot.
#[derive(Clone, Copy, Debug, PartialEq, Eq, Structural)]
pub enum MainCommands {
    /// Shows the main menu.
    Menu,
}

/// Which collection a list view pages through.
#[derive(Clone, Copy, Debug, PartialEq, Eq, Structural)]
pub enum ListCoctailsSource {
    /// The whole catalog.
    Catalog,
    /// The caller's favorite entries.
    Favorites,
    /// Entries whose name matches the search text kept in the dialogue state.
    SearchResults,
}

/// One action that a button or a slash command can ask for.
#[derive(Debug, PartialEq, Eq)]
pub enum MenuCommands {
    MainMenu,
    /// A page of the catalog list.
    CocktailsList(u64),
    /// A page of the search results list.
    CocktailsListByName(u64),
    /// Ask for the text to search by.
    SearchByName,
    Register,
    ProfilePage,
    /// The detail view of one entry; `back` is the view it was opened from and
    /// `back_list_page` the page of that view when it is a list.
    SearchById { item_id: ItemId, back: Box<MenuCommands>, back_list_page: Option<u64> },
    /// The page picker of a list with `total_pages` pages.
    CocktailsPages { total_pages: u64, back: Box<MenuCommands> },
    AddToFavorite { item_id: ItemId, back: Box<MenuCommands> },
    RemoveFromFavorite { item_id: ItemId, back: Box<MenuCommands> },
    RegisterConfirmation,
    RemoveAccount,
    RemoveAccountConfirmation,
    /// A page of the favorites list.
    ShowFavorites(u64),
    /// A token that could not be read.
    Unknown,
}

/// The variant of a command, without its parameters.
#[derive(Clone, Copy, Debug, PartialEq, Eq, Structural)]
pub enum CommandKind {
    MainMenu,
    CocktailsList,
    CocktailsListByName,
    SearchByName,
    Register,
    ProfilePage,
    SearchById,
    CocktailsPages,
    AddToFavorite,
    RemoveFromFavorite,
    RegisterConfirmation,
    RemoveAccount,
    RemoveAccountConfirmation,
    ShowFavorites,
    Unknown,
}

/// Why a command has no token.
#[derive(Clone, Copy, Debug, PartialEq, Eq, Structural)]
pub enum EncodeError {
    /// The command nests a back command inside a back command, or its list
    /// page disagrees with its back command.
    InvariantViolation,
    /// The token would be longer than `MAX_TOKEN_LEN`.
    TokenTooLong,
}

/// The prefix registry: the three characters that open each kind's token.
pub open spec fn kind_prefix(k: CommandKind) -> Seq<char> {
    match k {
        CommandKind::MainMenu => seq!['m', 'a', 'm'],
        CommandKind::CocktailsList => seq!['c', 'o', 'l'],
        CommandKind::CocktailsListByName => seq!['c', 'b', 'n'],
        CommandKind::SearchByName => seq!['s', 'b', 'n'],
        CommandKind::Register => seq!['r', 'e', 'g'],
        CommandKind::ProfilePage => seq!['p', 'r', 'p'],
        CommandKind::SearchById => seq!['s', 'b', 'i'],
        CommandKind::CocktailsPages => seq!['c', 'o', 'p'],
        CommandKind::AddToFavorite => seq!['a', 't', 'f'],
        CommandKind::RemoveFromFavorite => seq!['r', 'f', 'f'],
        CommandKind::RegisterConfirmation => seq!['r', 'e', 'c'],
        CommandKind::RemoveAccount => seq!['r', 'e', 'a'],
        CommandKind::RemoveAccountConfirmation => seq!['r', 'a', 'c'],
        CommandKind::ShowFavorites => seq!['s', 'h', 'f'],
        CommandKind::Unknown => seq!['u', 'n', 'k'],
    }
}

/// The kind whose prefix is `a b c`, if any.
pub open spec fn kind_of_chars(a: char, b: char, c: char) -> Option<CommandKind> {
    if a == 'm' && b == 'a' && c == 'm' {
        Some(CommandKind::MainMenu)
    } else if a == 'c' && b == 'o' && c == 'l' {
        Some(CommandKind::CocktailsList)
    } else if a == 'c' && b == 'b' && c == 'n' {
        Some(CommandKind::CocktailsListByName)
    } else if a == 's' && b == 'b' && c == 'n' {
        Some(CommandKind::SearchByName)
    } else if a == 'r' && b == 'e' && c == 'g' {
        Some(CommandKind::Register)
    } else if a == 'p' && b == 'r' && c == 'p' {
        Some(CommandKind::ProfilePage)
    } else if a == 's' && b == 'b' && c == 'i' {
        Some(CommandKind::SearchById)
    } else if a == 'c' && b == 'o' && c == 'p' {
        Some(CommandKind::CocktailsPages)
    } else if a == 'a' && b == 't' && c == 'f' {
        Some(CommandKind::AddToFavorite)
    } else if a == 'r' && b == 'f' && c == 'f' {
        Some(CommandKind::RemoveFromFavorite)
    } else if a == 'r' && b == 'e' && c == 'c' {
        Some(CommandKind::RegisterConfirmation)
    } else if a == 'r' && b == 'e' && c == 'a' {
        Some(CommandKind::RemoveAccount)
    } else if a == 'r' && b == 'a' && c == 'c' {
        Some(CommandKind::RemoveAccountConfirmation)
    } else if a == 's' && b == 'h' && c == 'f' {
        Some(CommandKind::ShowFavorites)
    } else if a == 'u' && b == 'n' && c == 'k' {
        Some(CommandKind::Unknown)
    } else {
        None
    }
}

/// The kind that a three-character field names, if any.
pub open spec fn kind_of_prefix(p: Seq<char>) -> Option<CommandKind> {
    if p.len() == 3 {
        kind_of_chars(p[0], p[1], p[2])
    } else {
        None
    }
}

/// Each prefix names its kind and no other.
pub proof fn lemma_kind_prefix(k: CommandKind)
    ensures
        kind_prefix(k).len() == 3,
        kind_of_prefix(kind_prefix(k)) == Some(k),
{
}

pub open spec fn kind_of(c: MenuCommands) -> CommandKind {
    match c {
        MenuCommands::MainMenu => CommandKind::MainMenu,
        MenuCommands::CocktailsList(_) => CommandKind::CocktailsList,
        MenuCommands::CocktailsListByName(_) => CommandKind::CocktailsListByName,
        MenuCommands::SearchByName => CommandKind::SearchByName,
        MenuCommands::Register => CommandKind::Register,
        MenuCommands::ProfilePage => CommandKind::ProfilePage,
        MenuCommands::SearchById { .. } => CommandKind::SearchById,
        MenuCommands::CocktailsPages { .. } => CommandKind::CocktailsPages,
        MenuCommands::AddToFavorite { .. } => CommandKind::AddToFavorite,
        MenuCommands::RemoveFromFavorite { .. } => CommandKind::RemoveFromFavorite,
        MenuCommands::RegisterConfirmation => CommandKind::RegisterConfirmation,
        MenuCommands::RemoveAccount => CommandKind::RemoveAccount,
        MenuCommands::RemoveAccountConfirmation => CommandKind::RemoveAccountConfirmation,
        MenuCommands::ShowFavorites(_) => CommandKind::ShowFavorites,
        MenuCommands::Unknown => CommandKind::Unknown,
    }
}

/// The list page command of `source`: one constructor per source.
pub open spec fn list_page(source: ListCoctailsSource, page: u64) -> MenuCommands {
    match source {
        ListCoctailsSource::Catalog => MenuCommands::CocktailsList(page),
        ListCoctailsSource::Favorites => MenuCommands::ShowFavorites(page),
        ListCoctailsSource::SearchResults => MenuCommands::CocktailsListByName(page),
    }
}

/// The page of a list page command.
pub open spec fn list_page_of(c: MenuCommands) -> Option<u64> {
    match c {
        MenuCommands::CocktailsList(p) => Some(p),
        MenuCommands::CocktailsListByName(p) => Some(p),
        MenuCommands::ShowFavorites(p) => Some(p),
        _ => None,
    }
}

/// The source of a list page command.
pub open spec fn list_source_of(c: MenuCommands) -> Option<ListCoctailsSource> {
    match c {
        MenuCommands::CocktailsList(_) => Some(ListCoctailsSource::Catalog),
        MenuCommands::CocktailsListByName(_) => Some(ListCoctailsSource::SearchResults),
        MenuCommands::ShowFavorites(_) => Some(ListCoctailsSource::Favorites),
        _ => None,
    }
}

/// A command that carries no back command.
pub open spec fn is_flat(c: MenuCommands) -> bool {
    match c {
        MenuCommands::SearchById { .. } => false,
        MenuCommands::CocktailsPages { .. } => false,
        MenuCommands::AddToFavorite { .. } => false,
        MenuCommands::RemoveFromFavorite { .. } => false,
        _ => true,
    }
}

/// A command as this system builds it: a back command is flat, and a detail
/// view's list page is the page of its back command.
pub open spec fn well_formed(c: MenuCommands) -> bool {
    match c {
        MenuCommands::SearchById { back, back_list_page, .. } => is_flat(*back)
            && back_list_page == list_page_of(*back),
        MenuCommands::CocktailsPages { back, .. } => is_flat(*back),
        MenuCommands::AddToFavorite { back, .. } => is_flat(*back),
        MenuCommands::RemoveFromFavorite { back, .. } => is_flat(*back),
        _ => true,
    }
}

/// The parameter fields of a command's token, in order.
pub open spec fn fields_of(c: MenuCommands) -> Seq<Seq<char>>
    decreases c,
{
    match c {
        MenuCommands::CocktailsList(p) => seq![dec_text(p as nat)],
        MenuCommands::CocktailsListByName(p) => seq![dec_text(p as nat)],
        MenuCommands::ShowFavorites(p) => seq![dec_text(p as nat)],
        MenuCommands::SearchById { item_id, back, .. } => seq![
            uuid_text(item_id.0),
            kind_prefix(kind_of(*back)),
        ] + fields_of(*back),
        MenuCommands::CocktailsPages { total_pages, back } => seq![
            dec_text(total_pages as nat),
            kind_prefix(kind_of(*back)),
        ] + fields_of(*back),
        MenuCommands::AddToFavorite { item_id, back } => seq![
            uuid_text(item_id.0),
            kind_prefix(kind_of(*back)),
        ] + fields_of(*back),
        MenuCommands::RemoveFromFavorite { item_id, back } => seq![
            uuid_text(item_id.0),
            kind_prefix(kind_of(*back)),
        ] + fields_of(*back),
        _ => Seq::empty(),
    }
}

/// Fields written one after another, each preceded by one space.
pub open spec fn join_fields(fs: Seq<Seq<char>>) -> Seq<char>
    decreases fs.len(),
{
    if fs.len() == 0 {
        Seq::empty()
    } else {
        seq![' '] + fs[0] + join_fields(fs.skip(1))
    }
}

/// The token of a command.
pub open spec fn token_of(c: MenuCommands) -> Seq<char> {
    kind_prefix(kind_of(c)) + join_fields(fields_of(c))
}

/// What encoding gives: the token of a command as this system builds it,
/// when it fits the transport.
pub open spec fn encoded(c: MenuCommands) -> Result<Seq<char>, EncodeError> {
    if !well_formed(c) {
        Err(EncodeError::InvariantViolation)
    } else if token_of(c).len() > MAX_TOKEN_LEN {
        Err(EncodeError::TokenTooLong)
    } else {
        Ok(token_of(c))
    }
}

pub open spec fn result_view(r: Result<String, EncodeError>) -> Result<Seq<char>, EncodeError> {
    match r {
        Ok(t) => Ok(t@),
        Err(e) => Err(e),
    }
}

/// The detail view of `item_id` opened from `back`.
pub open spec fn detail_command(item_id: ItemId, back: MenuCommands) -> MenuCommands {
    MenuCommands::SearchById {
        item_id,
        back: Box::new(back),
        back_list_page: list_page_of(back),
    }
}

/// The prefix of a kind's token, as a string slice.
fn prefix_str(k: CommandKind) -> (r: &'static str)
    ensures
        r@ == kind_prefix(k),
{
    match k {
        CommandKind::MainMenu => {
            proof { reveal_strlit("mam"); }
            "mam"
        },
        CommandKind::CocktailsList => {
            proof { reveal_strlit("col"); }
            "col"
        },
        CommandKind::CocktailsListByName => {
            proof { reveal_strlit("cbn"); }
            "cbn"
        },
        CommandKind::SearchByName => {
            proof { reveal_strlit("sbn"); }
            "sbn"
        },
        CommandKind::Register => {
            proof { reveal_strlit("reg"); }
            "reg"
        },
        CommandKind::ProfilePage => {
            proof { reveal_strlit("prp"); }
            "prp"
        },
        CommandKind::SearchById => {
            proof { reveal_strlit("sbi"); }
            "sbi"
        },
        CommandKind::CocktailsPages => {
            proof { reveal_strlit("cop"); }
            "cop"
        },
        CommandKind::AddToFavorite => {
            proof { reveal_strlit("atf"); }
            "atf"
        },
        CommandKind::RemoveFromFavorite => {
            proof { reveal_strlit("rff"); }
            "rff"
        },
        CommandKind::RegisterConfirmation => {
            proof { reveal_strlit("rec"); }
            "rec"
        },
        CommandKind::RemoveAccount => {
            proof { reveal_strlit("rea"); }
            "rea"
        },
        CommandKind::RemoveAccountConfirmation => {
            proof { reveal_strlit("rac"); }
            "rac"
        },
        CommandKind::ShowFavorites => {
            proof { reveal_strlit("shf"); }
            "shf"
        },
        CommandKind::Unknown => {
            proof { reveal_strlit("unk"); }
            "unk"
        },
    }
}

fn push_space(out: &mut String)
    ensures
        final(out)@ == old(out)@ + seq![' '],
{
    proof { reveal_strlit(" "); }
    out.append(" ");
}

impl CommandKind {
    /// The prefix of this kind's token.
    pub fn prefix(&self) -> (r: &'static str)
        ensures
            r@ == kind_prefix(*self),
    {
        prefix_str(*self)
    }
}

impl MenuCommands {
    /// The kind of this command.
    pub fn kind(&self) -> (r: CommandKind)
        ensures
            r == kind_of(*self),
    {
        match self {
            MenuCommands::MainMenu => CommandKind::MainMenu,
            MenuCommands::CocktailsList(_) => CommandKind::CocktailsList,
            MenuCommands::CocktailsListByName(_) => CommandKind::CocktailsListByName,
            MenuCommands::SearchByName => CommandKind::SearchByName,
            MenuCommands::Register => CommandKind::Register,
            MenuCommands::ProfilePage => CommandKind::ProfilePage,
            MenuCommands::SearchById { .. } => CommandKind::SearchById,
            MenuCommands::CocktailsPages { .. } => CommandKind::CocktailsPages,
            MenuCommands::AddToFavorite { .. } => CommandKind::AddToFavorite,
            MenuCommands::RemoveFromFavorite { .. } => CommandKind::RemoveFromFavorite,
            MenuCommands::RegisterConfirmation => CommandKind::RegisterConfirmation,
            MenuCommands::RemoveAccount => CommandKind::RemoveAccount,
            MenuCommands::RemoveAccountConfirmation => CommandKind::RemoveAccountConfirmation,
            MenuCommands::ShowFavorites(_) => CommandKind::ShowFavorites,
            MenuCommands::Unknown => CommandKind::Unknown,
        }
    }

    /// A copy of this command, equal to it.
    pub fn duplicate(&self) -> (r: MenuCommands)
        ensures
            r == *self,
        decreases self,
    {
        match self {
            MenuCommands::MainMenu => MenuCommands::MainMenu,
            MenuCommands::CocktailsList(p) => MenuCommands::CocktailsList(*p),
            MenuCommands::CocktailsListByName(p) => MenuCommands::CocktailsListByName(*p),
            MenuCommands::SearchByName => MenuCommands::SearchByName,
            MenuCommands::Register => MenuCommands::Register,
            MenuCommands::ProfilePage => MenuCommands::ProfilePage,
            MenuCommands::SearchById { item_id, back, back_list_page } => MenuCommands::SearchById {
                item_id: *item_id,
                back: Box::new(back.duplicate()),
                back_list_page: *back_list_page,
            },
            MenuCommands::CocktailsPages { total_pages, back } => MenuCommands::CocktailsPages {
                total_pages: *total_pages,
                back: Box::new(back.duplicate()),
            },
            MenuCommands::AddToFavorite { item_id, back } => MenuCommands::AddToFavorite {
                item_id: *item_id,
                back: Box::new(back.duplicate()),
            },
            MenuCommands::RemoveFromFavorite { item_id, back } => MenuCommands::RemoveFromFavorite {
                item_id: *item_id,
                back: Box::new(back.duplicate()),
            },
            MenuCommands::RegisterConfirmation => MenuCommands::RegisterConfirmation,
            MenuCommands::RemoveAccount => MenuCommands::RemoveAccount,
            MenuCommands::RemoveAccountConfirmation => MenuCommands::RemoveAccountConfirmation,
            MenuCommands::ShowFavorites(p) => MenuCommands::ShowFavorites(*p),
            MenuCommands::Unknown => MenuCommands::Unknown,
        }
    }

    /// Whether this command carries no back command.
    pub fn is_flat(&self) -> (r: bool)
        ensures
            r == is_flat(*self),
    {
        match self {
            MenuCommands::SearchById { .. } => false,
            MenuCommands::CocktailsPages { .. } => false,
            MenuCommands::AddToFavorite { .. } => false,
            MenuCommands::RemoveFromFavorite { .. } => false,
            _ => true,
        }
    }

    /// The page of this command when it is a list page.
    pub fn list_page(&self) -> (r: Option<u64>)
        ensures
            r == list_page_of(*self),
    {
        match self {
            MenuCommands::CocktailsList(p) => Some(*p),
            MenuCommands::CocktailsListByName(p) => Some(*p),
            MenuCommands::ShowFavorites(p) => Some(*p),
            _ => None,
        }
    }

    /// Whether this command is as this system builds it (see `well_formed`).
    pub fn is_well_formed(&self) -> (r: bool)
        ensures
            r == well_formed(*self),
    {
        match self {
            MenuCommands::SearchById { back, back_list_page, .. } => {
                back.is_flat() && match (back.list_page(), back_list_page) {
                    (Some(a), Some(b)) => a == *b,
                    (None, None) => true,
                    _ => false,
                }
            },
            MenuCommands::CocktailsPages { back, .. } => back.is_flat(),
            MenuCommands::AddToFavorite { back, .. } => back.is_flat(),
            MenuCommands::RemoveFromFavorite { back, .. } => back.is_flat(),
            _ => true,
        }
    }

    /// Appends the token of this command to `out`.
    pub fn write_token(&self, out: &mut String)
        ensures
            final(out)@ == old(out)@ + token_of(*self),
        decreases self,
    {
        let ghost start = out@;
        out.append(prefix_str(self.kind()));
        match self {
            MenuCommands::CocktailsList(p) | MenuCommands::CocktailsListByName(p)
            | MenuCommands::ShowFavorites(p) => {
                push_space(out);
                push_dec(out, *p);
            },
            MenuCommands::SearchById { item_id, back, .. } | MenuCommands::AddToFavorite {
                item_id,
                back,
            } | MenuCommands::RemoveFromFavorite { item_id, back } => {
                push_space(out);
                out.append(item_id.to_text().as_str());
                push_space(out);
                back.write_token(out);
            },
            MenuCommands::CocktailsPages { total_pages, back } => {
                push_space(out);
                push_dec(out, *total_pages);
                push_space(out);
                back.write_token(out);
            },
            _ => {},
        }
        proof {
            lemma_token_shape(*self);
        }
        assert(out@ =~= start + token_of(*self));
    }

    /// The token of this command, when it is well formed and short enough.
    pub fn encode(&self) -> (r: Result<String, EncodeError>)
        ensures
            result_view(r) == encoded(*self),
    {
        if !self.is_well_formed() {
            return Err(EncodeError::InvariantViolation);
        }
        let mut out = String::new();
        self.write_token(&mut out);
        assert(out@ =~= token_of(*self));
        if out.as_str().unicode_len() > MAX_TOKEN_LEN {
            Err(EncodeError::TokenTooLong)
        } else {
            Ok(out)
        }
    }

    /// The token of the catalog list page `page`.
    pub fn get_cocktails_list_command_string(page: &PageNumber) -> (r: String)
        ensures
            r@ == token_of(MenuCommands::CocktailsList(page.0)),
            r@.len() <= MAX_TOKEN_LEN,
    {
        proof {
            lemma_flat_token_len(MenuCommands::CocktailsList(page.0));
        }
        let mut out = String::new();
        MenuCommands::CocktailsList(page.0).write_token(&mut out);
        assert(out@ =~= token_of(MenuCommands::CocktailsList(page.0)));
        out
    }

    /// The token of the favorites list page `page`.
    pub fn get_favorite_cocktails_command_string(page: &PageNumber) -> (r: String)
        ensures
            r@ == token_of(MenuCommands::ShowFavorites(page.0)),
            r@.len() <= MAX_TOKEN_LEN,
    {
        proof {
            lemma_flat_token_len(MenuCommands::ShowFavorites(page.0));
        }
        let mut out = String::new();
        MenuCommands::ShowFavorites(page.0).write_token(&mut out);
        assert(out@ =~= token_of(MenuCommands::ShowFavorites(page.0)));
        out
    }

    /// The token of the main menu.
    pub fn get_main_menu_command_string() -> (r: String)
        ensures
            r@ == token_of(MenuCommands::MainMenu),
    {
        let mut out = String::new();
        MenuCommands::MainMenu.write_token(&mut out);
        assert(out@ =~= token_of(MenuCommands::MainMenu));
        out
    }

    /// The token of the page picker of a list with `total_pages` pages, which
    /// returns to `source_page`.
    pub fn get_cocktail_pages_command_string(total_pages: &u64, source_page: &MenuCommands) -> (r:
        String)
        requires
            is_flat(*source_page),
        ensures
            r@ == token_of(
                MenuCommands::CocktailsPages {
                    total_pages: *total_pages,
                    back: Box::new(*source_page),
                },
            ),
            r@.len() <= MAX_TOKEN_LEN,
    {
        proof {
            let c = MenuCommands::CocktailsPages {
                total_pages: *total_pages,
                back: Box::new(*source_page),
            };
            lemma_token_shape(c);
            lemma_flat_token_len(*source_page);
            lemma_dec_len_u64(*total_pages);
        }
        let c = MenuCommands::CocktailsPages {
            total_pages: *total_pages,
            back: Box::new(source_page.duplicate()),
        };
        let mut out = String::new();
        c.write_token(&mut out);
        assert(out@ =~= token_of(c));
        out
    }

    /// The token of the detail view of `cocktail_id` opened from `source_page`.
    pub fn get_cocktail_by_id_command_string(cocktail_id: &ItemId, source_page: &MenuCommands) -> (r:
        Result<String, EncodeError>)
        ensures
            result_view(r) == encoded(detail_command(*cocktail_id, *source_page)),
    {
        let c = MenuCommands::SearchById {
            item_id: *cocktail_id,
            back: Box::new(source_page.duplicate()),
            back_list_page: source_page.list_page(),
        };
        c.encode()
    }

    /// The token of the button that adds `cocktail_id` to the favorites from
    /// its detail view opened from `source_page`.
    pub fn get_add_cocktail_to_favourite_command_string(
        cocktail_id: &ItemId,
        source_page: &MenuCommands,
    ) -> (r: Result<String, EncodeError>)
        ensures
            result_view(r) == encoded(
                MenuCommands::AddToFavorite { item_id: *cocktail_id, back: Box::new(*source_page) },
            ),
    {
        let c = MenuCommands::AddToFavorite {
            item_id: *cocktail_id,
            back: Box::new(source_page.duplicate()),
        };
        c.encode()
    }

    /// The token of the button that removes `cocktail_id` from the favorites
    /// from its detail view opened from `source_page`.
    pub fn get_remove_cocktail_from_favourite_command_string(
        cocktail_id: &ItemId,
        source_page: &MenuCommands,
    ) -> (r: Result<String, EncodeError>)
        ensures
            result_view(r) == encoded(
                MenuCommands::RemoveFromFavorite {
                    item_id: *cocktail_id,
                    back: Box::new(*source_page),
                },
            ),
    {
        let c = MenuCommands::RemoveFromFavorite {
            item_id: *cocktail_id,
            back: Box::new(source_page.duplicate()),
        };
        c.encode()
    }
}

impl Clone for MenuCommands {
    fn clone(&self) -> (r: Self)
        ensures
            r == *self,
    {
        self.duplicate()
    }
}

/// How a token splits into its prefix and the fields after it.
pub proof fn lemma_token_shape(c: MenuCommands)
    ensures
        token_of(c) == kind_prefix(kind_of(c)) + join_fields(fields_of(c)),
        match c {
            MenuCommands::CocktailsList(p) => join_fields(fields_of(c)) == seq![' '] + dec_text(
                p as nat,
            ),
            MenuCommands::CocktailsListByName(p) => join_fields(fields_of(c)) == seq![' ']
                + dec_text(p as nat),
            MenuCommands::ShowFavorites(p) => join_fields(fields_of(c)) == seq![' '] + dec_text(
                p as nat,
            ),
            MenuCommands::SearchById { item_id, back, .. } => join_fields(fields_of(c)) == seq![
                ' ',
            ] + uuid_text(item_id.0) + seq![' '] + token_of(*back),
            MenuCommands::AddToFavorite { item_id, back } => join_fields(fields_of(c)) == seq![
                ' ',
            ] + uuid_text(item_id.0) + seq![' '] + token_of(*back),
            MenuCommands::RemoveFromFavorite { item_id, back } => join_fields(fields_of(c))
                == seq![' '] + uuid_text(item_id.0) + seq![' '] + token_of(*back),
            MenuCommands::CocktailsPages { total_pages, back } => join_fields(fields_of(c))
                == seq![' '] + dec_text(total_pages as nat) + seq![' '] + token_of(*back),
            _ => join_fields(fields_of(c)) == Seq::<char>::empty(),
        },
{
    let fs = fields_of(c);
    match c {
        MenuCommands::CocktailsList(p) | MenuCommands::CocktailsListByName(p)
        | MenuCommands::ShowFavorites(p) => {
            assert(fs.skip(1) =~= Seq::<Seq<char>>::empty());
            assert(join_fields(fs.skip(1)) == Seq::<char>::empty());
            assert(join_fields(fs) == seq![' '] + fs[0] + join_fields(fs.skip(1)));
            assert(join_fields(fs) =~= seq![' '] + dec_text(p as nat));
        },
        MenuCommands::SearchById { back, .. } | MenuCommands::AddToFavorite { back, .. }
        | MenuCommands::RemoveFromFavorite { back, .. } | MenuCommands::CocktailsPages {
            back,
            ..
        } => {
            let rest = fs.skip(1);
            assert(rest.skip(1) =~= fields_of(*back));
            assert(rest[0] == kind_prefix(kind_of(*back)));
            assert(join_fields(rest) == seq![' '] + rest[0] + join_fields(rest.skip(1)));
            assert(join_fields(fs) == seq![' '] + fs[0] + join_fields(rest));
            assert(join_fields(fs) =~= seq![' '] + fs[0] + seq![' '] + token_of(*back));
        },
        _ => {},
    }
}

/// The token of a command without a back command takes at most 24
/// characters: a prefix, a space and a page number.
pub proof fn lemma_flat_token_len(c: MenuCommands)
    requires
        is_flat(c),
    ensures
        token_of(c).len() <= 24,
{
    lemma_token_shape(c);
    match c {
        MenuCommands::CocktailsList(p) | MenuCommands::CocktailsListByName(p)
        | MenuCommands::ShowFavorites(p) => {
            lemma_dec_len_u64(p);
        },
        _ => {},
    }
}

} // verus!
