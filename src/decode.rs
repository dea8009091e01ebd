//! Reading tokens back into commands. Anything that is not a token of a
//! known command, with the parameters that command takes, reads as
//! `MenuCommands::Unknown`.

use vstd::prelude::*;
use crate::commands::{
    CommandKind, MenuCommands, fields_of, is_flat, join_fields, kind_of, kind_of_chars, kind_of_prefix,
    kind_prefix, lemma_kind_prefix, list_page_of, token_of, well_formed,
};
use crate::decimal::{dec_text, dec_value, is_dec, is_digit, lemma_dec_text, parse_dec};
use crate::item_id::{ItemId, is_uuid_text, lemma_uuid_text, uuid_text, uuid_value};

verus! {

pub open spec fn is_ws(c: char) -> bool {
    c == ' ' || c == '\t' || c == '\n' || c == '\r'
}

/// The whitespace-delimited fields of `s` from position `i` on, where `cur`
/// is the part of a field already read before `i`.
pub open spec fn fields_from(s: Seq<char>, i: int, cur: Seq<char>) -> Seq<Seq<char>>
    decreases s.len() - i,
{
    if i >= s.len() {
        if cur.len() > 0 {
            seq![cur]
        } else {
            Seq::empty()
        }
    } else if is_ws(s[i]) {
        if cur.len() > 0 {
            seq![cur] + fields_from(s, i + 1, Seq::empty())
        } else {
            fields_from(s, i + 1, Seq::empty())
        }
    } else {
        fields_from(s, i + 1, cur.push(s[i]))
    }
}

/// A field read as a page number or a count.
pub open spec fn u64_field(f: Seq<char>) -> Option<u64> {
    if is_dec(f) && dec_value(f) <= u64::MAX {
        Some(dec_value(f) as u64)
    } else {
        None
    }
}

/// A field read as an entry identifier.
pub open spec fn id_field(f: Seq<char>) -> Option<ItemId> {
    if is_uuid_text(f) {
        Some(ItemId(uuid_value(f) as u128))
    } else {
        None
    }
}

/// The command of a kind that takes no parameters.
pub open spec fn paramless(k: CommandKind) -> Option<MenuCommands> {
    match k {
        CommandKind::MainMenu => Some(MenuCommands::MainMenu),
        CommandKind::SearchByName => Some(MenuCommands::SearchByName),
        CommandKind::Register => Some(MenuCommands::Register),
        CommandKind::ProfilePage => Some(MenuCommands::ProfilePage),
        CommandKind::RegisterConfirmation => Some(MenuCommands::RegisterConfirmation),
        CommandKind::RemoveAccount => Some(MenuCommands::RemoveAccount),
        CommandKind::RemoveAccountConfirmation => Some(MenuCommands::RemoveAccountConfirmation),
        CommandKind::Unknown => Some(MenuCommands::Unknown),
        _ => None,
    }
}

/// The list page command of a kind that takes one page number.
pub open spec fn paged(k: CommandKind, p: u64) -> Option<MenuCommands> {
    match k {
        CommandKind::CocktailsList => Some(MenuCommands::CocktailsList(p)),
        CommandKind::CocktailsListByName => Some(MenuCommands::CocktailsListByName(p)),
        CommandKind::ShowFavorites => Some(MenuCommands::ShowFavorites(p)),
        _ => None,
    }
}

/// Reads a command that carries no back command from its kind and fields.
pub open spec fn decode_plain(k: Option<CommandKind>, fs: Seq<Seq<char>>) -> Option<MenuCommands> {
    match k {
        None => None,
        Some(k) => if fs.len() == 0 {
            paramless(k)
        } else if fs.len() == 1 {
            match u64_field(fs[0]) {
                Some(p) => paged(k, p),
                None => None,
            }
        } else {
            None
        },
    }
}

/// Reads a command from its kind and fields: the nested kinds take a first
/// parameter and then a back command's prefix and fields.
pub open spec fn decode_fields(k: Option<CommandKind>, fs: Seq<Seq<char>>) -> Option<MenuCommands> {
    if fs.len() >= 2 && (k == Some(CommandKind::SearchById) || k == Some(
        CommandKind::CocktailsPages,
    ) || k == Some(CommandKind::AddToFavorite) || k == Some(CommandKind::RemoveFromFavorite)) {
        match decode_plain(kind_of_prefix(fs[1]), fs.skip(2)) {
            None => None,
            Some(b) => if k == Some(CommandKind::CocktailsPages) {
                match u64_field(fs[0]) {
                    Some(n) => Some(MenuCommands::CocktailsPages { total_pages: n, back: Box::new(b) }),
                    None => None,
                }
            } else {
                match id_field(fs[0]) {
                    Some(id) => if k == Some(CommandKind::SearchById) {
                        Some(
                            MenuCommands::SearchById {
                                item_id: id,
                                back: Box::new(b),
                                back_list_page: list_page_of(b),
                            },
                        )
                    } else if k == Some(CommandKind::AddToFavorite) {
                        Some(MenuCommands::AddToFavorite { item_id: id, back: Box::new(b) })
                    } else {
                        Some(MenuCommands::RemoveFromFavorite { item_id: id, back: Box::new(b) })
                    },
                    None => None,
                }
            },
        }
    } else {
        decode_plain(k, fs)
    }
}

/// The command that a token reads as: its first three characters name the
/// kind, and the rest splits into the parameter fields.
pub open spec fn decode_token(t: Seq<char>) -> MenuCommands {
    if t.len() < 3 {
        MenuCommands::Unknown
    } else {
        match decode_fields(kind_of_prefix(t.take(3)), fields_from(t, 3, Seq::empty())) {
            Some(c) => c,
            None => MenuCommands::Unknown,
        }
    }
}

/// The fields that a list of character ranges of `s` cuts out.
pub open spec fn field_seqs(s: Seq<char>, r: Seq<(usize, usize)>) -> Seq<Seq<char>> {
    Seq::new(r.len(), |i: int| s.subrange(r[i].0 as int, r[i].1 as int))
}

pub open spec fn ranges_within(n: int, r: Seq<(usize, usize)>) -> bool {
    forall|i: int| 0 <= i < r.len() ==> (#[trigger] r[i]).0 <= r[i].1 <= n
}

fn chars_of(s: &str) -> (r: Vec<char>)
    ensures
        r@ == s@,
{
    let n = s.unicode_len();
    let mut v: Vec<char> = Vec::new();
    let mut i: usize = 0;
    while i < n
        invariant
            n == s@.len(),
            i <= n,
            v@ == s@.take(i as int),
        decreases n - i,
    {
        v.push(s.get_char(i));
        i = i + 1;
        assert(v@ =~= s@.take(i as int));
    }
    assert(v@ =~= s@);
    v
}

fn kind_from_chars(a: char, b: char, c: char) -> (r: Option<CommandKind>)
    ensures
        r == kind_of_chars(a, b, c),
{
    if a == 'm' && b == 'a' && c == 'm' {
        Some(CommandKind::MainMenu)
    } else if a == 'c' && b == 'o' && c == 'l' {
        Some(CommandKind::CocktailsList)
    } else if a == 'c' && b == 'b' && c == 'n' {
        Some(CommandKind::CocktailsListByName)
    } else if a == 's' && b == 'b' && c == 'n' {
        Some(CommandKind::SearchByName)
    } else if a == 'r' && b == 'e' && c == 'g' {
        Some(CommandKind::Register)
    } else if a == 'p' && b == 'r' && c == 'p' {
        Some(CommandKind::ProfilePage)
    } else if a == 's' && b == 'b' && c == 'i' {
        Some(CommandKind::SearchById)
    } else if a == 'c' && b == 'o' && c == 'p' {
        Some(CommandKind::CocktailsPages)
    } else if a == 'a' && b == 't' && c == 'f' {
        Some(CommandKind::AddToFavorite)
    } else if a == 'r' && b == 'f' && c == 'f' {
        Some(CommandKind::RemoveFromFavorite)
    } else if a == 'r' && b == 'e' && c == 'c' {
        Some(CommandKind::RegisterConfirmation)
    } else if a == 'r' && b == 'e' && c == 'a' {
        Some(CommandKind::RemoveAccount)
    } else if a == 'r' && b == 'a' && c == 'c' {
        Some(CommandKind::RemoveAccountConfirmation)
    } else if a == 's' && b == 'h' && c == 'f' {
        Some(CommandKind::ShowFavorites)
    } else if a == 'u' && b == 'n' && c == 'k' {
        Some(CommandKind::Unknown)
    } else {
        None
    }
}

/// Cuts `s` from position `from` on into its whitespace-delimited fields.
fn split_fields(s: &Vec<char>, from: usize) -> (r: Vec<(usize, usize)>)
    requires
        from <= s@.len(),
    ensures
        ranges_within(s@.len() as int, r@),
        field_seqs(s@, r@) == fields_from(s@, from as int, Seq::empty()),
{
    let n = s.len();
    let mut r: Vec<(usize, usize)> = Vec::new();
    let mut start: usize = from;
    let mut i: usize = from;
    assert(s@.subrange(from as int, from as int) =~= Seq::<char>::empty());
    assert(field_seqs(s@, r@) =~= Seq::<Seq<char>>::empty());
    assert(field_seqs(s@, r@) + fields_from(s@, from as int, Seq::empty()) =~= fields_from(
        s@,
        from as int,
        Seq::empty(),
    ));
    while i < n
        invariant
            n == s@.len(),
            from <= start <= i <= n,
            ranges_within(n as int, r@),
            fields_from(s@, from as int, Seq::empty()) == field_seqs(s@, r@) + fields_from(
                s@,
                i as int,
                s@.subrange(start as int, i as int),
            ),
        decreases n - i,
    {
        let c = s[i];
        let ghost cur = s@.subrange(start as int, i as int);
        let ghost old_r = r@;
        if c == ' ' || c == '\t' || c == '\n' || c == '\r' {
            if start < i {
                r.push((start, i));
                assert(field_seqs(s@, r@) =~= field_seqs(s@, old_r).push(cur));
                assert(field_seqs(s@, old_r) + (seq![cur] + fields_from(s@, i + 1, Seq::empty()))
                    =~= field_seqs(s@, r@) + fields_from(s@, i + 1, Seq::empty()));
            }
            start = i + 1;
        } else {
            assert(cur.push(c) =~= s@.subrange(start as int, i + 1));
        }
        i = i + 1;
        assert(s@.subrange(start as int, i as int).len() == 0 ==> s@.subrange(
            start as int,
            i as int,
        ) =~= Seq::<char>::empty());
    }
    let ghost cur = s@.subrange(start as int, n as int);
    let ghost old_r = r@;
    if start < n {
        r.push((start, n));
        assert(field_seqs(s@, r@) =~= field_seqs(s@, old_r).push(cur));
    } else {
        assert(cur =~= Seq::<char>::empty());
    }
    assert(field_seqs(s@, r@) =~= fields_from(s@, from as int, Seq::empty()));
    r
}

fn field_kind(s: &Vec<char>, f: (usize, usize)) -> (r: Option<CommandKind>)
    requires
        f.0 <= f.1 <= s@.len(),
    ensures
        r == kind_of_prefix(s@.subrange(f.0 as int, f.1 as int)),
{
    if f.1 - f.0 == 3 {
        kind_from_chars(s[f.0], s[f.0 + 1], s[f.0 + 2])
    } else {
        None
    }
}

fn decode_plain_at(k: Option<CommandKind>, s: &Vec<char>, fields: &Vec<(usize, usize)>, from: usize) -> (r:
    Option<MenuCommands>)
    requires
        from <= fields@.len(),
        ranges_within(s@.len() as int, fields@),
    ensures
        r == decode_plain(k, field_seqs(s@, fields@).skip(from as int)),
{
    let ghost fs = field_seqs(s@, fields@).skip(from as int);
    let k = match k {
        Some(k) => k,
        None => return None,
    };
    let count = fields.len() - from;
    if count == 0 {
        match k {
            CommandKind::MainMenu => Some(MenuCommands::MainMenu),
            CommandKind::SearchByName => Some(MenuCommands::SearchByName),
            CommandKind::Register => Some(MenuCommands::Register),
            CommandKind::ProfilePage => Some(MenuCommands::ProfilePage),
            CommandKind::RegisterConfirmation => Some(MenuCommands::RegisterConfirmation),
            CommandKind::RemoveAccount => Some(MenuCommands::RemoveAccount),
            CommandKind::RemoveAccountConfirmation => Some(MenuCommands::RemoveAccountConfirmation),
            CommandKind::Unknown => Some(MenuCommands::Unknown),
            _ => None,
        }
    } else if count == 1 {
        let f = fields[from];
        assert(fs[0] == s@.subrange(f.0 as int, f.1 as int));
        match parse_dec(s, f.0, f.1) {
            Some(p) => match k {
                CommandKind::CocktailsList => Some(MenuCommands::CocktailsList(p)),
                CommandKind::CocktailsListByName => Some(MenuCommands::CocktailsListByName(p)),
                CommandKind::ShowFavorites => Some(MenuCommands::ShowFavorites(p)),
                _ => None,
            },
            None => None,
        }
    } else {
        None
    }
}

impl MenuCommands {
    /// Reads a token; see `decode_token`.
    pub fn parse(s: &str) -> (r: MenuCommands)
        ensures
            r == decode_token(s@),
    {
        let chars = chars_of(s);
        if chars.len() < 3 {
            return MenuCommands::Unknown;
        }
        let k = kind_from_chars(chars[0], chars[1], chars[2]);
        assert(chars@.take(3) =~= seq![chars@[0], chars@[1], chars@[2]]);
        let fields = split_fields(&chars, 3);
        let ghost fs = field_seqs(chars@, fields@);
        let decoded = if fields.len() >= 2 && (k == Some(CommandKind::SearchById) || k == Some(
            CommandKind::CocktailsPages,
        ) || k == Some(CommandKind::AddToFavorite) || k == Some(
            CommandKind::RemoveFromFavorite,
        )) {
            let f0 = fields[0];
            let f1 = fields[1];
            assert(fs[0] == chars@.subrange(f0.0 as int, f0.1 as int));
            assert(fs[1] == chars@.subrange(f1.0 as int, f1.1 as int));
            assert(fs.skip(2) =~= field_seqs(chars@, fields@).skip(2));
            match decode_plain_at(field_kind(&chars, f1), &chars, &fields, 2) {
                None => None,
                Some(b) => if k == Some(CommandKind::CocktailsPages) {
                    match parse_dec(&chars, f0.0, f0.1) {
                        Some(n) => Some(MenuCommands::CocktailsPages { total_pages: n, back: Box::new(b) }),
                        None => None,
                    }
                } else {
                    match ItemId::parse(s.substring_char(f0.0, f0.1)) {
                        Some(id) => if k == Some(CommandKind::SearchById) {
                            let back_list_page = b.list_page();
                            Some(
                                MenuCommands::SearchById {
                                    item_id: id,
                                    back: Box::new(b),
                                    back_list_page,
                                },
                            )
                        } else if k == Some(CommandKind::AddToFavorite) {
                            Some(MenuCommands::AddToFavorite { item_id: id, back: Box::new(b) })
                        } else {
                            Some(MenuCommands::RemoveFromFavorite { item_id: id, back: Box::new(b) })
                        },
                        None => None,
                    }
                },
            }
        } else {
            assert(fs.skip(0) =~= fs);
            decode_plain_at(k, &chars, &fields, 0)
        };
        match decoded {
            Some(c) => c,
            None => MenuCommands::Unknown,
        }
    }
}

/// A field as tokens write them: not empty, and free of whitespace.
pub open spec fn clean_field(f: Seq<char>) -> bool {
    f.len() > 0 && forall|i: int| 0 <= i < f.len() ==> !is_ws(#[trigger] f[i])
}

/// Reading the characters of one clean field, one by one.
proof fn lemma_read_field(s: Seq<char>, j: int, f: Seq<char>, k: int)
    requires
        0 <= j,
        j + f.len() <= s.len(),
        s.subrange(j, j + f.len()) == f,
        clean_field(f),
        0 <= k <= f.len(),
    ensures
        fields_from(s, j + k, f.take(k)) == fields_from(s, j + f.len(), f),
    decreases f.len() - k,
{
    if k < f.len() {
        assert(s[j + k] == f[k]);
        assert(f.take(k).push(s[j + k]) =~= f.take(k + 1));
        lemma_read_field(s, j, f, k + 1);
    } else {
        assert(f.take(k) =~= f);
    }
}

proof fn lemma_join_len(fs: Seq<Seq<char>>)
    requires
        fs.len() > 0,
    ensures
        join_fields(fs).len() > 0,
{
}

/// Splitting joined clean fields gives the fields back.
proof fn lemma_split_join(s: Seq<char>, i: int, fs: Seq<Seq<char>>)
    requires
        0 <= i <= s.len(),
        s.subrange(i, s.len() as int) == join_fields(fs),
        forall|k: int| 0 <= k < fs.len() ==> clean_field(#[trigger] fs[k]),
    ensures
        fields_from(s, i, Seq::empty()) == fs,
    decreases fs.len(),
{
    if fs.len() == 0 {
        assert(s.subrange(i, s.len() as int).len() == 0);
        assert(fs =~= Seq::<Seq<char>>::empty());
    } else {
        let f = fs[0];
        let rest = fs.skip(1);
        let j = join_fields(fs);
        assert(j == seq![' '] + f + join_fields(rest));
        assert(clean_field(f));
        assert(s[i] == j[0]);
        let e = i + 1 + f.len() as int;
        assert(s.subrange(i + 1, e) =~= j.subrange(1, 1 + f.len() as int));
        assert(j.subrange(1, 1 + f.len() as int) =~= f);
        assert(s.subrange(e, s.len() as int) =~= j.subrange(1 + f.len() as int, j.len() as int));
        assert(j.subrange(1 + f.len() as int, j.len() as int) =~= join_fields(rest));
        assert(f.take(0) =~= Seq::<char>::empty());
        lemma_read_field(s, i + 1, f, 0);
        assert forall|k: int| 0 <= k < rest.len() implies clean_field(#[trigger] rest[k]) by {
            assert(rest[k] == fs[k + 1]);
        }
        lemma_split_join(s, e, rest);
        if e == s.len() {
            if rest.len() > 0 {
                lemma_join_len(rest);
            }
            assert(rest =~= Seq::<Seq<char>>::empty());
            assert(fs =~= seq![f]);
        } else {
            lemma_join_len(rest);
            assert(rest.len() > 0);
            assert(s[e] == join_fields(rest)[0]);
            assert(fields_from(s, e, f) == seq![f] + fields_from(s, e + 1, Seq::empty()));
            assert(fields_from(s, e, Seq::empty()) == fields_from(s, e + 1, Seq::empty()));
            assert(fs =~= seq![f] + rest);
        }
    }
}

proof fn lemma_dec_clean(n: nat)
    ensures
        clean_field(dec_text(n)),
        u64_field(dec_text(n)) == (if n <= u64::MAX {
            Some(n as u64)
        } else {
            None::<u64>
        }),
{
    lemma_dec_text(n);
    let t = dec_text(n);
    assert forall|i: int| 0 <= i < t.len() implies !is_ws(#[trigger] t[i]) by {
        assert(is_digit(t[i]));
    }
}

proof fn lemma_uuid_clean(v: u128)
    ensures
        clean_field(uuid_text(v)),
        id_field(uuid_text(v)) == Some(ItemId(v)),
{
    lemma_uuid_text(v);
    let t = uuid_text(v);
    assert forall|i: int| 0 <= i < t.len() implies !is_ws(#[trigger] t[i]) by {
        assert(0 <= i < 36);
    }
}

proof fn lemma_prefix_clean(k: CommandKind)
    ensures
        clean_field(kind_prefix(k)),
{
    let p = kind_prefix(k);
    assert forall|i: int| 0 <= i < p.len() implies !is_ws(#[trigger] p[i]) by {
        assert(0 <= i < 3);
    }
}

/// A flat command reads back from its own kind and fields.
proof fn lemma_decode_plain(c: MenuCommands)
    requires
        is_flat(c),
    ensures
        decode_plain(kind_of_prefix(kind_prefix(kind_of(c))), fields_of(c)) == Some(c),
        forall|k: int| 0 <= k < fields_of(c).len() ==> clean_field(#[trigger] fields_of(c)[k]),
{
    lemma_kind_prefix(kind_of(c));
    match c {
        MenuCommands::CocktailsList(p) | MenuCommands::CocktailsListByName(p)
        | MenuCommands::ShowFavorites(p) => {
            lemma_dec_clean(p as nat);
        },
        _ => {},
    }
}

/// Reading the token of a command as this system builds it gives the
/// command back: the codec loses nothing.
pub proof fn lemma_decode_encode(c: MenuCommands)
    requires
        well_formed(c),
    ensures
        decode_token(token_of(c)) == c,
{
    let t = token_of(c);
    let fs = fields_of(c);
    lemma_kind_prefix(kind_of(c));
    assert(t.take(3) =~= kind_prefix(kind_of(c)));
    assert(t.subrange(3, t.len() as int) =~= join_fields(fs));
    match c {
        MenuCommands::SearchById { item_id, back, .. } | MenuCommands::AddToFavorite {
            item_id,
            back,
        } | MenuCommands::RemoveFromFavorite { item_id, back } => {
            lemma_decode_plain(*back);
            lemma_uuid_clean(item_id.0);
            lemma_prefix_clean(kind_of(*back));
            lemma_kind_prefix(kind_of(*back));
            assert(fs.skip(2) =~= fields_of(*back));
            assert forall|k: int| 0 <= k < fs.len() implies clean_field(#[trigger] fs[k]) by {
                if k >= 2 {
                    assert(fs[k] == fields_of(*back)[k - 2]);
                }
            }
            lemma_split_join(t, 3, fs);
        },
        MenuCommands::CocktailsPages { total_pages, back } => {
            lemma_decode_plain(*back);
            lemma_dec_clean(total_pages as nat);
            lemma_prefix_clean(kind_of(*back));
            lemma_kind_prefix(kind_of(*back));
            assert(fs.skip(2) =~= fields_of(*back));
            assert forall|k: int| 0 <= k < fs.len() implies clean_field(#[trigger] fs[k]) by {
                if k >= 2 {
                    assert(fs[k] == fields_of(*back)[k - 2]);
                }
            }
            lemma_split_join(t, 3, fs);
        },
        _ => {
            lemma_decode_plain(c);
            lemma_split_join(t, 3, fs);
        },
    }
}

} // verus!
