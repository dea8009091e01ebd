//! The text of an entry's detail view, in Telegram's MarkdownV2 style.

use vstd::prelude::*;
use crate::decimal::{dec_text, push_dec};
use crate::domain::{Cocktail, CocktailItem, Tag};

verus! {

/// The characters that MarkdownV2 treats as markup.
pub open spec fn is_markdown_special(c: char) -> bool {
    c == '_' || c == '*' || c == '[' || c == ']' || c == '(' || c == ')' || c == '~' || c == '`'
        || c == '>' || c == '#' || c == '+' || c == '-' || c == '=' || c == '|' || c == '{' || c
        == '}' || c == '.' || c == '!'
}

/// `s` with a backslash before each markup character.
pub open spec fn escaped(s: Seq<char>) -> Seq<char>
    decreases s.len(),
{
    if s.len() == 0 {
        s
    } else {
        escaped(s.drop_last()) + if is_markdown_special(s.last()) {
            seq!['\\', s.last()]
        } else {
            seq![s.last()]
        }
    }
}

/// Relies on teloxide's `utils::markdown::escape`: every character kept in
/// order, with a backslash before each of the eighteen MarkdownV2 markup
/// characters.
#[verifier::external_body]
fn markdown_escape(s: &str) -> (r: String)
    ensures
        r@ == escaped(s@),
{
    teloxide::utils::markdown::escape(s)
}

/// `s` with each space written as an escaped underscore, as in hashtags.
pub open spec fn underscored(s: Seq<char>) -> Seq<char>
    decreases s.len(),
{
    if s.len() == 0 {
        s
    } else {
        underscored(s.drop_last()) + if s.last() == ' ' {
            "\\_"@
        } else {
            seq![s.last()]
        }
    }
}

/// The decimal text of a signed amount.
pub open spec fn int_text(n: i32) -> Seq<char> {
    if n < 0 {
        seq!['-'] + dec_text((-(n as int)) as nat)
    } else {
        dec_text(n as nat)
    }
}

pub open spec fn item_line(it: CocktailItem) -> Seq<char> {
    "👉 "@ + escaped(it.name@) + " "@ + int_text(it.count) + escaped(it.unit@) + "\n"@
}

pub open spec fn items_text(items: Seq<CocktailItem>) -> Seq<char>
    decreases items.len(),
{
    if items.len() == 0 {
        Seq::empty()
    } else {
        items_text(items.drop_last()) + item_line(items.last())
    }
}

/// The first `n` recipe steps, numbered from 1.
pub open spec fn steps_text(steps: Seq<String>, n: int) -> Seq<char>
    decreases n,
{
    if n <= 0 {
        Seq::empty()
    } else {
        steps_text(steps, n - 1) + dec_text(n as nat) + "\\. "@ + escaped(steps[n - 1]@) + "\n"@
    }
}

pub open spec fn tags_text(tags: Seq<Tag>) -> Seq<char>
    decreases tags.len(),
{
    if tags.len() == 0 {
        Seq::empty()
    } else {
        tags_text(tags.drop_last()) + "\\#"@ + underscored(tags.last().name@) + " "@
    }
}

pub open spec fn text_or_empty(s: Option<String>) -> Seq<char> {
    match s {
        Some(t) => t@,
        None => Seq::empty(),
    }
}

pub open spec fn items_or_empty(v: Option<Vec<CocktailItem>>) -> Seq<CocktailItem> {
    match v {
        Some(items) => items@,
        None => Seq::empty(),
    }
}

pub open spec fn steps_or_empty(c: Cocktail) -> Seq<String> {
    match c.recipe {
        Some(r) => r.steps@,
        None => Seq::empty(),
    }
}

pub open spec fn tags_or_empty(v: Option<Vec<Tag>>) -> Seq<Tag> {
    match v {
        Some(tags) => tags@,
        None => Seq::empty(),
    }
}

/// The detail text of an entry: its names, ingredients, tools, numbered
/// recipe steps, history and hashtags. A missing part is left empty.
pub open spec fn card_text(c: Cocktail) -> Seq<char> {
    "🍸*Коктейль:* "@ + escaped(c.russian_name@) + "\n"@ + "*Английское название:* "@ + escaped(
        text_or_empty(c.name),
    ) + "\n"@ + "\n*Ингредиенты:*\n"@ + items_text(items_or_empty(c.composition_elements))
        + "\n*Требуемые инструменты:*\n"@ + items_text(items_or_empty(c.tools))
        + "\n*Способ приготовления:*\n"@ + steps_text(
        steps_or_empty(c),
        steps_or_empty(c).len() as int,
    ) + "\n*История для этого коктейля:*\n"@ + escaped(text_or_empty(c.history))
        + "\n\n*Теги:*\n"@ + tags_text(tags_or_empty(c.tags))
}

fn push_escaped(out: &mut String, s: &String)
    ensures
        final(out)@ == old(out)@ + escaped(s@),
{
    let e = markdown_escape(s.as_str());
    out.append(e.as_str());
}

fn push_int(out: &mut String, n: i32)
    ensures
        final(out)@ == old(out)@ + int_text(n),
{
    let ghost start = out@;
    if n < 0 {
        out.append("-");
        proof {
            reveal_strlit("-");
        }
        let m: i64 = -(n as i64);
        push_dec(out, m as u64);
        assert(out@ =~= start + int_text(n));
    } else {
        push_dec(out, n as u64);
    }
}

fn push_items(out: &mut String, items: &Vec<CocktailItem>)
    ensures
        final(out)@ == old(out)@ + items_text(items@),
{
    let ghost start = out@;
    let mut i: usize = 0;
    assert(items_text(items@.take(0)) == Seq::<char>::empty()) by {
        assert(items@.take(0).len() == 0);
    }
    assert(out@ =~= start + items_text(items@.take(0)));
    while i < items.len()
        invariant
            i <= items@.len(),
            out@ == start + items_text(items@.take(i as int)),
        decreases items@.len() - i,
    {
        let it = &items[i];
        let ghost before = out@;
        out.append("👉 ");
        push_escaped(out, &it.name);
        out.append(" ");
        push_int(out, it.count);
        push_escaped(out, &it.unit);
        out.append("\n");
        assert(items@.take(i + 1).drop_last() =~= items@.take(i as int));
        assert(out@ =~= before + item_line(*it));
        i = i + 1;
        assert(out@ =~= start + items_text(items@.take(i as int)));
    }
    assert(items@.take(i as int) =~= items@);
}

fn push_steps(out: &mut String, steps: &Vec<String>)
    ensures
        final(out)@ == old(out)@ + steps_text(steps@, steps@.len() as int),
{
    let ghost start = out@;
    let mut i: usize = 0;
    assert(out@ =~= start + steps_text(steps@, 0));
    while i < steps.len()
        invariant
            i <= steps@.len(),
            out@ == start + steps_text(steps@, i as int),
        decreases steps@.len() - i,
    {
        let ghost before = out@;
        push_dec(out, i as u64 + 1);
        out.append("\\. ");
        push_escaped(out, &steps[i]);
        out.append("\n");
        i = i + 1;
        assert(out@ =~= start + steps_text(steps@, i as int));
    }
}

fn push_underscored(out: &mut String, s: &String)
    ensures
        final(out)@ == old(out)@ + underscored(s@),
{
    let ghost start = out@;
    let text = s.as_str();
    let n = text.unicode_len();
    let mut i: usize = 0;
    assert(s@.take(0) =~= Seq::<char>::empty());
    assert(out@ =~= start + underscored(s@.take(0)));
    while i < n
        invariant
            n == s@.len(),
            text@ == s@,
            i <= n,
            out@ == start + underscored(s@.take(i as int)),
        decreases n - i,
    {
        let c = text.get_char(i);
        let ghost t = s@.take(i + 1);
        assert(t.drop_last() =~= s@.take(i as int));
        assert(t.last() == c);
        assert(underscored(t) == underscored(t.drop_last()) + if c == ' ' {
            "\\_"@
        } else {
            seq![c]
        });
        let ghost before = out@;
        if c == ' ' {
            out.append("\\_");
        } else {
            let one = text.substring_char(i, i + 1);
            assert(one@ =~= seq![c]);
            out.append(one);
        }
        assert(out@ =~= before + if c == ' ' {
            "\\_"@
        } else {
            seq![c]
        });
        i = i + 1;
        assert(out@ =~= start + underscored(s@.take(i as int)));
    }
    assert(s@.take(n as int) =~= s@);
}

fn push_tags(out: &mut String, tags: &Vec<Tag>)
    ensures
        final(out)@ == old(out)@ + tags_text(tags@),
{
    let ghost start = out@;
    let mut i: usize = 0;
    assert(tags_text(tags@.take(0)) == Seq::<char>::empty()) by {
        assert(tags@.take(0).len() == 0);
    }
    assert(out@ =~= start + tags_text(tags@.take(0)));
    while i < tags.len()
        invariant
            i <= tags@.len(),
            out@ == start + tags_text(tags@.take(i as int)),
        decreases tags@.len() - i,
    {
        out.append("\\#");
        push_underscored(out, &tags[i].name);
        out.append(" ");
        assert(tags@.take(i + 1).drop_last() =~= tags@.take(i as int));
        i = i + 1;
        assert(out@ =~= start + tags_text(tags@.take(i as int)));
    }
    assert(tags@.take(i as int) =~= tags@);
}

/// The detail text of an entry (see `card_text`).
pub fn render_card_text(c: &Cocktail) -> (r: String)
    ensures
        r@ == card_text(*c),
{
    let mut out = String::new();
    out.append("🍸*Коктейль:* ");
    push_escaped(&mut out, &c.russian_name);
    out.append("\n");
    out.append("*Английское название:* ");
    match &c.name {
        Some(n) => push_escaped(&mut out, n),
        None => {},
    }
    out.append("\n");
    out.append("\n*Ингредиенты:*\n");
    match &c.composition_elements {
        Some(items) => push_items(&mut out, items),
        None => {},
    }
    out.append("\n*Требуемые инструменты:*\n");
    match &c.tools {
        Some(items) => push_items(&mut out, items),
        None => {},
    }
    out.append("\n*Способ приготовления:*\n");
    match &c.recipe {
        Some(r) => push_steps(&mut out, &r.steps),
        None => {},
    }
    out.append("\n*История для этого коктейля:*\n");
    match &c.history {
        Some(h) => push_escaped(&mut out, h),
        None => {},
    }
    out.append("\n\n*Теги:*\n");
    match &c.tags {
        Some(tags) => push_tags(&mut out, tags),
        None => {},
    }
    assert(out@ =~= card_text(*c));
    out
}

} // verus!
