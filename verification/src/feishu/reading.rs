//! What somebody who looks at a card reads on it and can press.

use vstd::prelude::*;
use crate::assoc::{get_key, lemma_key_pos_is};
use crate::feishu::cards::{button_column_view, button_view, card_view, form_view, grid_view, header_view,
    markdown_view, note_view, row_view, submit_view, titled_view};
use crate::json::JsonView;

verus! {

/// The title of a card.
pub open spec fn title_of(card: JsonView) -> Option<Seq<char>> {
    match card.field("header"@) {
        Some(h) => match h.field("title"@) {
            Some(t) => t.text_at("content"@),
            None => None,
        },
        None => None,
    }
}

/// The second line of the head of a card.
pub open spec fn subtitle_of(card: JsonView) -> Option<Seq<char>> {
    match card.field("header"@) {
        Some(h) => match h.field("subtitle"@) {
            Some(t) => t.text_at("content"@),
            None => None,
        },
        None => None,
    }
}

/// What a card shows below its head, from top to bottom.
pub open spec fn parts_of(card: JsonView) -> Seq<JsonView> {
    match card.field("body"@) {
        Some(b) => match b.field("elements"@) {
            Some(JsonView::List(l)) => l,
            _ => Seq::empty(),
        },
        None => Seq::empty(),
    }
}

/// What a part of a card says.
pub open spec fn paragraph(part: JsonView) -> Seq<char> {
    part.text_or_empty("content"@)
}

/// Whether a text holds another.
pub open spec fn holds_part(s: Seq<char>, part: Seq<char>) -> bool {
    exists|k: int| 0 <= k <= s.len() - part.len() && #[trigger] s.subrange(k, k + part.len()) == part
}

/// Whether a paragraph of a card holds a text.
pub open spec fn says(card: JsonView, part: Seq<char>) -> bool {
    exists|i: int|
        0 <= i < parts_of(card).len() && holds_part(paragraph(#[trigger] parts_of(card)[i]), part)
}

/// Whether a value is another or lies somewhere inside it.
pub open spec fn within(v: JsonView, x: JsonView) -> bool
    decreases v,
{
    v == x || (match v {
        JsonView::List(l) => exists|i: int| 0 <= i < l.len() && within(#[trigger] l[i], x),
        JsonView::Object(f) => exists|i: int| 0 <= i < f.len() && within((#[trigger] f[i]).1, x),
        _ => false,
    })
}

/// Whether a value is a button with this label that sends this when it is pressed.
pub open spec fn is_button(b: JsonView, label: Seq<char>, sent: JsonView) -> bool {
    &&& b.text_at("tag"@) == Some("button"@)
    &&& b.field("text"@) is Some && b.field("text"@)->0.text_at("content"@) == Some(label)
    &&& b.field("behaviors"@) is Some && b.field("behaviors"@)->0 is List && b.field(
        "behaviors"@,
    )->0->List_0.len() == 1 && b.field("behaviors"@)->0->List_0[0].field("value"@) == Some(sent)
}

/// Whether a card has a button with this label that sends this when it is pressed.
pub open spec fn has_button(card: JsonView, label: Seq<char>, sent: JsonView) -> bool {
    exists|b: JsonView| #[trigger] within(card, b) && is_button(b, label, sent)
}

proof fn lemma_field_at(f: Seq<(Seq<char>, JsonView)>, k: Seq<char>, i: int)
    requires
        0 <= i < f.len(),
        f[i].0 == k,
        forall|j: int| 0 <= j < i ==> (#[trigger] f[j]).0 != k,
    ensures
        get_key(f, k) == Some(f[i].1),
{
    lemma_key_pos_is(f, k, i);
}

proof fn lemma_names()
    ensures
        "header"@ != "schema"@,
        "header"@ != "config"@,
        "body"@ != "schema"@,
        "body"@ != "config"@,
        "body"@ != "header"@,
        "elements"@ != "direction"@,
        "elements"@ != "padding"@,
        "elements"@ != "vertical_spacing"@,
        "subtitle"@ != "title"@,
        "content"@ != "tag"@,
        "content"@ != "text_size"@,
        "text"@ != "tag"@,
        "behaviors"@ != "tag"@,
        "behaviors"@ != "text"@,
        "behaviors"@ != "type"@,
        "behaviors"@ != "size"@,
        "behaviors"@ != "width"@,
        "value"@ != "type"@,
{
    reveal_strlit("header");
    reveal_strlit("schema");
    reveal_strlit("config");
    reveal_strlit("body");
    reveal_strlit("elements");
    reveal_strlit("direction");
    reveal_strlit("padding");
    reveal_strlit("vertical_spacing");
    reveal_strlit("title");
    reveal_strlit("subtitle");
    reveal_strlit("content");
    reveal_strlit("tag");
    reveal_strlit("text_size");
    reveal_strlit("text");
    reveal_strlit("behaviors");
    reveal_strlit("type");
    reveal_strlit("size");
    reveal_strlit("width");
    reveal_strlit("value");
    assert("header"@[0] == 'h' && "schema"@[0] == 's' && "config"@[0] == 'c');
    assert("body"@.len() == 4 && "schema"@.len() == 6 && "config"@.len() == 6 && "header"@.len()
        == 6);
    assert("elements"@.len() == 8 && "direction"@.len() == 9 && "padding"@.len() == 7
        && "vertical_spacing"@.len() == 16);
    assert("subtitle"@.len() == 8 && "title"@.len() == 5);
    assert("content"@.len() == 7 && "tag"@.len() == 3 && "text_size"@.len() == 9);
    assert("behaviors"@.len() == 9 && "text"@.len() == 4 && "type"@.len() == 4 && "size"@.len()
        == 4 && "width"@.len() == 5 && "value"@.len() == 5);
}

/// What is read on a card that was put together of a head and parts.
pub proof fn lemma_card(head: JsonView, parts: Seq<JsonView>)
    ensures
        parts_of(card_view(head, parts)) == parts,
        card_view(head, parts).field("header"@) == Some(head),
{
    lemma_names();
    let f = card_view(head, parts)->Object_0;
    lemma_field_at(f, "header"@, 2);
    lemma_field_at(f, "body"@, 3);
    lemma_field_at(f[3].1->Object_0, "elements"@, 3);
}

/// What is read on the head of a card.
pub proof fn lemma_head(title: Seq<char>, template: Seq<char>, parts: Seq<JsonView>)
    ensures
        title_of(card_view(header_view(title, template), parts)) == Some(title),
{
    lemma_names();
    let h = header_view(title, template);
    lemma_card(h, parts);
    lemma_field_at(h->Object_0, "title"@, 0);
    lemma_field_at(h->Object_0[0].1->Object_0, "content"@, 1);
}

/// What is read on the head of a card with a second line.
pub proof fn lemma_two_heads(
    title: Seq<char>,
    subtitle: Seq<char>,
    template: Seq<char>,
    parts: Seq<JsonView>,
)
    ensures
        title_of(card_view(titled_view(title, subtitle, template), parts)) == Some(title),
        subtitle_of(card_view(titled_view(title, subtitle, template), parts)) == Some(subtitle),
{
    lemma_names();
    let h = titled_view(title, subtitle, template);
    lemma_card(h, parts);
    lemma_field_at(h->Object_0, "title"@, 0);
    lemma_field_at(h->Object_0, "subtitle"@, 1);
    lemma_field_at(h->Object_0[0].1->Object_0, "content"@, 1);
    lemma_field_at(h->Object_0[1].1->Object_0, "content"@, 1);
}

/// What a paragraph says.
pub proof fn lemma_paragraph(content: Seq<char>)
    ensures
        paragraph(markdown_view(content)) == content,
        paragraph(note_view(content)) == content,
{
    lemma_names();
    lemma_field_at(markdown_view(content)->Object_0, "content"@, 1);
    lemma_field_at(note_view(content)->Object_0, "content"@, 2);
}

/// A card says what stands in one of its paragraphs.
pub proof fn lemma_says(card: JsonView, i: int, content: Seq<char>, part: Seq<char>)
    requires
        0 <= i < parts_of(card).len(),
        parts_of(card)[i] == markdown_view(content),
        holds_part(content, part),
    ensures
        says(card, part),
{
    lemma_paragraph(content);
    assert(holds_part(paragraph(parts_of(card)[i]), part));
}

/// A text between two others is held by all three together.
pub proof fn lemma_holds(before: Seq<char>, part: Seq<char>, after: Seq<char>)
    ensures
        holds_part(before + part + after, part),
{
    let s = before + part + after;
    let k = before.len() as int;
    assert(s.subrange(k, k + part.len()) =~= part);
}

/// A text holds what a text that it holds holds.
pub proof fn lemma_holds_through(s: Seq<char>, t: Seq<char>, part: Seq<char>)
    requires
        holds_part(s, t),
        holds_part(t, part),
    ensures
        holds_part(s, part),
{
    let k = choose|k: int| 0 <= k <= s.len() - t.len() && #[trigger] s.subrange(k, k + t.len()) == t;
    let m = choose|m: int|
        0 <= m <= t.len() - part.len() && #[trigger] t.subrange(m, m + part.len()) == part;
    assert(s.subrange(k + m, k + m + part.len()) =~= part) by {
        assert forall|i: int| 0 <= i < part.len() implies s.subrange(k + m, k + m + part.len())[i]
            == part[i] by {
            assert(s.subrange(k, k + t.len())[m + i] == t[m + i]);
            assert(t.subrange(m, m + part.len())[i] == part[i]);
        }
    }
}

/// A text holds itself.
pub proof fn lemma_holds_self(s: Seq<char>)
    ensures
        holds_part(s, s),
{
    assert(s.subrange(0int, 0int + s.len()) =~= s);
}

/// A text held by one of two that follow each other is held by both together.
pub proof fn lemma_holds_side(a: Seq<char>, b: Seq<char>, part: Seq<char>)
    ensures
        holds_part(a, part) ==> holds_part(a + b, part),
        holds_part(b, part) ==> holds_part(a + b, part),
{
    if holds_part(a, part) {
        lemma_holds(Seq::empty(), a, b);
        assert(Seq::<char>::empty() + a + b =~= a + b);
        lemma_holds_through(a + b, a, part);
    }
    if holds_part(b, part) {
        lemma_holds(a, b, Seq::empty());
        assert(a + b + Seq::<char>::empty() =~= a + b);
        lemma_holds_through(a + b, b, part);
    }
}

/// Texts joined by others hold each of them.
pub proof fn lemma_joined_holds(parts: Seq<Seq<char>>, sep: Seq<char>, i: int)
    requires
        0 <= i < parts.len(),
    ensures
        holds_part(crate::text::joined(parts, sep), parts[i]),
    decreases parts.len(),
{
    let s = crate::text::joined(parts, sep);
    if parts.len() == 1 {
        lemma_holds_self(parts[0]);
    } else {
        let rest = crate::text::joined(parts.drop_last(), sep);
        if i == parts.len() - 1 {
            lemma_holds(rest + sep, parts.last(), Seq::empty());
            assert(rest + sep + parts.last() + Seq::<char>::empty() =~= s);
        } else {
            lemma_joined_holds(parts.drop_last(), sep, i);
            lemma_holds_side(rest, sep, parts[i]);
            lemma_holds_side(rest + sep, parts.last(), parts[i]);
        }
    }
}

/// Texts one after the other hold each of them with what is put before and after it.
pub proof fn lemma_wrapped_holds(
    parts: Seq<Seq<char>>,
    before: Seq<char>,
    after: Seq<char>,
    i: int,
)
    requires
        0 <= i < parts.len(),
    ensures
        holds_part(crate::text::wrapped(parts, before, after), before + parts[i] + after),
    decreases parts.len(),
{
    let s = crate::text::wrapped(parts, before, after);
    let rest = crate::text::wrapped(parts.drop_last(), before, after);
    let line = before + parts.last() + after;
    assert(s =~= rest + line);
    if i == parts.len() - 1 {
        lemma_holds_self(line);
        lemma_holds_side(rest, line, line);
    } else {
        lemma_wrapped_holds(parts.drop_last(), before, after, i);
        lemma_holds_side(rest, line, before + parts[i] + after);
    }
}

/// What lies in a part of a card lies in the card.
pub proof fn lemma_within_card(head: JsonView, parts: Seq<JsonView>, i: int, x: JsonView)
    requires
        0 <= i < parts.len(),
        within(parts[i], x),
    ensures
        within(card_view(head, parts), x),
{
    let c = card_view(head, parts);
    let body = c->Object_0[3].1;
    let l = body->Object_0[3].1;
    assert(l == JsonView::List(parts));
    assert(within(l->List_0[i], x));
    assert(within(l, x));
    assert(within(body->Object_0[3].1, x));
    assert(within(body, x));
    assert(within(c->Object_0[3].1, x));
}

/// A button in a row lies in the row.
pub proof fn lemma_within_row(buttons: Seq<JsonView>, i: int)
    requires
        0 <= i < buttons.len(),
    ensures
        within(row_view(buttons), buttons[i]),
{
    let r = row_view(buttons);
    if buttons.len() != 1 {
        let l = r->Object_0[4].1;
        let col = button_column_view(buttons[i]);
        let e = col->Object_0[3].1;
        assert(e->List_0[0] == buttons[i]);
        assert(within(e->List_0[0], buttons[i]));
        assert(within(e, buttons[i]));
        assert(within(col->Object_0[3].1, buttons[i]));
        assert(within(col, buttons[i]));
        assert(l->List_0[i] == col);
        assert(within(l->List_0[i], buttons[i]));
        assert(within(l, buttons[i]));
        assert(within(r->Object_0[4].1, buttons[i]));
    }
}

/// A button of a grid lies in one of its rows.
pub proof fn lemma_within_grid(buttons: Seq<JsonView>, per_row: nat, i: int) -> (k: int)
    requires
        0 <= i < buttons.len(),
        per_row > 0,
    ensures
        0 <= k < grid_view(buttons, per_row).len(),
        within(grid_view(buttons, per_row)[k], buttons[i]),
    decreases buttons.len(),
{
    let g = grid_view(buttons, per_row);
    let n = buttons.len() as int;
    if n <= per_row {
        lemma_within_row(buttons, i);
        0
    } else {
        let first = buttons.subrange(0, per_row as int);
        let rest = buttons.subrange(per_row as int, n);
        if i < per_row {
            lemma_within_row(first, i);
            assert(first[i] == buttons[i]);
            0
        } else {
            let k = lemma_within_grid(rest, per_row, i - per_row);
            assert(rest[i - per_row] == buttons[i]);
            assert(g[k + 1] == grid_view(rest, per_row)[k]);
            k + 1
        }
    }
}

/// A button has its label and sends its value.
pub proof fn lemma_button(label: Seq<char>, value: JsonView, style: Seq<char>)
    ensures
        is_button(button_view(label, value, style), label, value),
        within(button_view(label, value, style), button_view(label, value, style)),
{
    lemma_names();
    let f = button_view(label, value, style)->Object_0;
    lemma_field_at(f, "tag"@, 0);
    lemma_field_at(f, "text"@, 1);
    lemma_field_at(f, "behaviors"@, 5);
    lemma_field_at(f[1].1->Object_0, "content"@, 1);
    lemma_field_at(f[5].1->List_0[0]->Object_0, "value"@, 1);
}

/// A button of a form has its label and sends its value.
pub proof fn lemma_submit(label: Seq<char>, value: JsonView, style: Seq<char>, id: Seq<char>)
    ensures
        is_button(submit_view(label, value, style, id), label, value),
{
    lemma_names();
    reveal_strlit("behaviors");
    reveal_strlit("form_action_type");
    reveal_strlit("name");
    assert("form_action_type"@.len() == 16 && "name"@.len() == 4 && "behaviors"@.len() == 9);
    let f = submit_view(label, value, style, id)->Object_0;
    lemma_field_at(f, "tag"@, 0);
    lemma_field_at(f, "text"@, 1);
    lemma_field_at(f, "behaviors"@, 7);
    lemma_field_at(f[1].1->Object_0, "content"@, 1);
    lemma_field_at(f[7].1->List_0[0]->Object_0, "value"@, 1);
}

/// What lies in an element of a form lies in the form.
pub proof fn lemma_within_form(name: Seq<char>, elements: Seq<JsonView>, i: int, x: JsonView)
    requires
        0 <= i < elements.len(),
        within(elements[i], x),
    ensures
        within(form_view(name, elements), x),
{
    let f = form_view(name, elements);
    let l = f->Object_0[2].1;
    assert(within(l->List_0[i], x));
    assert(within(l, x));
    assert(within(f->Object_0[2].1, x));
}

} // verus!
