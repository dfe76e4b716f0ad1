//! Parts of interactive cards, in the second version of the card format.

use vstd::prelude::*;
use crate::json::{add_item, items1, list, models, obj1, obj2, obj3, obj4, obj5, obj6, obj8, obj9, text, Json,
    JsonView};
use crate::text::cat3;

verus! {

/// A plain text part.
pub open spec fn plain_view(content: Seq<char>) -> JsonView {
    JsonView::Object(
        seq![("tag"@, JsonView::Text("plain_text"@)), ("content"@, JsonView::Text(content))],
    )
}

fn plain(content: &str) -> (r: Json)
    ensures
        r.model() == plain_view(content@),
{
    obj2("tag", text("plain_text"), "content", text(content))
}

/// A whole card.
pub open spec fn card_view(header: JsonView, elements: Seq<JsonView>) -> JsonView {
    JsonView::Object(
        seq![
            ("schema"@, JsonView::Text("2.0"@)),
            (
                "config"@,
                JsonView::Object(
                    seq![
                        ("wide_screen_mode"@, JsonView::Bool(true)),
                        ("update_multi"@, JsonView::Bool(true)),
                    ],
                ),
            ),
            ("header"@, header),
            (
                "body"@,
                JsonView::Object(
                    seq![
                        ("direction"@, JsonView::Text("vertical"@)),
                        ("padding"@, JsonView::Text("12px 16px 12px 16px"@)),
                        ("vertical_spacing"@, JsonView::Text("8px"@)),
                        ("elements"@, JsonView::List(elements)),
                    ],
                ),
            ),
        ],
    )
}

/// A whole card.
pub fn card(header_value: Json, elements: Vec<Json>) -> (r: Json)
    ensures
        r.model() == card_view(header_value.model(), models(elements@)),
{
    obj4(
        "schema",
        text("2.0"),
        "config",
        obj2("wide_screen_mode", Json::Bool(true), "update_multi", Json::Bool(true)),
        "header",
        header_value,
        "body",
        obj4(
            "direction",
            text("vertical"),
            "padding",
            text("12px 16px 12px 16px"),
            "vertical_spacing",
            text("8px"),
            "elements",
            list(elements),
        ),
    )
}

/// The head of a card.
pub open spec fn header_view(title: Seq<char>, template: Seq<char>) -> JsonView {
    JsonView::Object(
        seq![("title"@, plain_view(title)), ("template"@, JsonView::Text(template))],
    )
}

/// The head of a card.
pub fn header(title: &str, template: &str) -> (r: Json)
    ensures
        r.model() == header_view(title@, template@),
{
    obj2("title", plain(title), "template", text(template))
}

/// The head of a card with a second line.
pub open spec fn titled_view(title: Seq<char>, subtitle: Seq<char>, template: Seq<char>) -> JsonView {
    JsonView::Object(
        seq![
            ("title"@, plain_view(title)),
            ("subtitle"@, plain_view(subtitle)),
            ("template"@, JsonView::Text(template)),
        ],
    )
}

/// The head of a card with a second line.
pub fn header_with_subtitle(title: &str, subtitle: &str, template: &str) -> (r: Json)
    ensures
        r.model() == titled_view(title@, subtitle@, template@),
{
    obj3("title", plain(title), "subtitle", plain(subtitle), "template", text(template))
}

/// A paragraph.
pub open spec fn markdown_view(content: Seq<char>) -> JsonView {
    JsonView::Object(
        seq![("tag"@, JsonView::Text("markdown"@)), ("content"@, JsonView::Text(content))],
    )
}

/// A paragraph.
pub fn markdown(content: &str) -> (r: Json)
    ensures
        r.model() == markdown_view(content@),
{
    obj2("tag", text("markdown"), "content", text(content))
}

/// A paragraph in small print.
pub open spec fn note_view(content: Seq<char>) -> JsonView {
    JsonView::Object(
        seq![
            ("tag"@, JsonView::Text("markdown"@)),
            ("text_size"@, JsonView::Text("notation"@)),
            ("content"@, JsonView::Text(content)),
        ],
    )
}

/// A paragraph in small print.
pub fn note(content: &str) -> (r: Json)
    ensures
        r.model() == note_view(content@),
{
    obj3("tag", text("markdown"), "text_size", text("notation"), "content", text(content))
}

/// Another name of `markdown`.
pub fn div_md(content: &str) -> (r: Json)
    ensures
        r.model() == markdown_view(content@),
{
    markdown(content)
}

/// Another name of `note`.
pub fn note_md(content: &str) -> (r: Json)
    ensures
        r.model() == note_view(content@),
{
    note(content)
}

/// A line across.
pub open spec fn hr_view() -> JsonView {
    JsonView::Object(seq![("tag"@, JsonView::Text("hr"@))])
}

/// A line across.
pub fn hr() -> (r: Json)
    ensures
        r.model() == hr_view(),
{
    obj1("tag", text("hr"))
}

/// Columns side by side.
pub open spec fn column_set_view(columns: Seq<JsonView>) -> JsonView {
    JsonView::Object(
        seq![
            ("tag"@, JsonView::Text("column_set"@)),
            ("horizontal_spacing"@, JsonView::Text("8px"@)),
            ("horizontal_align"@, JsonView::Text("left"@)),
            ("columns"@, JsonView::List(columns)),
        ],
    )
}

/// Columns side by side.
pub fn column_set(columns: Vec<Json>) -> (r: Json)
    ensures
        r.model() == column_set_view(models(columns@)),
{
    obj4(
        "tag",
        text("column_set"),
        "horizontal_spacing",
        text("8px"),
        "horizontal_align",
        text("left"),
        "columns",
        list(columns),
    )
}

/// A column with a weight.
pub open spec fn column_view(elements: Seq<JsonView>, weight: u32) -> JsonView {
    JsonView::Object(
        seq![
            ("tag"@, JsonView::Text("column"@)),
            ("width"@, JsonView::Text("weighted"@)),
            ("weight"@, JsonView::Int(weight as u64)),
            ("vertical_align"@, JsonView::Text("center"@)),
            ("elements"@, JsonView::List(elements)),
        ],
    )
}

/// A column with a weight.
pub fn column(elements: Vec<Json>, weight: u32) -> (r: Json)
    ensures
        r.model() == column_view(models(elements@), weight),
{
    obj5(
        "tag",
        text("column"),
        "width",
        text("weighted"),
        "weight",
        Json::Int(weight as u64),
        "vertical_align",
        text("center"),
        "elements",
        list(elements),
    )
}

/// What a click sends.
pub open spec fn behaviors_view(value: JsonView) -> JsonView {
    JsonView::List(
        seq![
            JsonView::Object(
                seq![("type"@, JsonView::Text("callback"@)), ("value"@, value)],
            ),
        ],
    )
}

fn behaviors(value: Json) -> (r: Json)
    ensures
        r.model() == behaviors_view(value.model()),
{
    list(items1(obj2("type", text("callback"), "value", value)))
}

/// A button that sends `value`.
pub open spec fn button_view(label: Seq<char>, value: JsonView, style: Seq<char>) -> JsonView {
    JsonView::Object(
        seq![
            ("tag"@, JsonView::Text("button"@)),
            ("text"@, plain_view(label)),
            ("type"@, JsonView::Text(style)),
            ("size"@, JsonView::Text("medium"@)),
            ("width"@, JsonView::Text("default"@)),
            ("behaviors"@, behaviors_view(value)),
        ],
    )
}

/// A button that sends `value`.
pub fn button(label: &str, value: Json, style: &str) -> (r: Json)
    ensures
        r.model() == button_view(label@, value.model(), style@),
{
    obj6(
        "tag",
        text("button"),
        "text",
        plain(label),
        "type",
        text(style),
        "size",
        text("medium"),
        "width",
        text("default"),
        "behaviors",
        behaviors(value),
    )
}

/// Whether a text is 32 hexadecimal digits without capitals.
pub open spec fn is_hex_id(s: Seq<char>) -> bool {
    s.len() == 32 && forall|i: int|
        0 <= i < 32 ==> (48 <= (#[trigger] s[i]) as u32 <= 57) || (97 <= s[i] as u32 <= 102)
}

/// Calls `uuid::Uuid::new_v4` and writes the result with `Uuid::simple`. The contract
/// claims only the form, 32 lower-case hexadecimal digits; which they are is random.
#[verifier::external_body]
fn fresh_id() -> (r: String)
    ensures
        is_hex_id(r@),
{
    uuid::Uuid::new_v4().simple().to_string()
}

/// The button of a form, with its name.
pub open spec fn submit_view(
    label: Seq<char>,
    value: JsonView,
    style: Seq<char>,
    id: Seq<char>,
) -> JsonView {
    JsonView::Object(
        seq![
            ("tag"@, JsonView::Text("button"@)),
            ("text"@, plain_view(label)),
            ("type"@, JsonView::Text(style)),
            ("size"@, JsonView::Text("medium"@)),
            ("width"@, JsonView::Text("default"@)),
            ("form_action_type"@, JsonView::Text("submit"@)),
            ("name"@, JsonView::Text("submit_"@ + id)),
            ("behaviors"@, behaviors_view(value)),
        ],
    )
}

/// The button of a form, named by the given id.
pub fn submit_button_named(label: &str, value: Json, style: &str, id: &str) -> (r: Json)
    ensures
        r.model() == submit_view(label@, value.model(), style@, id@),
{
    let name = crate::text::cat2("submit_", id);
    obj8(
        "tag",
        text("button"),
        "text",
        plain(label),
        "type",
        text(style),
        "size",
        text("medium"),
        "width",
        text("default"),
        "form_action_type",
        text("submit"),
        "name",
        text(name.as_str()),
        "behaviors",
        behaviors(value),
    )
}

/// The button of a form, under a fresh name. A click sends the inputs of the form along.
pub fn submit_button(label: &str, value: Json, style: &str) -> (r: Json)
    ensures
        exists|id: Seq<char>|
            is_hex_id(id) && r.model() == #[trigger] submit_view(label@, value.model(), style@, id),
{
    let id = fresh_id();
    let ghost v = value.model();
    let r = submit_button_named(label, value, style, id.as_str());
    assert(r.model() == submit_view(label@, v, style@, id@));
    r
}

/// A column just wide enough for one button.
pub open spec fn button_column_view(b: JsonView) -> JsonView {
    JsonView::Object(
        seq![
            ("tag"@, JsonView::Text("column"@)),
            ("width"@, JsonView::Text("auto"@)),
            ("vertical_align"@, JsonView::Text("center"@)),
            ("elements"@, JsonView::List(seq![b])),
        ],
    )
}

/// Buttons in a row that wraps; a single button stands by itself.
pub open spec fn row_view(buttons: Seq<JsonView>) -> JsonView {
    if buttons.len() == 1 {
        buttons[0]
    } else {
        JsonView::Object(
            seq![
                ("tag"@, JsonView::Text("column_set"@)),
                ("flex_mode"@, JsonView::Text("flow"@)),
                ("horizontal_spacing"@, JsonView::Text("8px"@)),
                ("horizontal_align"@, JsonView::Text("left"@)),
                (
                    "columns"@,
                    JsonView::List(buttons.map_values(|b: JsonView| button_column_view(b))),
                ),
            ],
        )
    }
}

/// Buttons in a row that wraps; a single button stands by itself.
pub fn button_row(buttons: Vec<Json>) -> (r: Json)
    ensures
        r.model() == row_view(models(buttons@)),
{
    let ghost all = models(buttons@);
    let mut rest = buttons;
    if rest.len() == 1 {
        return rest.remove(0);
    }
    let mut cols: Vec<Json> = Vec::new();
    let ghost mut done: int = 0;
    while rest.len() > 0
        invariant
            0 <= done,
            done + rest.len() == all.len(),
            models(rest@) == all.subrange(done, all.len() as int),
            models(cols@) == all.subrange(0, done).map_values(
                |b: JsonView| button_column_view(b),
            ),
        decreases rest.len(),
    {
        let ghost before = models(cols@);
        let ghost left = models(rest@);
        let b = rest.remove(0);
        proof {
            assert(b.model() == left[0]);
            assert(left[0] == all[done]);
            assert(models(rest@) =~= left.subrange(1, left.len() as int));
            assert(left.subrange(1, left.len() as int) =~= all.subrange(
                done + 1,
                all.len() as int,
            ));
        }
        add_item(
            &mut cols,
            obj4(
                "tag",
                text("column"),
                "width",
                text("auto"),
                "vertical_align",
                text("center"),
                "elements",
                list(items1(b)),
            ),
        );
        proof {
            assert(models(cols@) =~= all.subrange(0, done + 1).map_values(
                |b: JsonView| button_column_view(b),
            ));
            done = done + 1;
        }
    }
    assert(all.subrange(0, done) =~= all);
    obj5(
        "tag",
        text("column_set"),
        "flex_mode",
        text("flow"),
        "horizontal_spacing",
        text("8px"),
        "horizontal_align",
        text("left"),
        "columns",
        list(cols),
    )
}

/// Another name of `button_row`.
pub fn actions(buttons: Vec<Json>) -> (r: Json)
    ensures
        r.model() == row_view(models(buttons@)),
{
    button_row(buttons)
}

/// Rows of `per_row` buttons, the last perhaps shorter; `per_row` counts as at least one.
pub open spec fn grid_view(buttons: Seq<JsonView>, per_row: nat) -> Seq<JsonView>
    decreases buttons.len(),
{
    let k = if per_row == 0 {
        1
    } else {
        per_row
    };
    if buttons.len() == 0 {
        Seq::empty()
    } else if buttons.len() <= k {
        seq![row_view(buttons)]
    } else {
        seq![row_view(buttons.subrange(0, k as int))] + grid_view(
            buttons.subrange(k as int, buttons.len() as int),
            per_row,
        )
    }
}

/// Rows of `per_row` buttons.
pub fn button_grid(buttons: Vec<Json>, per_row: usize) -> (r: Vec<Json>)
    ensures
        models(r@) == grid_view(models(buttons@), per_row as nat),
{
    let k: usize = if per_row == 0 {
        1
    } else {
        per_row
    };
    let ghost whole = grid_view(models(buttons@), per_row as nat);
    let mut rest = buttons;
    let mut out: Vec<Json> = Vec::new();
    assert(models(out@) + grid_view(models(rest@), per_row as nat) =~= whole);
    while rest.len() > 0
        invariant
            k == (if per_row == 0 {
                1
            } else {
                per_row
            }),
            models(out@) + grid_view(models(rest@), per_row as nat) == whole,
        decreases rest.len(),
    {
        let ghost before = models(out@);
        let ghost left = models(rest@);
        if rest.len() <= k {
            add_item(&mut out, button_row(rest));
            rest = Vec::new();
            assert(models(rest@) =~= Seq::empty());
            assert(models(out@) + grid_view(models(rest@), per_row as nat) =~= before + seq![
                row_view(left),
            ]);
        } else {
            let tail = rest.split_off(k);
            proof {
                assert(models(rest@) =~= left.subrange(0, k as int));
                assert(models(tail@) =~= left.subrange(k as int, left.len() as int));
            }
            add_item(&mut out, button_row(rest));
            rest = tail;
            assert(models(out@) + grid_view(models(rest@), per_row as nat) =~= before + (seq![
                row_view(left.subrange(0, k as int)),
            ] + grid_view(models(rest@), per_row as nat)));
        }
    }
    assert(models(rest@) =~= Seq::empty());
    assert(models(out@) =~= whole);
    out
}

/// A form.
pub open spec fn form_view(name: Seq<char>, elements: Seq<JsonView>) -> JsonView {
    JsonView::Object(
        seq![
            ("tag"@, JsonView::Text("form"@)),
            ("name"@, JsonView::Text(name)),
            ("elements"@, JsonView::List(elements)),
        ],
    )
}

/// A form.
pub fn form(name: &str, elements: Vec<Json>) -> (r: Json)
    ensures
        r.model() == form_view(name@, models(elements@)),
{
    obj3("tag", text("form"), "name", text(name), "elements", list(elements))
}

/// The longest text that an input accepts.
pub const INPUT_LIMIT: u64 = 1000;

/// A text input.
pub open spec fn input_view(
    name: Seq<char>,
    placeholder: Seq<char>,
    default_value: Seq<char>,
    label: Seq<char>,
) -> JsonView {
    JsonView::Object(
        seq![
            ("tag"@, JsonView::Text("input"@)),
            ("name"@, JsonView::Text(name)),
            ("placeholder"@, plain_view(placeholder)),
            ("default_value"@, JsonView::Text(default_value)),
            ("label"@, plain_view(label)),
            ("label_position"@, JsonView::Text("left"@)),
            ("max_length"@, JsonView::Int(INPUT_LIMIT)),
            ("input_type"@, JsonView::Text("text"@)),
            ("width"@, JsonView::Text("fill"@)),
        ],
    )
}

/// A text input.
pub fn input_field(name: &str, placeholder: &str, default_value: &str, label: &str) -> (r: Json)
    ensures
        r.model() == input_view(name@, placeholder@, default_value@, label@),
{
    obj9(
        "tag",
        text("input"),
        "name",
        text(name),
        "placeholder",
        plain(placeholder),
        "default_value",
        text(default_value),
        "label",
        plain(label),
        "label_position",
        text("left"),
        "max_length",
        Json::Int(INPUT_LIMIT),
        "input_type",
        text("text"),
        "width",
        text("fill"),
    )
}

/// One person of a list.
pub open spec fn person_view(id: Seq<char>) -> JsonView {
    JsonView::Object(seq![("id"@, JsonView::Text(id))])
}

/// A list of people with faces and names.
pub open spec fn people_view(ids: Seq<Seq<char>>) -> JsonView {
    JsonView::Object(
        seq![
            ("tag"@, JsonView::Text("person_list"@)),
            ("size"@, JsonView::Text("medium"@)),
            ("show_avatar"@, JsonView::Bool(true)),
            ("show_name"@, JsonView::Bool(true)),
            ("lines"@, JsonView::Int(2)),
            ("persons"@, JsonView::List(ids.map_values(|id: Seq<char>| person_view(id)))),
        ],
    )
}

/// A list of people with faces and names.
pub fn person_list(open_ids: &Vec<String>) -> (r: Json)
    ensures
        r.model() == people_view(open_ids.deep_view()),
{
    let mut persons: Vec<Json> = Vec::new();
    let ghost ids = open_ids.deep_view();
    let mut i: usize = 0;
    while i < open_ids.len()
        invariant
            i <= open_ids.len(),
            ids == open_ids.deep_view(),
            models(persons@) == ids.subrange(0, i as int).map_values(
                |id: Seq<char>| person_view(id),
            ),
        decreases open_ids.len() - i,
    {
        add_item(&mut persons, obj1("id", text(open_ids[i].as_str())));
        i = i + 1;
        assert(models(persons@) =~= ids.subrange(0, i as int).map_values(
            |id: Seq<char>| person_view(id),
        ));
    }
    assert(ids.subrange(0, i as int) =~= ids);
    obj6(
        "tag",
        text("person_list"),
        "size",
        text("medium"),
        "show_avatar",
        Json::Bool(true),
        "show_name",
        Json::Bool(true),
        "lines",
        Json::Int(2),
        "persons",
        list(persons),
    )
}

/// How a person is mentioned.
pub open spec fn at_text(open_id: Seq<char>) -> Seq<char> {
    "<at id=\""@ + open_id + "\"></at>"@
}

/// How a person is mentioned.
pub fn at(open_id: &str) -> (r: String)
    ensures
        r@ == at_text(open_id@),
{
    cat3("<at id=\"", open_id, "\"></at>")
}

} // verus!
