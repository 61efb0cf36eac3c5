//! Interactions as the service reads them, and the search for the text
//! that a submitted dialog carries.

use vstd::prelude::*;
use crate::platform::text_view;

verus! {

/// One component of a row of a submitted dialog.
#[derive(Debug, Clone, PartialEq, Eq)]
pub enum ActionRowComponent {
    Button,
    SelectMenu,
    /// A text field with what was typed into it.
    InputText { custom_id: String, value: String },
}

/// One row of a submitted dialog.
#[derive(Debug, Clone, PartialEq, Eq)]
pub struct ActionRow {
    pub components: Vec<ActionRowComponent>,
}

/// An interaction with a message of the service.
#[derive(Debug, Clone, PartialEq, Eq)]
pub enum Interaction {
    /// `user` used the component `custom_id` on a message in `channel_id`.
    MessageComponent { custom_id: String, channel_id: u64, user: u64 },
    /// `user` submitted the dialog `custom_id`, opened in `channel_id`.
    ModalSubmit { custom_id: String, channel_id: u64, user: u64, components: Vec<ActionRow> },
    /// Any other interaction.
    Other,
}

/// Whether `component` is the text field called `field`.
pub open spec fn is_field(component: ActionRowComponent, field: Seq<char>) -> bool {
    match component {
        ActionRowComponent::InputText { custom_id, value } => custom_id@ == field,
        _ => false,
    }
}

/// The text of a text field; empty for any other component.
pub open spec fn field_value(component: ActionRowComponent) -> Seq<char> {
    match component {
        ActionRowComponent::InputText { custom_id, value } => value@,
        _ => Seq::empty(),
    }
}

/// The text of the first field called `field` among `components`.
pub open spec fn text_in_row(components: Seq<ActionRowComponent>, field: Seq<char>) -> Option<
    Seq<char>,
>
    decreases components.len(),
{
    if components.len() == 0 {
        None
    } else if is_field(components[0], field) {
        Some(field_value(components[0]))
    } else {
        text_in_row(components.drop_first(), field)
    }
}

/// The text of the first field called `field` in `rows`, read row by row.
pub open spec fn text_in_rows(rows: Seq<ActionRow>, field: Seq<char>) -> Option<Seq<char>>
    decreases rows.len(),
{
    if rows.len() == 0 {
        None
    } else {
        match text_in_row(rows[0].components@, field) {
            Some(text) => Some(text),
            None => text_in_rows(rows.drop_first(), field),
        }
    }
}

/// What `text_in_row` finds is the text of the field called `field` that
/// stands first among `components`; it finds nothing exactly when no
/// component is such a field.
pub proof fn law_first_field_of_row(components: Seq<ActionRowComponent>, field: Seq<char>)
    ensures
        match text_in_row(components, field) {
            Some(text) => exists|i: int|
                0 <= i < components.len() && is_field(#[trigger] components[i], field) && text
                    == field_value(components[i]) && forall|j: int|
                    0 <= j < i ==> !is_field(#[trigger] components[j], field),
            None => forall|i: int|
                0 <= i < components.len() ==> !is_field(#[trigger] components[i], field),
        },
    decreases components.len(),
{
    if components.len() > 0 && !is_field(components[0], field) {
        let rest = components.drop_first();
        law_first_field_of_row(rest, field);
        assert(forall|k: int| 0 <= k < rest.len() ==> rest[k] == components[k + 1]);
        match text_in_row(rest, field) {
            Some(text) => {
                let i = choose|i: int|
                    0 <= i < rest.len() && is_field(#[trigger] rest[i], field) && text
                        == field_value(rest[i]) && forall|j: int|
                        0 <= j < i ==> !is_field(#[trigger] rest[j], field);
                assert(is_field(components[i + 1], field));
                assert forall|j: int| 0 <= j < i + 1 implies !is_field(
                    #[trigger] components[j],
                    field,
                ) by {
                    if j > 0 {
                        assert(rest[j - 1] == components[j]);
                    }
                }
            },
            None => {
                assert forall|i: int| 0 <= i < components.len() implies !is_field(
                    #[trigger] components[i],
                    field,
                ) by {
                    if i > 0 {
                        assert(rest[i - 1] == components[i]);
                    }
                }
            },
        }
    }
}

/// What `text_in_rows` finds is what the first row that holds a field
/// called `field` holds for it; it finds nothing exactly when no row does.
pub proof fn law_first_row_with_field(rows: Seq<ActionRow>, field: Seq<char>)
    ensures
        match text_in_rows(rows, field) {
            Some(text) => exists|i: int|
                0 <= i < rows.len() && Some(text) == text_in_row(
                    (#[trigger] rows[i]).components@,
                    field,
                ) && forall|j: int|
                    0 <= j < i ==> text_in_row((#[trigger] rows[j]).components@, field).is_none(),
            None => forall|i: int|
                0 <= i < rows.len() ==> text_in_row(
                    (#[trigger] rows[i]).components@,
                    field,
                ).is_none(),
        },
    decreases rows.len(),
{
    if rows.len() > 0 && text_in_row(rows[0].components@, field).is_none() {
        let rest = rows.drop_first();
        law_first_row_with_field(rest, field);
        assert(forall|k: int| 0 <= k < rest.len() ==> rest[k] == rows[k + 1]);
        match text_in_rows(rest, field) {
            Some(text) => {
                let i = choose|i: int|
                    0 <= i < rest.len() && Some(text) == text_in_row(
                        (#[trigger] rest[i]).components@,
                        field,
                    ) && forall|j: int|
                        0 <= j < i ==> text_in_row(
                            (#[trigger] rest[j]).components@,
                            field,
                        ).is_none();
                assert(Some(text) == text_in_row(rows[i + 1].components@, field));
                assert forall|j: int| 0 <= j < i + 1 implies text_in_row(
                    (#[trigger] rows[j]).components@,
                    field,
                ).is_none() by {
                    if j > 0 {
                        assert(rest[j - 1] == rows[j]);
                    }
                }
            },
            None => {
                assert forall|i: int| 0 <= i < rows.len() implies text_in_row(
                    (#[trigger] rows[i]).components@,
                    field,
                ).is_none() by {
                    if i > 0 {
                        assert(rest[i - 1] == rows[i]);
                    }
                }
            },
        }
    }
}

/// Tells whether `text` reads `word`.
pub fn reads(text: &String, word: &str) -> (same: bool)
    ensures
        same == (text@ == word@),
{
    let owned = word.to_owned();
    *text == owned
}

/// Finds the text of the first field called `field` in one row.
pub fn find_in_row(components: &Vec<ActionRowComponent>, field: &str) -> (text: Option<String>)
    ensures
        text_view(text) == text_in_row(components@, field@),
{
    let mut i: usize = 0;
    assert(components@.skip(0) =~= components@);
    while i < components.len()
        invariant
            i <= components.len(),
            text_in_row(components@, field@) == text_in_row(components@.skip(i as int), field@),
        decreases components.len() - i,
    {
        proof {
            let rest = components@.skip(i as int);
            assert(rest[0] == components@[i as int]);
            assert(rest.drop_first() =~= components@.skip(i + 1));
        }
        match &components[i] {
            ActionRowComponent::InputText { custom_id, value } => {
                if reads(custom_id, field) {
                    return Some(value.clone());
                }
            },
            _ => {},
        }
        i += 1;
    }
    None
}

/// Finds the text of the first field called `field` in a submitted dialog.
pub fn find_in_rows(rows: &Vec<ActionRow>, field: &str) -> (text: Option<String>)
    ensures
        text_view(text) == text_in_rows(rows@, field@),
{
    let mut i: usize = 0;
    assert(rows@.skip(0) =~= rows@);
    while i < rows.len()
        invariant
            i <= rows.len(),
            text_in_rows(rows@, field@) == text_in_rows(rows@.skip(i as int), field@),
        decreases rows.len() - i,
    {
        proof {
            let rest = rows@.skip(i as int);
            assert(rest[0] == rows@[i as int]);
            assert(rest.drop_first() =~= rows@.skip(i + 1));
        }
        let found = find_in_row(&rows[i].components, field);
        if found.is_some() {
            return found;
        }
        i += 1;
    }
    None
}

} // verus!
