//! Building the inline-query results that the platform shows from the items
//! the plugin described.
use vstd::prelude::*;

verus! {

/// One result the plugin described: `button_text` and `button_data` give a
/// callback button when both are present.
#[derive(Clone, Debug, PartialEq, Eq)]
pub struct InlineItem {
    pub id: String,
    pub title: String,
    pub message: String,
    pub button_text: Option<String>,
    pub button_data: Option<String>,
}

/// A callback button under a result.
#[derive(Clone, Debug, PartialEq, Eq)]
pub struct InlineButton {
    pub text: String,
    pub data: String,
}

/// An article result: its id, title, the text it sends, and an optional
/// single callback button.
#[derive(Clone, Debug, PartialEq, Eq)]
pub struct InlineResult {
    pub id: String,
    pub title: String,
    pub message: String,
    pub button: Option<InlineButton>,
}

/// The button of an item: present when both its text and its data are.
pub open spec fn button_of(item: InlineItem) -> Option<InlineButton> {
    match (item.button_text, item.button_data) {
        (Some(text), Some(data)) => Some(InlineButton { text, data }),
        _ => None,
    }
}

/// The result that an item stands for.
pub open spec fn result_of(item: InlineItem) -> InlineResult {
    InlineResult { id: item.id, title: item.title, message: item.message, button: button_of(item) }
}

/// The results of the decoded item list; none when the list could not be
/// decoded.
pub open spec fn results_of(decoded: Option<Seq<InlineItem>>) -> Seq<InlineResult> {
    match decoded {
        Some(items) => items.map_values(|i: InlineItem| result_of(i)),
        None => seq![],
    }
}

/// The result that one item stands for.
pub fn make_result(item: &InlineItem) -> (r: InlineResult)
    ensures
        r == result_of(*item),
{
    let button = match (&item.button_text, &item.button_data) {
        (Some(text), Some(data)) => Some(InlineButton { text: text.clone(), data: data.clone() }),
        _ => None,
    };
    InlineResult {
        id: item.id.clone(),
        title: item.title.clone(),
        message: item.message.clone(),
        button,
    }
}

/// The results of a decoded item list, in order; an empty list when the
/// plugin's JSON could not be decoded.
pub fn results_from_items(decoded: Option<Vec<InlineItem>>) -> (r: Vec<InlineResult>)
    ensures
        r@ == results_of(
            match decoded {
                Some(v) => Some(v@),
                None => None,
            },
        ),
{
    match decoded {
        None => Vec::new(),
        Some(items) => {
            let mut out: Vec<InlineResult> = Vec::new();
            let mut i: usize = 0;
            while i < items.len()
                invariant
                    i <= items@.len(),
                    out@ =~= items@.subrange(0, i as int).map_values(|x: InlineItem| result_of(x)),
                decreases items@.len() - i,
            {
                out.push(make_result(&items[i]));
                i = i + 1;
            }
            assert(items@.subrange(0, items@.len() as int) =~= items@);
            out
        },
    }
}

} // verus!
