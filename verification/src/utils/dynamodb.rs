//! DynamoDB attribute values as plain data, and typed reads from an item.

use vstd::prelude::*;
use crate::decimal::{parse_i64, parse_i64_spec};

verus! {

/// An attribute value of a DynamoDB item. The variants that no handler
/// reads (binary data, sets, lists and maps) are all `Unsupported`.
#[derive(Debug, Clone, PartialEq, Eq)]
pub enum AttributeValue {
    /// A string.
    S(String),
    /// A number, as DynamoDB transmits it: decimal text.
    N(String),
    /// A boolean.
    Bool(bool),
    /// A null.
    Null(bool),
    /// Any other kind of value.
    Unsupported,
}

/// The mathematical value of an [`AttributeValue`].
pub enum AttributeValueView {
    S(Seq<char>),
    N(Seq<char>),
    Bool(bool),
    Null(bool),
    Unsupported,
}

impl View for AttributeValue {
    type V = AttributeValueView;

    open spec fn view(&self) -> AttributeValueView {
        match self {
            AttributeValue::S(s) => AttributeValueView::S(s@),
            AttributeValue::N(n) => AttributeValueView::N(n@),
            AttributeValue::Bool(b) => AttributeValueView::Bool(*b),
            AttributeValue::Null(b) => AttributeValueView::Null(*b),
            AttributeValue::Unsupported => AttributeValueView::Unsupported,
        }
    }
}

/// An item: attribute names with their values, each name at most once.
pub type Item = Vec<(String, AttributeValue)>;

/// The mathematical value of an item's attribute list.
pub open spec fn item_view(item: Seq<(String, AttributeValue)>) -> Seq<(Seq<char>, AttributeValueView)> {
    item.map_values(|p: (String, AttributeValue)| (p.0@, p.1@))
}

/// The value stored under `name`, if any (the first entry of that name).
pub open spec fn attr_get(item: Seq<(Seq<char>, AttributeValueView)>, name: Seq<char>) -> Option<AttributeValueView>
    decreases item.len(),
{
    if item.len() == 0 {
        None
    } else if item[0].0 == name {
        Some(item[0].1)
    } else {
        attr_get(item.drop_first(), name)
    }
}

/// Whether no two attributes of an item share a name, as in every item that
/// DynamoDB stores or returns.
pub open spec fn distinct_attr_names(item: Seq<(Seq<char>, AttributeValueView)>) -> bool {
    forall|i: int, j: int|
        0 <= i < item.len() && 0 <= j < item.len() && i != j ==> #[trigger] item[i].0
            != #[trigger] item[j].0
}

/// The first attribute named `name` is the one that `attr_get` finds.
pub proof fn lemma_attr_get_first(item: Seq<(Seq<char>, AttributeValueView)>, name: Seq<char>, i: int)
    requires
        0 <= i < item.len(),
        item[i].0 == name,
        forall|j: int| 0 <= j < i ==> #[trigger] item[j].0 != name,
    ensures
        attr_get(item, name) == Some(item[i].1),
    decreases i,
{
    if i > 0 {
        let rest = item.drop_first();
        assert forall|j: int| 0 <= j < i - 1 implies #[trigger] rest[j].0 != name by {
            assert(rest[j] == item[j + 1]);
        }
        lemma_attr_get_first(rest, name, i - 1);
    }
}

/// An item without an attribute named `name` gives nothing under it.
pub proof fn lemma_attr_get_absent(item: Seq<(Seq<char>, AttributeValueView)>, name: Seq<char>)
    requires
        forall|j: int| 0 <= j < item.len() ==> #[trigger] item[j].0 != name,
    ensures
        attr_get(item, name) is None,
    decreases item.len(),
{
    if item.len() > 0 {
        let rest = item.drop_first();
        assert forall|j: int| 0 <= j < rest.len() implies #[trigger] rest[j].0 != name by {
            assert(rest[j] == item[j + 1]);
        }
        lemma_attr_get_absent(rest, name);
    }
}

/// In an item whose names are distinct, the value under a name is the one
/// paired with it, wherever the pair stands: the order of the attributes
/// does not matter.
pub proof fn lemma_attr_get_in_item(item: Seq<(Seq<char>, AttributeValueView)>, name: Seq<char>)
    requires
        distinct_attr_names(item),
    ensures
        forall|v: AttributeValueView| attr_get(item, name) == Some(v) <==> #[trigger] item.contains((name, v)),
        attr_get(item, name) is None <==> forall|j: int| 0 <= j < item.len() ==> #[trigger] item[j].0 != name,
{
    if exists|i: int| 0 <= i < item.len() && #[trigger] item[i].0 == name {
        let i = choose|i: int| 0 <= i < item.len() && #[trigger] item[i].0 == name;
        assert forall|j: int| 0 <= j < i implies #[trigger] item[j].0 != name by {
            assert(item[j].0 != item[i].0);
        }
        lemma_attr_get_first(item, name, i);
        assert forall|v: AttributeValueView| attr_get(item, name) == Some(v) <==> #[trigger] item.contains((name, v)) by {
            if item.contains((name, v)) {
                let k = choose|k: int| 0 <= k < item.len() && item[k] == (name, v);
                if k != i {
                    assert(item[k].0 != item[i].0);
                }
            }
            if attr_get(item, name) == Some(v) {
                assert(item[i] == (name, v));
            }
        }
    } else {
        lemma_attr_get_absent(item, name);
        assert forall|v: AttributeValueView| !#[trigger] item.contains((name, v)) by {
            if item.contains((name, v)) {
                let k = choose|k: int| 0 <= k < item.len() && item[k] == (name, v);
                assert(item[k].0 == name);
            }
        }
    }
}

/// Two items with distinct names that pair `name` with the same values give
/// the same value under `name`, whatever else they hold and in whatever order.
pub proof fn lemma_attr_get_same(
    a: Seq<(Seq<char>, AttributeValueView)>,
    b: Seq<(Seq<char>, AttributeValueView)>,
    name: Seq<char>,
)
    requires
        distinct_attr_names(a),
        distinct_attr_names(b),
        forall|v: AttributeValueView| a.contains((name, v)) <==> b.contains((name, v)),
    ensures
        attr_get(a, name) == attr_get(b, name),
{
    lemma_attr_get_in_item(a, name);
    lemma_attr_get_in_item(b, name);
    match attr_get(a, name) {
        Some(v) => {
            assert(a.contains((name, v)));
            assert(b.contains((name, v)));
        },
        None => {
            match attr_get(b, name) {
                Some(w) => {
                    assert(b.contains((name, w)));
                    assert(a.contains((name, w)));
                },
                None => {},
            }
        },
    }
}

/// The string stored under `name`, if the value there is a string.
pub open spec fn string_attr(item: Seq<(Seq<char>, AttributeValueView)>, name: Seq<char>) -> Option<Seq<char>> {
    match attr_get(item, name) {
        Some(AttributeValueView::S(s)) => Some(s),
        _ => None,
    }
}

/// The `i64` stored under `name`, if the value there is a number whose text
/// parses as one.
pub open spec fn number_attr(item: Seq<(Seq<char>, AttributeValueView)>, name: Seq<char>) -> Option<int> {
    match attr_get(item, name) {
        Some(AttributeValueView::N(t)) => parse_i64_spec(t),
        _ => None,
    }
}

/// The value stored under `name`, if any.
pub fn get_attribute<'a>(item: &'a Item, name: &str) -> (r: Option<&'a AttributeValue>)
    ensures
        r is None <==> attr_get(item_view(item@), name@) is None,
        r is Some ==> attr_get(item_view(item@), name@) == Some(r->0@),
{
    let ghost view = item_view(item@);
    let name_s = name.to_owned();
    let mut i: usize = 0;
    assert(view.skip(0) =~= view);
    while i < item.len()
        invariant
            i <= item.len(),
            view == item_view(item@),
            name_s@ == name@,
            attr_get(view, name@) == attr_get(view.skip(i as int), name@),
        decreases item.len() - i,
    {
        assert(view.skip(i as int).drop_first() =~= view.skip(i + 1));
        assert(view.skip(i as int)[0] == view[i as int]);
        if item[i].0 == name_s {
            return Some(&item[i].1);
        }
        i = i + 1;
    }
    assert(view.skip(i as int) =~= Seq::<(Seq<char>, AttributeValueView)>::empty());
    None
}

/// The string stored under `name`, if the value there is a string.
pub fn get_string(item: &Item, name: &str) -> (r: Option<String>)
    ensures
        r is None <==> string_attr(item_view(item@), name@) is None,
        r is Some ==> string_attr(item_view(item@), name@) == Some(r->0@),
{
    match get_attribute(item, name) {
        Some(AttributeValue::S(s)) => Some(s.clone()),
        _ => None,
    }
}

/// The `i64` stored under `name`, if the value there is a number that
/// parses as one.
pub fn get_number(item: &Item, name: &str) -> (r: Option<i64>)
    ensures
        r is None <==> number_attr(item_view(item@), name@) is None,
        r is Some ==> number_attr(item_view(item@), name@) == Some(r->0 as int),
{
    match get_attribute(item, name) {
        Some(AttributeValue::N(t)) => parse_i64(t.as_str()),
        _ => None,
    }
}

} // verus!
