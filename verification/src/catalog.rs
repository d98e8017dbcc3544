//! The category catalog: the built-in symbol groups in a fixed order, and
//! after them the user's own group where there is one.

use vstd::prelude::*;
use crate::text::texts;

verus! {

/// A named, ordered group of selectable symbols.
#[derive(Clone, Debug, PartialEq, Eq)]
pub struct Category {
    pub name: String,
    pub emojis: Vec<String>,
}

/// What a `Category` holds, as character sequences.
pub struct CategoryView {
    pub name: Seq<char>,
    pub items: Seq<Seq<char>>,
}

impl View for Category {
    type V = CategoryView;

    open spec fn view(&self) -> CategoryView {
        CategoryView { name: self.name@, items: texts(self.emojis@) }
    }
}

/// The views of a list of categories, in order.
pub open spec fn category_views(cats: Seq<Category>) -> Seq<CategoryView> {
    cats.map_values(|c: Category| c@)
}

/// The first built-in category.
pub open spec fn smileys() -> CategoryView {
    CategoryView {
        name: "Smileys"@,
        items: seq!["😀"@, "😁"@, "😂"@, "🤣"@, "😊"@, "😍"@, "😎"@, "😭"@],
    }
}

/// The second built-in category.
pub open spec fn gestures() -> CategoryView {
    CategoryView { name: "Gestures"@, items: seq!["👍"@, "👎"@, "🙏"@, "👏"@, "🤝"@, "✌️"@] }
}

/// The third built-in category.
pub open spec fn symbols() -> CategoryView {
    CategoryView { name: "Symbols"@, items: seq!["❤️"@, "💔"@, "✨"@, "🔥"@, "💀"@, "⭐"@] }
}

/// The fourth built-in category.
pub open spec fn objects() -> CategoryView {
    CategoryView { name: "Objects"@, items: seq!["🎉"@, "🎮"@, "🎧"@, "📦"@, "💡"@, "🖥️"@] }
}

/// The built-in categories, in the order in which they are shown.
pub open spec fn builtin_categories() -> Seq<CategoryView> {
    seq![smileys(), gestures(), symbols(), objects()]
}

/// The user's own category, which holds `items` as given, even if empty.
pub open spec fn user_category(items: Seq<Seq<char>>) -> CategoryView {
    CategoryView { name: "Kaomoji"@, items }
}

/// The whole catalog: the built-in categories, then the user's own where
/// `extra` is present.
pub open spec fn catalog(extra: Option<Seq<Seq<char>>>) -> Seq<CategoryView> {
    match extra {
        Some(items) => builtin_categories().push(user_category(items)),
        None => builtin_categories(),
    }
}

/// The views of optional extra items.
pub open spec fn extra_view(extra: Option<Vec<String>>) -> Option<Seq<Seq<char>>> {
    match extra {
        Some(items) => Some(texts(items@)),
        None => None,
    }
}

/// A category with the given name and symbols.
pub fn make_category(name: &str, emojis: Vec<String>) -> (c: Category)
    ensures
        c@ == (CategoryView { name: name@, items: texts(emojis@) }),
{
    Category { name: name.to_owned(), emojis }
}

fn smileys_items() -> (v: Vec<String>)
    ensures
        texts(v@) == smileys().items,
{
    let v: Vec<String> = vec![
        "😀".to_owned(),
        "😁".to_owned(),
        "😂".to_owned(),
        "🤣".to_owned(),
        "😊".to_owned(),
        "😍".to_owned(),
        "😎".to_owned(),
        "😭".to_owned(),
    ];
    assert(texts(v@) =~= smileys().items);
    v
}

fn gestures_items() -> (v: Vec<String>)
    ensures
        texts(v@) == gestures().items,
{
    let v: Vec<String> = vec![
        "👍".to_owned(),
        "👎".to_owned(),
        "🙏".to_owned(),
        "👏".to_owned(),
        "🤝".to_owned(),
        "✌️".to_owned(),
    ];
    assert(texts(v@) =~= gestures().items);
    v
}

fn symbols_items() -> (v: Vec<String>)
    ensures
        texts(v@) == symbols().items,
{
    let v: Vec<String> = vec![
        "❤️".to_owned(),
        "💔".to_owned(),
        "✨".to_owned(),
        "🔥".to_owned(),
        "💀".to_owned(),
        "⭐".to_owned(),
    ];
    assert(texts(v@) =~= symbols().items);
    v
}

fn objects_items() -> (v: Vec<String>)
    ensures
        texts(v@) == objects().items,
{
    let v: Vec<String> = vec![
        "🎉".to_owned(),
        "🎮".to_owned(),
        "🎧".to_owned(),
        "📦".to_owned(),
        "💡".to_owned(),
        "🖥️".to_owned(),
    ];
    assert(texts(v@) =~= objects().items);
    v
}

/// Builds the catalog for a session. The result depends on `extra` alone.
pub fn build_catalog(extra: Option<Vec<String>>) -> (cats: Vec<Category>)
    ensures
        category_views(cats@) == catalog(extra_view(extra)),
{
    let mut cats: Vec<Category> = Vec::new();
    cats.push(make_category("Smileys", smileys_items()));
    cats.push(make_category("Gestures", gestures_items()));
    cats.push(make_category("Symbols", symbols_items()));
    cats.push(make_category("Objects", objects_items()));
    assert(category_views(cats@) =~= builtin_categories());
    match extra {
        Some(items) => {
            let ghost given = texts(items@);
            cats.push(make_category("Kaomoji", items));
            assert(category_views(cats@) =~= builtin_categories().push(user_category(given)));
        },
        None => {},
    }
    cats
}

/// The catalog always starts with the four built-in categories, so it is
/// never empty; the user's category, where present, is the last one.
pub proof fn lemma_catalog_shape(extra: Option<Seq<Seq<char>>>)
    ensures
        catalog(extra).len() == (if extra is Some { 5int } else { 4int }),
        catalog(extra).take(4) == builtin_categories(),
        extra is Some ==> catalog(extra).last() == user_category(extra->0),
{
    assert(catalog(extra).take(4) =~= builtin_categories());
}

} // verus!
