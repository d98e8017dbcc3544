//! The persisted preferences: every field is optional, and an absent field
//! stands for its default.

use vstd::prelude::*;
use crate::text::texts;

verus! {

/// The user's own symbols, shown as one more category.
#[derive(Clone, Debug, PartialEq, Eq)]
pub struct KaomojiSection {
    pub items: Vec<String>,
}

/// The preferences as they are stored. `None` means that the field is absent.
#[derive(Clone, Debug, PartialEq, Eq)]
pub struct Config {
    pub auto_paste: Option<bool>,
    pub remember_last_category: Option<bool>,
    pub last_category: Option<usize>,
    pub kaomoji: Option<KaomojiSection>,
}

/// What a `Config` holds, with texts as character sequences.
pub struct ConfigView {
    pub auto_paste: Option<bool>,
    pub remember_last_category: Option<bool>,
    pub last_category: Option<nat>,
    pub kaomoji: Option<Seq<Seq<char>>>,
}

impl ConfigView {
    /// The preferences to use when nothing is stored.
    pub open spec fn defaults() -> ConfigView {
        ConfigView {
            auto_paste: Some(true),
            remember_last_category: Some(true),
            last_category: Some(0nat),
            kaomoji: None,
        }
    }

    /// Whether a commit also requests a paste: on unless stored otherwise.
    pub open spec fn effective_auto_paste(self) -> bool {
        match self.auto_paste {
            Some(b) => b,
            None => true,
        }
    }

    /// Whether the category is kept across sessions: yes unless stored
    /// otherwise.
    pub open spec fn effective_remember(self) -> bool {
        match self.remember_last_category {
            Some(b) => b,
            None => true,
        }
    }

    /// The stored category index, or 0 where none is stored.
    pub open spec fn effective_last_category(self) -> nat {
        match self.last_category {
            Some(i) => i,
            None => 0nat,
        }
    }

    /// The category a session starts in, before it is fitted to the
    /// catalog: the stored one if categories are remembered, else the first.
    pub open spec fn start_category(self) -> nat {
        if self.effective_remember() {
            self.effective_last_category()
        } else {
            0nat
        }
    }

    /// Every absent field replaced by its default; present fields kept.
    pub open spec fn resolved(self) -> ConfigView {
        ConfigView {
            auto_paste: Some(self.effective_auto_paste()),
            remember_last_category: Some(self.effective_remember()),
            last_category: Some(self.effective_last_category()),
            kaomoji: self.kaomoji,
        }
    }

    /// The same preferences with `index` as the last category.
    pub open spec fn with_last_category(self, index: nat) -> ConfigView {
        ConfigView { last_category: Some(index), ..self }
    }

    /// What loading yields from what was read: the resolved contents, or the
    /// defaults where nothing usable was read.
    pub open spec fn loaded(parsed: Option<ConfigView>) -> ConfigView {
        match parsed {
            Some(c) => c.resolved(),
            None => ConfigView::defaults(),
        }
    }
}

impl View for KaomojiSection {
    type V = Seq<Seq<char>>;

    open spec fn view(&self) -> Seq<Seq<char>> {
        texts(self.items@)
    }
}

impl View for Config {
    type V = ConfigView;

    open spec fn view(&self) -> ConfigView {
        ConfigView {
            auto_paste: self.auto_paste,
            remember_last_category: self.remember_last_category,
            last_category: match self.last_category {
                Some(i) => Some(i as nat),
                None => None,
            },
            kaomoji: match self.kaomoji {
                Some(k) => Some(k@),
                None => None,
            },
        }
    }
}

/// The view of what was read, where something was.
pub open spec fn parsed_view(parsed: Option<Config>) -> Option<ConfigView> {
    match parsed {
        Some(c) => Some(c@),
        None => None,
    }
}

impl Default for Config {
    fn default() -> (r: Config)
        ensures
            r@ == ConfigView::defaults(),
    {
        Config {
            auto_paste: Some(true),
            remember_last_category: Some(true),
            last_category: Some(0),
            kaomoji: None,
        }
    }
}

impl Config {
    /// Whether a commit also requests a paste.
    pub fn effective_auto_paste(&self) -> (r: bool)
        ensures
            r == self@.effective_auto_paste(),
    {
        match self.auto_paste {
            Some(b) => b,
            None => true,
        }
    }

    /// Whether the category is kept across sessions.
    pub fn effective_remember(&self) -> (r: bool)
        ensures
            r == self@.effective_remember(),
    {
        match self.remember_last_category {
            Some(b) => b,
            None => true,
        }
    }

    /// The stored category index, or 0.
    pub fn effective_last_category(&self) -> (r: usize)
        ensures
            r == self@.effective_last_category(),
    {
        match self.last_category {
            Some(i) => i,
            None => 0,
        }
    }

    /// The category a session starts in, before it is fitted to the catalog.
    pub fn start_category(&self) -> (r: usize)
        ensures
            r == self@.start_category(),
    {
        if self.effective_remember() {
            self.effective_last_category()
        } else {
            0
        }
    }

    /// Replaces every absent field by its default and keeps the others.
    pub fn resolved(self) -> (r: Config)
        ensures
            r@ == self@.resolved(),
    {
        let auto_paste: bool = self.effective_auto_paste();
        let remember: bool = self.effective_remember();
        let last: usize = self.effective_last_category();
        Config {
            auto_paste: Some(auto_paste),
            remember_last_category: Some(remember),
            last_category: Some(last),
            kaomoji: self.kaomoji,
        }
    }

    /// Overwrites the last category and nothing else.
    pub fn with_last_category(self, index: usize) -> (r: Config)
        ensures
            r@ == self@.with_last_category(index as nat),
    {
        Config {
            auto_paste: self.auto_paste,
            remember_last_category: self.remember_last_category,
            last_category: Some(index),
            kaomoji: self.kaomoji,
        }
    }
}

/// The preferences to use given what was read from the store: `None` stands
/// for a missing, unreadable or malformed file and yields the defaults; a
/// document yields its fields, with the default for each absent one.
pub fn load_config(parsed: Option<Config>) -> (r: Config)
    ensures
        r@ == ConfigView::loaded(parsed_view(parsed)),
{
    match parsed {
        Some(c) => c.resolved(),
        None => Config::default(),
    }
}

/// Resolving leaves no field absent but the extra category, and resolving
/// again changes nothing.
pub proof fn lemma_resolved_is_stable(c: ConfigView)
    ensures
        c.resolved().auto_paste is Some,
        c.resolved().remember_last_category is Some,
        c.resolved().last_category is Some,
        c.resolved().kaomoji == c.kaomoji,
        c.resolved().resolved() == c.resolved(),
{
}

/// Loading what an earlier load returned gives the same preferences again:
/// a store that hands back what was saved makes load, save, load stable.
pub proof fn lemma_load_is_idempotent(parsed: Option<ConfigView>)
    ensures
        ConfigView::loaded(Some(ConfigView::loaded(parsed))) == ConfigView::loaded(parsed),
{
}

/// Recording a category changes the last category and no other field, and
/// the next load returns the recorded category.
pub proof fn lemma_persist_changes_last_category_only(c: ConfigView, index: nat)
    ensures
        c.with_last_category(index).auto_paste == c.auto_paste,
        c.with_last_category(index).remember_last_category == c.remember_last_category,
        c.with_last_category(index).kaomoji == c.kaomoji,
        ConfigView::loaded(Some(c.with_last_category(index))).effective_last_category() == index,
{
}

} // verus!
