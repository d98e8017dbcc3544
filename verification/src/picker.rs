//! The picker state machine: which category is active, which item of its
//! filtered view is highlighted, and what each input event does to both.

use vstd::prelude::*;
use crate::catalog::{build_catalog, catalog, category_views, Category, CategoryView};
use crate::prefs::Config;
use crate::text::{filter_items, matching, texts};

verus! {

/// A direction in which the highlight moves.
#[derive(Clone, Copy, Debug, PartialEq, Eq)]
pub enum Move {
    /// Towards the end of the list.
    Down,
    /// Towards the start of the list.
    Up,
}

/// An input event of a session.
#[derive(Clone, Debug, PartialEq, Eq)]
pub enum Event {
    FilterChanged(String),
    MoveSelection(Move),
    NextCategory,
    PrevCategory,
    SelectCategory(usize),
    /// A click on the item at this index of the filtered view.
    SelectItem(usize),
    Commit,
    Cancel,
}

/// An `Event` with its text as a character sequence.
pub enum EventView {
    FilterChanged(Seq<char>),
    MoveSelection(Move),
    NextCategory,
    PrevCategory,
    SelectCategory(int),
    SelectItem(int),
    Commit,
    Cancel,
}

impl View for Event {
    type V = EventView;

    open spec fn view(&self) -> EventView {
        match *self {
            Event::FilterChanged(text) => EventView::FilterChanged(text@),
            Event::MoveSelection(m) => EventView::MoveSelection(m),
            Event::NextCategory => EventView::NextCategory,
            Event::PrevCategory => EventView::PrevCategory,
            Event::SelectCategory(i) => EventView::SelectCategory(i as int),
            Event::SelectItem(i) => EventView::SelectItem(i as int),
            Event::Commit => EventView::Commit,
            Event::Cancel => EventView::Cancel,
        }
    }
}

/// What the caller has to do after an event.
#[derive(Clone, Debug, PartialEq, Eq)]
pub enum Action {
    /// Nothing; the session goes on.
    Stay,
    /// Record this category index in the preference store.
    Persist(usize),
    /// Hand the symbol to the commit pipeline; the session has ended.
    Commit { symbol: String, auto_paste: bool },
    /// The session has ended without a choice.
    Close,
}

/// An `Action` with its text as a character sequence.
pub enum ActionView {
    Stay,
    Persist(int),
    Commit { symbol: Seq<char>, auto_paste: bool },
    Close,
}

impl View for Action {
    type V = ActionView;

    open spec fn view(&self) -> ActionView {
        match *self {
            Action::Stay => ActionView::Stay,
            Action::Persist(i) => ActionView::Persist(i as int),
            Action::Commit { symbol, auto_paste } => ActionView::Commit {
                symbol: symbol@,
                auto_paste,
            },
            Action::Close => ActionView::Close,
        }
    }
}

/// The state of a session as mathematical values.
pub struct PickerView {
    /// The filter text.
    pub filter: Seq<char>,
    /// The index of the active category.
    pub category: int,
    /// The index of the highlighted item within the filtered view.
    pub selected: int,
    /// The catalog, fixed for the session.
    pub categories: Seq<CategoryView>,
    pub auto_paste: bool,
    pub remember_last_category: bool,
    /// Whether the session has ended.
    pub closed: bool,
}

impl PickerView {
    /// The state a session starts in: no filter, the first item highlighted,
    /// and the wanted category or, where the catalog is shorter, its last.
    pub open spec fn initial(
        categories: Seq<CategoryView>,
        start: int,
        auto_paste: bool,
        remember_last_category: bool,
    ) -> PickerView {
        PickerView {
            filter: Seq::empty(),
            category: if start < categories.len() {
                start
            } else {
                categories.len() - 1
            },
            selected: 0,
            categories,
            auto_paste,
            remember_last_category,
            closed: false,
        }
    }

    /// The items of the active category.
    pub open spec fn items(self) -> Seq<Seq<char>> {
        self.categories[self.category].items
    }

    /// The filtered view: the items of the active category that contain the
    /// filter text, in their order.
    pub open spec fn visible(self) -> Seq<Seq<char>> {
        matching(self.items(), self.filter)
    }

    /// The active category exists, and the highlight points into the
    /// filtered view, or is 0 where that view is empty.
    pub open spec fn wf(self) -> bool {
        &&& 0 <= self.category < self.categories.len()
        &&& 0 <= self.selected
        &&& (self.selected == 0 || self.selected < self.visible().len())
    }

    /// An event that a caller may send in this state: a picked category has
    /// to exist.
    pub open spec fn accepts(self, ev: EventView) -> bool {
        ev matches EventView::SelectCategory(i) ==> 0 <= i < self.categories.len()
    }

    /// The filter text replaced; the highlight stays where it still points
    /// into the new filtered view and goes back to 0 where it does not.
    pub open spec fn after_filter(self, text: Seq<char>) -> PickerView {
        let next = PickerView { filter: text, ..self };
        PickerView {
            selected: if self.selected < next.visible().len() {
                self.selected
            } else {
                0
            },
            ..next
        }
    }

    /// The highlight moved by one, stopping at either end of the filtered
    /// view.
    pub open spec fn after_move(self, m: Move) -> PickerView {
        match m {
            Move::Down => PickerView {
                selected: if self.selected + 1 < self.visible().len() {
                    self.selected + 1
                } else {
                    self.selected
                },
                ..self
            },
            Move::Up => PickerView {
                selected: if self.selected > 0 {
                    self.selected - 1
                } else {
                    0
                },
                ..self
            },
        }
    }

    /// Category `i` made active, with the highlight back at 0.
    pub open spec fn at_category(self, i: int) -> PickerView {
        PickerView { category: i, selected: 0, ..self }
    }

    /// The category after the active one; after the last comes the first.
    pub open spec fn next_index(self) -> int {
        (self.category + 1) % (self.categories.len() as int)
    }

    /// The category before the active one; the first stays the first.
    pub open spec fn prev_index(self) -> int {
        if self.category > 0 {
            self.category - 1
        } else {
            0
        }
    }

    /// The state after an event. A session that has ended ignores events.
    pub open spec fn step(self, ev: EventView) -> PickerView {
        if self.closed {
            self
        } else {
            match ev {
                EventView::FilterChanged(text) => self.after_filter(text),
                EventView::MoveSelection(m) => self.after_move(m),
                EventView::NextCategory => self.at_category(self.next_index()),
                EventView::PrevCategory => self.at_category(self.prev_index()),
                EventView::SelectCategory(i) => self.at_category(i),
                EventView::SelectItem(i) => if 0 <= i < self.visible().len() {
                    PickerView { selected: i, closed: true, ..self }
                } else {
                    self
                },
                EventView::Commit => if self.visible().len() > 0 {
                    PickerView { closed: true, ..self }
                } else {
                    self
                },
                EventView::Cancel => PickerView { closed: true, ..self },
            }
        }
    }

    /// What the caller is asked to do after an event: persist the category
    /// after a category event if categories are remembered, commit the
    /// highlighted or the clicked symbol if there is one, close on cancel.
    pub open spec fn action(self, ev: EventView) -> ActionView {
        if self.closed {
            ActionView::Stay
        } else {
            match ev {
                EventView::FilterChanged(_) => ActionView::Stay,
                EventView::MoveSelection(_) => ActionView::Stay,
                EventView::NextCategory | EventView::PrevCategory | EventView::SelectCategory(_) => {
                    if self.remember_last_category {
                        ActionView::Persist(self.step(ev).category)
                    } else {
                        ActionView::Stay
                    }
                },
                EventView::SelectItem(i) => if 0 <= i < self.visible().len() {
                    ActionView::Commit { symbol: self.visible()[i], auto_paste: self.auto_paste }
                } else {
                    ActionView::Stay
                },
                EventView::Commit => if self.visible().len() > 0 {
                    ActionView::Commit {
                        symbol: self.visible()[self.selected],
                        auto_paste: self.auto_paste,
                    }
                } else {
                    ActionView::Stay
                },
                EventView::Cancel => ActionView::Close,
            }
        }
    }

    /// The state after a sequence of events, first to last.
    pub open spec fn run(self, events: Seq<EventView>) -> PickerView
        decreases events.len(),
    {
        if events.len() == 0 {
            self
        } else {
            self.run(events.drop_last()).step(events.last())
        }
    }
}

/// The state of a picker session.
#[derive(Debug)]
pub struct EmojiApp {
    input: String,
    category: usize,
    selected: usize,
    categories: Vec<Category>,
    auto_paste: bool,
    remember_last_category: bool,
    closed: bool,
}

impl View for EmojiApp {
    type V = PickerView;

    closed spec fn view(&self) -> PickerView {
        PickerView {
            filter: self.input@,
            category: self.category as int,
            selected: self.selected as int,
            categories: category_views(self.categories@),
            auto_paste: self.auto_paste,
            remember_last_category: self.remember_last_category,
            closed: self.closed,
        }
    }
}

impl EmojiApp {
    /// The state is valid: see `PickerView::wf`.
    pub open spec fn wf(&self) -> bool {
        self@.wf()
    }

    /// A session over the given catalog, or `None` where the catalog is
    /// empty. `start` is the wanted category.
    pub fn with_categories(
        categories: Vec<Category>,
        start: usize,
        auto_paste: bool,
        remember_last_category: bool,
    ) -> (r: Option<EmojiApp>)
        ensures
            r is None <==> categories@.len() == 0,
            r matches Some(app) ==> app.wf() && app@ == PickerView::initial(
                category_views(categories@),
                start as int,
                auto_paste,
                remember_last_category,
            ),
    {
        let n: usize = categories.len();
        if n == 0 {
            return None;
        }
        let category: usize = if start < n {
            start
        } else {
            n - 1
        };
        Some(
            EmojiApp {
                input: String::new(),
                category,
                selected: 0,
                categories,
                auto_paste,
                remember_last_category,
                closed: false,
            },
        )
    }

    /// The session that the preferences ask for: the catalog with the
    /// user's own category where one is configured, the remembered category
    /// where categories are remembered and it exists.
    pub fn new(cfg: Config) -> (app: EmojiApp)
        ensures
            app.wf(),
            app@ == PickerView::initial(
                catalog(cfg@.kaomoji),
                cfg@.start_category() as int,
                cfg@.effective_auto_paste(),
                cfg@.effective_remember(),
            ),
    {
        let start: usize = cfg.start_category();
        let auto_paste: bool = cfg.effective_auto_paste();
        let remember: bool = cfg.effective_remember();
        let extra: Option<Vec<String>> = match cfg.kaomoji {
            Some(k) => Some(k.items),
            None => None,
        };
        let categories: Vec<Category> = build_catalog(extra);
        let n: usize = categories.len();
        assert(category_views(categories@).len() == n);
        let category: usize = if start < n {
            start
        } else {
            n - 1
        };
        EmojiApp {
            input: String::new(),
            category,
            selected: 0,
            categories,
            auto_paste,
            remember_last_category: remember,
            closed: false,
        }
    }

    /// The filter text.
    pub fn input(&self) -> (r: &String)
        ensures
            r@ == self@.filter,
    {
        &self.input
    }

    /// The index of the active category.
    pub fn category(&self) -> (r: usize)
        ensures
            r == self@.category,
    {
        self.category
    }

    /// The index of the highlighted item within the filtered view.
    pub fn selected(&self) -> (r: usize)
        ensures
            r == self@.selected,
    {
        self.selected
    }

    /// The catalog of this session.
    pub fn categories(&self) -> (r: &Vec<Category>)
        ensures
            category_views(r@) == self@.categories,
    {
        &self.categories
    }

    /// Whether a commit also requests a paste.
    pub fn auto_paste(&self) -> (r: bool)
        ensures
            r == self@.auto_paste,
    {
        self.auto_paste
    }

    /// Whether category changes are recorded in the preference store.
    pub fn remember_last_category(&self) -> (r: bool)
        ensures
            r == self@.remember_last_category,
    {
        self.remember_last_category
    }

    /// Whether the session has ended.
    pub fn is_closed(&self) -> (r: bool)
        ensures
            r == self@.closed,
    {
        self.closed
    }

    /// The filtered view, computed from the active category and the filter
    /// text.
    pub fn visible(&self) -> (r: Vec<String>)
        requires
            self.wf(),
        ensures
            texts(r@) == self@.visible(),
    {
        filter_items(&self.categories[self.category].emojis, self.input.as_str())
    }

    /// The highlighted symbol, if the filtered view has one.
    pub fn highlighted(&self) -> (r: Option<String>)
        requires
            self.wf(),
        ensures
            r is Some <==> self@.visible().len() > 0,
            r matches Some(s) ==> s@ == self@.visible()[self@.selected],
    {
        let shown: Vec<String> = self.visible();
        assert(texts(shown@).len() == shown@.len());
        if self.selected < shown.len() {
            Some(shown[self.selected].clone())
        } else {
            None
        }
    }

    /// Replaces the filter text. The highlight goes back to 0 where it no
    /// longer points into the filtered view.
    pub fn filter_changed(&mut self, text: String)
        requires
            old(self).wf(),
        ensures
            final(self).wf(),
            final(self)@ == old(self)@.step(EventView::FilterChanged(text@)),
    {
        if self.closed {
            return ;
        }
        self.input = text;
        let shown: Vec<String> = filter_items(
            &self.categories[self.category].emojis,
            self.input.as_str(),
        );
        assert(texts(shown@).len() == shown@.len());
        if self.selected >= shown.len() {
            self.selected = 0;
        }
    }

    /// Moves the highlight by one item, stopping at either end of the
    /// filtered view.
    pub fn move_selection(&mut self, m: Move)
        requires
            old(self).wf(),
        ensures
            final(self).wf(),
            final(self)@ == old(self)@.step(EventView::MoveSelection(m)),
    {
        if self.closed {
            return ;
        }
        match m {
            Move::Down => {
                let shown: Vec<String> = self.visible();
                assert(texts(shown@).len() == shown@.len());
                let n: usize = shown.len();
                if n > 0 && self.selected < n - 1 {
                    self.selected = self.selected + 1;
                }
            },
            Move::Up => {
                if self.selected > 0 {
                    self.selected = self.selected - 1;
                }
            },
        }
    }

    fn enter_category(&mut self, i: usize) -> (a: Action)
        requires
            old(self).wf(),
            !old(self)@.closed,
            i < old(self)@.categories.len(),
        ensures
            final(self).wf(),
            final(self)@ == old(self)@.at_category(i as int),
            a@ == (if old(self)@.remember_last_category {
                ActionView::Persist(i as int)
            } else {
                ActionView::Stay
            }),
    {
        self.category = i;
        self.selected = 0;
        if self.remember_last_category {
            Action::Persist(i)
        } else {
            Action::Stay
        }
    }

    /// Goes to the next category; after the last comes the first. The
    /// highlight goes back to 0.
    pub fn next_category(&mut self) -> (a: Action)
        requires
            old(self).wf(),
        ensures
            final(self).wf(),
            final(self)@ == old(self)@.step(EventView::NextCategory),
            a@ == old(self)@.action(EventView::NextCategory),
    {
        if self.closed {
            return Action::Stay;
        }
        let n: usize = self.categories.len();
        assert(category_views(self.categories@).len() == n);
        let next: usize = (self.category + 1) % n;
        self.enter_category(next)
    }

    /// Goes to the previous category; the first stays the first. The
    /// highlight goes back to 0.
    pub fn prev_category(&mut self) -> (a: Action)
        requires
            old(self).wf(),
        ensures
            final(self).wf(),
            final(self)@ == old(self)@.step(EventView::PrevCategory),
            a@ == old(self)@.action(EventView::PrevCategory),
    {
        if self.closed {
            return Action::Stay;
        }
        let prev: usize = if self.category > 0 {
            self.category - 1
        } else {
            0
        };
        self.enter_category(prev)
    }

    /// Makes category `i` active, as a click on its label does. The
    /// highlight goes back to 0.
    pub fn select_category(&mut self, i: usize) -> (a: Action)
        requires
            old(self).wf(),
            i < old(self)@.categories.len(),
        ensures
            final(self).wf(),
            final(self)@ == old(self)@.step(EventView::SelectCategory(i as int)),
            a@ == old(self)@.action(EventView::SelectCategory(i as int)),
    {
        if self.closed {
            return Action::Stay;
        }
        self.enter_category(i)
    }

    /// Commits the highlighted symbol and ends the session; with an empty
    /// filtered view nothing happens and the session stays open.
    pub fn commit(&mut self) -> (a: Action)
        requires
            old(self).wf(),
        ensures
            final(self).wf(),
            final(self)@ == old(self)@.step(EventView::Commit),
            a@ == old(self)@.action(EventView::Commit),
    {
        if self.closed {
            return Action::Stay;
        }
        match self.highlighted() {
            Some(symbol) => {
                self.closed = true;
                Action::Commit { symbol, auto_paste: self.auto_paste }
            },
            None => Action::Stay,
        }
    }

    /// Commits the item at index `i` of the filtered view, as a click on it
    /// does, and ends the session; where the view has no such item nothing
    /// happens.
    pub fn select_item(&mut self, i: usize) -> (a: Action)
        requires
            old(self).wf(),
        ensures
            final(self).wf(),
            final(self)@ == old(self)@.step(EventView::SelectItem(i as int)),
            a@ == old(self)@.action(EventView::SelectItem(i as int)),
    {
        if self.closed {
            return Action::Stay;
        }
        let shown: Vec<String> = self.visible();
        assert(texts(shown@).len() == shown@.len());
        if i < shown.len() {
            self.selected = i;
            self.closed = true;
            Action::Commit { symbol: shown[i].clone(), auto_paste: self.auto_paste }
        } else {
            Action::Stay
        }
    }

    /// Ends the session without a choice.
    pub fn cancel(&mut self) -> (a: Action)
        requires
            old(self).wf(),
        ensures
            final(self).wf(),
            final(self)@ == old(self)@.step(EventView::Cancel),
            a@ == old(self)@.action(EventView::Cancel),
    {
        if self.closed {
            return Action::Stay;
        }
        self.closed = true;
        Action::Close
    }

    /// Applies one event and says what the caller has to do.
    pub fn handle(&mut self, ev: Event) -> (a: Action)
        requires
            old(self).wf(),
            old(self)@.accepts(ev@),
        ensures
            final(self).wf(),
            final(self)@ == old(self)@.step(ev@),
            a@ == old(self)@.action(ev@),
    {
        match ev {
            Event::FilterChanged(text) => {
                self.filter_changed(text);
                Action::Stay
            },
            Event::MoveSelection(m) => {
                self.move_selection(m);
                Action::Stay
            },
            Event::NextCategory => self.next_category(),
            Event::PrevCategory => self.prev_category(),
            Event::SelectCategory(i) => self.select_category(i),
            Event::SelectItem(i) => self.select_item(i),
            Event::Commit => self.commit(),
            Event::Cancel => self.cancel(),
        }
    }

    /// What to store after a category change, given what the store holds
    /// now: the stored preferences with the active category as the last
    /// one and nothing else changed, or `None` where categories are not
    /// remembered and nothing is to be written.
    pub fn persist_category(&self, stored: Config) -> (r: Option<Config>)
        ensures
            r is Some <==> self@.remember_last_category,
            r matches Some(c) ==> c@ == stored@.with_last_category(self@.category as nat),
    {
        if !self.remember_last_category {
            return None;
        }
        Some(stored.with_last_category(self.category))
    }
}

} // verus!
