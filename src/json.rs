//! The key/value editor front-end: a form that collects string pairs and,
//! on leaving, their JSON object text.
use vstd::prelude::*;
use crate::event::{Key, KeyInput, KeyKind};
use crate::text::{pop_char, push_char, text_is};

verus! {

/// Which screen the editor shows.
#[derive(Debug, Clone, Copy, PartialEq, Eq)]
pub enum CurrentScreen {
    Main,
    Editing,
    Exiting,
}

/// Which half of a pair is being edited.
#[derive(Debug, Clone, Copy, PartialEq, Eq)]
pub enum CurrentlyEditing {
    Key,
    Value,
}

#[verifier::external_type_specification]
#[verifier::external_body]
pub struct ExJsonError(serde_json::Error);

/// Why the pairs could not be written as JSON.
#[derive(Debug, Clone, Copy, PartialEq, Eq)]
pub enum JsonError {
    Encoding,
}

/// The views of a sequence of string pairs.
pub open spec fn pair_views(v: Seq<(String, String)>) -> Seq<(Seq<char>, Seq<char>)> {
    v.map_values(|p: (String, String)| (p.0@, p.1@))
}

/// The map that a sequence of pairs builds when each pair is inserted in
/// turn: a later pair for a key replaces an earlier one.
pub open spec fn pairs_map(s: Seq<(Seq<char>, Seq<char>)>) -> Map<Seq<char>, Seq<char>>
    decreases s.len(),
{
    if s.len() == 0 {
        Map::empty()
    } else {
        pairs_map(s.drop_last()).insert(s.last().0, s.last().1)
    }
}

/// Whether no key occurs twice.
pub open spec fn distinct_keys(s: Seq<(Seq<char>, Seq<char>)>) -> bool {
    forall|i: int, j: int| 0 <= i < j < s.len() ==> #[trigger] s[i].0 != #[trigger] s[j].0
}

/// The JSON text that serde_json writes for an object holding these pairs,
/// each value a JSON string.
pub uninterp spec fn json_object_text(pairs: Seq<(Seq<char>, Seq<char>)>) -> Seq<char>;

/// Relies on `serde_json::to_string` over a `serde_json::Map` of string
/// values: the text is a function of the pairs.
#[verifier::external_body]
fn encode_object(pairs: &Vec<(String, String)>) -> (r: Result<String, serde_json::Error>)
    ensures
        r matches Ok(t) ==> t@ == json_object_text(pair_views(pairs@)),
{
    let object: serde_json::Map<String, serde_json::Value> = pairs.iter().map(
        |(k, v)| (k.clone(), serde_json::Value::String(v.clone())),
    ).collect();
    serde_json::to_string(&object)
}

/// The keys a sequence of pairs holds.
proof fn lemma_pairs_map_domain(s: Seq<(Seq<char>, Seq<char>)>, k: Seq<char>)
    ensures
        pairs_map(s).dom().contains(k) <==> exists|j: int| 0 <= j < s.len() && #[trigger] s[j].0 == k,
    decreases s.len(),
{
    if s.len() > 0 {
        lemma_pairs_map_domain(s.drop_last(), k);
        if pairs_map(s).dom().contains(k) {
            if k != s.last().0 {
                let j = choose|j: int| 0 <= j < s.drop_last().len() && #[trigger] s.drop_last()[j].0 == k;
                assert(s[j].0 == k);
            } else {
                assert(s[s.len() - 1].0 == k);
            }
        }
        if exists|j: int| 0 <= j < s.len() && #[trigger] s[j].0 == k {
            let j = choose|j: int| 0 <= j < s.len() && #[trigger] s[j].0 == k;
            if j < s.len() - 1 {
                assert(s.drop_last()[j].0 == k);
            }
        }
    }
}

/// The editor's state.
#[derive(Debug, Clone)]
pub struct App {
    pub key_input: String,
    pub value_input: String,
    pairs: Vec<(String, String)>,
    pub current_screen: CurrentScreen,
    pub currently_editing: Option<CurrentlyEditing>,
}

/// The editor's state, as mathematical values.
pub struct AppView {
    pub key_input: Seq<char>,
    pub value_input: Seq<char>,
    pub pairs: Map<Seq<char>, Seq<char>>,
    pub current_screen: CurrentScreen,
    pub currently_editing: Option<CurrentlyEditing>,
}

impl View for App {
    type V = AppView;

    closed spec fn view(&self) -> AppView {
        AppView {
            key_input: self.key_input@,
            value_input: self.value_input@,
            pairs: pairs_map(pair_views(self.pairs@)),
            current_screen: self.current_screen,
            currently_editing: self.currently_editing,
        }
    }
}

/// The other half of the pair; editing starts on the key.
pub open spec fn toggled(e: Option<CurrentlyEditing>) -> Option<CurrentlyEditing> {
    match e {
        Some(CurrentlyEditing::Key) => Some(CurrentlyEditing::Value),
        _ => Some(CurrentlyEditing::Key),
    }
}

/// The state after the pair in the form is stored: the map holds it, the
/// form is empty and nothing is edited.
pub open spec fn saved(a: AppView) -> AppView {
    AppView {
        pairs: a.pairs.insert(a.key_input, a.value_input),
        key_input: Seq::empty(),
        value_input: Seq::empty(),
        currently_editing: None,
        ..a
    }
}

/// A pressed key on the form.
pub open spec fn editing_key_spec(a: AppView, key: Key) -> AppView {
    match key {
        Key::Enter => match a.currently_editing {
            Some(CurrentlyEditing::Key) => AppView { currently_editing: Some(CurrentlyEditing::Value), ..a },
            Some(CurrentlyEditing::Value) => AppView { current_screen: CurrentScreen::Main, ..saved(a) },
            None => a,
        },
        Key::Backspace => match a.currently_editing {
            Some(CurrentlyEditing::Key) => if a.key_input.len() > 0 {
                AppView { key_input: a.key_input.drop_last(), ..a }
            } else {
                a
            },
            Some(CurrentlyEditing::Value) => if a.value_input.len() > 0 {
                AppView { value_input: a.value_input.drop_last(), ..a }
            } else {
                a
            },
            None => a,
        },
        Key::Esc => AppView { current_screen: CurrentScreen::Main, currently_editing: None, ..a },
        Key::Tab => AppView { currently_editing: toggled(a.currently_editing), ..a },
        Key::Char(c) => match a.currently_editing {
            Some(CurrentlyEditing::Key) => AppView { key_input: a.key_input.push(c), ..a },
            Some(CurrentlyEditing::Value) => AppView { value_input: a.value_input.push(c), ..a },
            None => a,
        },
        _ => a,
    }
}

/// The state after one key event, and whether the editor ends: `Some(true)`
/// to end and print the pairs, `Some(false)` to end without. Releases are
/// ignored. On the main screen `e` opens the form and `q` asks to quit; on
/// the quit screen `y` ends with printing, `n` or `q` without.
pub open spec fn json_key_spec(a: AppView, k: KeyInput) -> (AppView, Option<bool>) {
    if k.kind == KeyKind::Release {
        (a, None)
    } else {
        match a.current_screen {
            CurrentScreen::Main => match k.key {
                Key::Char('e') => (
                    AppView {
                        current_screen: CurrentScreen::Editing,
                        currently_editing: Some(CurrentlyEditing::Key),
                        ..a
                    },
                    None,
                ),
                Key::Char('q') => (AppView { current_screen: CurrentScreen::Exiting, ..a }, None),
                _ => (a, None),
            },
            CurrentScreen::Exiting => match k.key {
                Key::Char('y') => (a, Some(true)),
                Key::Char('n') | Key::Char('q') => (a, Some(false)),
                _ => (a, None),
            },
            CurrentScreen::Editing => if k.kind == KeyKind::Press {
                (editing_key_spec(a, k.key), None)
            } else {
                (a, None)
            },
        }
    }
}

impl App {
    /// An empty editor on the main screen.
    pub fn new() -> (r: App)
        ensures
            r@.key_input.len() == 0,
            r@.value_input.len() == 0,
            r@.pairs == Map::<Seq<char>, Seq<char>>::empty(),
            r@.current_screen == CurrentScreen::Main,
            r@.currently_editing is None,
            r.wf(),
    {
        let r = App {
            key_input: String::new(),
            value_input: String::new(),
            pairs: Vec::new(),
            current_screen: CurrentScreen::Main,
            currently_editing: None,
        };
        assert(pair_views(r.pairs@) =~= Seq::<(Seq<char>, Seq<char>)>::empty());
        r
    }

    /// The stored pairs in the order they are held.
    pub closed spec fn entries(&self) -> Seq<(Seq<char>, Seq<char>)> {
        pair_views(self.pairs@)
    }

    /// Whether each key is held once.
    pub closed spec fn wf(&self) -> bool {
        distinct_keys(pair_views(self.pairs@))
    }

    /// Stores the pair in the form (replacing an earlier value for the same
    /// key), then empties the form and stops editing.
    pub fn save_key_value(&mut self)
        requires
            old(self).wf(),
        ensures
            final(self).wf(),
            final(self)@ == saved(old(self)@),
    {
        let ghost old_pairs = pair_views(self.pairs@);
        let ghost k = self.key_input@;
        let mut kept: Vec<(String, String)> = Vec::new();
        let mut i: usize = 0;
        while i < self.pairs.len()
            invariant
                i <= self.pairs@.len(),
                old_pairs == pair_views(self.pairs@),
                k == self.key_input@,
                distinct_keys(old_pairs),
                distinct_keys(pair_views(kept@)),
                pairs_map(pair_views(kept@)) == pairs_map(old_pairs.take(i as int)).remove(k),
                forall|m: int|
                    0 <= m < kept@.len() ==> #[trigger] pair_views(kept@)[m].0 != k && pairs_map(
                        old_pairs.take(i as int),
                    ).dom().contains(pair_views(kept@)[m].0),
            decreases self.pairs@.len() - i,
        {
            let ghost before = pair_views(kept@);
            let ghost e = old_pairs[i as int];
            assert(old_pairs.take(i + 1).drop_last() =~= old_pairs.take(i as int));
            assert(old_pairs.take(i + 1).last() == e);
            if !text_is(self.pairs[i].0.as_str(), self.key_input.as_str()) {
                let pair = (self.pairs[i].0.clone(), self.pairs[i].1.clone());
                kept.push(pair);
                assert(pair_views(kept@) =~= before.push(e));
                proof {
                    assert forall|m: int| 0 <= m < before.len() implies #[trigger] before[m].0 != e.0 by {
                        lemma_pairs_map_domain(old_pairs.take(i as int), before[m].0);
                        let j = choose|j: int|
                            0 <= j < old_pairs.take(i as int).len() && #[trigger] old_pairs.take(
                                i as int,
                            )[j].0 == before[m].0;
                        assert(old_pairs[j].0 == before[m].0);
                    }
                    assert forall|m: int| 0 <= m < kept@.len() implies #[trigger] pair_views(kept@)[m].0 != k
                        && pairs_map(old_pairs.take(i + 1)).dom().contains(pair_views(kept@)[m].0) by {
                        if m < before.len() {
                            assert(pair_views(kept@)[m] == before[m]);
                        }
                    }
                    assert(pair_views(kept@).drop_last() =~= before);
                    assert(e.0 != k);
                    assert(pairs_map(pair_views(kept@)) == pairs_map(before).insert(e.0, e.1));
                    assert(pairs_map(old_pairs.take(i + 1)) == pairs_map(old_pairs.take(i as int)).insert(e.0, e.1));
                    assert(pairs_map(pair_views(kept@)) =~= pairs_map(old_pairs.take(i + 1)).remove(k));
                }
            } else {
                proof {
                    assert(pairs_map(old_pairs.take(i + 1)).remove(k) =~= pairs_map(
                        old_pairs.take(i as int),
                    ).remove(k));
                    assert forall|m: int| 0 <= m < kept@.len() implies #[trigger] pair_views(kept@)[m].0 != k
                        && pairs_map(old_pairs.take(i + 1)).dom().contains(pair_views(kept@)[m].0) by {
                    }
                }
            }
            i = i + 1;
        }
        assert(old_pairs.take(old_pairs.len() as int) =~= old_pairs);
        let ghost before = pair_views(kept@);
        let key = self.key_input.clone();
        let value = self.value_input.clone();
        kept.push((key, value));
        proof {
            assert(pair_views(kept@) =~= before.push((k, self.value_input@)));
            assert forall|m: int| 0 <= m < before.len() implies #[trigger] before[m].0 != k by {
            }
            assert(pair_views(kept@).drop_last() =~= before);
            assert(pairs_map(pair_views(kept@)) == pairs_map(before).insert(k, self.value_input@));
            assert(pairs_map(pair_views(kept@)) =~= pairs_map(old_pairs).insert(k, self.value_input@));
        }
        self.pairs = kept;
        self.key_input = String::new();
        self.value_input = String::new();
        self.currently_editing = None;
    }

    /// Switches between editing the key and the value; starts on the key.
    pub fn toggle_editing(&mut self)
        ensures
            final(self)@ == (AppView { currently_editing: toggled(old(self)@.currently_editing), ..old(self)@ }),
            final(self).wf() == old(self).wf(),
    {
        match self.currently_editing {
            Some(CurrentlyEditing::Key) => self.currently_editing = Some(CurrentlyEditing::Value),
            _ => self.currently_editing = Some(CurrentlyEditing::Key),
        }
    }

    /// The stored pairs as a JSON object text.
    pub fn to_json(&self) -> (r: Result<String, JsonError>)
        ensures
            r matches Ok(t) ==> t@ == json_object_text(self.entries()),
    {
        match encode_object(&self.pairs) {
            Ok(t) => Ok(t),
            Err(_) => Err(JsonError::Encoding),
        }
    }

    /// The stored pairs, each key once.
    pub fn pairs(&self) -> (r: &Vec<(String, String)>)
        ensures
            pair_views(r@) == self.entries(),
            pairs_map(pair_views(r@)) == self@.pairs,
    {
        &self.pairs
    }

    /// Applies one key event; see `json_key_spec`.
    pub fn on_key(&mut self, k: KeyInput) -> (r: Option<bool>)
        requires
            old(self).wf(),
        ensures
            final(self).wf(),
            (final(self)@, r) == json_key_spec(old(self)@, k),
    {
        if matches!(k.kind, KeyKind::Release) {
            return None;
        }
        match self.current_screen {
            CurrentScreen::Main => {
                match k.key {
                    Key::Char('e') => {
                        self.current_screen = CurrentScreen::Editing;
                        self.currently_editing = Some(CurrentlyEditing::Key);
                    },
                    Key::Char('q') => {
                        self.current_screen = CurrentScreen::Exiting;
                    },
                    _ => {},
                }
                None
            },
            CurrentScreen::Exiting => match k.key {
                Key::Char('y') => Some(true),
                Key::Char('n') | Key::Char('q') => Some(false),
                _ => None,
            },
            CurrentScreen::Editing => {
                if !matches!(k.kind, KeyKind::Press) {
                    return None;
                }
                match k.key {
                    Key::Enter => match self.currently_editing {
                        Some(CurrentlyEditing::Key) => {
                            self.currently_editing = Some(CurrentlyEditing::Value);
                        },
                        Some(CurrentlyEditing::Value) => {
                            self.save_key_value();
                            self.current_screen = CurrentScreen::Main;
                        },
                        None => {},
                    },
                    Key::Backspace => match self.currently_editing {
                        Some(CurrentlyEditing::Key) => {
                            pop_char(&mut self.key_input);
                        },
                        Some(CurrentlyEditing::Value) => {
                            pop_char(&mut self.value_input);
                        },
                        None => {},
                    },
                    Key::Esc => {
                        self.current_screen = CurrentScreen::Main;
                        self.currently_editing = None;
                    },
                    Key::Tab => {
                        self.toggle_editing();
                    },
                    Key::Char(c) => match self.currently_editing {
                        Some(CurrentlyEditing::Key) => {
                            push_char(&mut self.key_input, c);
                        },
                        Some(CurrentlyEditing::Value) => {
                            push_char(&mut self.value_input, c);
                        },
                        None => {},
                    },
                    _ => {},
                }
                None
            },
        }
    }
}

} // verus!
