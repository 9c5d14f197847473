//! The timer front-end: a selectable list of named timers and a form that
//! adds one, field by field.
use vstd::prelude::*;
use crate::event::{Key, KeyInput, KeyKind};
use crate::number::{parse_decimal, parse_spec};
use crate::text::{chars_of, pop_char, push_char, string_of};

verus! {

/// Which screen the front-end shows.
#[derive(Debug, Clone, Copy, PartialEq, Eq)]
pub enum CurrentScreen {
    Main,
    Editing,
    Exiting,
}

/// Which field of the form is being edited.
#[derive(Debug, Clone, Copy, PartialEq, Eq)]
pub enum CurrentlyEditing {
    Name,
    Hour,
    Minute,
    Second,
}

/// A named timer.
#[derive(Debug, Clone, PartialEq, Eq)]
pub struct Timer {
    pub name: String,
    pub hour: u32,
    pub minute: u32,
    pub second: u32,
}

/// A timer, as mathematical values.
pub struct TimerView {
    pub name: Seq<char>,
    pub hour: u32,
    pub minute: u32,
    pub second: u32,
}

impl View for Timer {
    type V = TimerView;

    open spec fn view(&self) -> TimerView {
        TimerView { name: self.name@, hour: self.hour, minute: self.minute, second: self.second }
    }
}

/// Width of a timer's label in the list.
pub const LABEL_WIDTH: usize = 25;

/// `s` followed by spaces up to `width` characters; a longer `s` is kept whole.
pub open spec fn pad_right(s: Seq<char>, width: nat) -> Seq<char> {
    if s.len() >= width {
        s
    } else {
        s + Seq::new((width - s.len()) as nat, |i: int| ' ')
    }
}

impl Timer {
    /// The timer's line in the list: its name, left-aligned in a field of
    /// `LABEL_WIDTH` characters.
    pub fn label(&self) -> (r: String)
        ensures
            r@ == pad_right(self.name@, LABEL_WIDTH as nat),
    {
        let mut cs = chars_of(self.name.as_str());
        let ghost name = cs@;
        while cs.len() < LABEL_WIDTH
            invariant
                cs@.len() >= name.len(),
                cs@.len() > name.len() ==> cs@.len() <= LABEL_WIDTH,
                cs@ == name + Seq::new((cs@.len() - name.len()) as nat, |i: int| ' '),
            decreases LABEL_WIDTH - cs@.len(),
        {
            cs.push(' ');
            assert(cs@ =~= name + Seq::new((cs@.len() - name.len()) as nat, |i: int| ' '));
        }
        proof {
            if name.len() >= LABEL_WIDTH {
                assert(cs@ =~= name);
            }
        }
        string_of(cs.as_slice())
    }
}

/// A list of timers with an optional selection.
#[derive(Debug, Clone)]
pub struct StatefulList {
    items: Vec<Timer>,
    selected: Option<usize>,
    last_selected: Option<usize>,
}

/// A list, as mathematical values.
pub struct ListView {
    pub items: Seq<TimerView>,
    pub selected: Option<usize>,
    pub last_selected: Option<usize>,
}

impl View for StatefulList {
    type V = ListView;

    closed spec fn view(&self) -> ListView {
        ListView {
            items: self.items@.map_values(|t: Timer| t@),
            selected: self.selected,
            last_selected: self.last_selected,
        }
    }
}

/// Whether a selection points into a list of `len` items.
pub open spec fn points_into(sel: Option<usize>, len: nat) -> bool {
    match sel {
        Some(i) => i < len,
        None => true,
    }
}

/// Whether both selections of a list point into it.
pub open spec fn list_wf(l: ListView) -> bool {
    points_into(l.selected, l.items.len()) && points_into(l.last_selected, l.items.len())
}

/// Where a move starts when nothing is selected.
pub open spec fn fallback(l: ListView) -> usize {
    match l.last_selected {
        Some(j) => j,
        None => 0,
    }
}

/// The list after moving down: the next item, wrapping from the last to the
/// first. An empty list keeps its (empty) selection.
pub open spec fn next_spec(l: ListView) -> ListView {
    if l.items.len() == 0 {
        l
    } else {
        ListView {
            selected: Some(
                match l.selected {
                    Some(i) => if i + 1 >= l.items.len() {
                        0
                    } else {
                        (i + 1) as usize
                    },
                    None => fallback(l),
                },
            ),
            ..l
        }
    }
}

/// The list after moving up: the previous item, wrapping from the first to
/// the last. An empty list keeps its (empty) selection.
pub open spec fn previous_spec(l: ListView) -> ListView {
    if l.items.len() == 0 {
        l
    } else {
        ListView {
            selected: Some(
                match l.selected {
                    Some(i) => if i == 0 {
                        (l.items.len() - 1) as usize
                    } else {
                        (i - 1) as usize
                    },
                    None => fallback(l),
                },
            ),
            ..l
        }
    }
}

impl StatefulList {
    /// An empty list with nothing selected.
    pub fn new() -> (r: StatefulList)
        ensures
            r@.items.len() == 0,
            r@.selected is None,
            r@.last_selected is None,
            list_wf(r@),
    {
        let r = StatefulList { items: Vec::new(), selected: None, last_selected: None };
        assert(r@.items =~= Seq::<TimerView>::empty());
        r
    }

    /// Appends a timer; the selection stays.
    pub fn add(&mut self, new_timer: Timer)
        requires
            list_wf(old(self)@),
        ensures
            final(self)@ == (ListView { items: old(self)@.items.push(new_timer@), ..old(self)@ }),
            list_wf(final(self)@),
    {
        self.items.push(new_timer);
        assert(self@.items =~= old(self)@.items.push(new_timer@));
    }

    /// Moves the selection down.
    pub fn next(&mut self)
        requires
            list_wf(old(self)@),
        ensures
            final(self)@ == next_spec(old(self)@),
            list_wf(final(self)@),
    {
        let len = self.items.len();
        if len == 0 {
            return;
        }
        let i = match self.selected {
            Some(i) => if i + 1 >= len {
                0
            } else {
                i + 1
            },
            None => match self.last_selected {
                Some(j) => j,
                None => 0,
            },
        };
        self.selected = Some(i);
    }

    /// Moves the selection up.
    pub fn previous(&mut self)
        requires
            list_wf(old(self)@),
        ensures
            final(self)@ == previous_spec(old(self)@),
            list_wf(final(self)@),
    {
        let len = self.items.len();
        if len == 0 {
            return;
        }
        let i = match self.selected {
            Some(i) => if i == 0 {
                len - 1
            } else {
                i - 1
            },
            None => match self.last_selected {
                Some(j) => j,
                None => 0,
            },
        };
        self.selected = Some(i);
    }

    /// Selects the last timer.
    pub fn set_last(&mut self)
        requires
            list_wf(old(self)@),
            old(self)@.items.len() > 0,
        ensures
            final(self)@ == (ListView { selected: Some((old(self)@.items.len() - 1) as usize), ..old(self)@ }),
            list_wf(final(self)@),
    {
        self.selected = Some(self.items.len() - 1);
    }

    /// The selected position, if any.
    pub fn get_selected_index(&self) -> (r: Option<usize>)
        ensures
            r == self@.selected,
    {
        self.selected
    }

    /// The timers, in the order they were added.
    pub fn items(&self) -> (r: &Vec<Timer>)
        ensures
            r@.map_values(|t: Timer| t@) == self@.items,
    {
        &self.items
    }
}

/// The timer front-end's state.
#[derive(Debug, Clone)]
pub struct App {
    pub name_input: String,
    pub hour_input: String,
    pub minute_input: String,
    pub second_input: String,
    pub timers: StatefulList,
    pub current_screen: CurrentScreen,
    pub currently_editing: Option<CurrentlyEditing>,
    pub running: bool,
}

/// The front-end's state, as mathematical values.
pub struct AppView {
    pub name_input: Seq<char>,
    pub hour_input: Seq<char>,
    pub minute_input: Seq<char>,
    pub second_input: Seq<char>,
    pub timers: ListView,
    pub current_screen: CurrentScreen,
    pub currently_editing: Option<CurrentlyEditing>,
    pub running: bool,
}

impl View for App {
    type V = AppView;

    open spec fn view(&self) -> AppView {
        AppView {
            name_input: self.name_input@,
            hour_input: self.hour_input@,
            minute_input: self.minute_input@,
            second_input: self.second_input@,
            timers: self.timers@,
            current_screen: self.current_screen,
            currently_editing: self.currently_editing,
            running: self.running,
        }
    }
}

/// The text of a form field.
pub open spec fn input_of(a: AppView, f: CurrentlyEditing) -> Seq<char> {
    match f {
        CurrentlyEditing::Name => a.name_input,
        CurrentlyEditing::Hour => a.hour_input,
        CurrentlyEditing::Minute => a.minute_input,
        CurrentlyEditing::Second => a.second_input,
    }
}

/// The state with the text of a form field replaced.
pub open spec fn with_input(a: AppView, f: CurrentlyEditing, v: Seq<char>) -> AppView {
    match f {
        CurrentlyEditing::Name => AppView { name_input: v, ..a },
        CurrentlyEditing::Hour => AppView { hour_input: v, ..a },
        CurrentlyEditing::Minute => AppView { minute_input: v, ..a },
        CurrentlyEditing::Second => AppView { second_input: v, ..a },
    }
}

/// The state after the form is submitted, when hour, minute and second each
/// read as a `u32`: the timer is appended and selected, the form is cleared
/// and no field is edited. `None` when a number does not read.
pub open spec fn save_spec(a: AppView) -> Option<AppView> {
    match (
        parse_spec(a.hour_input, u32::MAX as nat),
        parse_spec(a.minute_input, u32::MAX as nat),
        parse_spec(a.second_input, u32::MAX as nat),
    ) {
        (Some(h), Some(m), Some(s)) => Some(
            AppView {
                name_input: Seq::empty(),
                hour_input: Seq::empty(),
                minute_input: Seq::empty(),
                second_input: Seq::empty(),
                timers: ListView {
                    items: a.timers.items.push(
                        TimerView { name: a.name_input, hour: h as u32, minute: m as u32, second: s as u32 },
                    ),
                    selected: Some(a.timers.items.len() as usize),
                    ..a.timers
                },
                currently_editing: None,
                ..a
            },
        ),
        _ => None,
    }
}

/// The field after `f` in the form; the last stays.
pub open spec fn field_below(f: CurrentlyEditing) -> CurrentlyEditing {
    match f {
        CurrentlyEditing::Name => CurrentlyEditing::Hour,
        CurrentlyEditing::Hour => CurrentlyEditing::Minute,
        CurrentlyEditing::Minute => CurrentlyEditing::Second,
        CurrentlyEditing::Second => CurrentlyEditing::Second,
    }
}

/// The field before `f` in the form; the first stays.
pub open spec fn field_above(f: CurrentlyEditing) -> CurrentlyEditing {
    match f {
        CurrentlyEditing::Name => CurrentlyEditing::Name,
        CurrentlyEditing::Hour => CurrentlyEditing::Name,
        CurrentlyEditing::Minute => CurrentlyEditing::Hour,
        CurrentlyEditing::Second => CurrentlyEditing::Minute,
    }
}

/// A key on the form (pressed, not repeated).
pub open spec fn editing_key_spec(a: AppView, key: Key) -> AppView {
    match key {
        Key::Esc => AppView { current_screen: CurrentScreen::Main, currently_editing: None, ..a },
        _ => match a.currently_editing {
            None => a,
            Some(f) => match key {
                Key::Enter => if f == CurrentlyEditing::Second {
                    match save_spec(a) {
                        Some(saved) => AppView { current_screen: CurrentScreen::Main, ..saved },
                        None => a,
                    }
                } else {
                    AppView { currently_editing: Some(field_below(f)), ..a }
                },
                Key::Backspace => if input_of(a, f).len() > 0 {
                    with_input(a, f, input_of(a, f).drop_last())
                } else {
                    a
                },
                Key::Up => AppView { currently_editing: Some(field_above(f)), ..a },
                Key::Down => AppView { currently_editing: Some(field_below(f)), ..a },
                Key::Char(c) => with_input(a, f, input_of(a, f).push(c)),
                _ => a,
            },
        },
    }
}

/// The state after one key event. Releases are ignored everywhere, repeats
/// on the form. On the main screen `+` opens the form, `q` asks to quit, and
/// Down/Up move the selection; on the quit screen `y`, `q` or Enter stop the
/// front-end and `n` goes back.
pub open spec fn timer_key_spec(a: AppView, k: KeyInput) -> AppView {
    if k.kind == KeyKind::Release {
        a
    } else {
        match a.current_screen {
            CurrentScreen::Main => match k.key {
                Key::Char('+') => AppView {
                    current_screen: CurrentScreen::Editing,
                    currently_editing: Some(CurrentlyEditing::Name),
                    ..a
                },
                Key::Char('q') => AppView { current_screen: CurrentScreen::Exiting, ..a },
                Key::Down => AppView { timers: next_spec(a.timers), ..a },
                Key::Up => AppView { timers: previous_spec(a.timers), ..a },
                _ => a,
            },
            CurrentScreen::Exiting => match k.key {
                Key::Char('y') | Key::Char('q') | Key::Enter => AppView { running: false, ..a },
                Key::Char('n') => AppView { current_screen: CurrentScreen::Main, ..a },
                _ => a,
            },
            CurrentScreen::Editing => if k.kind == KeyKind::Press {
                editing_key_spec(a, k.key)
            } else {
                a
            },
        }
    }
}

/// Reads a form field as a `u32`.
fn read_u32(s: &String) -> (r: Option<u32>)
    ensures
        parse_spec(s@, u32::MAX as nat) == match r {
            Some(v) => Some(v as nat),
            None => None,
        },
{
    let cs = chars_of(s.as_str());
    match parse_decimal(cs.as_slice(), u32::MAX as u64) {
        Some(v) => Some(v as u32),
        None => None,
    }
}

impl App {
    /// The main screen with an empty list and an empty form, running.
    pub fn new() -> (r: App)
        ensures
            r@.name_input.len() == 0,
            r@.hour_input.len() == 0,
            r@.minute_input.len() == 0,
            r@.second_input.len() == 0,
            r@.timers.items.len() == 0,
            r@.timers.selected is None,
            r@.timers.last_selected is None,
            r@.current_screen == CurrentScreen::Main,
            r@.currently_editing is None,
            r@.running,
            r.wf(),
    {
        App {
            name_input: String::new(),
            hour_input: String::new(),
            minute_input: String::new(),
            second_input: String::new(),
            timers: StatefulList::new(),
            current_screen: CurrentScreen::Main,
            currently_editing: None,
            running: true,
        }
    }

    /// Whether the list's selections point into it.
    pub open spec fn wf(&self) -> bool {
        list_wf(self.timers@)
    }

    /// Adds the timer the form describes, if its numbers read; see
    /// `save_spec`. Returns whether it was added; otherwise nothing changes.
    pub fn save_new_timer(&mut self) -> (r: bool)
        requires
            old(self).wf(),
        ensures
            final(self).wf(),
            match save_spec(old(self)@) {
                Some(saved) => r && final(self)@ == saved,
                None => !r && final(self)@ == old(self)@,
            },
    {
        let hour = read_u32(&self.hour_input);
        let minute = read_u32(&self.minute_input);
        let second = read_u32(&self.second_input);
        match (hour, minute, second) {
            (Some(h), Some(m), Some(s)) => {
                let name = self.name_input.clone();
                self.timers.add(Timer { name, hour: h, minute: m, second: s });
                self.name_input = String::new();
                self.hour_input = String::new();
                self.minute_input = String::new();
                self.second_input = String::new();
                self.currently_editing = None;
                self.timers.set_last();
                true
            },
            _ => false,
        }
    }

    /// The periodic hook; the timer list does nothing on a tick.
    pub fn tick(&self) {
    }

    /// Stops the front-end.
    pub fn exit(&mut self)
        ensures
            final(self)@ == (AppView { running: false, ..old(self)@ }),
            final(self).wf() == old(self).wf(),
    {
        self.running = false;
    }

    /// Appends `c` to the field being edited.
    fn type_char(&mut self, f: CurrentlyEditing, c: char)
        ensures
            final(self)@ == with_input(old(self)@, f, input_of(old(self)@, f).push(c)),
    {
        match f {
            CurrentlyEditing::Name => push_char(&mut self.name_input, c),
            CurrentlyEditing::Hour => push_char(&mut self.hour_input, c),
            CurrentlyEditing::Minute => push_char(&mut self.minute_input, c),
            CurrentlyEditing::Second => push_char(&mut self.second_input, c),
        }
    }

    /// Removes the last character of the field being edited.
    fn erase_char(&mut self, f: CurrentlyEditing)
        ensures
            input_of(old(self)@, f).len() > 0 ==> final(self)@ == with_input(
                old(self)@,
                f,
                input_of(old(self)@, f).drop_last(),
            ),
            input_of(old(self)@, f).len() == 0 ==> final(self)@ == old(self)@,
    {
        match f {
            CurrentlyEditing::Name => {
                pop_char(&mut self.name_input);
            },
            CurrentlyEditing::Hour => {
                pop_char(&mut self.hour_input);
            },
            CurrentlyEditing::Minute => {
                pop_char(&mut self.minute_input);
            },
            CurrentlyEditing::Second => {
                pop_char(&mut self.second_input);
            },
        }
    }
}

/// The field after `f`.
fn next_field(f: CurrentlyEditing) -> (r: CurrentlyEditing)
    ensures
        r == field_below(f),
{
    match f {
        CurrentlyEditing::Name => CurrentlyEditing::Hour,
        CurrentlyEditing::Hour => CurrentlyEditing::Minute,
        CurrentlyEditing::Minute => CurrentlyEditing::Second,
        CurrentlyEditing::Second => CurrentlyEditing::Second,
    }
}

/// The field before `f`.
fn previous_field(f: CurrentlyEditing) -> (r: CurrentlyEditing)
    ensures
        r == field_above(f),
{
    match f {
        CurrentlyEditing::Name => CurrentlyEditing::Name,
        CurrentlyEditing::Hour => CurrentlyEditing::Name,
        CurrentlyEditing::Minute => CurrentlyEditing::Hour,
        CurrentlyEditing::Second => CurrentlyEditing::Minute,
    }
}

/// Applies one key event to the timer front-end; see `timer_key_spec`.
pub fn handle_key_event(app: &mut App, key_event: KeyInput)
    requires
        old(app).wf(),
    ensures
        final(app).wf(),
        final(app)@ == timer_key_spec(old(app)@, key_event),
{
    if matches!(key_event.kind, KeyKind::Release) {
        return;
    }
    match app.current_screen {
        CurrentScreen::Main => match key_event.key {
            Key::Char('+') => {
                app.current_screen = CurrentScreen::Editing;
                app.currently_editing = Some(CurrentlyEditing::Name);
            },
            Key::Char('q') => {
                app.current_screen = CurrentScreen::Exiting;
            },
            Key::Down => {
                app.timers.next();
            },
            Key::Up => {
                app.timers.previous();
            },
            _ => {},
        },
        CurrentScreen::Exiting => match key_event.key {
            Key::Char('y') | Key::Char('q') | Key::Enter => {
                app.exit();
            },
            Key::Char('n') => {
                app.current_screen = CurrentScreen::Main;
            },
            _ => {},
        },
        CurrentScreen::Editing => {
            if !matches!(key_event.kind, KeyKind::Press) {
                return;
            }
            if matches!(key_event.key, Key::Esc) {
                app.current_screen = CurrentScreen::Main;
                app.currently_editing = None;
                return;
            }
            let f = match app.currently_editing {
                Some(f) => f,
                None => {
                    return;
                },
            };
            match key_event.key {
                Key::Enter => {
                    if matches!(f, CurrentlyEditing::Second) {
                        if app.save_new_timer() {
                            app.current_screen = CurrentScreen::Main;
                        }
                    } else {
                        app.currently_editing = Some(next_field(f));
                    }
                },
                Key::Backspace => {
                    app.erase_char(f);
                },
                Key::Up => {
                    app.currently_editing = Some(previous_field(f));
                },
                Key::Down => {
                    app.currently_editing = Some(next_field(f));
                },
                Key::Char(c) => {
                    app.type_char(f, c);
                },
                _ => {},
            }
        },
    }
}

} // verus!
