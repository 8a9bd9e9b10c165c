//! The interaction state machine: keys, commands, and the state they act
//! on.

use vstd::prelude::*;
use crate::weather::Weather;

verus! {

/// What the keyboard is for at the moment.
#[derive(Clone, Copy, Debug, PartialEq, Eq, Structural)]
pub enum Mode {
    /// Keys move through the panels.
    Browsing,
    /// Keys edit the search text.
    Searching,
}

/// A view that the content area can show.
#[derive(Clone, Copy, Debug, PartialEq, Eq, Structural)]
pub enum Panel {
    Current,
    Forecast,
}

/// The number of panels.
pub const PANEL_COUNT: usize = 2;

/// One key event, as far as the dashboard tells keys apart.
#[derive(Clone, Copy, Debug, PartialEq, Eq, Structural)]
pub enum Key {
    /// A printable character.
    Char(char),
    Esc,
    Down,
    Up,
    Backspace,
    Enter,
    /// Any other key.
    Other,
}

/// What the terminal hands to the event loop when asked for the next key.
#[derive(Clone, Copy, Debug, PartialEq, Eq, Structural)]
pub enum Event {
    /// A key was pressed.
    Key(Key),
    /// The terminal could not be read.
    ReadFailure,
}

/// A command: what a key means in the mode it was pressed in.
#[derive(Clone, Copy, Debug, PartialEq, Eq, Structural)]
pub enum Input {
    Quit,
    Search,
    Down,
    Up,
    Char(char),
    Escape,
    Remove,
    Enter,
}

/// What the event loop does after a key.
#[derive(Clone, Copy, Debug, PartialEq, Eq, Structural)]
pub enum Action {
    /// Draw the state and wait for the next key.
    Redraw,
    /// Ask the gateway for the place in the search text, then report the
    /// outcome with `finish_search`.
    Fetch,
    /// Leave the loop.
    Quit,
}

/// Why a session ends other than by the quit key.
#[derive(Clone, Copy, Debug, PartialEq, Eq, Structural)]
pub enum SessionError {
    /// The first fetch failed: there is nothing to show.
    StartupFetchFailure,
    /// The next key could not be read.
    InputReadFailure,
}

/// The state of the dashboard as a mathematical value.
pub ghost struct AppModel {
    pub mode: Mode,
    pub selected: nat,
    pub input: Seq<char>,
    pub weather: Weather,
}

/// The state of the dashboard.
#[derive(Debug, Clone)]
pub struct AppState {
    mode: Mode,
    selected_index: usize,
    input: String,
    weather: Weather,
}

impl Panel {
    /// The panel at position `index` of the menu, where every position
    /// past the first stands for the last panel.
    pub open spec fn at(index: nat) -> Panel {
        if index == 0 {
            Panel::Current
        } else {
            Panel::Forecast
        }
    }

    /// The name of the panel in the menu.
    pub open spec fn label_text(self) -> Seq<char> {
        match self {
            Panel::Current => "Current"@,
            Panel::Forecast => "Forecast"@,
        }
    }

    /// The name of the panel in the menu.
    pub fn label(&self) -> (r: &'static str)
        ensures
            r@ == self.label_text(),
    {
        match self {
            Panel::Current => "Current",
            Panel::Forecast => "Forecast",
        }
    }
}

/// The command that `key` stands for in `mode`, if any.
pub open spec fn command(mode: Mode, key: Key) -> Option<Input> {
    match mode {
        Mode::Browsing => match key {
            Key::Char(c) => if c == 'q' {
                Some(Input::Quit)
            } else if c == '/' {
                Some(Input::Search)
            } else {
                None
            },
            Key::Down => Some(Input::Down),
            Key::Up => Some(Input::Up),
            _ => None,
        },
        Mode::Searching => match key {
            Key::Char(c) => Some(Input::Char(c)),
            Key::Backspace => Some(Input::Remove),
            Key::Esc => Some(Input::Escape),
            Key::Enter => Some(Input::Enter),
            _ => None,
        },
    }
}

/// Whether `input` belongs to the commands of `mode`.
pub open spec fn in_vocabulary(mode: Mode, input: Input) -> bool {
    match mode {
        Mode::Browsing => input is Quit || input is Search || input is Down || input is Up,
        Mode::Searching => input is Char || input is Remove || input is Escape || input is Enter,
    }
}

/// What the event loop does after `input` in `mode`.
pub open spec fn action(mode: Mode, input: Option<Input>) -> Action {
    match input {
        Some(Input::Quit) => if mode == Mode::Browsing {
            Action::Quit
        } else {
            Action::Redraw
        },
        Some(Input::Enter) => if mode == Mode::Searching {
            Action::Fetch
        } else {
            Action::Redraw
        },
        _ => Action::Redraw,
    }
}

impl AppModel {
    /// The state a session starts in.
    pub open spec fn initial(weather: Weather) -> AppModel {
        AppModel { mode: Mode::Browsing, selected: 0, input: Seq::empty(), weather }
    }

    /// What holds of every state: a panel is selected, and while browsing
    /// the search text is empty.
    pub open spec fn wf(self) -> bool {
        &&& self.selected < PANEL_COUNT
        &&& self.mode == Mode::Browsing ==> self.input.len() == 0
    }

    /// The state after `input`. A command from outside the vocabulary of
    /// the mode changes nothing, and neither does `Enter`: the search is
    /// settled once the gateway has answered.
    pub open spec fn apply(self, input: Option<Input>) -> AppModel {
        match input {
            Some(i) => if in_vocabulary(self.mode, i) {
                match i {
                    Input::Search => AppModel {
                        mode: Mode::Searching,
                        input: Seq::empty(),
                        ..self
                    },
                    Input::Down => AppModel {
                        selected: if self.selected + 1 < PANEL_COUNT {
                            self.selected + 1
                        } else {
                            self.selected
                        },
                        ..self
                    },
                    Input::Up => AppModel {
                        selected: if self.selected > 0 {
                            (self.selected - 1) as nat
                        } else {
                            self.selected
                        },
                        ..self
                    },
                    Input::Char(c) => AppModel { input: self.input.push(c), ..self },
                    Input::Remove => AppModel {
                        input: if self.input.len() > 0 {
                            self.input.drop_last()
                        } else {
                            self.input
                        },
                        ..self
                    },
                    Input::Escape => AppModel {
                        mode: Mode::Browsing,
                        input: Seq::empty(),
                        ..self
                    },
                    Input::Quit | Input::Enter => self,
                }
            } else {
                self
            },
            None => self,
        }
    }

    /// The state after the gateway has answered a search: browsing again,
    /// with the new snapshot if one came and the old one if none did.
    pub open spec fn settle(self, fetched: Option<Weather>) -> AppModel {
        AppModel {
            mode: Mode::Browsing,
            input: Seq::empty(),
            weather: match fetched {
                Some(weather) => weather,
                None => self.weather,
            },
            ..self
        }
    }

    /// The state after `key`, where `fetched` is what the gateway answers
    /// if the key starts a search.
    pub open spec fn step(self, key: Key, fetched: Option<Weather>) -> AppModel {
        let input = command(self.mode, key);
        if action(self.mode, input) == Action::Fetch {
            self.apply(input).settle(fetched)
        } else {
            self.apply(input)
        }
    }

    /// The state after `keys`, where `fetched(i)` is what the gateway
    /// answers if the key at position `i` starts a search.
    pub open spec fn run(self, keys: Seq<Key>, fetched: spec_fn(int) -> Option<Weather>) -> AppModel
        decreases keys.len(),
    {
        if keys.len() == 0 {
            self
        } else {
            self.run(keys.drop_last(), fetched).step(keys.last(), fetched(keys.len() - 1))
        }
    }
}

impl View for AppState {
    type V = AppModel;

    closed spec fn view(&self) -> AppModel {
        AppModel {
            mode: self.mode,
            selected: self.selected_index as nat,
            input: self.input@,
            weather: self.weather,
        }
    }
}

impl AppState {
    /// What holds of every state that the functions below hand out.
    pub open spec fn wf(&self) -> bool {
        self@.wf()
    }

    /// The state a session starts in: browsing, the first panel selected,
    /// no search text.
    pub fn new(weather: Weather) -> (s: AppState)
        ensures
            s@ == AppModel::initial(weather),
            s.wf(),
    {
        AppState { mode: Mode::Browsing, selected_index: 0, input: String::new(), weather }
    }

    /// The mode.
    pub fn mode(&self) -> (m: Mode)
        ensures
            m == self@.mode,
    {
        self.mode
    }

    /// The position of the selected panel.
    pub fn selected_index(&self) -> (i: usize)
        ensures
            i == self@.selected,
    {
        self.selected_index
    }

    /// The selected panel.
    pub fn selected_panel(&self) -> (p: Panel)
        ensures
            p == Panel::at(self@.selected),
    {
        if self.selected_index == 0 {
            Panel::Current
        } else {
            Panel::Forecast
        }
    }

    /// The search text.
    pub fn input(&self) -> (s: &String)
        ensures
            s@ == self@.input,
    {
        &self.input
    }

    /// The snapshot on display.
    pub fn weather(&self) -> (w: &Weather)
        ensures
            *w == self@.weather,
    {
        &self.weather
    }

    /// Appends `c` to the search text.
    fn update_input(&mut self, c: char)
        ensures
            final(self)@ == (AppModel { input: old(self)@.input.push(c), ..old(self)@ }),
    {
        self.input.push(c);
    }

    /// Removes the last character of the search text, if there is one.
    fn remove_last_char(&mut self)
        ensures
            final(self)@ == (AppModel {
                input: if old(self)@.input.len() > 0 {
                    old(self)@.input.drop_last()
                } else {
                    old(self)@.input
                },
                ..old(self)@
            }),
    {
        self.input.pop();
    }

    /// Changes from browsing to searching or back, and empties the search
    /// text.
    fn toggle_search(&mut self)
        ensures
            final(self)@ == (AppModel {
                mode: if old(self)@.mode == Mode::Browsing {
                    Mode::Searching
                } else {
                    Mode::Browsing
                },
                input: Seq::empty(),
                ..old(self)@
            }),
    {
        self.mode =
        match self.mode {
            Mode::Browsing => Mode::Searching,
            Mode::Searching => Mode::Browsing,
        };
        self.input.clear();
    }

    /// Carries out `input` and says what the event loop does next. A
    /// command from outside the vocabulary of the mode changes nothing,
    /// and neither does `Enter`: it asks for a fetch, whose outcome
    /// `finish_search` takes.
    pub fn apply(&mut self, input: Option<Input>) -> (r: Action)
        ensures
            final(self)@ == old(self)@.apply(input),
            r == action(old(self)@.mode, input),
            old(self).wf() ==> final(self).wf(),
    {
        match self.mode {
            Mode::Browsing => match input {
                Some(Input::Quit) => Action::Quit,
                Some(Input::Search) => {
                    self.toggle_search();
                    Action::Redraw
                },
                Some(Input::Down) => {
                    if self.selected_index < PANEL_COUNT - 1 {
                        self.selected_index += 1;
                    }
                    Action::Redraw
                },
                Some(Input::Up) => {
                    if self.selected_index > 0 {
                        self.selected_index -= 1;
                    }
                    Action::Redraw
                },
                _ => Action::Redraw,
            },
            Mode::Searching => match input {
                Some(Input::Char(c)) => {
                    self.update_input(c);
                    Action::Redraw
                },
                Some(Input::Remove) => {
                    self.remove_last_char();
                    Action::Redraw
                },
                Some(Input::Escape) => {
                    self.toggle_search();
                    Action::Redraw
                },
                Some(Input::Enter) => Action::Fetch,
                _ => Action::Redraw,
            },
        }
    }

    /// Takes the gateway's answer to a search: the dashboard browses
    /// again with an empty search text, on the new snapshot if one came
    /// and on the old one if the fetch failed.
    pub fn finish_search(&mut self, fetched: Option<Weather>)
        ensures
            final(self)@ == old(self)@.settle(fetched),
            fetched.is_none() ==> final(self)@.weather == old(self)@.weather,
            old(self).wf() ==> final(self).wf(),
    {
        match fetched {
            Some(data) => {
                self.weather = data;
            },
            None => {},
        }
        self.mode = Mode::Browsing;
        self.input.clear();
    }

    /// Handles one key: finds the command it stands for and carries it
    /// out.
    pub fn press(&mut self, key: Key) -> (r: Action)
        ensures
            final(self)@ == old(self)@.apply(command(old(self)@.mode, key)),
            r == action(old(self)@.mode, command(old(self)@.mode, key)),
            r != Action::Fetch ==> final(self)@ == old(self)@.step(key, None),
            old(self).wf() ==> final(self).wf(),
    {
        let input = process_keypress(key, self);
        self.apply(input)
    }

    /// Handles what the terminal handed over: a key is pressed, and a
    /// failure to read one ends the session, the state untouched.
    pub fn handle(&mut self, event: Event) -> (r: Result<Action, SessionError>)
        ensures
            match event {
                Event::Key(key) => r == Ok::<Action, SessionError>(
                    action(old(self)@.mode, command(old(self)@.mode, key)),
                ) && final(self)@ == old(self)@.apply(command(old(self)@.mode, key)),
                Event::ReadFailure => r == Err::<Action, SessionError>(
                    SessionError::InputReadFailure,
                ) && final(self)@ == old(self)@,
            },
            old(self).wf() ==> final(self).wf(),
    {
        match event {
            Event::Key(key) => Ok(self.press(key)),
            Event::ReadFailure => Err(SessionError::InputReadFailure),
        }
    }
}

/// The command that `key` stands for in the mode of `app_state`, if any.
pub fn process_keypress(key: Key, app_state: &AppState) -> (r: Option<Input>)
    ensures
        r == command(app_state@.mode, key),
{
    match app_state.mode() {
        Mode::Browsing => match key {
            Key::Char(c) => match c {
                'q' => Some(Input::Quit),
                '/' => Some(Input::Search),
                _ => None,
            },
            Key::Down => Some(Input::Down),
            Key::Up => Some(Input::Up),
            _ => None,
        },
        Mode::Searching => match key {
            Key::Char(c) => Some(Input::Char(c)),
            Key::Esc => Some(Input::Escape),
            Key::Backspace => Some(Input::Remove),
            Key::Enter => Some(Input::Enter),
            _ => None,
        },
    }
}

/// Opens a session on the outcome of the first fetch: the starting state
/// on its snapshot, or the failure that ends the session before anything
/// is shown.
pub fn start(fetched: Option<Weather>) -> (r: Result<AppState, SessionError>)
    ensures
        match fetched {
            Some(weather) => r matches Ok(state) && state@ == AppModel::initial(weather)
                && state.wf(),
            None => r == Err::<AppState, SessionError>(SessionError::StartupFetchFailure),
        },
{
    match fetched {
        Some(data) => Ok(AppState::new(data)),
        None => Err(SessionError::StartupFetchFailure),
    }
}

/// The exit status of the process for the way a session ended: 0 after
/// the quit key and after a failed first fetch, 101 when no key could be
/// read.
pub open spec fn status_of(outcome: Result<(), SessionError>) -> u8 {
    match outcome {
        Ok(()) => 0,
        Err(SessionError::StartupFetchFailure) => 0,
        Err(SessionError::InputReadFailure) => 101,
    }
}

/// The exit status of the process for the way a session ended.
pub fn exit_status(outcome: Result<(), SessionError>) -> (r: u8)
    ensures
        r == status_of(outcome),
{
    match outcome {
        Ok(()) => 0,
        Err(SessionError::StartupFetchFailure) => 0,
        Err(SessionError::InputReadFailure) => 101,
    }
}

/// `n` rounds of opening the search box with `/` and closing it with
/// `Esc`.
pub open spec fn search_escape_rounds(n: nat) -> Seq<Key> {
    Seq::new(
        2 * n,
        |i: int|
            if i % 2 == 0 {
                Key::Char('/')
            } else {
                Key::Esc
            },
    )
}

/// `key`, `n` times over.
pub open spec fn repeated(key: Key, n: nat) -> Seq<Key> {
    Seq::new(n, |i: int| key)
}

/// Whether each of `keys` is a printable character.
pub open spec fn all_printable(keys: Seq<Key>) -> bool {
    forall|i: int| 0 <= i < keys.len() ==> (#[trigger] keys[i]) is Char
}

/// The character that `key` types, for a key that is one.
pub open spec fn typed_char(key: Key) -> char
    recommends
        key is Char,
{
    match key {
        Key::Char(c) => c,
        _ => ' ',
    }
}

/// The text that `keys` type, for keys that are printable characters.
pub open spec fn typed_text(keys: Seq<Key>) -> Seq<char>
    recommends
        all_printable(keys),
{
    Seq::new(keys.len(), |i: int| typed_char(keys[i]))
}

/// `/`, then the keys of `typed`, then `erased` times backspace.
pub open spec fn search_type_erase(typed: Seq<Key>, erased: nat) -> Seq<Key> {
    seq![Key::Char('/')] + typed + repeated(Key::Backspace, erased)
}

/// Every key leads from a well-formed state to a well-formed state: a
/// panel stays selected whatever is pressed and whatever the gateway
/// answers.
pub proof fn lemma_step_keeps_wf(s: AppModel, key: Key, fetched: Option<Weather>)
    requires
        s.wf(),
    ensures
        s.step(key, fetched).wf(),
{
}

/// Every run of keys leads from a well-formed state to a well-formed
/// state.
pub proof fn lemma_run_keeps_wf(s: AppModel, keys: Seq<Key>, fetched: spec_fn(int) -> Option<Weather>)
    requires
        s.wf(),
    ensures
        s.run(keys, fetched).wf(),
    decreases keys.len(),
{
    if keys.len() > 0 {
        lemma_run_keeps_wf(s, keys.drop_last(), fetched);
        lemma_step_keeps_wf(
            s.run(keys.drop_last(), fetched),
            keys.last(),
            fetched(keys.len() - 1),
        );
    }
}

/// `/` and then `Esc` end in browsing with an empty search text, and
/// change neither the snapshot nor the selection, whatever the state
/// before.
pub proof fn lemma_search_escape(s: AppModel, f1: Option<Weather>, f2: Option<Weather>)
    ensures
        s.step(Key::Char('/'), f1).step(Key::Esc, f2) == (AppModel {
            mode: Mode::Browsing,
            input: Seq::empty(),
            ..s
        }),
{
}

/// Any number of rounds of `/` and `Esc` end in browsing with an empty
/// search text, and change neither the snapshot nor the selection. With
/// no round at all this holds of the states that are there already.
pub proof fn lemma_search_escape_rounds(
    s: AppModel,
    n: nat,
    fetched: spec_fn(int) -> Option<Weather>,
)
    requires
        n >= 1 || (s.mode == Mode::Browsing && s.input.len() == 0),
    ensures
        s.run(search_escape_rounds(n), fetched) == (AppModel {
            mode: Mode::Browsing,
            input: Seq::empty(),
            ..s
        }),
    decreases n,
{
    if n == 0 {
        assert(s.input =~= Seq::<char>::empty());
    } else {
        let keys = search_escape_rounds(n);
        let before_esc = keys.drop_last();
        let earlier = search_escape_rounds((n - 1) as nat);
        assert(before_esc.drop_last() =~= earlier);
        assert(s.run(before_esc, fetched) == s.run(earlier, fetched).step(
            Key::Char('/'),
            fetched(2 * n - 2),
        ));
        assert(s.run(keys, fetched) == s.run(before_esc, fetched).step(
            Key::Esc,
            fetched(2 * n - 1),
        ));
        if n > 1 {
            lemma_search_escape_rounds(s, (n - 1) as nat, fetched);
        }
    }
}

/// From browsing, `/` and then any printable characters leave the
/// dashboard searching for exactly the text typed.
pub proof fn lemma_search_type(s: AppModel, typed: Seq<Key>, fetched: spec_fn(int) -> Option<Weather>)
    requires
        s.mode == Mode::Browsing,
        all_printable(typed),
    ensures
        s.run(search_type_erase(typed, 0), fetched) == (AppModel {
            mode: Mode::Searching,
            input: typed_text(typed),
            ..s
        }),
    decreases typed.len(),
{
    let keys = search_type_erase(typed, 0);
    if typed.len() == 0 {
        assert(keys =~= seq![Key::Char('/')]);
        assert(s.run(keys.drop_last(), fetched) == s);
        assert(typed_text(typed) =~= Seq::<char>::empty());
    } else {
        assert(keys.drop_last() =~= search_type_erase(typed.drop_last(), 0));
        assert(keys.last() == typed.last());
        lemma_search_type(s, typed.drop_last(), fetched);
        assert(typed_text(typed.drop_last()).push(typed_char(typed.last())) =~= typed_text(typed));
    }
}

/// From browsing, `/`, then `typed.len()` printable characters, then
/// `erased` times backspace leave the dashboard searching for the text
/// typed without its last `erased` characters, and for nothing when
/// `erased` is the length of the text or more.
pub proof fn lemma_search_type_erase(
    s: AppModel,
    typed: Seq<Key>,
    erased: nat,
    fetched: spec_fn(int) -> Option<Weather>,
)
    requires
        s.mode == Mode::Browsing,
        all_printable(typed),
    ensures
        s.run(search_type_erase(typed, erased), fetched) == (AppModel {
            mode: Mode::Searching,
            input: if erased <= typed.len() {
                typed_text(typed).take(typed.len() - erased)
            } else {
                Seq::empty()
            },
            ..s
        }),
        s.run(search_type_erase(typed, erased), fetched).input.len() == if erased <= typed.len() {
            typed.len() - erased
        } else {
            0
        },
    decreases erased,
{
    let keys = search_type_erase(typed, erased);
    let text = typed_text(typed);
    if erased == 0 {
        lemma_search_type(s, typed, fetched);
        assert(text.take(text.len() as int) =~= text);
    } else {
        assert(keys.drop_last() =~= search_type_erase(typed, (erased - 1) as nat));
        assert(keys.last() == Key::Backspace);
        lemma_search_type_erase(s, typed, (erased - 1) as nat, fetched);
        let before = s.run(keys.drop_last(), fetched);
        if erased <= typed.len() {
            assert(before.input.drop_last() =~= text.take(text.len() - erased));
        } else {
            assert(before.input =~= Seq::<char>::empty());
        }
    }
}

/// A search that the gateway fails leaves the snapshot as it was, and
/// puts the dashboard back to browsing with an empty search text.
pub proof fn lemma_failed_search(s: AppModel)
    requires
        s.mode == Mode::Searching,
    ensures
        s.step(Key::Enter, None) == (AppModel { mode: Mode::Browsing, input: Seq::empty(), ..s }),
        s.step(Key::Enter, None).weather == s.weather,
{
}

/// No key changes the snapshot unless the gateway answers with a new one.
pub proof fn lemma_snapshot_kept(s: AppModel, key: Key)
    ensures
        s.step(key, None).weather == s.weather,
{
}

/// With the last panel selected, pressing `Down` any number of times
/// changes nothing.
pub proof fn lemma_down_past_last(s: AppModel, n: nat, fetched: spec_fn(int) -> Option<Weather>)
    requires
        s.selected == PANEL_COUNT - 1,
    ensures
        s.run(repeated(Key::Down, n), fetched) == s,
    decreases n,
{
    if n > 0 {
        assert(repeated(Key::Down, n).drop_last() == repeated(Key::Down, (n - 1) as nat));
        lemma_down_past_last(s, (n - 1) as nat, fetched);
    }
}

/// With the first panel selected, pressing `Up` any number of times
/// changes nothing.
pub proof fn lemma_up_past_first(s: AppModel, n: nat, fetched: spec_fn(int) -> Option<Weather>)
    requires
        s.selected == 0,
    ensures
        s.run(repeated(Key::Up, n), fetched) == s,
    decreases n,
{
    if n > 0 {
        assert(repeated(Key::Up, n).drop_last() == repeated(Key::Up, (n - 1) as nat));
        lemma_up_past_first(s, (n - 1) as nat, fetched);
    }
}

} // verus!
