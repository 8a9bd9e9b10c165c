//! The renderer: from the state of the dashboard to the panels on the
//! screen.

use vstd::prelude::*;
use crate::text::option_view;
use crate::ui::{AppModel, AppState, Mode, Panel};
use crate::weather::{
    debug_text, find_slot, get_data_for_days, summary, window_exists, Forecastday, Hour, Weather,
    AFTERNOON, EVENING, MORNING, NIGHT,
};

verus! {

/// A block of text, framed under a title or bare.
#[derive(Debug, Clone, PartialEq, Eq)]
pub struct TextPanel {
    pub title: Option<String>,
    pub text: String,
}

/// One line of the menu.
#[derive(Debug, Clone, PartialEq, Eq)]
pub struct MenuItem {
    pub label: String,
    pub highlighted: bool,
}

/// The list of panels to choose from.
#[derive(Debug, Clone, PartialEq, Eq)]
pub struct MenuPanel {
    pub title: String,
    pub items: Vec<MenuItem>,
}

/// The forecast table: a column for each slot of the day, a row for each
/// day.
#[derive(Debug, Clone, PartialEq, Eq)]
pub struct TablePanel {
    pub title: String,
    pub header: Vec<String>,
    pub rows: Vec<Vec<String>>,
}

/// What the content area shows.
#[derive(Debug, Clone, PartialEq, Eq)]
pub enum Content {
    Current(TextPanel),
    Forecast(TablePanel),
}

/// Everything on the screen.
#[derive(Debug, Clone, PartialEq, Eq)]
pub struct Screen {
    pub header: TextPanel,
    pub search: TextPanel,
    pub menu: MenuPanel,
    pub content: Content,
    pub footer: TextPanel,
}

pub ghost struct TextPanelView {
    pub title: Option<Seq<char>>,
    pub text: Seq<char>,
}

pub ghost struct MenuItemView {
    pub label: Seq<char>,
    pub highlighted: bool,
}

pub ghost struct MenuPanelView {
    pub title: Seq<char>,
    pub items: Seq<MenuItemView>,
}

pub ghost struct TablePanelView {
    pub title: Seq<char>,
    pub header: Seq<Seq<char>>,
    pub rows: Seq<Seq<Seq<char>>>,
}

pub ghost enum ContentView {
    Current(TextPanelView),
    Forecast(TablePanelView),
}

pub ghost struct ScreenView {
    pub header: TextPanelView,
    pub search: TextPanelView,
    pub menu: MenuPanelView,
    pub content: ContentView,
    pub footer: TextPanelView,
}

impl View for TextPanel {
    type V = TextPanelView;

    open spec fn view(&self) -> TextPanelView {
        TextPanelView { title: option_view(self.title), text: self.text@ }
    }
}

impl View for MenuItem {
    type V = MenuItemView;

    open spec fn view(&self) -> MenuItemView {
        MenuItemView { label: self.label@, highlighted: self.highlighted }
    }
}

impl View for MenuPanel {
    type V = MenuPanelView;

    open spec fn view(&self) -> MenuPanelView {
        MenuPanelView { title: self.title@, items: self.items@.map_values(|i: MenuItem| i@) }
    }
}

/// The texts of a list of strings.
pub open spec fn texts(list: Seq<String>) -> Seq<Seq<char>> {
    list.map_values(|c: String| c@)
}

impl View for TablePanel {
    type V = TablePanelView;

    open spec fn view(&self) -> TablePanelView {
        TablePanelView {
            title: self.title@,
            header: texts(self.header@),
            rows: self.rows@.map_values(|r: Vec<String>| texts(r@)),
        }
    }
}

impl View for Content {
    type V = ContentView;

    open spec fn view(&self) -> ContentView {
        match self {
            Content::Current(panel) => ContentView::Current(panel@),
            Content::Forecast(panel) => ContentView::Forecast(panel@),
        }
    }
}

impl View for Screen {
    type V = ScreenView;

    open spec fn view(&self) -> ScreenView {
        ScreenView {
            header: self.header@,
            search: self.search@,
            menu: self.menu@,
            content: self.content@,
            footer: self.footer@,
        }
    }
}

/// The banner: the given text, bare.
pub open spec fn header_panel(banner: Seq<char>) -> TextPanelView {
    TextPanelView { title: None, text: banner }
}

/// The search box around `text`.
pub open spec fn search_panel(text: Seq<char>) -> TextPanelView {
    TextPanelView { title: Some("Search(\u{21b5})"@), text }
}

/// What the search box holds: a hint while the search text is empty and
/// nobody is typing, the search text otherwise.
pub open spec fn search_text(state: AppModel) -> Seq<char> {
    if state.input.len() == 0 && state.mode != Mode::Searching {
        "('/') to start typing"@
    } else {
        state.input
    }
}

/// The menu of `labels`, the one at `selected` highlighted.
pub open spec fn menu_panel(labels: Seq<Seq<char>>, selected: int) -> MenuPanelView {
    MenuPanelView {
        title: "Options(\u{2193}\u{2191})"@,
        items: Seq::new(
            labels.len(),
            |i: int| MenuItemView { label: labels[i], highlighted: i == selected },
        ),
    }
}

/// The summary of the current conditions in its frame.
pub open spec fn current_panel(text: Seq<char>) -> TextPanelView {
    TextPanelView { title: Some("Current Conditions"@), text }
}

/// The key bindings.
pub open spec fn footer_panel() -> TextPanelView {
    TextPanelView { title: Some("Commands"@), text: "Press 'q': QUIT program"@ }
}

/// A cell of the forecast table: the temperature in both units and, on a
/// second line, the condition; empty when the day holds no sample for the
/// slot.
pub open spec fn cell_text(slot: Option<Hour>) -> Seq<char> {
    match slot {
        Some(sample) => sample.temp_c.short_text() + "C / "@ + sample.temp_f.short_text() + "F\n"@
            + sample.condition.text@,
        None => Seq::empty(),
    }
}

/// The row of `day`: a cell for each slot from morning to night.
pub open spec fn table_row(day: Forecastday) -> Seq<Seq<char>> {
    seq![
        cell_text(find_slot(day.hour@, MORNING as nat)),
        cell_text(find_slot(day.hour@, AFTERNOON as nat)),
        cell_text(find_slot(day.hour@, EVENING as nat)),
        cell_text(find_slot(day.hour@, NIGHT as nat)),
    ]
}

/// The rows of the forecast table: one for each day of the forecast, in
/// order, when it holds between one and seven days, and none otherwise.
pub open spec fn table_rows(weather: Weather) -> Seq<Seq<Seq<char>>> {
    let days = weather.forecast.forecastday@;
    if window_exists(days.len(), days.len()) {
        Seq::new(days.len(), |d: int| table_row(days[d]))
    } else {
        Seq::empty()
    }
}

/// The forecast table of `weather` under `title`.
pub open spec fn table_panel(title: Seq<char>, weather: Weather) -> TablePanelView {
    TablePanelView {
        title,
        header: seq!["Morning"@, "Afternoon"@, "Evening"@, "Night"@],
        rows: table_rows(weather),
    }
}

/// The content area: the summary of the current conditions on the first
/// panel, the forecast table on the second.
pub open spec fn content(state: AppModel) -> ContentView {
    match Panel::at(state.selected) {
        Panel::Current => ContentView::Current(
            current_panel(
                summary(
                    debug_text(state.weather.location.name@),
                    debug_text(state.weather.current.condition.text@),
                    state.weather.current.temp_c,
                    state.weather.current.temp_f,
                ),
            ),
        ),
        Panel::Forecast => ContentView::Forecast(table_panel("Forecast"@, state.weather)),
    }
}

/// The screen that shows `state` under `banner`.
pub open spec fn screen(state: AppModel, banner: Seq<char>) -> ScreenView {
    ScreenView {
        header: header_panel(banner),
        search: search_panel(search_text(state)),
        menu: menu_panel(
            seq![Panel::Current.label_text(), Panel::Forecast.label_text()],
            state.selected as int,
        ),
        content: content(state),
        footer: footer_panel(),
    }
}

/// The banner.
pub fn render_header(banner: &str) -> (r: TextPanel)
    ensures
        r@ == header_panel(banner@),
{
    TextPanel { title: None, text: String::from_str(banner) }
}

/// The search box, holding `placeholder`.
pub fn render_search_menu(placeholder: &str) -> (r: TextPanel)
    ensures
        r@ == search_panel(placeholder@),
{
    TextPanel {
        title: Some(String::from_str("Search(\u{21b5})")),
        text: String::from_str(placeholder),
    }
}

/// The menu of `items`, the one at `selected_index` highlighted.
pub fn render_menu(items: &Vec<&str>, selected_index: usize) -> (r: MenuPanel)
    ensures
        r@ == menu_panel(items@.map_values(|s: &str| s@), selected_index as int),
{
    let mut list_items: Vec<MenuItem> = Vec::new();
    let mut curr: usize = 0;
    while curr < items.len()
        invariant
            curr <= items@.len(),
            list_items@.len() == curr,
            forall|i: int|
                0 <= i < curr ==> (#[trigger] list_items@[i])@ == (MenuItemView {
                    label: items@[i]@,
                    highlighted: i == selected_index,
                }),
        decreases items@.len() - curr,
    {
        list_items.push(
            MenuItem { label: String::from_str(items[curr]), highlighted: curr == selected_index },
        );
        curr += 1;
    }
    let menu = MenuPanel { title: String::from_str("Options(\u{2193}\u{2191})"), items: list_items };
    assert(menu@.items =~= menu_panel(
        items@.map_values(|s: &str| s@),
        selected_index as int,
    ).items);
    menu
}

/// A cell of the forecast table.
fn render_cell(slot: Option<&Hour>) -> (r: String)
    ensures
        r@ == cell_text(
            match slot {
                Some(sample) => Some(*sample),
                None => None,
            },
        ),
{
    let mut out = String::new();
    match slot {
        Some(sample) => {
            sample.temp_c.push_to(&mut out, false);
            out.append("C / ");
            sample.temp_f.push_to(&mut out, false);
            out.append("F\n");
            out.append(sample.condition.text.as_str());
        },
        None => {},
    }
    out
}

/// The row of `day` in the forecast table.
fn render_row(data: &Weather, day: &Forecastday) -> (r: Vec<String>)
    ensures
        texts(r@) == table_row(*day),
{
    let mut cells: Vec<String> = Vec::new();
    cells.push(render_cell(data.get_data_for_time(day, MORNING)));
    cells.push(render_cell(data.get_data_for_time(day, AFTERNOON)));
    cells.push(render_cell(data.get_data_for_time(day, EVENING)));
    cells.push(render_cell(data.get_data_for_time(day, NIGHT)));
    cells
}

/// The forecast table of `data` under `title`. A slot without a sample
/// gives an empty cell.
pub fn render_table(title: &str, data: &Weather) -> (r: TablePanel)
    ensures
        r@ == table_panel(title@, *data),
{
    let mut header: Vec<String> = Vec::new();
    header.push(String::from_str("Morning"));
    header.push(String::from_str("Afternoon"));
    header.push(String::from_str("Evening"));
    header.push(String::from_str("Night"));
    let mut rows: Vec<Vec<String>> = Vec::new();
    match get_data_for_days(data, data.forecast.forecastday.len()) {
        Some(days) => {
            let mut i: usize = 0;
            while i < days.len()
                invariant
                    i <= days@.len(),
                    days@.len() == data.forecast.forecastday@.len(),
                    forall|d: int|
                        0 <= d < days@.len() ==> *days@[d] == data.forecast.forecastday@[d],
                    rows@.len() == i,
                    forall|d: int|
                        0 <= d < i ==> texts((#[trigger] rows@[d])@) == table_row(
                            data.forecast.forecastday@[d],
                        ),
                decreases days@.len() - i,
            {
                rows.push(render_row(data, days[i]));
                i += 1;
            }
        },
        None => {},
    }
    let table = TablePanel { title: String::from_str(title), header, rows };
    assert(table@.header =~= table_panel(title@, *data).header);
    assert(table@.rows =~= table_rows(*data));
    table
}

/// The summary of the current conditions in its frame.
pub fn render_forecast(data: &String) -> (r: TextPanel)
    ensures
        r@ == current_panel(data@),
{
    TextPanel { title: Some(String::from_str("Current Conditions")), text: data.clone() }
}

/// The key bindings.
pub fn render_footer() -> (r: TextPanel)
    ensures
        r@ == footer_panel(),
{
    TextPanel {
        title: Some(String::from_str("Commands")),
        text: String::from_str("Press 'q': QUIT program"),
    }
}

/// The screen that shows `app_state` under `banner`.
pub fn render(app_state: &AppState, banner: &str) -> (r: Screen)
    ensures
        r@ == screen(app_state@, banner@),
{
    let header = render_header(banner);
    let searching = match app_state.mode() {
        Mode::Searching => true,
        Mode::Browsing => false,
    };
    let placeholder: &str = if app_state.input().as_str().is_empty() && !searching {
        "('/') to start typing"
    } else {
        app_state.input().as_str()
    };
    let search = render_search_menu(placeholder);
    let mut items: Vec<&str> = Vec::new();
    items.push(Panel::Current.label());
    items.push(Panel::Forecast.label());
    let menu = render_menu(&items, app_state.selected_index());
    assert(items@.map_values(|s: &str| s@) =~= seq![
        Panel::Current.label_text(),
        Panel::Forecast.label_text(),
    ]);
    let content = match app_state.selected_panel() {
        Panel::Current => {
            let data = app_state.weather().to_string();
            Content::Current(render_forecast(&data))
        },
        Panel::Forecast => Content::Forecast(render_table("Forecast", app_state.weather())),
    };
    let footer = render_footer();
    Screen { header, search, menu, content, footer }
}

} // verus!
