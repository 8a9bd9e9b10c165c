use weather_tui::render::{
    render, render_footer, render_forecast, render_header, render_menu, render_search_menu,
    render_table, Content, MenuItem, TextPanel,
};
use weather_tui::ui::{Action, AppState, Key, Mode, Panel};
use weather_tui::weather::{
    Condition, Condition3, Current, Forecast, Forecastday, Hour, Location, Temperature, Weather,
};

fn reading(time: &str, tenths_c: i32, tenths_f: i32, condition: &str) -> Hour {
    Hour {
        time: time.to_string(),
        temp_c: Temperature { tenths: tenths_c },
        temp_f: Temperature { tenths: tenths_f },
        condition: Condition3 { text: condition.to_string(), ..Default::default() },
        ..Default::default()
    }
}

fn day_of(date: &str) -> Forecastday {
    Forecastday {
        date: date.to_string(),
        hour: vec![
            reading(&format!("{} 00:00", date), 80, 464, "Clear"),
            reading(&format!("{} 06:00", date), 95, 491, "Mist"),
            reading(&format!("{} 12:00", date), 181, 646, "Sunny"),
            reading(&format!("{} 18:00", date), 150, 590, "Partly cloudy"),
        ],
        ..Default::default()
    }
}

fn city(name: &str, days: usize) -> Weather {
    let mut forecastday = Vec::new();
    for d in 0..days {
        forecastday.push(day_of(&format!("2023-04-{:02}", d + 1)));
    }
    Weather {
        location: Location { name: name.to_string(), ..Default::default() },
        current: Current {
            temp_c: Temperature { tenths: 215 },
            temp_f: Temperature { tenths: 707 },
            condition: Condition { text: "Sunny".to_string(), ..Default::default() },
            ..Default::default()
        },
        forecast: Forecast { forecastday },
    }
}

fn strings(items: &[&str]) -> Vec<String> {
    items.iter().map(|s| s.to_string()).collect()
}

#[test]
fn header_is_the_bare_banner() {
    assert_eq!(
        render_header("WEATHER\n=======\n"),
        TextPanel { title: None, text: "WEATHER\n=======\n".to_string() }
    );
}

#[test]
fn search_box_holds_what_it_is_given() {
    assert_eq!(
        render_search_menu("Tokyo"),
        TextPanel { title: Some("Search(\u{21b5})".to_string()), text: "Tokyo".to_string() }
    );
}

#[test]
fn menu_highlights_the_selected_item() {
    let items = vec!["Current", "Forecast"];
    let menu = render_menu(&items, 1);
    assert_eq!(menu.title, "Options(\u{2193}\u{2191})");
    assert_eq!(
        menu.items,
        vec![
            MenuItem { label: "Current".to_string(), highlighted: false },
            MenuItem { label: "Forecast".to_string(), highlighted: true },
        ]
    );
    let menu = render_menu(&items, 0);
    assert!(menu.items[0].highlighted);
    assert!(!menu.items[1].highlighted);
}

#[test]
fn menu_without_selection_in_range() {
    let items = vec!["a", "b", "c"];
    let menu = render_menu(&items, 3);
    assert_eq!(menu.items.len(), 3);
    assert!(menu.items.iter().all(|item| !item.highlighted));
    assert_eq!(render_menu(&Vec::new(), 0).items, Vec::<MenuItem>::new());
}

#[test]
fn panel_labels() {
    assert_eq!(Panel::Current.label(), "Current");
    assert_eq!(Panel::Forecast.label(), "Forecast");
}

#[test]
fn current_conditions_panel() {
    let data = "\"Paris\"\n\"Sunny\"\n21.5C\n70.7F".to_string();
    assert_eq!(
        render_forecast(&data),
        TextPanel { title: Some("Current Conditions".to_string()), text: data.clone() }
    );
}

#[test]
fn footer_lists_the_quit_key() {
    assert_eq!(
        render_footer(),
        TextPanel {
            title: Some("Commands".to_string()),
            text: "Press 'q': QUIT program".to_string()
        }
    );
}

#[test]
fn table_of_one_day() {
    let table = render_table("Today's Forecast", &city("Paris", 1));
    assert_eq!(table.title, "Today's Forecast");
    assert_eq!(table.header, strings(&["Morning", "Afternoon", "Evening", "Night"]));
    assert_eq!(
        table.rows,
        vec![strings(&[
            "9.5C / 49.1F\nMist",
            "18.1C / 64.6F\nSunny",
            "15C / 59F\nPartly cloudy",
            "8C / 46.4F\nClear",
        ])]
    );
}

#[test]
fn table_has_a_row_for_each_day_in_order() {
    let mut weather = city("Paris", 7);
    for (i, day) in weather.forecast.forecastday.iter_mut().enumerate() {
        day.hour[2].condition.text = format!("day {}", i);
    }
    let table = render_table("Forecast", &weather);
    assert_eq!(table.rows.len(), 7);
    for (i, row) in table.rows.iter().enumerate() {
        assert_eq!(row.len(), 4);
        assert_eq!(row[0], "9.5C / 49.1F\nMist");
        assert_eq!(row[1], format!("18.1C / 64.6F\nday {}", i));
    }
}

#[test]
fn table_cell_is_empty_for_a_missing_slot() {
    let mut weather = city("Paris", 2);
    weather.forecast.forecastday[0].hour.remove(1);
    weather.forecast.forecastday[1].hour.clear();
    let table = render_table("Forecast", &weather);
    assert_eq!(
        table.rows[0],
        strings(&["", "18.1C / 64.6F\nSunny", "15C / 59F\nPartly cloudy", "8C / 46.4F\nClear"])
    );
    assert_eq!(table.rows[1], strings(&["", "", "", ""]));
}

#[test]
fn table_is_empty_without_a_window() {
    let none = render_table("Forecast", &city("Paris", 0));
    assert_eq!(none.rows, Vec::<Vec<String>>::new());
    assert_eq!(none.header.len(), 4);
    let too_many = render_table("Forecast", &city("Paris", 8));
    assert_eq!(too_many.rows, Vec::<Vec<String>>::new());
}

#[test]
fn screen_of_a_fresh_session() {
    let state = AppState::new(city("Paris", 1));
    let screen = render(&state, "BANNER");
    assert_eq!(screen.header, render_header("BANNER"));
    assert_eq!(screen.search, render_search_menu("('/') to start typing"));
    assert_eq!(screen.menu, render_menu(&vec!["Current", "Forecast"], 0));
    assert_eq!(
        screen.content,
        Content::Current(TextPanel {
            title: Some("Current Conditions".to_string()),
            text: "\"Paris\"\n\"Sunny\"\n21.5C\n70.7F".to_string(),
        })
    );
    assert_eq!(screen.footer, render_footer());
}

#[test]
fn screen_shows_the_forecast_on_the_second_panel() {
    let mut state = AppState::new(city("Paris", 2));
    state.press(Key::Down);
    let screen = render(&state, "");
    assert_eq!(screen.menu, render_menu(&vec!["Current", "Forecast"], 1));
    assert_eq!(screen.content, Content::Forecast(render_table("Forecast", &city("Paris", 2))));
}

#[test]
fn search_box_is_live_while_searching() {
    let mut state = AppState::new(city("Paris", 1));
    state.press(Key::Char('/'));
    assert_eq!(render(&state, "").search.text, "");
    state.press(Key::Char('T'));
    state.press(Key::Char('o'));
    assert_eq!(render(&state, "").search.text, "To");
    state.press(Key::Backspace);
    state.press(Key::Backspace);
    assert_eq!(render(&state, "").search.text, "");
    state.press(Key::Esc);
    assert_eq!(render(&state, "").search.text, "('/') to start typing");
}

#[test]
fn rendering_survives_missing_data() {
    let mut state = AppState::new(Weather::default());
    let screen = render(&state, "");
    assert_eq!(
        screen.content,
        Content::Current(TextPanel {
            title: Some("Current Conditions".to_string()),
            text: "\"\"\n\"\"\n0.0C\n0.0F".to_string(),
        })
    );
    state.press(Key::Down);
    match render(&state, "").content {
        Content::Forecast(table) => assert!(table.rows.is_empty()),
        Content::Current(_) => panic!("the forecast panel is selected"),
    }
}

#[test]
fn paris_session_end_to_end() {
    let paris = city("Paris", 1);
    let mut state = weather_tui::ui::start(Some(paris.clone())).ok().unwrap();
    assert_eq!(state.mode(), Mode::Browsing);
    assert_eq!(state.selected_index(), 0);
    let first = render(&state, "BANNER");
    assert_eq!(
        first.content,
        Content::Current(render_forecast(&"\"Paris\"\n\"Sunny\"\n21.5C\n70.7F".to_string()))
    );

    assert_eq!(state.press(Key::Down), Action::Redraw);
    assert_eq!(state.selected_index(), 1);
    assert_eq!(state.selected_panel(), Panel::Forecast);
    let forecast = render(&state, "BANNER");
    assert_eq!(forecast.content, Content::Forecast(render_table("Forecast", &paris)));

    assert_eq!(state.press(Key::Char('/')), Action::Redraw);
    for c in "Tokyo".chars() {
        assert_eq!(state.press(Key::Char(c)), Action::Redraw);
    }
    assert_eq!(render(&state, "BANNER").search.text, "Tokyo");
    assert_eq!(state.press(Key::Enter), Action::Fetch);
    assert_eq!(state.input(), "Tokyo");
    state.finish_search(None);

    assert_eq!(state.mode(), Mode::Browsing);
    assert_eq!(state.weather(), &paris);
    assert_eq!(state.selected_index(), 1);
    assert_eq!(render(&state, "BANNER"), forecast);
    assert_eq!(state.press(Key::Up), Action::Redraw);
    assert_eq!(render(&state, "BANNER"), first);

    assert_eq!(state.press(Key::Char('q')), Action::Quit);
    assert_eq!(weather_tui::ui::exit_status(Ok(())), 0);
}
