use trassenfinder_explorer::api::{
    Betriebsstelle, Infrastruktur, InfrastrukturIndex, Ordnungsrahmen, StationMap, Streckensegment,
};
use trassenfinder_explorer::events::{Event, KeyAction};
use trassenfinder_explorer::extent::Extent;
use trassenfinder_explorer::widgets::{
    Command, InfrastrukturSelectionWidget, ListSelectionWidget, MapWidget, TermWidget,
    WidgetSelection,
};

fn entry(id: u64, name: &str) -> InfrastrukturIndex {
    InfrastrukturIndex {
        id,
        anzeigename: name.to_string(),
        fahrplanjahr: 2020,
        gueltig_von: "2019-12-15".to_string(),
        gueltig_bis: "2020-12-12".to_string(),
    }
}

fn three_entries() -> Vec<InfrastrukturIndex> {
    vec![entry(11, "Fahrplan 2019"), entry(12, "Fahrplan 2020"), entry(15, "Fahrplan 2021")]
}

fn station(code: &str, name: &str, x: i64, y: i64) -> Betriebsstelle {
    Betriebsstelle { x, y, ds100: code.to_string(), langname: name.to_string() }
}

fn segment(von: &str, bis: &str, streckennummer: u32) -> Streckensegment {
    Streckensegment { von: von.to_string(), bis: bis.to_string(), streckennummer }
}

fn document(
    betriebsstellen: Vec<Betriebsstelle>,
    streckensegmente: Vec<Streckensegment>,
) -> Infrastruktur {
    Infrastruktur {
        id: 12,
        anzeigename: "Fahrplan 2020".to_string(),
        ordnungsrahmen: Ordnungsrahmen { betriebsstellen, streckensegmente },
    }
}

fn triangle() -> Infrastruktur {
    document(
        vec![station("A", "Alpha", 0, 0), station("B", "Beta", 10, 4), station("C", "Gamma", -3, 9)],
        vec![segment("A", "B", 42), segment("B", "C", 6107)],
    )
}

fn graph(document: Infrastruktur) -> StationMap {
    match document.try_into() {
        Ok(map) => map,
        Err(error) => panic!("the document has no graph: {}", error.message()),
    }
}

fn map_of(widget: &TermWidget) -> &MapWidget {
    match widget {
        TermWidget::Karte(map) => map,
        TermWidget::InfrastrukturSelection(_) => panic!("the list is on screen"),
    }
}

fn list_of(widget: &TermWidget) -> &InfrastrukturSelectionWidget {
    match widget {
        TermWidget::InfrastrukturSelection(list) => list,
        TermWidget::Karte(_) => panic!("the map is on screen"),
    }
}

#[test]
fn a_list_starts_at_its_first_name() {
    let list = ListSelectionWidget::new(
        "Betriebsstellen".to_string(),
        vec!["A (Alpha)".to_string(), "B (Beta)".to_string()],
    );
    assert_eq!(list.title(), "Betriebsstellen");
    assert_eq!(list.names(), &vec!["A (Alpha)".to_string(), "B (Beta)".to_string()]);
    assert_eq!(list.selected(), Some(0));
}

#[test]
fn an_empty_list_has_no_selection() {
    let mut list = ListSelectionWidget::new("Streckensegmente".to_string(), vec![]);
    assert_eq!(list.selected(), None);
    list.up();
    assert_eq!(list.selected(), None);
    list.down();
    assert_eq!(list.selected(), None);
    assert_eq!(list.select_key(KeyAction::Down), Command::Stay);
    assert_eq!(list.selected(), None);
}

#[test]
fn a_list_moves_and_stops_at_its_ends() {
    let names: Vec<String> = ["a", "b", "c"].iter().map(|s| s.to_string()).collect();
    let mut list = ListSelectionWidget::new("t".to_string(), names);
    list.up();
    assert_eq!(list.selected(), Some(0));
    list.down();
    assert_eq!(list.selected(), Some(1));
    list.down();
    assert_eq!(list.selected(), Some(2));
    list.down();
    assert_eq!(list.selected(), Some(2));
    list.up();
    assert_eq!(list.selected(), Some(1));
    list.down();
    assert_eq!(list.selected(), Some(2));
}

#[test]
fn a_list_reacts_to_the_two_moves_only() {
    let names: Vec<String> = ["a", "b", "c"].iter().map(|s| s.to_string()).collect();
    let mut list = ListSelectionWidget::new("t".to_string(), names);
    assert_eq!(list.select_key(KeyAction::Down), Command::Stay);
    assert_eq!(list.selected(), Some(1));
    for key in [
        KeyAction::Confirm,
        KeyAction::Back,
        KeyAction::SwitchToStations,
        KeyAction::SwitchToSegments,
        KeyAction::Quit,
        KeyAction::Other,
    ] {
        assert_eq!(list.select_key(key), Command::Stay);
        assert_eq!(list.selected(), Some(1));
    }
    assert_eq!(list.select_key(KeyAction::Up), Command::Stay);
    assert_eq!(list.selected(), Some(0));
    assert_eq!(list.names().len(), 3);
    assert_eq!(list.title(), "t");
}

#[test]
fn the_list_of_infrastructures_has_a_line_for_each_entry() {
    let list = InfrastrukturSelectionWidget::new(three_entries());
    assert_eq!(
        list.items(),
        &vec![
            "11: Fahrplan 2019".to_string(),
            "12: Fahrplan 2020".to_string(),
            "15: Fahrplan 2021".to_string()
        ]
    );
    assert_eq!(list.values().len(), 3);
    assert_eq!(list.values()[2].id, 15);
    assert_eq!(list.selected(), Some(0));
    assert_eq!(list.selected_value().map(|info| info.id), Some(11));
}

#[test]
fn an_empty_list_of_infrastructures_offers_nothing_to_confirm() {
    let mut list = InfrastrukturSelectionWidget::new(vec![]);
    assert_eq!(list.selected(), None);
    assert!(list.selected_value().is_none());
    assert!(list.items().is_empty());
    assert_eq!(list.select_key(KeyAction::Confirm), Command::Stay);
    assert_eq!(list.select_key(KeyAction::Down), Command::Stay);
    assert_eq!(list.selected(), None);
}

#[test]
fn three_downs_in_a_list_of_three_end_at_the_last() {
    let mut list = InfrastrukturSelectionWidget::new(three_entries());
    assert_eq!(list.selected(), Some(0));
    assert_eq!(list.select_key(KeyAction::Down), Command::Stay);
    assert_eq!(list.select_key(KeyAction::Down), Command::Stay);
    assert_eq!(list.selected(), Some(2));
    assert_eq!(list.select_key(KeyAction::Down), Command::Stay);
    assert_eq!(list.selected(), Some(2));
}

#[test]
fn the_methods_of_the_list_of_infrastructures_move_the_selection() {
    let mut list = InfrastrukturSelectionWidget::new(three_entries());
    list.up();
    assert_eq!(list.selected(), Some(0));
    list.down();
    assert_eq!(list.selected(), Some(1));
    assert_eq!(list.selected_value().map(|info| info.anzeigename.as_str()), Some("Fahrplan 2020"));
    list.up();
    list.down();
    assert_eq!(list.selected(), Some(1));
}

#[test]
fn to_confirm_asks_for_the_map_of_the_selected_entry() {
    let mut list = InfrastrukturSelectionWidget::new(three_entries());
    assert_eq!(list.select_key(KeyAction::Confirm), Command::LoadMap(11));
    list.select_key(KeyAction::Down);
    list.select_key(KeyAction::Down);
    assert_eq!(list.select_key(KeyAction::Confirm), Command::LoadMap(15));
    assert_eq!(list.selected(), Some(2));
}

#[test]
fn the_list_of_infrastructures_ignores_the_keys_of_the_map() {
    let mut list = InfrastrukturSelectionWidget::new(three_entries());
    list.select_key(KeyAction::Down);
    for key in [
        KeyAction::Back,
        KeyAction::SwitchToStations,
        KeyAction::SwitchToSegments,
        KeyAction::Quit,
        KeyAction::Other,
    ] {
        assert_eq!(list.select_key(key), Command::Stay);
        assert_eq!(list.selected(), Some(1));
    }
}

#[test]
fn a_new_map_shows_the_graph_with_the_stations_in_front() {
    let map = MapWidget::new(graph(triangle()));
    assert_eq!(map.widget_selection(), WidgetSelection::Stations);
    assert_eq!(map.stations_widget().title(), "Betriebsstellen");
    assert_eq!(
        map.stations_widget().names(),
        &vec!["A (Alpha)".to_string(), "B (Beta)".to_string(), "C (Gamma)".to_string()]
    );
    assert_eq!(map.stations_widget().selected(), Some(0));
    assert_eq!(map.segments_widget().title(), "Streckensegmente");
    assert_eq!(
        map.segments_widget().names(),
        &vec!["42 (A -> B)".to_string(), "6107 (B -> C)".to_string()]
    );
    assert_eq!(map.segments_widget().selected(), Some(0));
    assert_eq!(map.coordinates(), &vec![(0, 0), (10, 4), (-3, 9)]);
    assert_eq!(map.extent(), Extent { min_x: -3, max_x: 10, min_y: 0, max_y: 9 });
    assert_eq!(map.station_map().id(), 12);
    assert_eq!(map.station_map().stations().len(), 3);
}

#[test]
fn a_map_without_segments_has_an_empty_list_of_segments() {
    let mut map = MapWidget::new(graph(document(vec![station("A", "Alpha", 2, 3)], vec![])));
    assert_eq!(map.segments_widget().selected(), None);
    assert!(map.selected_segment().is_none());
    assert_eq!(map.extent(), Extent { min_x: 2, max_x: 2, min_y: 3, max_y: 3 });
    map.select_key(KeyAction::SwitchToSegments);
    map.select_key(KeyAction::Down);
    assert_eq!(map.segments_widget().selected(), None);
    assert_eq!(map.stations_widget().selected(), Some(0));
}

#[test]
fn moves_on_the_map_go_to_the_list_in_front() {
    let mut map = MapWidget::new(graph(triangle()));
    assert_eq!(map.select_key(KeyAction::Down), Command::Stay);
    assert_eq!(map.select_key(KeyAction::Down), Command::Stay);
    assert_eq!(map.stations_widget().selected(), Some(2));
    assert_eq!(map.segments_widget().selected(), Some(0));
    assert_eq!(map.select_key(KeyAction::SwitchToSegments), Command::Stay);
    assert_eq!(map.widget_selection(), WidgetSelection::Segments);
    assert_eq!(map.stations_widget().selected(), Some(2));
    assert_eq!(map.select_key(KeyAction::Down), Command::Stay);
    assert_eq!(map.select_key(KeyAction::Down), Command::Stay);
    assert_eq!(map.segments_widget().selected(), Some(1));
    assert_eq!(map.stations_widget().selected(), Some(2));
    assert_eq!(map.select_key(KeyAction::SwitchToStations), Command::Stay);
    assert_eq!(map.widget_selection(), WidgetSelection::Stations);
    assert_eq!(map.select_key(KeyAction::Up), Command::Stay);
    assert_eq!(map.stations_widget().selected(), Some(1));
    assert_eq!(map.segments_widget().selected(), Some(1));
}

#[test]
fn the_map_hands_out_what_is_highlighted() {
    let mut map = MapWidget::new(graph(triangle()));
    assert_eq!(map.selected_station().map(|s| s.coord), Some((0, 0)));
    assert_eq!(map.selected_segment().map(|s| (s.from.coord, s.to.coord)), Some(((0, 0), (10, 4))));
    map.select_key(KeyAction::Down);
    assert_eq!(map.selected_station().map(|s| s.ds100.as_str()), Some("B"));
    map.select_key(KeyAction::SwitchToSegments);
    map.select_key(KeyAction::Down);
    assert_eq!(map.selected_segment().map(|s| s.routenumber), Some(6107));
    assert_eq!(map.selected_segment().map(|s| (s.from.coord, s.to.coord)), Some(((10, 4), (-3, 9))));
    assert_eq!(map.selected_station().map(|s| s.ds100.as_str()), Some("B"));
}

#[test]
fn to_go_back_asks_for_the_list_and_leaves_the_map_as_it_is() {
    let mut map = MapWidget::new(graph(triangle()));
    map.select_key(KeyAction::Down);
    assert_eq!(map.select_key(KeyAction::Back), Command::ReloadSelection);
    assert_eq!(map.stations_widget().selected(), Some(1));
    assert_eq!(map.widget_selection(), WidgetSelection::Stations);
}

#[test]
fn the_map_ignores_keys_that_mean_nothing_on_it() {
    let mut map = MapWidget::new(graph(triangle()));
    map.select_key(KeyAction::Down);
    for key in [KeyAction::Confirm, KeyAction::Quit, KeyAction::Other] {
        assert_eq!(map.select_key(key), Command::Stay);
        assert_eq!(map.stations_widget().selected(), Some(1));
        assert_eq!(map.segments_widget().selected(), Some(0));
        assert_eq!(map.widget_selection(), WidgetSelection::Stations);
    }
}

#[test]
fn a_map_is_made_from_a_document_or_its_error_comes_back() {
    match MapWidget::from_infrastruktur(triangle()) {
        Ok(map) => assert_eq!(map.segments_widget().names().len(), 2),
        Err(error) => panic!("{}", error.message()),
    }
    let broken = document(vec![station("A", "Alpha", 0, 0)], vec![segment("A", "Z", 5)]);
    match MapWidget::from_infrastruktur(broken) {
        Ok(_) => panic!("a map was made"),
        Err(error) => assert_eq!(error.message(), "Station 'Z' for Segment 'A-5-Z' not found"),
    }
}

#[test]
fn a_confirmed_entry_that_loads_opens_its_map() {
    let mut widget = TermWidget::InfrastrukturSelection(InfrastrukturSelectionWidget::new(three_entries()));
    assert_eq!(widget.select_key(KeyAction::Down), Command::Stay);
    assert_eq!(widget.select_key(KeyAction::Confirm), Command::LoadMap(12));
    assert_eq!(list_of(&widget).selected(), Some(1));
    assert!(widget.show_map(triangle()).is_ok());
    let map = map_of(&widget);
    assert_eq!(map.widget_selection(), WidgetSelection::Stations);
    assert_eq!(map.stations_widget().selected(), Some(0));
    assert_eq!(map.segments_widget().selected(), Some(0));
    assert_eq!(map.station_map().name(), "Fahrplan 2020");
}

#[test]
fn a_load_that_fails_leaves_the_list_on_screen() {
    let mut widget = TermWidget::InfrastrukturSelection(InfrastrukturSelectionWidget::new(three_entries()));
    widget.select_key(KeyAction::Down);
    widget.select_key(KeyAction::Down);
    let broken = document(vec![station("A", "Alpha", 0, 0)], vec![segment("Q", "A", 77)]);
    match widget.show_map(broken) {
        Ok(()) => panic!("the map was shown"),
        Err(error) => {
            assert_eq!(error.code, "Q");
            assert_eq!(error.segment, "Q-77-A");
        }
    }
    let list = list_of(&widget);
    assert_eq!(list.selected(), Some(2));
    assert_eq!(list.items().len(), 3);
}

#[test]
fn from_the_map_the_way_back_leads_to_a_fresh_list() {
    let mut widget = TermWidget::Karte(MapWidget::new(graph(triangle())));
    widget.select_key(KeyAction::SwitchToSegments);
    assert_eq!(map_of(&widget).widget_selection(), WidgetSelection::Segments);
    assert_eq!(widget.select_key(KeyAction::Back), Command::ReloadSelection);
    assert_eq!(map_of(&widget).widget_selection(), WidgetSelection::Segments);
    widget.show_selection(three_entries());
    let list = list_of(&widget);
    assert_eq!(list.selected(), Some(0));
    assert_eq!(list.items()[0], "11: Fahrplan 2019");
}

#[test]
fn to_quit_ends_the_program_from_either_view() {
    let mut list = TermWidget::InfrastrukturSelection(InfrastrukturSelectionWidget::new(three_entries()));
    list.select_key(KeyAction::Down);
    assert_eq!(list.select_key(KeyAction::Quit), Command::Quit);
    assert_eq!(list_of(&list).selected(), Some(1));
    let mut map = TermWidget::Karte(MapWidget::new(graph(triangle())));
    map.select_key(KeyAction::Down);
    assert_eq!(map.select_key(KeyAction::Quit), Command::Quit);
    assert_eq!(map_of(&map).stations_widget().selected(), Some(1));
}

#[test]
fn keys_reach_the_view_on_screen() {
    let mut widget = TermWidget::InfrastrukturSelection(InfrastrukturSelectionWidget::new(three_entries()));
    assert_eq!(widget.select_key(KeyAction::SwitchToSegments), Command::Stay);
    assert_eq!(widget.select_key(KeyAction::Back), Command::Stay);
    assert_eq!(list_of(&widget).selected(), Some(0));
    let mut widget = TermWidget::Karte(MapWidget::new(graph(triangle())));
    assert_eq!(widget.select_key(KeyAction::Confirm), Command::Stay);
    assert_eq!(widget.select_key(KeyAction::Down), Command::Stay);
    assert_eq!(map_of(&widget).stations_widget().selected(), Some(1));
}

#[test]
fn printable_keys_have_their_meaning() {
    assert_eq!(KeyAction::from_char('\n'), KeyAction::Confirm);
    assert_eq!(KeyAction::from_char('b'), KeyAction::SwitchToStations);
    assert_eq!(KeyAction::from_char('s'), KeyAction::SwitchToSegments);
    assert_eq!(KeyAction::from_char('q'), KeyAction::Quit);
    assert_eq!(KeyAction::from_char('B'), KeyAction::Other);
    assert_eq!(KeyAction::from_char('x'), KeyAction::Other);
    assert_eq!(KeyAction::from_char(' '), KeyAction::Other);
}

#[test]
fn an_event_carries_its_key() {
    let event = Event::Input(KeyAction::from_char('s'));
    match event {
        Event::Input(key) => assert_eq!(key, KeyAction::SwitchToSegments),
    }
}
