use trassenfinder_explorer::api::{
    Betriebsstelle, Infrastruktur, Ordnungsrahmen, ReferenceError, StationMap, Streckensegment,
};

fn station(code: &str, name: &str, x: i64, y: i64) -> Betriebsstelle {
    Betriebsstelle { x, y, ds100: code.to_string(), langname: name.to_string() }
}

fn segment(von: &str, bis: &str, streckennummer: u32) -> Streckensegment {
    Streckensegment { von: von.to_string(), bis: bis.to_string(), streckennummer }
}

fn document(
    betriebsstellen: Vec<Betriebsstelle>,
    streckensegmente: Vec<Streckensegment>,
) -> Infrastruktur {
    Infrastruktur {
        id: 17,
        anzeigename: "Fahrplan 2020".to_string(),
        ordnungsrahmen: Ordnungsrahmen { betriebsstellen, streckensegmente },
    }
}

fn alpha_beta() -> Vec<Betriebsstelle> {
    vec![station("A", "Alpha", 0, 0), station("B", "Beta", 1, 1)]
}

fn built(document: Infrastruktur) -> StationMap {
    match document.try_into() {
        Ok(map) => map,
        Err(error) => panic!("the document has no graph: {}", error.message()),
    }
}

fn failed(document: Infrastruktur) -> ReferenceError {
    match document.try_into() {
        Ok(_) => panic!("the document has a graph"),
        Err(error) => error,
    }
}

#[test]
fn two_stations_and_a_segment_between_them() {
    let map = built(document(alpha_beta(), vec![segment("A", "B", 42)]));
    assert_eq!(map.stations().len(), 2);
    assert_eq!(map.segments().len(), 1);
    let only = &map.segments()[0];
    assert_eq!(only.from.coord, (0, 0));
    assert_eq!(only.to.coord, (1, 1));
    assert_eq!(only.from.ds100, "A");
    assert_eq!(only.from.longname, "Alpha");
    assert_eq!(only.to.ds100, "B");
    assert_eq!(only.to.longname, "Beta");
    assert_eq!(only.routenumber, 42);
}

#[test]
fn a_segment_to_a_missing_station_names_the_code() {
    let error = failed(document(alpha_beta(), vec![segment("A", "C", 1)]));
    assert_eq!(error.code, "C");
    assert_eq!(error.segment, "A-1-C");
    assert_eq!(error.message(), "Station 'C' for Segment 'A-1-C' not found");
}

#[test]
fn a_segment_from_a_missing_station_names_the_code() {
    let error = failed(document(alpha_beta(), vec![segment("X", "B", 9)]));
    assert_eq!(error.code, "X");
    assert_eq!(error.segment, "X-9-B");
}

#[test]
fn where_both_ends_are_missing_the_first_is_named() {
    let error = failed(document(alpha_beta(), vec![segment("X", "Y", 3)]));
    assert_eq!(error.code, "X");
    assert_eq!(error.segment, "X-3-Y");
}

#[test]
fn the_first_dangling_segment_decides_the_error() {
    let error = failed(document(
        alpha_beta(),
        vec![segment("A", "B", 1), segment("B", "M", 2), segment("N", "A", 3)],
    ));
    assert_eq!(error.code, "M");
    assert_eq!(error.segment, "B-2-M");
}

#[test]
fn the_graph_keeps_identifier_name_and_document_order() {
    let map = built(document(
        vec![station("C", "Gamma", 5, -5), station("A", "Alpha", 0, 0), station("B", "Beta", 1, 1)],
        vec![segment("B", "C", 7), segment("A", "B", 7), segment("C", "C", 8)],
    ));
    assert_eq!(map.id(), 17);
    assert_eq!(map.name(), "Fahrplan 2020");
    let codes: Vec<&str> = map.stations().iter().map(|s| s.ds100.as_str()).collect();
    assert_eq!(codes, vec!["C", "A", "B"]);
    let ends: Vec<(&str, u32, &str)> = map
        .segments()
        .iter()
        .map(|s| (s.from.ds100.as_str(), s.routenumber, s.to.ds100.as_str()))
        .collect();
    assert_eq!(ends, vec![("B", 7, "C"), ("A", 7, "B"), ("C", 8, "C")]);
    assert_eq!(map.segments()[2].from.coord, (5, -5));
    assert_eq!(map.segments()[2].to.coord, (5, -5));
}

#[test]
fn every_segment_of_a_connected_document_is_resolved_by_code() {
    let stations: Vec<Betriebsstelle> =
        (0..20).map(|i| station(&format!("S{}", i), &format!("Station {}", i), i, 100 - i)).collect();
    let segments: Vec<Streckensegment> =
        (0..19).map(|i| segment(&format!("S{}", i), &format!("S{}", i + 1), 1000 + i)).collect();
    let map = built(document(stations, segments));
    assert_eq!(map.stations().len(), 20);
    assert_eq!(map.segments().len(), 19);
    for (i, segment) in map.segments().iter().enumerate() {
        let i = i as i64;
        assert_eq!(segment.from.ds100, format!("S{}", i));
        assert_eq!(segment.from.coord, (i, 100 - i));
        assert_eq!(segment.to.ds100, format!("S{}", i + 1));
        assert_eq!(segment.to.coord, (i + 1, 99 - i));
        assert_eq!(segment.routenumber, 1000 + i as u32);
    }
}

#[test]
fn of_two_stations_with_one_code_the_later_is_meant() {
    let map = built(document(
        vec![station("A", "Old", 1, 2), station("B", "Beta", 0, 0), station("A", "New", 3, 4)],
        vec![segment("A", "B", 5)],
    ));
    assert_eq!(map.stations().len(), 3);
    assert_eq!(map.segments()[0].from.longname, "New");
    assert_eq!(map.segments()[0].from.coord, (3, 4));
}

#[test]
fn codes_are_compared_with_their_case() {
    let error = failed(document(alpha_beta(), vec![segment("a", "B", 2)]));
    assert_eq!(error.code, "a");
}

#[test]
fn a_document_without_segments_has_a_graph_without_segments() {
    let map = built(document(alpha_beta(), vec![]));
    assert_eq!(map.stations().len(), 2);
    assert!(map.segments().is_empty());
}

#[test]
fn a_document_without_stations_fails_on_its_first_segment() {
    let error = failed(document(vec![], vec![segment("A", "B", 1)]));
    assert_eq!(error.code, "A");
    let map = built(document(vec![], vec![]));
    assert!(map.stations().is_empty());
    assert!(map.coordinates().is_empty());
}

#[test]
fn coordinates_follow_the_stations() {
    let map = built(document(
        vec![station("A", "Alpha", -3, 8), station("B", "Beta", 4, -9), station("C", "Gamma", 0, 0)],
        vec![],
    ));
    assert_eq!(map.coordinates(), vec![(-3, 8), (4, -9), (0, 0)]);
}

#[test]
fn a_copy_of_a_station_holds_what_the_station_holds() {
    let map = built(document(alpha_beta(), vec![]));
    let copy = map.stations()[1].clone();
    assert_eq!(copy.ds100, "B");
    assert_eq!(copy.longname, "Beta");
    assert_eq!(copy.coord, (1, 1));
}

#[test]
fn segment_labels_join_codes_and_route_number() {
    assert_eq!(segment("A", "B", 42).to_string(), "A-42-B");
    assert_eq!(segment("", "", 0).to_string(), "-0-");
    assert_eq!(segment("BL", "BLS", 6107).to_string(), "BL-6107-BLS");
    assert_eq!(segment("X", "Y", u32::MAX).to_string(), "X-4294967295-Y");
}
