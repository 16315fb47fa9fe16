//! The two views and the moves between them.
//!
//! [`InfrastrukturSelectionWidget`] lists the infrastructures on offer, and
//! [`MapWidget`] shows one of them: its positions with their bounding box, a
//! list of its stations and a list of its segments. [`TermWidget`] is the one
//! that is on screen. A key press changes the view in place and says, as a
//! [`Command`], what has to be done outside: nothing, a load, or the end.

use crate::api::{
    positions, segment_views, station_views, Infrastruktur, InfrastrukturIndex,
    InfrastrukturIndexView, ReferenceError, Segment, SegmentView, Station, StationMap,
    StationMapView, StationView,
};
use crate::events::KeyAction;
use crate::extent::{calc_extent, Extent};
use crate::selection::{
    down, initial_selection, moved_down, moved_up, selectable, step_down, step_up, up,
};
use crate::text::{decimal, decimal_string, texts};
use vstd::prelude::*;
use vstd::string::*;

verus! {

/// What a key press asks of the caller.
#[derive(Debug, Clone, Copy, PartialEq, Eq)]
pub enum Command {
    /// Nothing: the key was handled within the view, or it means nothing there.
    Stay,
    /// Load the infrastructure with this identifier and show its map.
    LoadMap(u64),
    /// Load the list of infrastructures again and show it.
    ReloadSelection,
    /// End the program.
    Quit,
}

//
// ListSelectionWidget
//

/// A titled list of names, one of which is highlighted.
#[derive(Debug)]
pub struct ListSelectionWidget {
    title: String,
    names: Vec<String>,
    selected: Option<usize>,
}

/// What a [`ListSelectionWidget`] holds.
pub struct ListSelectionView {
    pub title: Seq<char>,
    pub names: Seq<Seq<char>>,
    pub selected: Option<usize>,
}

impl ListSelectionView {
    /// The list is one that memory can hold, and the selection is none on an
    /// empty list and a place in the list otherwise.
    pub open spec fn well_formed(self) -> bool {
        &&& self.names.len() <= usize::MAX
        &&& selectable(self.names.len(), self.selected)
    }

    /// The list as it is made: the first name is selected, if there is one.
    pub open spec fn fresh(title: Seq<char>, names: Seq<Seq<char>>) -> ListSelectionView {
        ListSelectionView { title, names, selected: initial_selection(names.len()) }
    }

    /// The list after a move up.
    pub open spec fn up(self) -> ListSelectionView {
        ListSelectionView { selected: moved_up(self.names.len(), self.selected), ..self }
    }

    /// The list after a move down.
    pub open spec fn down(self) -> ListSelectionView {
        ListSelectionView { selected: moved_down(self.names.len(), self.selected), ..self }
    }

    /// The list after a key press: only the two moves change it.
    pub open spec fn select_key(self, key: KeyAction) -> ListSelectionView {
        match key {
            KeyAction::Up => self.up(),
            KeyAction::Down => self.down(),
            _ => self,
        }
    }
}

impl View for ListSelectionWidget {
    type V = ListSelectionView;

    closed spec fn view(&self) -> ListSelectionView {
        ListSelectionView { title: self.title@, names: texts(self.names@), selected: self.selected }
    }
}

impl ListSelectionWidget {
    #[verifier::type_invariant]
    closed spec fn valid(&self) -> bool {
        self@.well_formed()
    }

    /// Makes the list. Its first name is selected, if there is one.
    pub fn new(title: String, names: Vec<String>) -> (widget: Self)
        ensures
            widget@ == ListSelectionView::fresh(title@, texts(names@)),
    {
        let selected = if names.is_empty() {
            None
        } else {
            Some(0usize)
        };
        assert(names@.len() == names.len());
        ListSelectionWidget { title, names, selected }
    }

    /// Moves the selection one place towards the start of the list.
    pub fn up(&mut self)
        ensures
            final(self)@ == old(self)@.up(),
        no_unwind
    {
        proof {
            use_type_invariant(&*self);
        }
        self.selected = step_up(self.names.len(), self.selected);
    }

    /// Moves the selection one place towards the end of the list.
    pub fn down(&mut self)
        ensures
            final(self)@ == old(self)@.down(),
        no_unwind
    {
        proof {
            use_type_invariant(&*self);
        }
        self.selected = step_down(self.names.len(), self.selected);
    }

    /// Handles a key press: the two moves change the selection, and no key
    /// asks anything of the caller.
    pub fn select_key(&mut self, key: KeyAction) -> (command: Command)
        ensures
            final(self)@ == old(self)@.select_key(key),
            command == Command::Stay,
        no_unwind
    {
        match key {
            KeyAction::Up => self.up(),
            KeyAction::Down => self.down(),
            _ => {},
        }
        Command::Stay
    }

    /// The title of the list.
    pub fn title(&self) -> (title: &String)
        ensures
            title@ == self@.title,
    {
        &self.title
    }

    /// The names, in order.
    pub fn names(&self) -> (names: &Vec<String>)
        ensures
            texts(names@) == self@.names,
    {
        &self.names
    }

    /// The place of the highlighted name.
    pub fn selected(&self) -> (selected: Option<usize>)
        ensures
            selected == self@.selected,
            self@.well_formed(),
    {
        proof {
            use_type_invariant(self);
        }
        self.selected
    }
}

//
// InfrastrukturSelectionWidget
//

impl InfrastrukturIndexView {
    /// The line that stands for the entry in the list: `id: name`.
    pub open spec fn label(self) -> Seq<char> {
        decimal(self.id as nat) + ": "@ + self.anzeigename
    }
}

/// The views of a run of entries, in order.
pub open spec fn index_views(values: Seq<InfrastrukturIndex>) -> Seq<InfrastrukturIndexView> {
    values.map_values(|v: InfrastrukturIndex| v@)
}

/// The lines of a run of entries, in order.
pub open spec fn index_labels(values: Seq<InfrastrukturIndexView>) -> Seq<Seq<char>> {
    values.map_values(|v: InfrastrukturIndexView| v.label())
}

/// The line that stands for `info` in the list.
fn index_label(info: &InfrastrukturIndex) -> (label: String)
    ensures
        label@ == info@.label(),
{
    let mut label = decimal_string(info.id);
    label.append(": ");
    label.append(info.anzeigename.as_str());
    label
}

/// The list of infrastructures on offer, one of which is highlighted.
#[derive(Debug)]
pub struct InfrastrukturSelectionWidget {
    values: Vec<InfrastrukturIndex>,
    items: Vec<String>,
    selected: Option<usize>,
}

/// What an [`InfrastrukturSelectionWidget`] holds.
pub struct InfrastrukturSelectionView {
    pub values: Seq<InfrastrukturIndexView>,
    pub items: Seq<Seq<char>>,
    pub selected: Option<usize>,
}

impl InfrastrukturSelectionView {
    /// The list is one that memory can hold, there is one line for each
    /// entry, and the selection is none on an empty list and a place in the
    /// list otherwise.
    pub open spec fn well_formed(self) -> bool {
        &&& self.values.len() <= usize::MAX
        &&& self.items == index_labels(self.values)
        &&& selectable(self.values.len(), self.selected)
    }

    /// The list as it is made: the first entry is selected, if there is one.
    pub open spec fn fresh(values: Seq<InfrastrukturIndexView>) -> InfrastrukturSelectionView {
        InfrastrukturSelectionView {
            values,
            items: index_labels(values),
            selected: initial_selection(values.len()),
        }
    }

    /// The list after a move up.
    pub open spec fn up(self) -> InfrastrukturSelectionView {
        InfrastrukturSelectionView {
            selected: moved_up(self.values.len(), self.selected),
            ..self
        }
    }

    /// The list after a move down.
    pub open spec fn down(self) -> InfrastrukturSelectionView {
        InfrastrukturSelectionView {
            selected: moved_down(self.values.len(), self.selected),
            ..self
        }
    }

    /// The highlighted entry.
    pub open spec fn selected_value(self) -> Option<InfrastrukturIndexView> {
        match self.selected {
            Some(i) => Some(self.values[i as int]),
            None => None,
        }
    }

    /// The list after a key press: only the two moves change it.
    pub open spec fn select_key(self, key: KeyAction) -> InfrastrukturSelectionView {
        match key {
            KeyAction::Up => self.up(),
            KeyAction::Down => self.down(),
            _ => self,
        }
    }

    /// What a key press asks of the caller: to confirm asks for the map of
    /// the highlighted entry, if there is one, and nothing else asks anything.
    pub open spec fn command(self, key: KeyAction) -> Command {
        match key {
            KeyAction::Confirm => match self.selected_value() {
                Some(info) => Command::LoadMap(info.id),
                None => Command::Stay,
            },
            _ => Command::Stay,
        }
    }
}

impl View for InfrastrukturSelectionWidget {
    type V = InfrastrukturSelectionView;

    closed spec fn view(&self) -> InfrastrukturSelectionView {
        InfrastrukturSelectionView {
            values: index_views(self.values@),
            items: texts(self.items@),
            selected: self.selected,
        }
    }
}

impl InfrastrukturSelectionWidget {
    #[verifier::type_invariant]
    closed spec fn valid(&self) -> bool {
        self@.well_formed()
    }

    /// Makes the list from the entries on offer. Its first entry is selected,
    /// if there is one.
    pub fn new(values: Vec<InfrastrukturIndex>) -> (widget: Self)
        ensures
            widget@ == InfrastrukturSelectionView::fresh(index_views(values@)),
    {
        let mut items: Vec<String> = Vec::with_capacity(values.len());
        let mut i: usize = 0;
        while i < values.len()
            invariant
                i <= values@.len(),
                items@.len() == i,
                forall|j: int| 0 <= j < i ==> (#[trigger] items@[j])@ == values@[j]@.label(),
            decreases values@.len() - i,
        {
            items.push(index_label(&values[i]));
            i += 1;
        }
        assert(texts(items@) =~= index_labels(index_views(values@)));
        let selected = if values.is_empty() {
            None
        } else {
            Some(0usize)
        };
        InfrastrukturSelectionWidget { values, items, selected }
    }

    /// Moves the selection one place towards the start of the list.
    pub fn up(&mut self)
        ensures
            final(self)@ == old(self)@.up(),
    {
        proof {
            use_type_invariant(&*self);
        }
        self.selected = up(self.values.as_slice(), self.selected);
    }

    /// Moves the selection one place towards the end of the list.
    pub fn down(&mut self)
        ensures
            final(self)@ == old(self)@.down(),
    {
        proof {
            use_type_invariant(&*self);
        }
        self.selected = down(self.values.as_slice(), self.selected);
    }

    /// The highlighted entry.
    pub fn selected_value(&self) -> (value: Option<&InfrastrukturIndex>)
        ensures
            match value {
                Some(info) => self@.selected_value() == Some(info@),
                None => self@.selected_value() is None,
            },
    {
        proof {
            use_type_invariant(self);
        }
        if let Some(index) = self.selected {
            Some(&self.values[index])
        } else {
            None
        }
    }

    /// Handles a key press. The two moves change the selection. To confirm
    /// changes nothing here and asks for the map of the highlighted entry.
    pub fn select_key(&mut self, key: KeyAction) -> (command: Command)
        ensures
            final(self)@ == old(self)@.select_key(key),
            command == old(self)@.command(key),
    {
        match key {
            KeyAction::Up => self.up(),
            KeyAction::Down => self.down(),
            KeyAction::Confirm => {
                if let Some(info) = self.selected_value() {
                    return Command::LoadMap(info.id);
                }
            },
            _ => {},
        }
        Command::Stay
    }

    /// The entries, in order.
    pub fn values(&self) -> (values: &Vec<InfrastrukturIndex>)
        ensures
            index_views(values@) == self@.values,
    {
        &self.values
    }

    /// The lines of the list, one for each entry and in the same order.
    pub fn items(&self) -> (items: &Vec<String>)
        ensures
            texts(items@) == self@.items,
            self@.well_formed(),
    {
        proof {
            use_type_invariant(self);
        }
        &self.items
    }

    /// The place of the highlighted entry.
    pub fn selected(&self) -> (selected: Option<usize>)
        ensures
            selected == self@.selected,
            self@.well_formed(),
    {
        proof {
            use_type_invariant(self);
        }
        self.selected
    }
}

//
// MapWidget
//

impl StationView {
    /// The line that stands for the station in its list: `code (name)`.
    pub open spec fn label(self) -> Seq<char> {
        self.ds100 + " ("@ + self.longname + ")"@
    }
}

impl SegmentView {
    /// The line that stands for the segment in its list:
    /// `route (from -> to)`, with the codes of its two stations.
    pub open spec fn label(self) -> Seq<char> {
        decimal(self.routenumber as nat) + " ("@ + self.from.ds100 + " -> "@ + self.to.ds100 + ")"@
    }
}

/// The lines of a run of stations, in order.
pub open spec fn station_labels(stations: Seq<StationView>) -> Seq<Seq<char>> {
    stations.map_values(|s: StationView| s.label())
}

/// The lines of a run of segments, in order.
pub open spec fn segment_labels(segments: Seq<SegmentView>) -> Seq<Seq<char>> {
    segments.map_values(|s: SegmentView| s.label())
}

/// The line that stands for `station` in the list of stations.
fn station_label(station: &Station) -> (label: String)
    ensures
        label@ == station@.label(),
{
    let mut label = station.ds100.clone();
    label.append(" (");
    label.append(station.longname.as_str());
    label.append(")");
    label
}

/// The line that stands for `segment` in the list of segments.
fn segment_label(segment: &Segment) -> (label: String)
    ensures
        label@ == segment@.label(),
{
    let mut label = decimal_string(segment.routenumber as u64);
    label.append(" (");
    label.append(segment.from.ds100.as_str());
    label.append(" -> ");
    label.append(segment.to.ds100.as_str());
    label.append(")");
    label
}

/// The list of a map that receives the moves.
#[derive(Debug, Clone, Copy, PartialEq, Eq)]
pub enum WidgetSelection {
    Stations,
    Segments,
}

/// The map of one infrastructure: the positions of its stations with their
/// bounding box, the list of its stations and the list of its segments.
#[derive(Debug)]
pub struct MapWidget {
    station_map: StationMap,
    coordinates: Vec<(i64, i64)>,
    extent: Extent,
    stations_widget: ListSelectionWidget,
    segments_widget: ListSelectionWidget,
    widget_selection: WidgetSelection,
}

/// What a [`MapWidget`] holds.
pub struct MapWidgetView {
    pub station_map: StationMapView,
    pub coordinates: Seq<(i64, i64)>,
    pub extent: Extent,
    pub stations_widget: ListSelectionView,
    pub segments_widget: ListSelectionView,
    pub widget_selection: WidgetSelection,
}

impl MapWidgetView {
    /// Everything on the map is that of its graph: the positions are those of
    /// the stations, the box bounds them, and the two lists hold one line for
    /// each station and each segment, under their titles and with a selection
    /// that they can have.
    pub open spec fn well_formed(self) -> bool {
        &&& self.station_map.well_formed()
        &&& self.coordinates == positions(self.station_map.stations)
        &&& self.extent.bounds(self.coordinates)
        &&& self.stations_widget.title == "Betriebsstellen"@
        &&& self.stations_widget.names == station_labels(self.station_map.stations)
        &&& self.stations_widget.well_formed()
        &&& self.segments_widget.title == "Streckensegmente"@
        &&& self.segments_widget.names == segment_labels(self.station_map.segments)
        &&& self.segments_widget.well_formed()
    }

    /// The map is as [`MapWidget::new`] makes it for `station_map`: the list
    /// of stations receives the moves, and in each list the first line is
    /// selected, if there is one.
    pub open spec fn opens(self, station_map: StationMapView) -> bool {
        &&& self.well_formed()
        &&& self.station_map == station_map
        &&& self.stations_widget.selected == initial_selection(station_map.stations.len())
        &&& self.segments_widget.selected == initial_selection(station_map.segments.len())
        &&& self.widget_selection == WidgetSelection::Stations
    }

    /// The map after a key press. The two switch keys pick the list that
    /// receives the moves, a move goes to that list, and no other key
    /// changes the map.
    pub open spec fn select_key(self, key: KeyAction) -> MapWidgetView {
        match key {
            KeyAction::SwitchToStations => MapWidgetView {
                widget_selection: WidgetSelection::Stations,
                ..self
            },
            KeyAction::SwitchToSegments => MapWidgetView {
                widget_selection: WidgetSelection::Segments,
                ..self
            },
            KeyAction::Up | KeyAction::Down => match self.widget_selection {
                WidgetSelection::Stations => MapWidgetView {
                    stations_widget: self.stations_widget.select_key(key),
                    ..self
                },
                WidgetSelection::Segments => MapWidgetView {
                    segments_widget: self.segments_widget.select_key(key),
                    ..self
                },
            },
            _ => self,
        }
    }

    /// What a key press asks of the caller: to go back asks for the list of
    /// infrastructures, and nothing else asks anything.
    pub open spec fn command(self, key: KeyAction) -> Command {
        match key {
            KeyAction::Back => Command::ReloadSelection,
            _ => Command::Stay,
        }
    }

    /// The station whose line is highlighted.
    pub open spec fn selected_station(self) -> Option<StationView> {
        match self.stations_widget.selected {
            Some(i) => if i < self.station_map.stations.len() {
                Some(self.station_map.stations[i as int])
            } else {
                None
            },
            None => None,
        }
    }

    /// The segment whose line is highlighted.
    pub open spec fn selected_segment(self) -> Option<SegmentView> {
        match self.segments_widget.selected {
            Some(i) => if i < self.station_map.segments.len() {
                Some(self.station_map.segments[i as int])
            } else {
                None
            },
            None => None,
        }
    }
}

impl View for MapWidget {
    type V = MapWidgetView;

    closed spec fn view(&self) -> MapWidgetView {
        MapWidgetView {
            station_map: self.station_map@,
            coordinates: self.coordinates@,
            extent: self.extent,
            stations_widget: self.stations_widget@,
            segments_widget: self.segments_widget@,
            widget_selection: self.widget_selection,
        }
    }
}

impl MapWidget {
    #[verifier::type_invariant]
    closed spec fn valid(&self) -> bool {
        self@.well_formed()
    }

    /// Makes the map of a graph, which must have a station: without one there
    /// is no bounding box. The list of stations receives the moves, and in
    /// each list the first line is selected, if there is one.
    pub fn new(station_map: StationMap) -> (widget: Self)
        requires
            station_map@.stations.len() > 0,
        ensures
            widget@.opens(station_map@),
    {
        let stations = station_map.stations();
        let mut station_names: Vec<String> = Vec::with_capacity(stations.len());
        let mut i: usize = 0;
        while i < stations.len()
            invariant
                i <= stations@.len(),
                station_names@.len() == i,
                forall|j: int|
                    0 <= j < i ==> (#[trigger] station_names@[j])@ == stations@[j]@.label(),
            decreases stations@.len() - i,
        {
            station_names.push(station_label(&stations[i]));
            i += 1;
        }
        assert(texts(station_names@) =~= station_labels(station_views(stations@)));
        let stations_widget = ListSelectionWidget::new(
            String::from_str("Betriebsstellen"),
            station_names,
        );

        let segments = station_map.segments();
        let mut segment_names: Vec<String> = Vec::with_capacity(segments.len());
        let mut k: usize = 0;
        while k < segments.len()
            invariant
                k <= segments@.len(),
                segment_names@.len() == k,
                forall|j: int|
                    0 <= j < k ==> (#[trigger] segment_names@[j])@ == segments@[j]@.label(),
            decreases segments@.len() - k,
        {
            segment_names.push(segment_label(&segments[k]));
            k += 1;
        }
        assert(texts(segment_names@) =~= segment_labels(segment_views(segments@)));
        let segments_widget = ListSelectionWidget::new(
            String::from_str("Streckensegmente"),
            segment_names,
        );

        let coordinates = station_map.coordinates();
        let extent = calc_extent(coordinates.as_slice());

        MapWidget {
            station_map,
            coordinates,
            extent,
            stations_widget,
            segments_widget,
            widget_selection: WidgetSelection::Stations,
        }
    }

    /// Makes the map of a document, which must have a station record: builds
    /// its graph and opens the map on it, or hands back the error of the build.
    pub fn from_infrastruktur(document: Infrastruktur) -> (made: Result<Self, ReferenceError>)
        requires
            document@.ordnungsrahmen.betriebsstellen.len() > 0,
        ensures
            match document@.station_map() {
                Ok(station_map) => made matches Ok(widget) && widget@.opens(station_map),
                Err(error) => made matches Err(e) && e@ == error,
            },
    {
        match document.try_into() {
            Ok(station_map) => Ok(MapWidget::new(station_map)),
            Err(error) => Err(error),
        }
    }

    /// Handles a key press. The two switch keys pick the list that receives
    /// the moves, and a move goes to that list. To go back changes nothing
    /// here and asks for the list of infrastructures.
    pub fn select_key(&mut self, key: KeyAction) -> (command: Command)
        ensures
            final(self)@ == old(self)@.select_key(key),
            command == old(self)@.command(key),
    {
        proof {
            use_type_invariant(&*self);
        }
        match key {
            KeyAction::SwitchToStations => {
                self.widget_selection = WidgetSelection::Stations;
            },
            KeyAction::SwitchToSegments => {
                self.widget_selection = WidgetSelection::Segments;
            },
            KeyAction::Back => {
                return Command::ReloadSelection;
            },
            _ => {},
        }
        match self.widget_selection {
            WidgetSelection::Stations => self.stations_widget.select_key(key),
            WidgetSelection::Segments => self.segments_widget.select_key(key),
        }
    }

    /// The graph on the map.
    pub fn station_map(&self) -> (station_map: &StationMap)
        ensures
            station_map@ == self@.station_map,
            self@.well_formed(),
    {
        proof {
            use_type_invariant(self);
        }
        &self.station_map
    }

    /// The positions of the stations, in the order of the stations.
    pub fn coordinates(&self) -> (coordinates: &Vec<(i64, i64)>)
        ensures
            coordinates@ == self@.coordinates,
            self@.well_formed(),
    {
        proof {
            use_type_invariant(self);
        }
        &self.coordinates
    }

    /// The bounding box of the positions.
    pub fn extent(&self) -> (extent: Extent)
        ensures
            extent == self@.extent,
            self@.well_formed(),
    {
        proof {
            use_type_invariant(self);
        }
        self.extent
    }

    /// The list of stations.
    pub fn stations_widget(&self) -> (list: &ListSelectionWidget)
        ensures
            list@ == self@.stations_widget,
            self@.well_formed(),
    {
        proof {
            use_type_invariant(self);
        }
        &self.stations_widget
    }

    /// The list of segments.
    pub fn segments_widget(&self) -> (list: &ListSelectionWidget)
        ensures
            list@ == self@.segments_widget,
            self@.well_formed(),
    {
        proof {
            use_type_invariant(self);
        }
        &self.segments_widget
    }

    /// The list that receives the moves.
    pub fn widget_selection(&self) -> (active: WidgetSelection)
        ensures
            active == self@.widget_selection,
    {
        self.widget_selection
    }

    /// The station whose line is highlighted.
    pub fn selected_station(&self) -> (station: Option<&Station>)
        ensures
            match station {
                Some(s) => self@.selected_station() == Some(s@),
                None => self@.selected_station() is None,
            },
            self@.station_map.stations.len() > 0 ==> station is Some,
    {
        proof {
            use_type_invariant(self);
        }
        let stations = self.station_map.stations();
        match self.stations_widget.selected() {
            Some(index) => if index < stations.len() {
                Some(&stations[index])
            } else {
                None
            },
            None => None,
        }
    }

    /// The segment whose line is highlighted.
    pub fn selected_segment(&self) -> (segment: Option<&Segment>)
        ensures
            match segment {
                Some(s) => self@.selected_segment() == Some(s@),
                None => self@.selected_segment() is None,
            },
            self@.station_map.segments.len() > 0 ==> segment is Some,
    {
        proof {
            use_type_invariant(self);
        }
        let segments = self.station_map.segments();
        match self.segments_widget.selected() {
            Some(index) => if index < segments.len() {
                Some(&segments[index])
            } else {
                None
            },
            None => None,
        }
    }
}

//
// TermWidget
//

/// The view that is on screen.
#[derive(Debug)]
pub enum TermWidget {
    /// The list of infrastructures on offer.
    InfrastrukturSelection(InfrastrukturSelectionWidget),
    /// The map of one infrastructure.
    Karte(MapWidget),
}

/// What a [`TermWidget`] holds.
pub enum TermWidgetView {
    InfrastrukturSelection(InfrastrukturSelectionView),
    Karte(MapWidgetView),
}

impl TermWidgetView {
    /// The view on screen is well formed.
    pub open spec fn well_formed(self) -> bool {
        match self {
            TermWidgetView::InfrastrukturSelection(list) => list.well_formed(),
            TermWidgetView::Karte(map) => map.well_formed(),
        }
    }

    /// The view after a key press: the key goes to the view on screen,
    /// except the one that quits, which changes nothing.
    pub open spec fn select_key(self, key: KeyAction) -> TermWidgetView {
        match key {
            KeyAction::Quit => self,
            _ => match self {
                TermWidgetView::InfrastrukturSelection(list) => TermWidgetView::InfrastrukturSelection(
                    list.select_key(key),
                ),
                TermWidgetView::Karte(map) => TermWidgetView::Karte(map.select_key(key)),
            },
        }
    }

    /// What a key press asks of the caller: to quit ends the program in
    /// either view, and every other key asks what the view on screen asks.
    pub open spec fn command(self, key: KeyAction) -> Command {
        match key {
            KeyAction::Quit => Command::Quit,
            _ => match self {
                TermWidgetView::InfrastrukturSelection(list) => list.command(key),
                TermWidgetView::Karte(map) => map.command(key),
            },
        }
    }
}

impl View for TermWidget {
    type V = TermWidgetView;

    open spec fn view(&self) -> TermWidgetView {
        match self {
            TermWidget::InfrastrukturSelection(list) => TermWidgetView::InfrastrukturSelection(
                list@,
            ),
            TermWidget::Karte(map) => TermWidgetView::Karte(map@),
        }
    }
}

impl TermWidget {
    /// Handles a key press in the view on screen and says what it asks of
    /// the caller. No key changes which view is on screen: that follows once
    /// the caller has loaded what was asked for, through
    /// [`TermWidget::show_map`] or [`TermWidget::show_selection`].
    pub fn select_key(&mut self, key: KeyAction) -> (command: Command)
        ensures
            final(self)@ == old(self)@.select_key(key),
            command == old(self)@.command(key),
    {
        match key {
            KeyAction::Quit => {
                return Command::Quit;
            },
            _ => {},
        }
        match self {
            TermWidget::InfrastrukturSelection(widget) => widget.select_key(key),
            TermWidget::Karte(widget) => widget.select_key(key),
        }
    }

    /// Ends a load that [`Command::LoadMap`] asked for with the document that
    /// came, which must have a station record. Where the document has a graph,
    /// the map of that graph is put on screen. Where it has none, the view on
    /// screen stays as it is and the error is handed back.
    pub fn show_map(&mut self, document: Infrastruktur) -> (shown: Result<(), ReferenceError>)
        requires
            document@.ordnungsrahmen.betriebsstellen.len() > 0,
        ensures
            match document@.station_map() {
                Ok(station_map) => {
                    &&& shown is Ok
                    &&& final(self)@ matches TermWidgetView::Karte(map)
                    &&& map.opens(station_map)
                },
                Err(error) => {
                    &&& shown matches Err(e)
                    &&& e@ == error
                    &&& *final(self) == *old(self)
                },
            },
    {
        match MapWidget::from_infrastruktur(document) {
            Ok(widget) => {
                *self = TermWidget::Karte(widget);
                Ok(())
            },
            Err(error) => Err(error),
        }
    }

    /// Ends a load that [`Command::ReloadSelection`] asked for with the
    /// entries that came: the list of them is put on screen, its first entry
    /// selected, if there is one.
    pub fn show_selection(&mut self, values: Vec<InfrastrukturIndex>)
        ensures
            final(self)@ == TermWidgetView::InfrastrukturSelection(
                InfrastrukturSelectionView::fresh(index_views(values@)),
            ),
    {
        *self = TermWidget::InfrastrukturSelection(InfrastrukturSelectionWidget::new(values));
    }
}

/// No key leads out of the well-formed views: whatever is pressed, the lists
/// keep their lines, every selection stays one that its list can have, and
/// the map keeps its graph, its positions and its box.
pub proof fn lemma_keys_keep_views_well_formed(view: TermWidgetView, key: KeyAction)
    requires
        view.well_formed(),
    ensures
        view.select_key(key).well_formed(),
{
}

/// A key changes the view only where it is a move or, on the map, one of the
/// two switch keys. To confirm, to go back and to quit leave the view as it
/// is: what they ask for happens once the caller has carried it out.
pub proof fn lemma_only_moves_and_switches_change_views(view: TermWidgetView, key: KeyAction)
    ensures
        key != KeyAction::Up && key != KeyAction::Down && key != KeyAction::SwitchToStations && key
            != KeyAction::SwitchToSegments ==> view.select_key(key) == view,
        view.command(key) != Command::Stay ==> view.select_key(key) == view,
{
}

} // verus!
