//! The infrastructure document as the service delivers it, and the station
//! graph that is built from it.
//!
//! Positions are pairs of signed integers. For a source that measures in
//! floating point, [`crate::coordinate`] gives the integers that stand for its
//! measurements and keep their order.

use crate::text::{decimal, decimal_string};
use vstd::hash_map::StringHashMap;
use vstd::prelude::*;
use vstd::string::*;

verus! {

//
// The station graph
//

/// A station of the graph.
#[derive(Debug)]
pub struct Station {
    /// Short code, by which segments refer to the station.
    pub ds100: String,
    /// Display name.
    pub longname: String,
    /// Position as `(x, y)`.
    pub coord: (i64, i64),
}

/// What a [`Station`] holds.
pub struct StationView {
    pub ds100: Seq<char>,
    pub longname: Seq<char>,
    pub coord: (i64, i64),
}

impl View for Station {
    type V = StationView;

    open spec fn view(&self) -> StationView {
        StationView { ds100: self.ds100@, longname: self.longname@, coord: self.coord }
    }
}

impl Clone for Station {
    fn clone(&self) -> (copy: Self)
        ensures
            copy == *self,
    {
        Station { ds100: self.ds100.clone(), longname: self.longname.clone(), coord: self.coord }
    }
}

/// A track segment between two stations. It owns copies of both.
#[derive(Debug)]
pub struct Segment {
    pub from: Station,
    pub to: Station,
    pub routenumber: u32,
}

/// What a [`Segment`] holds.
pub struct SegmentView {
    pub from: StationView,
    pub to: StationView,
    pub routenumber: u32,
}

impl View for Segment {
    type V = SegmentView;

    open spec fn view(&self) -> SegmentView {
        SegmentView { from: self.from@, to: self.to@, routenumber: self.routenumber }
    }
}

/// The views of a run of stations, in order.
pub open spec fn station_views(stations: Seq<Station>) -> Seq<StationView> {
    stations.map_values(|s: Station| s@)
}

/// The views of a run of segments, in order.
pub open spec fn segment_views(segments: Seq<Segment>) -> Seq<SegmentView> {
    segments.map_values(|s: Segment| s@)
}

/// The positions of a run of stations, in order.
pub open spec fn positions(stations: Seq<StationView>) -> Seq<(i64, i64)> {
    stations.map_values(|s: StationView| s.coord)
}

/// The station that `code` resolves to among `stations`: the last one, in
/// document order, that bears the code. Codes are compared character by
/// character.
pub open spec fn find_station(stations: Seq<StationView>, code: Seq<char>) -> Option<StationView>
    decreases stations.len(),
{
    if stations.len() == 0 {
        None
    } else if stations.last().ds100 == code {
        Some(stations.last())
    } else {
        find_station(stations.drop_last(), code)
    }
}

/// Some station among `stations` bears `code`.
pub open spec fn has_station(stations: Seq<StationView>, code: Seq<char>) -> bool {
    exists|i: int| 0 <= i < stations.len() && (#[trigger] stations[i]).ds100 == code
}

/// What a [`StationMap`] holds.
pub struct StationMapView {
    pub id: u64,
    pub name: Seq<char>,
    pub stations: Seq<StationView>,
    pub segments: Seq<SegmentView>,
}

impl StationMapView {
    /// Both ends of segment `i` are the stations that their codes resolve to.
    pub open spec fn resolved(self, i: int) -> bool {
        &&& find_station(self.stations, self.segments[i].from.ds100) == Some(self.segments[i].from)
        &&& find_station(self.stations, self.segments[i].to.ds100) == Some(self.segments[i].to)
    }

    /// Referential integrity: no segment has a dangling end.
    pub open spec fn well_formed(self) -> bool {
        forall|i: int| 0 <= i < self.segments.len() ==> #[trigger] self.resolved(i)
    }
}

/// The validated graph of one infrastructure: its stations in document
/// order and its segments, each with copies of the two stations that its
/// codes resolved to. A value exists only as the result of
/// [`Infrastruktur::try_into`], so no segment ever has a dangling end.
#[derive(Debug)]
pub struct StationMap {
    id: u64,
    name: String,
    stations: Vec<Station>,
    segments: Vec<Segment>,
}

impl View for StationMap {
    type V = StationMapView;

    closed spec fn view(&self) -> StationMapView {
        StationMapView {
            id: self.id,
            name: self.name@,
            stations: station_views(self.stations@),
            segments: segment_views(self.segments@),
        }
    }
}

impl StationMap {
    #[verifier::type_invariant]
    closed spec fn intact(&self) -> bool {
        self@.well_formed()
    }

    /// The identifier of the dataset.
    pub fn id(&self) -> (id: u64)
        ensures
            id == self@.id,
    {
        self.id
    }

    /// The display name of the dataset.
    pub fn name(&self) -> (name: &String)
        ensures
            name@ == self@.name,
    {
        &self.name
    }

    /// The stations, in document order.
    pub fn stations(&self) -> (stations: &Vec<Station>)
        ensures
            station_views(stations@) == self@.stations,
            self@.well_formed(),
    {
        proof {
            use_type_invariant(self);
        }
        &self.stations
    }

    /// The segments, in document order.
    pub fn segments(&self) -> (segments: &Vec<Segment>)
        ensures
            segment_views(segments@) == self@.segments,
            self@.well_formed(),
    {
        proof {
            use_type_invariant(self);
        }
        &self.segments
    }

    /// The positions of the stations, in document order.
    pub fn coordinates(&self) -> (coordinates: Vec<(i64, i64)>)
        ensures
            coordinates@ == positions(self@.stations),
    {
        let mut coordinates: Vec<(i64, i64)> = Vec::with_capacity(self.stations.len());
        let mut i: usize = 0;
        while i < self.stations.len()
            invariant
                i <= self.stations@.len(),
                coordinates@ == positions(station_views(self.stations@).take(i as int)),
            decreases self.stations@.len() - i,
        {
            coordinates.push(self.stations[i].coord);
            i += 1;
        }
        coordinates
    }
}

//
// The documents of the service
//

/// One entry of the list of infrastructures that the service offers.
#[derive(Debug)]
pub struct InfrastrukturIndex {
    pub id: u64,
    pub anzeigename: String,
    pub fahrplanjahr: u32,
    pub gueltig_von: String,
    pub gueltig_bis: String,
}

/// What an [`InfrastrukturIndex`] holds.
pub struct InfrastrukturIndexView {
    pub id: u64,
    pub anzeigename: Seq<char>,
    pub fahrplanjahr: u32,
    pub gueltig_von: Seq<char>,
    pub gueltig_bis: Seq<char>,
}

impl View for InfrastrukturIndex {
    type V = InfrastrukturIndexView;

    open spec fn view(&self) -> InfrastrukturIndexView {
        InfrastrukturIndexView {
            id: self.id,
            anzeigename: self.anzeigename@,
            fahrplanjahr: self.fahrplanjahr,
            gueltig_von: self.gueltig_von@,
            gueltig_bis: self.gueltig_bis@,
        }
    }
}

/// A station record of the document.
#[derive(Debug)]
pub struct Betriebsstelle {
    pub x: i64,
    pub y: i64,
    pub ds100: String,
    pub langname: String,
}

/// What a [`Betriebsstelle`] holds.
pub struct BetriebsstelleView {
    pub x: i64,
    pub y: i64,
    pub ds100: Seq<char>,
    pub langname: Seq<char>,
}

impl View for Betriebsstelle {
    type V = BetriebsstelleView;

    open spec fn view(&self) -> BetriebsstelleView {
        BetriebsstelleView { x: self.x, y: self.y, ds100: self.ds100@, langname: self.langname@ }
    }
}

impl BetriebsstelleView {
    /// The station that the record describes.
    pub open spec fn station(self) -> StationView {
        StationView { ds100: self.ds100, longname: self.langname, coord: (self.x, self.y) }
    }
}

/// A segment record of the document: two station codes and a route number.
#[derive(Debug)]
pub struct Streckensegment {
    pub von: String,
    pub bis: String,
    pub streckennummer: u32,
}

/// What a [`Streckensegment`] holds.
pub struct StreckensegmentView {
    pub von: Seq<char>,
    pub bis: Seq<char>,
    pub streckennummer: u32,
}

impl View for Streckensegment {
    type V = StreckensegmentView;

    open spec fn view(&self) -> StreckensegmentView {
        StreckensegmentView { von: self.von@, bis: self.bis@, streckennummer: self.streckennummer }
    }
}

impl StreckensegmentView {
    /// The label `von-streckennummer-bis` that names the record in diagnostics.
    pub open spec fn label(self) -> Seq<char> {
        self.von + "-"@ + decimal(self.streckennummer as nat) + "-"@ + self.bis
    }
}

impl Streckensegment {
    /// The label `von-streckennummer-bis`, with the route number in decimal.
    pub fn to_string(&self) -> (label: String)
        ensures
            label@ == self@.label(),
    {
        let mut label = self.von.clone();
        label.append("-");
        let number = decimal_string(self.streckennummer as u64);
        label.append(number.as_str());
        label.append("-");
        label.append(self.bis.as_str());
        label
    }
}

/// The stations and segments of one infrastructure, as records.
#[derive(Debug)]
pub struct Ordnungsrahmen {
    pub betriebsstellen: Vec<Betriebsstelle>,
    pub streckensegmente: Vec<Streckensegment>,
}

/// What an [`Ordnungsrahmen`] holds.
pub struct OrdnungsrahmenView {
    pub betriebsstellen: Seq<BetriebsstelleView>,
    pub streckensegmente: Seq<StreckensegmentView>,
}

impl View for Ordnungsrahmen {
    type V = OrdnungsrahmenView;

    open spec fn view(&self) -> OrdnungsrahmenView {
        OrdnungsrahmenView {
            betriebsstellen: self.betriebsstellen@.map_values(|b: Betriebsstelle| b@),
            streckensegmente: self.streckensegmente@.map_values(|s: Streckensegment| s@),
        }
    }
}

/// The document of one infrastructure.
#[derive(Debug)]
pub struct Infrastruktur {
    pub id: u64,
    pub anzeigename: String,
    pub ordnungsrahmen: Ordnungsrahmen,
}

/// What an [`Infrastruktur`] holds.
pub struct InfrastrukturView {
    pub id: u64,
    pub anzeigename: Seq<char>,
    pub ordnungsrahmen: OrdnungsrahmenView,
}

impl View for Infrastruktur {
    type V = InfrastrukturView;

    open spec fn view(&self) -> InfrastrukturView {
        InfrastrukturView {
            id: self.id,
            anzeigename: self.anzeigename@,
            ordnungsrahmen: self.ordnungsrahmen@,
        }
    }
}

//
// From a document to its graph
//

/// A segment names a station code that no station of the document bears.
#[derive(Debug)]
pub struct ReferenceError {
    /// The code that was not found.
    pub code: String,
    /// The label of the segment that names it.
    pub segment: String,
}

/// What a [`ReferenceError`] holds.
pub struct ReferenceErrorView {
    pub code: Seq<char>,
    pub segment: Seq<char>,
}

impl View for ReferenceError {
    type V = ReferenceErrorView;

    open spec fn view(&self) -> ReferenceErrorView {
        ReferenceErrorView { code: self.code@, segment: self.segment@ }
    }
}

impl ReferenceErrorView {
    /// The sentence that reports the error to a user.
    pub open spec fn message(self) -> Seq<char> {
        "Station '"@ + self.code + "' for Segment '"@ + self.segment + "' not found"@
    }
}

impl ReferenceError {
    /// The sentence that reports the error to a user.
    pub fn message(&self) -> (text: String)
        ensures
            text@ == self@.message(),
    {
        let mut text = String::from_str("Station '");
        text.append(self.code.as_str());
        text.append("' for Segment '");
        text.append(self.segment.as_str());
        text.append("' not found");
        text
    }
}

/// One segment record resolved against `stations`: the segment with copies of
/// both stations, or the error that names the missing code. Where both codes
/// are missing the error names `von`.
pub open spec fn resolve_segment(
    stations: Seq<StationView>,
    record: StreckensegmentView,
) -> Result<SegmentView, ReferenceErrorView> {
    match find_station(stations, record.von) {
        None => Err(ReferenceErrorView { code: record.von, segment: record.label() }),
        Some(from) => match find_station(stations, record.bis) {
            None => Err(ReferenceErrorView { code: record.bis, segment: record.label() }),
            Some(to) => Ok(SegmentView { from, to, routenumber: record.streckennummer }),
        },
    }
}

/// All segment records resolved in document order. The first record that
/// fails decides the error.
pub open spec fn resolve_segments(
    stations: Seq<StationView>,
    records: Seq<StreckensegmentView>,
) -> Result<Seq<SegmentView>, ReferenceErrorView>
    decreases records.len(),
{
    if records.len() == 0 {
        Ok(Seq::empty())
    } else {
        match resolve_segments(stations, records.drop_last()) {
            Err(e) => Err(e),
            Ok(segments) => match resolve_segment(stations, records.last()) {
                Err(e) => Err(e),
                Ok(segment) => Ok(segments.push(segment)),
            },
        }
    }
}

impl InfrastrukturView {
    /// The stations of the document, in document order.
    pub open spec fn stations(self) -> Seq<StationView> {
        self.ordnungsrahmen.betriebsstellen.map_values(|b: BetriebsstelleView| b.station())
    }

    /// The station graph of the document, or the error of the first segment
    /// record that names a missing code.
    pub open spec fn station_map(self) -> Result<StationMapView, ReferenceErrorView> {
        match resolve_segments(self.stations(), self.ordnungsrahmen.streckensegmente) {
            Err(e) => Err(e),
            Ok(segments) => Ok(
                StationMapView {
                    id: self.id,
                    name: self.anzeigename,
                    stations: self.stations(),
                    segments,
                },
            ),
        }
    }

    /// Both codes of segment record `i` are borne by stations of the document.
    pub open spec fn connected(self, i: int) -> bool {
        &&& has_station(self.stations(), self.ordnungsrahmen.streckensegmente[i].von)
        &&& has_station(self.stations(), self.ordnungsrahmen.streckensegmente[i].bis)
    }
}

/// What a result of this module holds: the view of the value or of the error.
pub open spec fn outcome<T: View, E: View>(result: Result<T, E>) -> Result<T::V, E::V> {
    match result {
        Ok(value) => Ok(value@),
        Err(error) => Err(error@),
    }
}

/// `index` answers [`find_station`] over `stations`: it holds exactly the
/// codes that resolve, each with the place of the station it resolves to.
spec fn indexes(index: Map<Seq<char>, usize>, stations: Seq<StationView>) -> bool {
    forall|code: Seq<char>|
        #![trigger index.contains_key(code)]
        #![trigger find_station(stations, code)]
        match find_station(stations, code) {
            None => !index.contains_key(code),
            Some(station) => index.contains_key(code) && index[code] < stations.len()
                && stations[index[code] as int] == station,
        }
}

/// Builds the lookup from station code to place. A later station takes the
/// place of an earlier one with the same code.
fn station_index(stations: &Vec<Station>) -> (index: StringHashMap<usize>)
    ensures
        indexes(index@, station_views(stations@)),
{
    let ghost views = station_views(stations@);
    let mut index: StringHashMap<usize> = StringHashMap::with_capacity(stations.len());
    let mut i: usize = 0;
    while i < stations.len()
        invariant
            i <= stations@.len(),
            views == station_views(stations@),
            indexes(index@, views.take(i as int)),
        decreases stations@.len() - i,
    {
        let ghost before = index@;
        index.insert(stations[i].ds100.clone(), i);
        proof {
            let seen = views.take(i as int);
            let next = views.take(i + 1);
            assert(next.drop_last() =~= seen);
            assert forall|code: Seq<char>|
                #![trigger index@.contains_key(code)]
                #![trigger find_station(next, code)]
                match find_station(next, code) {
                    None => !index@.contains_key(code),
                    Some(station) => index@.contains_key(code) && index@[code] < next.len()
                        && next[index@[code] as int] == station,
                } by {
                if views[i as int].ds100 != code && before.contains_key(code) {
                    assert(next[before[code] as int] == seen[before[code] as int]);
                }
            }
        }
        i += 1;
    }
    assert(views.take(i as int) =~= views);
    index
}

/// Resolves one segment record through the lookup.
fn resolve(
    record: Streckensegment,
    stations: &Vec<Station>,
    index: &StringHashMap<usize>,
) -> (resolved: Result<Segment, ReferenceError>)
    requires
        indexes(index@, station_views(stations@)),
    ensures
        outcome(resolved) == resolve_segment(station_views(stations@), record@),
{
    let from = match index.get(record.von.as_str()) {
        Some(place) => stations[*place].clone(),
        None => {
            let segment = record.to_string();
            return Err(ReferenceError { code: record.von, segment });
        },
    };
    let to = match index.get(record.bis.as_str()) {
        Some(place) => stations[*place].clone(),
        None => {
            let segment = record.to_string();
            return Err(ReferenceError { code: record.bis, segment });
        },
    };
    Ok(Segment { from, to, routenumber: record.streckennummer })
}

impl Infrastruktur {
    /// Builds the station graph of the document.
    ///
    /// Every segment record is resolved against the stations of the same
    /// document. Where two stations bear one code, the later one is meant. The
    /// first record that names a code no station bears ends the build with
    /// its error, and no graph is returned.
    pub fn try_into(self) -> (built: Result<StationMap, ReferenceError>)
        ensures
            outcome(built) == self@.station_map(),
    {
        let ghost document = self@;
        let Infrastruktur { id, anzeigename, ordnungsrahmen } = self;
        let Ordnungsrahmen { betriebsstellen, streckensegmente } = ordnungsrahmen;
        let ghost records = document.ordnungsrahmen.streckensegmente;

        let mut stations: Vec<Station> = Vec::with_capacity(betriebsstellen.len());
        for betriebsstelle in it: betriebsstellen.into_iter()
            invariant
                it.seq() == betriebsstellen@,
                stations@.len() == it.index(),
                forall|j: int|
                    0 <= j < stations@.len() ==> (#[trigger] stations@[j])@ == it.seq()[j]@.station(),
        {
            stations.push(
                Station {
                    ds100: betriebsstelle.ds100,
                    longname: betriebsstelle.langname,
                    coord: (betriebsstelle.x, betriebsstelle.y),
                },
            );
        }

        let index = station_index(&stations);

        let ghost views = station_views(stations@);
        let mut segments: Vec<Segment> = Vec::with_capacity(streckensegmente.len());
        assert(segment_views(segments@) =~= Seq::empty());
        for record in it: streckensegmente.into_iter()
            invariant
                it.seq() == streckensegmente@,
                records == streckensegmente@.map_values(|s: Streckensegment| s@),
                document == self@,
                records == document.ordnungsrahmen.streckensegmente,
                views == station_views(stations@),
                views == document.stations(),
                indexes(index@, views),
                resolve_segments(views, records.take(it.index() as int)) == Ok::<
                    Seq<SegmentView>,
                    ReferenceErrorView,
                >(segment_views(segments@)),
        {
            let ghost done = it.index() as int;
            let ghost before = segment_views(segments@);
            assert(records.take(done + 1).drop_last() =~= records.take(done));
            match resolve(record, &stations, &index) {
                Ok(segment) => {
                    segments.push(segment);
                    assert(segment_views(segments@) =~= before.push(segment@));
                },
                Err(error) => {
                    proof {
                        lemma_prefix_error_decides(views, records, done + 1);
                    }
                    return Err(error);
                },
            }
        }
        assert(records.take(records.len() as int) =~= records);
        let ghost map = StationMapView {
            id,
            name: anzeigename@,
            stations: views,
            segments: segment_views(segments@),
        };
        proof {
            lemma_resolved_segments_are_intact(map, records);
        }
        Ok(StationMap { id, name: anzeigename, stations, segments })
    }
}

//
// What holds of every document
//

/// A code resolves exactly when some station bears it, and then to the last
/// station that does.
pub proof fn lemma_find_station(stations: Seq<StationView>, code: Seq<char>)
    ensures
        find_station(stations, code) is Some <==> has_station(stations, code),
        find_station(stations, code) matches Some(station) ==> exists|i: int|
            0 <= i < stations.len() && #[trigger] stations[i] == station && station.ds100 == code
                && forall|j: int| i < j < stations.len() ==> (#[trigger] stations[j]).ds100 != code,
    decreases stations.len(),
{
    if stations.len() > 0 && stations.last().ds100 != code {
        let init = stations.drop_last();
        lemma_find_station(init, code);
        if has_station(stations, code) {
            let i = choose|i: int| 0 <= i < stations.len() && (#[trigger] stations[i]).ds100 == code;
            assert(init[i].ds100 == code);
        }
        if has_station(init, code) {
            let i = choose|i: int| 0 <= i < init.len() && (#[trigger] init[i]).ds100 == code;
            assert(stations[i].ds100 == code);
        }
        match find_station(stations, code) {
            Some(station) => {
                let i = choose|i: int|
                    0 <= i < init.len() && #[trigger] init[i] == station && station.ds100 == code
                        && forall|j: int| i < j < init.len() ==> (#[trigger] init[j]).ds100 != code;
                assert forall|j: int| i < j < stations.len() implies (#[trigger] stations[j]).ds100
                    != code by {
                    if j < init.len() {
                        assert(init[j].ds100 != code);
                    }
                }
            },
            None => {},
        }
    }
}

/// Resolving a run of records resolves each of them: on success record by
/// record, on failure up to the first record that fails, whose error it is.
pub proof fn lemma_resolve_segments(stations: Seq<StationView>, records: Seq<StreckensegmentView>)
    ensures
        match resolve_segments(stations, records) {
            Ok(segments) => {
                &&& segments.len() == records.len()
                &&& forall|i: int|
                    0 <= i < records.len() ==> resolve_segment(stations, #[trigger] records[i])
                        == Ok::<SegmentView, ReferenceErrorView>(segments[i])
            },
            Err(e) => exists|k: int|
                {
                    &&& 0 <= k < records.len()
                    &&& resolve_segment(stations, #[trigger] records[k]) == Err::<
                        SegmentView,
                        ReferenceErrorView,
                    >(e)
                    &&& forall|j: int|
                        0 <= j < k ==> resolve_segment(stations, #[trigger] records[j]) is Ok
                },
        },
    decreases records.len(),
{
    if records.len() > 0 {
        let init = records.drop_last();
        let last = records.len() - 1;
        lemma_resolve_segments(stations, init);
        match resolve_segments(stations, init) {
            Err(e) => {
                let k = choose|k: int|
                    {
                        &&& 0 <= k < init.len()
                        &&& resolve_segment(stations, #[trigger] init[k]) == Err::<
                            SegmentView,
                            ReferenceErrorView,
                        >(e)
                        &&& forall|j: int|
                            0 <= j < k ==> resolve_segment(stations, #[trigger] init[j]) is Ok
                    };
                assert forall|j: int| 0 <= j < k implies resolve_segment(
                    stations,
                    #[trigger] records[j],
                ) is Ok by {
                    assert(records[j] == init[j]);
                }
            },
            Ok(segments) => {
                assert forall|j: int| 0 <= j < last implies resolve_segment(
                    stations,
                    #[trigger] records[j],
                ) == Ok::<SegmentView, ReferenceErrorView>(segments[j]) by {
                    assert(records[j] == init[j]);
                }
                match resolve_segment(stations, records.last()) {
                    Err(e) => {
                        assert(resolve_segment(stations, records[last]) is Err);
                    },
                    Ok(segment) => {
                        assert(resolve_segment(stations, records[last]) is Ok);
                    },
                }
            },
        }
    }
}

/// An error among the first `k` records is the error of the whole run.
proof fn lemma_prefix_error_decides(
    stations: Seq<StationView>,
    records: Seq<StreckensegmentView>,
    k: int,
)
    requires
        0 <= k <= records.len(),
        resolve_segments(stations, records.take(k)) is Err,
    ensures
        resolve_segments(stations, records) == resolve_segments(stations, records.take(k)),
    decreases records.len() - k,
{
    if k == records.len() {
        assert(records.take(k) =~= records);
    } else {
        assert(records.take(k + 1).drop_last() =~= records.take(k));
        lemma_prefix_error_decides(stations, records, k + 1);
    }
}

/// Segments that come out of [`resolve_segments`] have no dangling end.
proof fn lemma_resolved_segments_are_intact(map: StationMapView, records: Seq<StreckensegmentView>)
    requires
        resolve_segments(map.stations, records) == Ok::<Seq<SegmentView>, ReferenceErrorView>(
            map.segments,
        ),
    ensures
        map.well_formed(),
{
    lemma_resolve_segments(map.stations, records);
    assert forall|i: int| 0 <= i < map.segments.len() implies #[trigger] map.resolved(i) by {
        assert(resolve_segment(map.stations, records[i]) == Ok::<SegmentView, ReferenceErrorView>(
            map.segments[i],
        ));
        lemma_find_station(map.stations, records[i].von);
        lemma_find_station(map.stations, records[i].bis);
    }
}

/// A document in which every segment record names only codes that stations
/// bear has a station graph. The graph has the stations of the document, one
/// segment for each record and in the same order, and each end of a segment
/// is the station that the record's code resolves to, so it bears that code.
pub proof fn lemma_connected_document_builds(document: InfrastrukturView)
    requires
        forall|i: int|
            0 <= i < document.ordnungsrahmen.streckensegmente.len() ==> #[trigger] document.connected(
                i,
            ),
    ensures
        document.station_map() is Ok,
        ({
            let map = document.station_map()->Ok_0;
            let records = document.ordnungsrahmen.streckensegmente;
            &&& map.id == document.id
            &&& map.name == document.anzeigename
            &&& map.stations == document.stations()
            &&& map.segments.len() == records.len()
            &&& map.well_formed()
            &&& forall|i: int|
                #![trigger map.segments[i]]
                0 <= i < records.len() ==> {
                    &&& map.segments[i].from.ds100 == records[i].von
                    &&& map.segments[i].to.ds100 == records[i].bis
                    &&& map.segments[i].routenumber == records[i].streckennummer
                    &&& Some(map.segments[i].from) == find_station(map.stations, records[i].von)
                    &&& Some(map.segments[i].to) == find_station(map.stations, records[i].bis)
                    &&& map.stations.contains(map.segments[i].from)
                    &&& map.stations.contains(map.segments[i].to)
                }
        }),
{
    let stations = document.stations();
    let records = document.ordnungsrahmen.streckensegmente;
    lemma_resolve_segments(stations, records);
    assert forall|i: int| 0 <= i < records.len() implies resolve_segment(
        stations,
        #[trigger] records[i],
    ) is Ok by {
        assert(document.connected(i));
        lemma_find_station(stations, records[i].von);
        lemma_find_station(stations, records[i].bis);
    }
    let segments = resolve_segments(stations, records)->Ok_0;
    let map = document.station_map()->Ok_0;
    lemma_resolved_segments_are_intact(map, records);
    assert forall|i: int| #![trigger map.segments[i]] 0 <= i < records.len() implies {
        &&& map.segments[i].from.ds100 == records[i].von
        &&& map.segments[i].to.ds100 == records[i].bis
        &&& map.segments[i].routenumber == records[i].streckennummer
        &&& Some(map.segments[i].from) == find_station(map.stations, records[i].von)
        &&& Some(map.segments[i].to) == find_station(map.stations, records[i].bis)
        &&& map.stations.contains(map.segments[i].from)
        &&& map.stations.contains(map.segments[i].to)
    } by {
        assert(resolve_segment(stations, records[i]) == Ok::<SegmentView, ReferenceErrorView>(
            segments[i],
        ));
        lemma_find_station(stations, records[i].von);
        lemma_find_station(stations, records[i].bis);
    }
}

/// A document with a segment record that names a code no station bears has no
/// station graph. The error is that of the first such record: it carries the
/// record's label and the missing code, `von` before `bis`, and every record
/// before it is connected.
pub proof fn lemma_dangling_document_fails(document: InfrastrukturView)
    requires
        exists|i: int|
            0 <= i < document.ordnungsrahmen.streckensegmente.len() && !#[trigger] document.connected(
                i,
            ),
    ensures
        document.station_map() is Err,
        ({
            let error = document.station_map()->Err_0;
            let records = document.ordnungsrahmen.streckensegmente;
            &&& !has_station(document.stations(), error.code)
            &&& exists|k: int|
                {
                    &&& 0 <= k < records.len()
                    &&& !#[trigger] document.connected(k)
                    &&& forall|j: int| 0 <= j < k ==> #[trigger] document.connected(j)
                    &&& error.segment == records[k].label()
                    &&& error.code == if has_station(document.stations(), records[k].von) {
                        records[k].bis
                    } else {
                        records[k].von
                    }
                }
        }),
{
    let stations = document.stations();
    let records = document.ordnungsrahmen.streckensegmente;
    let i = choose|i: int| 0 <= i < records.len() && !#[trigger] document.connected(i);
    lemma_resolve_segments(stations, records);
    lemma_find_station(stations, records[i].von);
    lemma_find_station(stations, records[i].bis);
    assert(resolve_segment(stations, records[i]) is Err);
    match resolve_segments(stations, records) {
        Ok(segments) => {
            assert(resolve_segment(stations, records[i]) is Ok);
        },
        Err(error) => {
            let k = choose|k: int|
                {
                    &&& 0 <= k < records.len()
                    &&& resolve_segment(stations, #[trigger] records[k]) == Err::<
                        SegmentView,
                        ReferenceErrorView,
                    >(error)
                    &&& forall|j: int|
                        0 <= j < k ==> resolve_segment(stations, #[trigger] records[j]) is Ok
                };
            lemma_find_station(stations, records[k].von);
            lemma_find_station(stations, records[k].bis);
            assert(!document.connected(k));
            assert forall|j: int| 0 <= j < k implies #[trigger] document.connected(j) by {
                assert(resolve_segment(stations, records[j]) is Ok);
                lemma_find_station(stations, records[j].von);
                lemma_find_station(stations, records[j].bis);
            }
        },
    }
}

} // verus!
