use vstd::prelude::*;

verus! {

/// A life-cycle event of the station, reported to the database.
#[allow(non_camel_case_types)]
#[derive(Clone, Copy, Debug, PartialEq, Eq, Structural)]
pub enum Status {
    STARTUP,
    SHUTDOWN,
}

/// The name under which a status is reported.
pub open spec fn status_name(status: Status) -> Seq<char> {
    match status {
        Status::STARTUP => seq!['S', 'T', 'A', 'R', 'T', 'U', 'P'],
        Status::SHUTDOWN => seq!['S', 'H', 'U', 'T', 'D', 'O', 'W', 'N'],
    }
}

impl Status {
    /// The name under which the status is reported: the variant's name.
    pub fn to_string(&self) -> (s: String)
        ensures
            s@ == status_name(*self),
    {
        proof {
            reveal_strlit("STARTUP");
            reveal_strlit("SHUTDOWN");
        }
        match self {
            Status::STARTUP => "STARTUP".to_owned(),
            Status::SHUTDOWN => "SHUTDOWN".to_owned(),
        }
    }
}

/// The message reported for a failure: "Error in <desc>: <error>".
pub open spec fn error_text(desc: Seq<char>, error: Seq<char>) -> Seq<char> {
    seq!['E', 'r', 'r', 'o', 'r', ' ', 'i', 'n', ' '] + desc + seq![':', ' '] + error
}

/// The message reported for a failure while doing `desc`, caused by `cause`
/// (already written out).
pub fn error(desc: &str, cause: &str) -> (s: String)
    ensures
        s@ == error_text(desc@, cause@),
{
    proof {
        reveal_strlit("Error in ");
        reveal_strlit(": ");
    }
    let mut s = "Error in ".to_owned();
    s.append(desc);
    s.append(": ");
    s.append(cause);
    assert(s@ =~= error_text(desc@, cause@));
    s
}

/// Where the station stands, as configured: the tags of every point it
/// reports.
#[derive(Debug)]
pub struct Station {
    pub location: String,
    pub sensor: String,
    pub display: String,
}

/// A data point for the database: a measurement name, tags and fields, each
/// a name and a text value.
#[derive(Debug)]
pub struct InfluxPoint {
    pub measurement: String,
    pub tags: Vec<(String, String)>,
    pub fields: Vec<(String, String)>,
}

/// A point with its texts taken by value.
pub struct PointView {
    pub measurement: Seq<char>,
    pub tags: Seq<(Seq<char>, Seq<char>)>,
    pub fields: Seq<(Seq<char>, Seq<char>)>,
}

/// The texts of a list of name-value pairs.
pub open spec fn pairs_view(pairs: Seq<(String, String)>) -> Seq<(Seq<char>, Seq<char>)> {
    pairs.map_values(|p: (String, String)| (p.0@, p.1@))
}

impl View for InfluxPoint {
    type V = PointView;

    open spec fn view(&self) -> PointView {
        PointView {
            measurement: self.measurement@,
            tags: pairs_view(self.tags@),
            fields: pairs_view(self.fields@),
        }
    }
}

/// The tags every reported point starts with: where the station is and
/// which sensor it has.
pub open spec fn station_tags(station: Station) -> Seq<(Seq<char>, Seq<char>)> {
    seq![
        (seq!['l', 'o', 'c', 'a', 't', 'i', 'o', 'n'], station.location@),
        (seq!['s', 'e', 'n', 's', 'o', 'r'], station.sensor@),
    ]
}

/// The tag naming the station's display.
pub open spec fn display_tag(station: Station) -> (Seq<char>, Seq<char>) {
    (seq!['d', 'i', 's', 'p', 'l', 'a', 'y'], station.display@)
}

/// A list of pairs with `name`/`value` appended.
fn push_pair(pairs: &mut Vec<(String, String)>, name: &str, value: String)
    ensures
        pairs_view(final(pairs)@) == pairs_view(old(pairs)@).push((name@, value@)),
{
    pairs.push((name.to_owned(), value));
    assert(pairs_view(final(pairs)@) =~= pairs_view(old(pairs)@).push((name@, value@)));
}

/// A point of `measurement` tagged with the station's location, sensor and
/// display.
fn station_point(station: &Station, measurement: &str) -> (p: InfluxPoint)
    ensures
        p@.measurement == measurement@,
        p@.tags == station_tags(*station).push(display_tag(*station)),
        p@.fields == Seq::<(Seq<char>, Seq<char>)>::empty(),
{
    proof {
        reveal_strlit("location");
        reveal_strlit("sensor");
        reveal_strlit("display");
        assert("location"@ == seq!['l', 'o', 'c', 'a', 't', 'i', 'o', 'n']);
        assert("sensor"@ == seq!['s', 'e', 'n', 's', 'o', 'r']);
        assert("display"@ == seq!['d', 'i', 's', 'p', 'l', 'a', 'y']);
    }
    let mut tags: Vec<(String, String)> = Vec::new();
    assert(pairs_view(tags@) =~= Seq::<(Seq<char>, Seq<char>)>::empty());
    push_pair(&mut tags, "location", station.location.clone());
    push_pair(&mut tags, "sensor", station.sensor.clone());
    push_pair(&mut tags, "display", station.display.clone());
    let fields: Vec<(String, String)> = Vec::new();
    let p = InfluxPoint { measurement: measurement.to_owned(), tags, fields };
    assert(p@.tags =~= station_tags(*station).push(display_tag(*station)));
    assert(p@.fields =~= Seq::<(Seq<char>, Seq<char>)>::empty());
    p
}

/// The point that reports the failure message `msg`: measurement "error",
/// the station's tags, and `msg` in the field "error".
pub fn err_influx(station: &Station, msg: String) -> (p: InfluxPoint)
    ensures
        p@.measurement == seq!['e', 'r', 'r', 'o', 'r'],
        p@.tags == station_tags(*station).push(display_tag(*station)),
        p@.fields == seq![(seq!['e', 'r', 'r', 'o', 'r'], msg@)],
{
    proof {
        reveal_strlit("error");
        assert("error"@ == seq!['e', 'r', 'r', 'o', 'r']);
    }
    let mut p = station_point(station, "error");
    push_pair(&mut p.fields, "error", msg);
    assert(p@.fields =~= seq![(seq!['e', 'r', 'r', 'o', 'r'], msg@)]);
    p
}

/// The point that reports `status`: measurement "status", the station's
/// tags and the status name in the tag "status", and `msg` (empty when
/// absent) in the field "message".
pub fn status_influx(station: &Station, status: Status, msg: Option<String>) -> (p: InfluxPoint)
    ensures
        p@.measurement == seq!['s', 't', 'a', 't', 'u', 's'],
        p@.tags == station_tags(*station).push(display_tag(*station)).push(
            (seq!['s', 't', 'a', 't', 'u', 's'], status_name(status)),
        ),
        p@.fields == seq![
            (
                seq!['m', 'e', 's', 's', 'a', 'g', 'e'],
                match msg {
                    Some(m) => m@,
                    None => Seq::<char>::empty(),
                },
            ),
        ],
{
    proof {
        reveal_strlit("status");
        reveal_strlit("message");
        assert("status"@ == seq!['s', 't', 'a', 't', 'u', 's']);
        assert("message"@ == seq!['m', 'e', 's', 's', 'a', 'g', 'e']);
    }
    let mut p = station_point(station, "status");
    push_pair(&mut p.tags, "status", status.to_string());
    let message = match msg {
        Some(m) => m,
        None => String::new(),
    };
    push_pair(&mut p.fields, "message", message);
    assert(p@.fields =~= seq![
        (
            seq!['m', 'e', 's', 's', 'a', 'g', 'e'],
            match msg {
                Some(m) => m@,
                None => Seq::<char>::empty(),
            },
        ),
    ]);
    p
}

} // verus!
