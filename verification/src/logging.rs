//! The lines that are logged for each inbound request.
//!
//! Logging is for observers only and decides nothing. Where the request
//! brings no coordinates or no region, the line says so with a fixed marker.
//! The marker for coordinates is one that no pair of coordinates is written
//! as, so a reader of the log can tell a request without coordinates from a
//! request at any place.

use crate::http::Method;
use vstd::prelude::*;
use vstd::string::StringExecFns;

verus! {

/// The coordinates of a request. Each number is held as the text that the
/// host renders it as.
#[derive(Clone, Debug, PartialEq, Eq)]
pub struct Coordinates {
    pub latitude: String,
    pub longitude: String,
}

/// How a pair of coordinates is written: both numbers in round brackets.
pub open spec fn pair_text(coordinates: Coordinates) -> Seq<char> {
    "("@ + coordinates.latitude@ + ", "@ + coordinates.longitude@ + ")"@
}

/// The coordinates as logged: the pair given, or a marker where none is.
pub open spec fn coordinates_or_unknown(coordinates: Option<&Coordinates>) -> Seq<char> {
    match coordinates {
        Some(c) => pair_text(*c),
        None => "unknown coordinates"@,
    }
}

/// The region as logged: the one given, or a marker where none is.
pub open spec fn region_or_unknown(region: Option<&str>) -> Seq<char> {
    match region {
        Some(r) => r@,
        None => "unknown region"@,
    }
}

/// The end of a logged line, which says where the request came from.
pub open spec fn origin_text(coordinates: Option<&Coordinates>, region: Option<&str>) -> Seq<
    char,
> {
    ", located at: "@ + coordinates_or_unknown(coordinates) + ", within: "@ + region_or_unknown(
        region,
    )
}

/// The line that records a request at time `timestamp`.
pub open spec fn request_line(
    timestamp: Seq<char>,
    path: Seq<char>,
    coordinates: Option<&Coordinates>,
    region: Option<&str>,
) -> Seq<char> {
    timestamp + " - ["@ + path + "]"@ + origin_text(coordinates, region)
}

/// The line that records the arrival of a request with `method`.
pub open spec fn arrival_line(
    method: Method,
    path: Seq<char>,
    coordinates: Option<&Coordinates>,
    region: Option<&str>,
) -> Seq<char> {
    method.name() + " "@ + path + origin_text(coordinates, region)
}

/// Appends to `line` where the request came from.
fn push_origin(line: String, coordinates: Option<&Coordinates>, region: Option<&str>) -> (full:
    String)
    ensures
        full@ == line@ + origin_text(coordinates, region),
{
    let located = line.concat(", located at: ");
    let placed = match coordinates {
        Some(c) => located.concat("(").concat(c.latitude.as_str()).concat(", ").concat(
            c.longitude.as_str(),
        ).concat(")"),
        None => located.concat("unknown coordinates"),
    };
    assert(placed@ =~= line@ + ", located at: "@ + coordinates_or_unknown(coordinates));
    let region = match region {
        Some(r) => r,
        None => "unknown region",
    };
    let full = placed.concat(", within: ").concat(region);
    assert(full@ =~= line@ + origin_text(coordinates, Some(region)));
    full
}

/// The line to log for a request: the time, the path in brackets, and
/// where the request came from. `coordinates` and `region` are `None` where
/// the request brings none.
pub fn log_request(
    timestamp: &str,
    path: &str,
    coordinates: Option<&Coordinates>,
    region: Option<&str>,
) -> (line: String)
    ensures
        line@ == request_line(timestamp@, path@, coordinates, region),
{
    let head = String::from_str(timestamp).concat(" - [").concat(path).concat("]");
    let line = push_origin(head, coordinates, region);
    assert(line@ =~= request_line(timestamp@, path@, coordinates, region));
    line
}

/// The line to log when a request arrives: the method, the path, and where
/// the request came from.
pub fn log_arrival(
    method: Method,
    path: &str,
    coordinates: Option<&Coordinates>,
    region: Option<&str>,
) -> (line: String)
    ensures
        line@ == arrival_line(method, path@, coordinates, region),
{
    let head = String::from_str(method.as_str()).concat(" ").concat(path);
    let line = push_origin(head, coordinates, region);
    assert(line@ =~= arrival_line(method, path@, coordinates, region));
    line
}

/// Texts that open alike and then go on with different characters differ.
pub proof fn lemma_differ_after(
    head: Seq<char>,
    one: Seq<char>,
    other: Seq<char>,
    one_rest: Seq<char>,
    other_rest: Seq<char>,
)
    requires
        one.len() > 0,
        other.len() > 0,
        one[0] != other[0],
    ensures
        head + one + one_rest != head + other + other_rest,
{
    let at = head.len() as int;
    assert((head + one + one_rest)[at] == one[0]);
    assert((head + other + other_rest)[at] == other[0]);
}

/// The marker for absent coordinates is no pair: a pair opens with a round
/// bracket, whatever its numbers are written as, and the marker does not.
pub proof fn lemma_marker_is_no_pair(coordinates: Coordinates)
    ensures
        coordinates_or_unknown(None) != coordinates_or_unknown(Some(&coordinates)),
        coordinates_or_unknown(None).len() > 0,
        coordinates_or_unknown(None)[0] == 'u',
        coordinates_or_unknown(Some(&coordinates)).len() > 0,
        coordinates_or_unknown(Some(&coordinates))[0] == '(',
{
    reveal_strlit("unknown coordinates");
    reveal_strlit("(");
    let pair = pair_text(coordinates);
    assert("("@.len() == 1);
    assert("("@[0] == '(');
    assert(pair[0] == "("@[0]);
    assert("unknown coordinates"@[0] == 'u');
}

/// What a line says of the place tells absent coordinates from present ones,
/// whatever the coordinates and the regions are.
pub proof fn lemma_origin_tells_absent(
    coordinates: Coordinates,
    region: Option<&str>,
    other_region: Option<&str>,
)
    ensures
        origin_text(None, region) != origin_text(Some(&coordinates), other_region),
{
    lemma_marker_is_no_pair(coordinates);
    lemma_differ_after(
        ", located at: "@,
        coordinates_or_unknown(None),
        coordinates_or_unknown(Some(&coordinates)),
        ", within: "@ + region_or_unknown(region),
        ", within: "@ + region_or_unknown(other_region),
    );
    assert(origin_text(None, region) =~= ", located at: "@ + coordinates_or_unknown(None) + (
    ", within: "@ + region_or_unknown(region)));
    assert(origin_text(Some(&coordinates), other_region) =~= ", located at: "@
        + coordinates_or_unknown(Some(&coordinates)) + (", within: "@ + region_or_unknown(
        other_region,
    )));
}

/// Two recorded lines for the same time and path differ where one request
/// brought no coordinates and the other brought some, whatever these are:
/// absent coordinates are never logged as a place.
pub proof fn lemma_request_line_tells_absent(
    timestamp: Seq<char>,
    path: Seq<char>,
    coordinates: Coordinates,
    region: Option<&str>,
    other_region: Option<&str>,
)
    ensures
        request_line(timestamp, path, None, region) != request_line(
            timestamp,
            path,
            Some(&coordinates),
            other_region,
        ),
{
    lemma_marker_is_no_pair(coordinates);
    let head = timestamp + " - ["@ + path + "]"@ + ", located at: "@;
    let absent = coordinates_or_unknown(None);
    let present = coordinates_or_unknown(Some(&coordinates));
    let rest = ", within: "@ + region_or_unknown(region);
    let other_rest = ", within: "@ + region_or_unknown(other_region);
    lemma_differ_after(head, absent, present, rest, other_rest);
    assert(request_line(timestamp, path, None, region) =~= head + absent + rest);
    assert(request_line(timestamp, path, Some(&coordinates), other_region) =~= head + present
        + other_rest);
}

/// Two arrival lines for the same method and path differ where one request
/// brought no coordinates and the other brought some, whatever these are.
pub proof fn lemma_arrival_line_tells_absent(
    method: Method,
    path: Seq<char>,
    coordinates: Coordinates,
    region: Option<&str>,
    other_region: Option<&str>,
)
    ensures
        arrival_line(method, path, None, region) != arrival_line(
            method,
            path,
            Some(&coordinates),
            other_region,
        ),
{
    lemma_marker_is_no_pair(coordinates);
    let head = method.name() + " "@ + path + ", located at: "@;
    let absent = coordinates_or_unknown(None);
    let present = coordinates_or_unknown(Some(&coordinates));
    let rest = ", within: "@ + region_or_unknown(region);
    let other_rest = ", within: "@ + region_or_unknown(other_region);
    lemma_differ_after(head, absent, present, rest, other_rest);
    assert(arrival_line(method, path, None, region) =~= head + absent + rest);
    assert(arrival_line(method, path, Some(&coordinates), other_region) =~= head + present
        + other_rest);
}

} // verus!
