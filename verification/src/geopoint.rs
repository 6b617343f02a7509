//! Coordinates written as text: `"<lat>,<lon>,<alt>"`.
//!
//! The first comma of the text ends the latitude, and the first comma after
//! it ends the longitude; what follows is the altitude, commas and all. The
//! three fields are then read as numbers by a function that the caller hands
//! in, so that the text may be read into any kind of number.

use vstd::prelude::*;
use vstd::string::*;

verus! {

/// A point on the ground with a height above it: latitude and longitude in
/// degrees, altitude in meters. The ranges of the three are not judged here.
#[derive(Debug, PartialEq)]
pub struct GeoPoint<T> {
    pub latitude: T,
    pub longitude: T,
    pub altitude: T,
}

impl<T: Copy> Clone for GeoPoint<T> {
    fn clone(&self) -> (copy: Self)
        ensures
            copy == *self,
    {
        *self
    }
}

impl<T: Copy> Copy for GeoPoint<T> {

}

/// The three fields of a coordinate text, as they stand in it.
#[derive(Debug, Clone, Copy, PartialEq, Eq)]
pub struct Fields<'a> {
    pub lat: &'a str,
    pub lon: &'a str,
    pub alt: &'a str,
}

/// Why a text is no coordinate. A field that could not be read carries what
/// the reader of numbers said of it.
#[derive(Debug, PartialEq)]
pub enum ParseError<E> {
    /// The text holds fewer than two commas.
    MissingSeparator,
    /// The text before the first comma is no number.
    Latitude(E),
    /// The text between the first two commas is no number.
    Longitude(E),
    /// The text after the second comma is no number.
    Altitude(E),
}

/// The place of the first comma in `text`: the least index that holds one,
/// or the length of `text` where it holds none.
pub open spec fn first_comma(text: Seq<char>) -> int
    decreases text.len(),
{
    if text.len() == 0 || text[0] == ',' {
        0
    } else {
        1 + first_comma(text.drop_first())
    }
}

/// The number of commas in `text`.
pub open spec fn comma_count(text: Seq<char>) -> nat
    decreases text.len(),
{
    if text.len() == 0 {
        0
    } else if text[0] == ',' {
        1 + comma_count(text.drop_first())
    } else {
        comma_count(text.drop_first())
    }
}

/// The three fields of a coordinate text: what stands before its first
/// comma, what stands between that comma and the next, and the rest. A text
/// with fewer than two commas has no fields.
pub open spec fn fields(text: Seq<char>) -> Option<(Seq<char>, Seq<char>, Seq<char>)> {
    let first = first_comma(text);
    let rest = text.skip(first + 1);
    let second = first_comma(rest);
    if first < text.len() && second < rest.len() {
        Some((text.take(first), rest.take(second), rest.skip(second + 1)))
    } else {
        None
    }
}

/// The text that joins three fields with commas.
pub open spec fn joined(lat: Seq<char>, lon: Seq<char>, alt: Seq<char>) -> Seq<char> {
    lat + seq![','] + lon + seq![','] + alt
}

/// The first comma lies within the text or at its end, no comma stands
/// before it, and where it lies within the text a comma stands there.
pub proof fn lemma_first_comma(text: Seq<char>)
    ensures
        0 <= first_comma(text) <= text.len(),
        forall|k: int| 0 <= k < first_comma(text) ==> text[k] != ',',
        first_comma(text) < text.len() ==> text[first_comma(text)] == ',',
    decreases text.len(),
{
    if text.len() == 0 || text[0] == ',' {
    } else {
        let tail = text.drop_first();
        lemma_first_comma(tail);
        assert forall|k: int| 0 <= k < first_comma(text) implies text[k] != ',' by {
            if k > 0 {
                assert(text[k] == tail[k - 1]);
            }
        }
        if first_comma(text) < text.len() {
            assert(text[first_comma(text)] == tail[first_comma(tail)]);
        }
    }
}

/// An index with no comma before it, which holds a comma or is the end of
/// the text, is the place of the first comma.
pub proof fn lemma_first_comma_is(text: Seq<char>, at: int)
    requires
        0 <= at <= text.len(),
        forall|k: int| 0 <= k < at ==> text[k] != ',',
        at < text.len() ==> text[at] == ',',
    ensures
        first_comma(text) == at,
{
    lemma_first_comma(text);
    let found = first_comma(text);
    if found < at {
        assert(text[found] == ',');
    } else if at < found {
        assert(text[at] == ',');
    }
}

/// A text has a comma within it exactly if it counts at least one, and the
/// commas after the first are one fewer than all.
pub proof fn lemma_comma_count_after_first(text: Seq<char>)
    ensures
        first_comma(text) < text.len() <==> comma_count(text) >= 1,
        first_comma(text) < text.len() ==> comma_count(text) == 1 + comma_count(
            text.skip(first_comma(text) + 1),
        ),
    decreases text.len(),
{
    lemma_first_comma(text);
    if text.len() == 0 {
    } else if text[0] == ',' {
        assert(text.skip(1) == text.drop_first());
    } else {
        let tail = text.drop_first();
        lemma_comma_count_after_first(tail);
        lemma_first_comma(tail);
        if first_comma(tail) < tail.len() {
            assert(text.skip(first_comma(text) + 1) == tail.skip(first_comma(tail) + 1));
        }
    }
}

/// A text has fields exactly if it holds at least two commas.
pub proof fn lemma_fields_iff_two_commas(text: Seq<char>)
    ensures
        fields(text) is Some <==> comma_count(text) >= 2,
{
    lemma_comma_count_after_first(text);
    lemma_first_comma(text);
    if first_comma(text) < text.len() {
        lemma_comma_count_after_first(text.skip(first_comma(text) + 1));
    }
}

/// The fields of a text, joined with commas, are the text again; and
/// neither the first nor the second field holds a comma.
pub proof fn lemma_fields_join(text: Seq<char>)
    requires
        fields(text) is Some,
    ensures
        ({
            let (lat, lon, alt) = fields(text)->Some_0;
            &&& joined(lat, lon, alt) == text
            &&& comma_count(lat) == 0
            &&& comma_count(lon) == 0
        }),
{
    let first = first_comma(text);
    let rest = text.skip(first + 1);
    let second = first_comma(rest);
    let (lat, lon, alt) = fields(text)->Some_0;
    lemma_first_comma(text);
    lemma_first_comma(rest);
    assert(joined(lat, lon, alt) =~= text);
    lemma_first_comma_is(lat, lat.len() as int);
    lemma_comma_count_after_first(lat);
    lemma_first_comma_is(lon, lon.len() as int);
    lemma_comma_count_after_first(lon);
}

/// Three fields joined with commas come apart into the same three fields,
/// provided that neither the first nor the second holds a comma.
pub proof fn lemma_join_fields(lat: Seq<char>, lon: Seq<char>, alt: Seq<char>)
    requires
        comma_count(lat) == 0,
        comma_count(lon) == 0,
    ensures
        fields(joined(lat, lon, alt)) == Some((lat, lon, alt)),
{
    let text = joined(lat, lon, alt);
    lemma_comma_count_after_first(lat);
    lemma_first_comma(lat);
    lemma_comma_count_after_first(lon);
    lemma_first_comma(lon);
    assert forall|k: int| 0 <= k < lat.len() implies text[k] != ',' by {
        assert(text[k] == lat[k]);
    }
    lemma_first_comma_is(text, lat.len() as int);
    let rest = text.skip(lat.len() as int + 1);
    assert(rest =~= lon + seq![','] + alt);
    assert forall|k: int| 0 <= k < lon.len() implies rest[k] != ',' by {
        assert(rest[k] == lon[k]);
    }
    lemma_first_comma_is(rest, lon.len() as int);
    assert(text.take(lat.len() as int) =~= lat);
    assert(rest.take(lon.len() as int) =~= lon);
    assert(rest.skip(lon.len() as int + 1) =~= alt);
}

/// Whether `number`, handed a text that reads `text`, may hand back `value`.
pub open spec fn reads<T, E, N: Fn(&str) -> Result<T, E>>(
    number: N,
    text: Seq<char>,
    value: Result<T, E>,
) -> bool {
    exists|t: &str| t@ == text && #[trigger] number.ensures((t,), value)
}

/// Whether `number` is the function `read` of the text that it is handed:
/// whatever it hands back for a text is what `read` gives for that text.
pub open spec fn reads_as<T, E, N: Fn(&str) -> Result<T, E>>(
    number: N,
    read: spec_fn(Seq<char>) -> Result<T, E>,
) -> bool {
    forall|t: &str, value: Result<T, E>| #[trigger]
        number.ensures((t,), value) ==> value == read(t@)
}

/// Takes a coordinate text apart at its first two commas. A text with fewer
/// than two commas comes apart into nothing.
pub fn split_fields<'a>(s: &'a str) -> (found: Option<Fields<'a>>)
    ensures
        match fields(s@) {
            Some((lat, lon, alt)) => found matches Some(f) && f.lat@ == lat && f.lon@ == lon
                && f.alt@ == alt,
            None => found is None,
        },
        found is Some <==> comma_count(s@) >= 2,
{
    let len: usize = s.unicode_len();
    let mut first: usize = len;
    let mut second: usize = len;
    let mut at: usize = 0;
    for c in it: s.chars()
        invariant
            it.seq() == s@,
            len == s@.len(),
            at == it.index(),
            at <= len,
            first == len || first < at,
            second == len || (first < second && second < at),
            first == len ==> second == len,
            forall|k: int| 0 <= k < at && k < first ==> s@[k] != ',',
            first < len ==> s@[first as int] == ',',
            forall|k: int| first < k < at && k < second ==> s@[k] != ',',
            second < len ==> s@[second as int] == ',',
    {
        if c == ',' {
            if first == len {
                first = at;
            } else if second == len {
                second = at;
            }
        }
        at = at + 1;
    }
    proof {
        lemma_fields_iff_two_commas(s@);
        lemma_first_comma_is(s@, first as int);
        if first < len {
            let rest = s@.skip(first + 1);
            assert forall|k: int| 0 <= k < second - first - 1 implies rest[k] != ',' by {
                assert(rest[k] == s@[first + 1 + k]);
            }
            lemma_first_comma_is(rest, second - first - 1);
        }
    }
    if second == len {
        None
    } else {
        let lat = s.substring_char(0, first);
        let lon = s.substring_char(first + 1, second);
        let alt = s.substring_char(second + 1, len);
        proof {
            let rest = s@.skip(first + 1);
            assert(s@.take(first as int) =~= s@.subrange(0, first as int));
            assert(rest.take(second - first - 1) =~= s@.subrange(first + 1, second as int));
            assert(rest.skip(second - first) =~= s@.subrange(second + 1, len as int));
        }
        Some(Fields { lat, lon, alt })
    }
}

impl<T> GeoPoint<T> {
    /// The point that three readings make, or the first of them that
    /// failed, in the order latitude, longitude, altitude.
    pub open spec fn spec_from_numbers<E>(
        lat: Result<T, E>,
        lon: Result<T, E>,
        alt: Result<T, E>,
    ) -> Result<GeoPoint<T>, ParseError<E>> {
        match lat {
            Err(e) => Err(ParseError::Latitude(e)),
            Ok(latitude) => match lon {
                Err(e) => Err(ParseError::Longitude(e)),
                Ok(longitude) => match alt {
                    Err(e) => Err(ParseError::Altitude(e)),
                    Ok(altitude) => Ok(GeoPoint { latitude, longitude, altitude }),
                },
            },
        }
    }

    /// What parsing `text` gives where `read` reads the numbers: a refusal
    /// for a text without fields, else what the three readings make.
    pub open spec fn spec_parse<E>(
        text: Seq<char>,
        read: spec_fn(Seq<char>) -> Result<T, E>,
    ) -> Result<GeoPoint<T>, ParseError<E>> {
        match fields(text) {
            None => Err(ParseError::MissingSeparator),
            Some((lat, lon, alt)) => GeoPoint::spec_from_numbers(read(lat), read(lon), read(alt)),
        }
    }

    /// Makes a point of what the three fields of a coordinate text read as.
    pub fn from_numbers<E>(lat: Result<T, E>, lon: Result<T, E>, alt: Result<T, E>) -> (outcome:
        Result<GeoPoint<T>, ParseError<E>>)
        ensures
            outcome == GeoPoint::spec_from_numbers(lat, lon, alt),
    {
        match lat {
            Err(e) => Err(ParseError::Latitude(e)),
            Ok(latitude) => match lon {
                Err(e) => Err(ParseError::Longitude(e)),
                Ok(longitude) => match alt {
                    Err(e) => Err(ParseError::Altitude(e)),
                    Ok(altitude) => Ok(GeoPoint { latitude, longitude, altitude }),
                },
            },
        }
    }

    /// Parses `"<lat>,<lon>,<alt>"`. The text is taken apart at its first two
    /// commas and `number` reads each of the three fields. A text with fewer
    /// than two commas is refused, and so is one with a field that `number`
    /// refuses; of several such fields the first is reported.
    pub fn parse<E, N: Fn(&str) -> Result<T, E>>(s: &str, number: N) -> (outcome: Result<
        GeoPoint<T>,
        ParseError<E>,
    >)
        requires
            forall|t: &str| number.requires((t,)),
        ensures
            comma_count(s@) < 2 <==> outcome == Err::<GeoPoint<T>, ParseError<E>>(
                ParseError::MissingSeparator,
            ),
            fields(s@) matches Some((lat, lon, alt)) ==> exists|
                x: Result<T, E>,
                y: Result<T, E>,
                z: Result<T, E>,
            |
                {
                    &&& #[trigger] reads(number, lat, x)
                    &&& #[trigger] reads(number, lon, y)
                    &&& #[trigger] reads(number, alt, z)
                    &&& outcome == GeoPoint::spec_from_numbers(x, y, z)
                },
            forall|read: spec_fn(Seq<char>) -> Result<T, E>| #[trigger]
                reads_as(number, read) ==> outcome == GeoPoint::spec_parse(s@, read),
    {
        proof {
            lemma_fields_iff_two_commas(s@);
        }
        match split_fields(s) {
            None => Err(ParseError::MissingSeparator),
            Some(f) => {
                let x = number(f.lat);
                let y = number(f.lon);
                let z = number(f.alt);
                proof {
                    let (lat, lon, alt) = fields(s@)->Some_0;
                    assert(reads(number, lat, x));
                    assert(reads(number, lon, y));
                    assert(reads(number, alt, z));
                }
                GeoPoint::from_numbers(x, y, z)
            },
        }
    }
}

/// Writing three numbers as text, joining the texts with commas and parsing
/// the result gives the three numbers back, as far as the reader of numbers
/// gives each back from its own text and neither of the first two texts
/// holds a comma.
pub proof fn lemma_parse_round_trip<T, E>(
    lat: Seq<char>,
    lon: Seq<char>,
    alt: Seq<char>,
    read: spec_fn(Seq<char>) -> Result<T, E>,
)
    requires
        comma_count(lat) == 0,
        comma_count(lon) == 0,
        read(lat) is Ok,
        read(lon) is Ok,
        read(alt) is Ok,
    ensures
        GeoPoint::spec_parse(joined(lat, lon, alt), read) == Ok::<GeoPoint<T>, ParseError<E>>(
            GeoPoint {
                latitude: read(lat)->Ok_0,
                longitude: read(lon)->Ok_0,
                altitude: read(alt)->Ok_0,
            },
        ),
{
    lemma_join_fields(lat, lon, alt);
}

/// Parsing refuses every text with fewer than two commas, and every text in
/// which one of the three fields does not read as a number; every other
/// text it accepts.
pub proof fn lemma_parse_refuses<T, E>(text: Seq<char>, read: spec_fn(Seq<char>) -> Result<T, E>)
    ensures
        comma_count(text) < 2 <==> GeoPoint::spec_parse(text, read) == Err::<
            GeoPoint<T>,
            ParseError<E>,
        >(ParseError::MissingSeparator),
        comma_count(text) >= 2 <==> fields(text) is Some,
        fields(text) matches Some((lat, lon, alt)) ==> (GeoPoint::spec_parse(text, read) is Err
            <==> read(lat) is Err || read(lon) is Err || read(alt) is Err),
{
    lemma_fields_iff_two_commas(text);
}

} // verus!
