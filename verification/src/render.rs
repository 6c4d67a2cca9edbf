//! Textual rendering of result payloads.
//!
//! A success payload is rendered as a bracketed, comma-separated sequence
//! of records, each record as its type name with its fields. The spec
//! functions here pin the rendering character by character; the executable
//! functions are proved to produce exactly that.

use vstd::prelude::*;
use crate::records::Country;
use crate::records::Location;
use crate::records::Measurement;

verus! {

/// The decimal digit character of one digit value.
pub open spec fn spec_digit_char(d: nat) -> char
    recommends
        d < 10,
{
    if d == 0 {
        '0'
    } else if d == 1 {
        '1'
    } else if d == 2 {
        '2'
    } else if d == 3 {
        '3'
    } else if d == 4 {
        '4'
    } else if d == 5 {
        '5'
    } else if d == 6 {
        '6'
    } else if d == 7 {
        '7'
    } else if d == 8 {
        '8'
    } else {
        '9'
    }
}

/// The decimal rendering of a natural number, most significant digit
/// first, with no leading zero except for zero itself.
pub open spec fn spec_nat_digits(n: nat) -> Seq<char>
    decreases n,
{
    if n < 10 {
        seq![spec_digit_char(n)]
    } else {
        spec_nat_digits(n / 10).push(spec_digit_char(n % 10))
    }
}

/// The decimal rendering of an integer: a minus sign before the digits of
/// the magnitude when negative.
pub open spec fn spec_int_digits(v: int) -> Seq<char> {
    if v < 0 {
        seq!['-'] + spec_nat_digits((-v) as nat)
    } else {
        spec_nat_digits(v as nat)
    }
}

fn digit_str(d: u64) -> (r: &'static str)
    requires
        d < 10,
    ensures
        r@ == seq![spec_digit_char(d as nat)],
{
    let r: &'static str = if d == 0 {
        "0"
    } else if d == 1 {
        "1"
    } else if d == 2 {
        "2"
    } else if d == 3 {
        "3"
    } else if d == 4 {
        "4"
    } else if d == 5 {
        "5"
    } else if d == 6 {
        "6"
    } else if d == 7 {
        "7"
    } else if d == 8 {
        "8"
    } else {
        "9"
    };
    proof {
        reveal_strlit("0");
        reveal_strlit("1");
        reveal_strlit("2");
        reveal_strlit("3");
        reveal_strlit("4");
        reveal_strlit("5");
        reveal_strlit("6");
        reveal_strlit("7");
        reveal_strlit("8");
        reveal_strlit("9");
        assert(r@ =~= seq![spec_digit_char(d as nat)]);
    }
    r
}

/// Renders a natural number in decimal.
pub fn u64_to_string(n: u64) -> (s: String)
    ensures
        s@ == spec_nat_digits(n as nat),
    decreases n,
{
    if n < 10 {
        String::from_str(digit_str(n))
    } else {
        let mut s = u64_to_string(n / 10);
        s.append(digit_str(n % 10));
        proof {
            assert(s@ =~= spec_nat_digits(n as nat));
        }
        s
    }
}

/// Renders an integer in decimal, minus sign first when negative.
pub fn i64_to_string(v: i64) -> (s: String)
    ensures
        s@ == spec_int_digits(v as int),
{
    if v >= 0 {
        u64_to_string(v as u64)
    } else {
        let wide: i128 = -(v as i128);
        let mag: u64 = wide as u64;
        let mut s = String::from_str("-");
        let digits = u64_to_string(mag);
        s.append(digits.as_str());
        proof {
            reveal_strlit("-");
            assert(s@ =~= spec_int_digits(v as int));
        }
        s
    }
}

/// The rendering of one country record.
pub open spec fn spec_render_country(c: Country) -> Seq<char> {
    "Country { id: "@ + spec_int_digits(c.countries_id as int) + ", name: \""@ + c.name@ + "\" }"@
}

/// The rendering of one location record.
pub open spec fn spec_render_location(l: Location) -> Seq<char> {
    "Location { id: "@ + spec_int_digits(l.locations_id as int) + ", name: \""@ + l.name@
        + "\" }"@
}

/// The rendering of one latest-measurement record.
pub open spec fn spec_render_measurement(m: Measurement) -> Seq<char> {
    "Measurement { sensors_id: "@ + spec_int_digits(m.sensors_id as int) + ", datetime: \""@
        + m.datetime@ + "\", value: "@ + m.value@ + " }"@
}

/// The comma-separated renderings of a record sequence, without brackets.
pub open spec fn spec_render_countries_inner(s: Seq<Country>) -> Seq<char>
    decreases s.len(),
{
    if s.len() == 0 {
        Seq::empty()
    } else if s.len() == 1 {
        spec_render_country(s[0])
    } else {
        spec_render_countries_inner(s.drop_last()) + ", "@ + spec_render_country(s.last())
    }
}

/// The full rendering of a country payload: the bracketed record sequence.
pub open spec fn spec_render_country_list(s: Seq<Country>) -> Seq<char> {
    "["@ + spec_render_countries_inner(s) + "]"@
}

/// The comma-separated renderings of a record sequence, without brackets.
pub open spec fn spec_render_locations_inner(s: Seq<Location>) -> Seq<char>
    decreases s.len(),
{
    if s.len() == 0 {
        Seq::empty()
    } else if s.len() == 1 {
        spec_render_location(s[0])
    } else {
        spec_render_locations_inner(s.drop_last()) + ", "@ + spec_render_location(s.last())
    }
}

/// The full rendering of a location payload: the bracketed record sequence.
pub open spec fn spec_render_location_list(s: Seq<Location>) -> Seq<char> {
    "["@ + spec_render_locations_inner(s) + "]"@
}

/// The comma-separated renderings of a record sequence, without brackets.
pub open spec fn spec_render_measurements_inner(s: Seq<Measurement>) -> Seq<char>
    decreases s.len(),
{
    if s.len() == 0 {
        Seq::empty()
    } else if s.len() == 1 {
        spec_render_measurement(s[0])
    } else {
        spec_render_measurements_inner(s.drop_last()) + ", "@ + spec_render_measurement(s.last())
    }
}

/// The full rendering of a measurement payload: the bracketed record
/// sequence.
pub open spec fn spec_render_measurement_list(s: Seq<Measurement>) -> Seq<char> {
    "["@ + spec_render_measurements_inner(s) + "]"@
}

/// Renders one country record.
pub fn render_country(c: &Country) -> (out: String)
    ensures
        out@ == spec_render_country(*c),
{
    let mut out = String::from_str("Country { id: ");
    let id = i64_to_string(c.countries_id);
    out.append(id.as_str());
    out.append(", name: \"");
    out.append(c.name.as_str());
    out.append("\" }");
    proof {
        assert(out@ =~= spec_render_country(*c));
    }
    out
}

/// Renders one location record.
pub fn render_location(l: &Location) -> (out: String)
    ensures
        out@ == spec_render_location(*l),
{
    let mut out = String::from_str("Location { id: ");
    let id = i64_to_string(l.locations_id);
    out.append(id.as_str());
    out.append(", name: \"");
    out.append(l.name.as_str());
    out.append("\" }");
    proof {
        assert(out@ =~= spec_render_location(*l));
    }
    out
}

/// Renders one latest-measurement record.
pub fn render_measurement(m: &Measurement) -> (out: String)
    ensures
        out@ == spec_render_measurement(*m),
{
    let mut out = String::from_str("Measurement { sensors_id: ");
    let id = i64_to_string(m.sensors_id);
    out.append(id.as_str());
    out.append(", datetime: \"");
    out.append(m.datetime.as_str());
    out.append("\", value: ");
    out.append(m.value.as_str());
    out.append(" }");
    proof {
        assert(out@ =~= spec_render_measurement(*m));
    }
    out
}

/// Renders a country payload.
pub fn render_country_list(results: &Vec<Country>) -> (out: String)
    ensures
        out@ == spec_render_country_list(results@),
{
    let mut out = String::from_str("[");
    let mut i: usize = 0;
    while i < results.len()
        invariant
            i <= results@.len(),
            out@ == "["@ + spec_render_countries_inner(results@.subrange(0, i as int)),
        decreases results@.len() - i,
    {
        if i > 0 {
            out.append(", ");
        }
        let piece = render_country(&results[i]);
        out.append(piece.as_str());
        proof {
            let pre = results@.subrange(0, i as int);
            let post = results@.subrange(0, i as int + 1);
            assert(post.drop_last() =~= pre);
            assert(post.last() == results@[i as int]);
            assert(out@ =~= "["@ + spec_render_countries_inner(post));
        }
        i += 1;
    }
    out.append("]");
    proof {
        assert(results@.subrange(0, results@.len() as int) =~= results@);
        assert(out@ =~= spec_render_country_list(results@));
    }
    out
}

/// Renders a location payload.
pub fn render_location_list(results: &Vec<Location>) -> (out: String)
    ensures
        out@ == spec_render_location_list(results@),
{
    let mut out = String::from_str("[");
    let mut i: usize = 0;
    while i < results.len()
        invariant
            i <= results@.len(),
            out@ == "["@ + spec_render_locations_inner(results@.subrange(0, i as int)),
        decreases results@.len() - i,
    {
        if i > 0 {
            out.append(", ");
        }
        let piece = render_location(&results[i]);
        out.append(piece.as_str());
        proof {
            let pre = results@.subrange(0, i as int);
            let post = results@.subrange(0, i as int + 1);
            assert(post.drop_last() =~= pre);
            assert(post.last() == results@[i as int]);
            assert(out@ =~= "["@ + spec_render_locations_inner(post));
        }
        i += 1;
    }
    out.append("]");
    proof {
        assert(results@.subrange(0, results@.len() as int) =~= results@);
        assert(out@ =~= spec_render_location_list(results@));
    }
    out
}

/// Renders a measurement payload.
pub fn render_measurement_list(results: &Vec<Measurement>) -> (out: String)
    ensures
        out@ == spec_render_measurement_list(results@),
{
    let mut out = String::from_str("[");
    let mut i: usize = 0;
    while i < results.len()
        invariant
            i <= results@.len(),
            out@ == "["@ + spec_render_measurements_inner(results@.subrange(0, i as int)),
        decreases results@.len() - i,
    {
        if i > 0 {
            out.append(", ");
        }
        let piece = render_measurement(&results[i]);
        out.append(piece.as_str());
        proof {
            let pre = results@.subrange(0, i as int);
            let post = results@.subrange(0, i as int + 1);
            assert(post.drop_last() =~= pre);
            assert(post.last() == results@[i as int]);
            assert(out@ =~= "["@ + spec_render_measurements_inner(post));
        }
        i += 1;
    }
    out.append("]");
    proof {
        assert(results@.subrange(0, results@.len() as int) =~= results@);
        assert(out@ =~= spec_render_measurement_list(results@));
    }
    out
}

} // verus!
