//! Human-readable layouts of the records whose fields are floating-point
//! numbers. Each takes the numbers already written out as text and places
//! them; writing a floating-point number out is left to the caller.

use vstd::prelude::*;

verus! {

/// `{x: <x>, y: <y>}`.
pub open spec fn point_text(x: Seq<char>, y: Seq<char>) -> Seq<char> {
    seq!['{', 'x', ':', ' '] + x + seq![',', ' ', 'y', ':', ' '] + y + seq!['}']
}

/// `<real> + <imaginary>i`, whatever the sign of the imaginary part.
pub open spec fn complex_text(real_part: Seq<char>, imaginary_part: Seq<char>) -> Seq<char> {
    real_part + seq![' ', '+', ' '] + imaginary_part + seq!['i']
}

/// The hemisphere letter: `positive` for a non-negative coordinate,
/// `negative` for a negative one.
pub open spec fn hemisphere(is_negative: bool, positive: char, negative: char) -> char {
    if is_negative { negative } else { positive }
}

/// `<name>: <lat>° <N|S> <lon>° <E|W>`, where `lat` and `lon` are magnitudes
/// and the letters come from the coordinates' signs.
pub open spec fn city_text(
    name: Seq<char>,
    lat_magnitude: Seq<char>,
    lat_negative: bool,
    lon_magnitude: Seq<char>,
    lon_negative: bool,
) -> Seq<char> {
    name + seq![':', ' '] + lat_magnitude + seq!['°', ' ', hemisphere(lat_negative, 'N', 'S'), ' ']
        + lon_magnitude + seq!['°', ' ', hemisphere(lon_negative, 'E', 'W')]
}

/// Places a point's coordinates: `{x: <x>, y: <y>}`.
pub fn render_point(x: &str, y: &str) -> (r: String)
    ensures
        r@ == point_text(x@, y@),
{
    proof {
        reveal_strlit("{x: ");
        reveal_strlit(", y: ");
        reveal_strlit("}");
    }
    let mut out = String::from_str("{x: ");
    out.append(x);
    out.append(", y: ");
    out.append(y);
    out.append("}");
    assert(out@ =~= point_text(x@, y@));
    out
}

/// Places a complex number's parts: `<real> + <imaginary>i`.
pub fn render_complex(real_part: &str, imaginary_part: &str) -> (r: String)
    ensures
        r@ == complex_text(real_part@, imaginary_part@),
{
    proof {
        reveal_strlit(" + ");
        reveal_strlit("i");
    }
    let mut out = String::from_str(real_part);
    out.append(" + ");
    out.append(imaginary_part);
    out.append("i");
    assert(out@ =~= complex_text(real_part@, imaginary_part@));
    out
}

/// The one-letter string for a hemisphere.
fn hemisphere_str(is_negative: bool, latitude: bool) -> (r: &'static str)
    ensures
        latitude ==> r@ == seq![hemisphere(is_negative, 'N', 'S')],
        !latitude ==> r@ == seq![hemisphere(is_negative, 'E', 'W')],
{
    if latitude {
        if is_negative { proof { reveal_strlit("S"); } "S" } else { proof { reveal_strlit("N"); } "N" }
    } else {
        if is_negative { proof { reveal_strlit("W"); } "W" } else { proof { reveal_strlit("E"); } "E" }
    }
}

/// Places a city's name, the magnitudes of its coordinates and their
/// hemisphere letters: `<name>: <lat>° <N|S> <lon>° <E|W>`.
pub fn render_city(
    name: &str,
    lat_magnitude: &str,
    lat_negative: bool,
    lon_magnitude: &str,
    lon_negative: bool,
) -> (r: String)
    ensures
        r@ == city_text(name@, lat_magnitude@, lat_negative, lon_magnitude@, lon_negative),
{
    proof {
        reveal_strlit(": ");
        reveal_strlit("° ");
        reveal_strlit(" ");
    }
    let mut out = String::from_str(name);
    out.append(": ");
    out.append(lat_magnitude);
    out.append("° ");
    out.append(hemisphere_str(lat_negative, true));
    out.append(" ");
    out.append(lon_magnitude);
    out.append("° ");
    out.append(hemisphere_str(lon_negative, false));
    assert(out@ =~= city_text(name@, lat_magnitude@, lat_negative, lon_magnitude@, lon_negative));
    out
}

} // verus!
