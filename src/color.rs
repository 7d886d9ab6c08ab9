//! An RGB color with one byte per channel.

use vstd::prelude::*;
use crate::record::{contains, field_entry, field_views, lemma_record_shows_fields, record_text, render_record};
use crate::text::{hex_byte_text, nat_text, push_hex_byte, push_unsigned, unsigned_string};

verus! {

/// Red, green and blue channels; every byte value is valid.
pub struct Color {
    pub red: u8,
    pub green: u8,
    pub blue: u8,
}

/// Human-readable text of a color: `RGB(r, g, b) 0xRRGGBB`, the channels
/// first in decimal, then each as two upper-case hexadecimal digits.
pub open spec fn color_text(red: u8, green: u8, blue: u8) -> Seq<char> {
    seq!['R', 'G', 'B', '('] + nat_text(red as nat) + seq![',', ' '] + nat_text(green as nat)
        + seq![',', ' '] + nat_text(blue as nat) + seq![')', ' ', '0', 'x'] + hex_byte_text(red)
        + hex_byte_text(green) + hex_byte_text(blue)
}

/// The field names and values that diagnostic text of a color shows.
pub open spec fn color_fields(red: u8, green: u8, blue: u8) -> Seq<(Seq<char>, Seq<char>)> {
    seq![
        ("red"@, nat_text(red as nat)),
        ("green"@, nat_text(green as nat)),
        ("blue"@, nat_text(blue as nat)),
    ]
}

/// Diagnostic text of a color.
pub open spec fn color_diagnostic(red: u8, green: u8, blue: u8) -> Seq<char> {
    record_text("Color"@, color_fields(red, green, blue))
}

impl Color {
    /// A color from its three channels.
    pub fn new(red: u8, green: u8, blue: u8) -> (r: Color)
        ensures
            r.red == red,
            r.green == green,
            r.blue == blue,
    {
        Color { red, green, blue }
    }

    /// `RGB(r, g, b) 0xRRGGBB`.
    pub fn render(&self) -> (r: String)
        ensures
            r@ == color_text(self.red, self.green, self.blue),
    {
        proof {
            reveal_strlit("RGB(");
            reveal_strlit(", ");
            reveal_strlit(") 0x");
        }
        let mut out = String::from_str("RGB(");
        push_unsigned(&mut out, self.red as u64);
        out.append(", ");
        push_unsigned(&mut out, self.green as u64);
        out.append(", ");
        push_unsigned(&mut out, self.blue as u64);
        out.append(") 0x");
        push_hex_byte(&mut out, self.red);
        push_hex_byte(&mut out, self.green);
        push_hex_byte(&mut out, self.blue);
        assert(out@ =~= color_text(self.red, self.green, self.blue));
        out
    }

    /// `Color { red: .., green: .., blue: .. }`, channels in decimal.
    pub fn diagnostic(&self) -> (r: String)
        ensures
            r@ == color_diagnostic(self.red, self.green, self.blue),
    {
        let fields = vec![
            (String::from_str("red"), unsigned_string(self.red as u64)),
            (String::from_str("green"), unsigned_string(self.green as u64)),
            (String::from_str("blue"), unsigned_string(self.blue as u64)),
        ];
        let r = render_record("Color", &fields);
        assert(field_views(fields@) =~= color_fields(self.red, self.green, self.blue));
        r
    }
}

/// The diagnostic text of a color begins with its type name and shows each
/// field as `name: value`.
pub proof fn lemma_color_diagnostic_shows_fields(red: u8, green: u8, blue: u8)
    ensures
        color_diagnostic(red, green, blue).take("Color"@.len() as int) == "Color"@,
        contains(color_diagnostic(red, green, blue), field_entry(("red"@, nat_text(red as nat)))),
        contains(color_diagnostic(red, green, blue), field_entry(("green"@, nat_text(green as nat)))),
        contains(color_diagnostic(red, green, blue), field_entry(("blue"@, nat_text(blue as nat)))),
{
    lemma_record_shows_fields("Color"@, color_fields(red, green, blue));
    assert(color_fields(red, green, blue)[0] == ("red"@, nat_text(red as nat)));
    assert(color_fields(red, green, blue)[1] == ("green"@, nat_text(green as nat)));
    assert(color_fields(red, green, blue)[2] == ("blue"@, nat_text(blue as nat)));
}

} // verus!
