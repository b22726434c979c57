//! Colour theme of the panel, read from a stylesheet-like text file.
//!
//! The file holds lines of the form `@define-color <key> #<hex>;`.  A
//! six-digit hexadecimal value is widened to full opacity; malformed
//! values and unrecognised keys are skipped, keeping the compiled-in
//! defaults for the colours they would have set.

use vstd::prelude::*;
use crate::text::{
    find_char,
    index_of_char,
    line_views,
    lines_of,
    split_lines,
    starts_with,
    str_eq,
    str_starts_with,
};

verus! {

/// A colour as the theme stores it: one byte per channel.
#[derive(Clone, Copy, PartialEq, Eq, Structural, Debug)]
pub struct Rgba {
    pub red: u8,
    pub green: u8,
    pub blue: u8,
    pub alpha: u8,
}

impl Rgba {
    /// A fully opaque colour.
    pub fn opaque(red: u8, green: u8, blue: u8) -> (c: Rgba)
        ensures
            c == (Rgba { red, green, blue, alpha: 255u8 }),
    {
        Rgba { red, green, blue, alpha: 255 }
    }
}

/// The seven named theme colours.
#[derive(Clone, Copy, PartialEq, Eq, Structural, Debug)]
pub struct Colors {
    pub background: Rgba,
    pub surface: Rgba,
    pub on_surface: Rgba,
    pub primary: Rgba,
    pub on_primary: Rgba,
    pub secondary: Rgba,
    pub on_secondary: Rgba,
}

/// The compiled-in defaults: dark gray surfaces, light gray text, blue
/// accents.
pub open spec fn default_colors() -> Colors {
    Colors {
        background: Rgba { red: 30, green: 30, blue: 30, alpha: 255 },
        surface: Rgba { red: 30, green: 30, blue: 30, alpha: 255 },
        on_surface: Rgba { red: 200, green: 200, blue: 200, alpha: 255 },
        primary: Rgba { red: 0, green: 120, blue: 215, alpha: 255 },
        on_primary: Rgba { red: 255, green: 255, blue: 255, alpha: 255 },
        secondary: Rgba { red: 0, green: 153, blue: 204, alpha: 255 },
        on_secondary: Rgba { red: 255, green: 255, blue: 255, alpha: 255 },
    }
}

impl Default for Colors {
    fn default() -> (c: Colors)
        ensures
            c == default_colors(),
    {
        Colors {
            background: Rgba::opaque(30, 30, 30),
            surface: Rgba::opaque(30, 30, 30),
            on_surface: Rgba::opaque(200, 200, 200),
            primary: Rgba::opaque(0, 120, 215),
            on_primary: Rgba::opaque(255, 255, 255),
            secondary: Rgba::opaque(0, 153, 204),
            on_secondary: Rgba::opaque(255, 255, 255),
        }
    }
}

/// Whether `c` is a hexadecimal digit, by its code point: a decimal
/// digit, or a letter between `a` and `f` in either case.
pub open spec fn is_hex_digit(c: char) -> bool {
    let u = c as u32;
    (48 <= u && u <= 57) || (97 <= u && u <= 102) || (65 <= u && u <= 70)
}

/// The numeric value of a hexadecimal digit.
pub open spec fn hex_digit_value(c: char) -> int
    recommends
        is_hex_digit(c),
{
    let u = c as u32;
    if 97 <= u {
        u - 87
    } else if 65 <= u {
        u - 55
    } else {
        u - 48
    }
}

/// The byte two hexadecimal digits spell.
pub open spec fn hex_byte_value(hi: char, lo: char) -> int {
    hex_digit_value(hi) * 16 + hex_digit_value(lo)
}

fn hex_value(c: char) -> (v: u8)
    requires
        is_hex_digit(c),
    ensures
        v as int == hex_digit_value(c),
{
    let u = c as u32;
    if u >= 97 {
        (u - 87) as u8
    } else if u >= 65 {
        (u - 55) as u8
    } else {
        (u - 48) as u8
    }
}

fn char_is_hex_digit(c: char) -> (b: bool)
    ensures
        b == is_hex_digit(c),
{
    let u = c as u32;
    (48 <= u && u <= 57) || (97 <= u && u <= 102) || (65 <= u && u <= 70)
}

/// A value token with its optional trailing semicolon removed.
pub open spec fn color_token_body(t: Seq<char>) -> Seq<char> {
    if t.len() > 0 && t[t.len() - 1] == ';' {
        t.subrange(0, t.len() - 1)
    } else {
        t
    }
}

/// A colour value token: `#` followed by six hexadecimal digits, with an
/// optional trailing semicolon.  A shorter or longer digit run is
/// malformed and yields nothing; the alpha channel is always full.
pub open spec fn parse_color_token(t: Seq<char>) -> Option<Rgba> {
    let body = color_token_body(t);
    if body.len() == 7 && body[0] == '#' && is_hex_digit(body[1]) && is_hex_digit(body[2])
        && is_hex_digit(body[3]) && is_hex_digit(body[4]) && is_hex_digit(body[5]) && is_hex_digit(
        body[6],
    ) {
        Some(
            Rgba {
                red: hex_byte_value(body[1], body[2]) as u8,
                green: hex_byte_value(body[3], body[4]) as u8,
                blue: hex_byte_value(body[5], body[6]) as u8,
                alpha: 255,
            },
        )
    } else {
        None
    }
}

fn parse_color_token_exec(t: &str) -> (r: Option<Rgba>)
    ensures
        r == parse_color_token(t@),
{
    let n = t.unicode_len();
    let body: &str = if n > 0 && t.get_char(n - 1) == ';' {
        t.substring_char(0, n - 1)
    } else {
        t
    };
    let bn = body.unicode_len();
    if bn != 7 {
        return None;
    }
    if body.get_char(0) != '#' {
        return None;
    }
    let mut k: usize = 1;
    while k < 7
        invariant
            1 <= k <= 7,
            body@ == color_token_body(t@),
            body@.len() == 7,
            body@[0] == '#',
            forall|j: int| 1 <= j < k ==> is_hex_digit(body@[j]),
        decreases 7 - k,
    {
        if !char_is_hex_digit(body.get_char(k)) {
            return None;
        }
        k += 1;
    }
    let red = hex_value(body.get_char(1)) * 16 + hex_value(body.get_char(2));
    let green = hex_value(body.get_char(3)) * 16 + hex_value(body.get_char(4));
    let blue = hex_value(body.get_char(5)) * 16 + hex_value(body.get_char(6));
    Some(Rgba { red, green, blue, alpha: 255 })
}

/// Overwrite the theme colour a recognised key names; an unrecognised key
/// changes nothing.
pub open spec fn apply_color_def(c: Colors, key: Seq<char>, v: Rgba) -> Colors {
    if key == "surface_container_lowest"@ {
        Colors { background: v, ..c }
    } else if key == "surface_container_low"@ {
        Colors { surface: v, ..c }
    } else if key == "on_surface_variant"@ {
        Colors { on_surface: v, ..c }
    } else if key == "primary_fixed_dim"@ {
        Colors { primary: v, ..c }
    } else if key == "on_primary_fixed"@ {
        Colors { on_primary: v, ..c }
    } else if key == "secondary_fixed_dim"@ {
        Colors { secondary: v, ..c }
    } else if key == "on_secondary_fixed"@ {
        Colors { on_secondary: v, ..c }
    } else {
        c
    }
}

/// Parse one stylesheet line.  A definition line reads
/// `@define-color <key> <value>`: the directive, the key up to the next
/// blank, then the value token; text after the value is ignored.  Any
/// other line yields nothing.
pub open spec fn parse_color_line(line: Seq<char>) -> Option<(Seq<char>, Rgba)> {
    if !starts_with(line, "@define-color "@) {
        None
    } else {
        let rest = line.subrange("@define-color "@.len() as int, line.len() as int);
        let k = index_of_char(rest, ' ');
        if k >= rest.len() {
            None
        } else {
            let key = rest.subrange(0, k);
            let after = rest.subrange(k + 1, rest.len() as int);
            let value = after.subrange(0, index_of_char(after, ' '));
            match parse_color_token(value) {
                Some(v) => Some((key, v)),
                None => None,
            }
        }
    }
}

/// One line applied to a theme: a line that parses overwrites the colour
/// its key names, every other line leaves the theme unchanged.
pub open spec fn apply_color_line(c: Colors, line: Seq<char>) -> Colors {
    match parse_color_line(line) {
        Some(kv) => apply_color_def(c, kv.0, kv.1),
        None => c,
    }
}

/// A whole stylesheet applied line by line, first line first.
pub open spec fn apply_stylesheet(c: Colors, lines: Seq<Seq<char>>) -> Colors
    decreases lines.len(),
{
    if lines.len() == 0 {
        c
    } else {
        apply_stylesheet(apply_color_line(c, lines[0]), lines.drop_first())
    }
}

fn apply_line(c: &mut Colors, line: &str)
    ensures
        *final(c) == apply_color_line(*old(c), line@),
{
    if !str_starts_with(line, "@define-color ") {
        return;
    }
    let plen = "@define-color ".unicode_len();
    let n = line.unicode_len();
    let rest = line.substring_char(plen, n);
    let rn = rest.unicode_len();
    let k = find_char(rest, ' ');
    if k >= rn {
        return;
    }
    let key = rest.substring_char(0, k);
    let after = rest.substring_char(k + 1, rn);
    let vend = find_char(after, ' ');
    let value = after.substring_char(0, vend);
    let parsed = parse_color_token_exec(value);
    match parsed {
        None => {},
        Some(v) => {
            if str_eq(key, "surface_container_lowest") {
                c.background = v;
            } else if str_eq(key, "surface_container_low") {
                c.surface = v;
            } else if str_eq(key, "on_surface_variant") {
                c.on_surface = v;
            } else if str_eq(key, "primary_fixed_dim") {
                c.primary = v;
            } else if str_eq(key, "on_primary_fixed") {
                c.on_primary = v;
            } else if str_eq(key, "secondary_fixed_dim") {
                c.secondary = v;
            } else if str_eq(key, "on_secondary_fixed") {
                c.on_secondary = v;
            }
        },
    }
}

impl Colors {
    /// Read a theme from stylesheet text: start from the defaults and
    /// apply each definition line in order.
    pub fn from_stylesheet(contents: &str) -> (c: Colors)
        ensures
            c == apply_stylesheet(default_colors(), split_lines(contents@)),
    {
        let lines = lines_of(contents);
        let mut c = Colors::default();
        let count = lines.len();
        proof {
            assert(line_views(lines@).subrange(0, count as int) =~= split_lines(contents@));
        }
        let mut i: usize = 0;
        while i < count
            invariant
                i <= count,
                count == lines@.len(),
                line_views(lines@) == split_lines(contents@),
                apply_stylesheet(c, line_views(lines@).subrange(i as int, count as int))
                    == apply_stylesheet(default_colors(), split_lines(contents@)),
            decreases count - i,
        {
            let ghost views = line_views(lines@);
            let ghost pre = c;
            apply_line(&mut c, lines[i].as_str());
            proof {
                assert(views.subrange(i as int, count as int)[0] == views[i as int]);
                assert(views.subrange(i as int, count as int).drop_first() =~= views.subrange(
                    i + 1,
                    count as int,
                ));
                assert(apply_stylesheet(pre, views.subrange(i as int, count as int))
                    == apply_stylesheet(c, views.subrange(i + 1, count as int)));
            }
            i += 1;
        }
        proof {
            assert(line_views(lines@).subrange(count as int, count as int)
                =~= Seq::<Seq<char>>::empty());
        }
        c
    }
}

} // verus!
