use vstd::prelude::*;

verus! {

#[verifier::external_type_specification]
#[verifier::external_body]
pub struct ExParseHexColorError(hex_color::ParseHexColorError);

/// An opaque colour as three 8-bit channels.
#[derive(Clone, Copy, Debug, PartialEq, Eq, Structural)]
pub struct Rgb {
    pub r: u8,
    pub g: u8,
    pub b: u8,
}

pub open spec fn is_hex_digit(c: char) -> bool {
    ||| ('0' <= c && c <= '9')
    ||| ('a' <= c && c <= 'f')
    ||| ('A' <= c && c <= 'F')
}

/// The value of a hexadecimal digit, in either case.
pub open spec fn hex_value(c: char) -> int {
    if '0' <= c && c <= '9' {
        c as int - '0' as int
    } else if 'a' <= c && c <= 'f' {
        c as int - 'a' as int + 10
    } else {
        c as int - 'A' as int + 10
    }
}

/// `#RRGGBB`: a `#` and six hexadecimal digits.
pub open spec fn is_full_rgb(s: Seq<char>) -> bool {
    &&& s.len() == 7
    &&& s[0] == '#'
    &&& forall|i: int| 1 <= i < 7 ==> is_hex_digit(#[trigger] s[i])
}

/// `#RGB`: a `#` and three hexadecimal digits.
pub open spec fn is_short_rgb(s: Seq<char>) -> bool {
    &&& s.len() == 4
    &&& s[0] == '#'
    &&& forall|i: int| 1 <= i < 4 ==> is_hex_digit(#[trigger] s[i])
}

/// A hex colour code in either accepted form.
pub open spec fn is_rgb_code(s: Seq<char>) -> bool {
    is_full_rgb(s) || is_short_rgb(s)
}

pub open spec fn starts_with_hash(s: Seq<char>) -> bool {
    s.len() > 0 && s[0] == '#'
}

/// The byte written by the two digits at `i` and `i + 1`.
pub open spec fn byte_at(s: Seq<char>, i: int) -> u8 {
    (16 * hex_value(s[i]) + hex_value(s[i + 1])) as u8
}

/// The byte written by the single digit at `i`, repeated.
pub open spec fn short_byte_at(s: Seq<char>, i: int) -> u8 {
    (17 * hex_value(s[i])) as u8
}

/// The colour that a hex colour code denotes.
pub open spec fn rgb_of(s: Seq<char>) -> Rgb {
    if s.len() == 7 {
        Rgb { r: byte_at(s, 1), g: byte_at(s, 3), b: byte_at(s, 5) }
    } else {
        Rgb { r: short_byte_at(s, 1), g: short_byte_at(s, 2), b: short_byte_at(s, 3) }
    }
}

/// Relies on hex_color::HexColor::parse_rgb: `#RRGGBB` and `#RGB` with
/// hexadecimal digits of either case parse to those channels; an empty string,
/// or one that does not start with `#`, is refused.
#[verifier::external_body]
fn parse_rgb(s: &str) -> (r: Result<Rgb, hex_color::ParseHexColorError>)
    ensures
        is_rgb_code(s@) ==> r is Ok && r->Ok_0 == rgb_of(s@),
        !starts_with_hash(s@) ==> r is Err,
{
    hex_color::HexColor::parse_rgb(s).map(|c| Rgb { r: c.r, g: c.g, b: c.b })
}

/// One palette entry: background and foreground colours, with the hex codes
/// they were read from, and an accent code.
#[derive(Clone, Copy)]
pub struct ColorEntry<'a> {
    pub bg_rgb: Rgb,
    pub fg_rgb: Rgb,
    pub accent: &'a str,
    pub bg_hex: &'a str,
    pub fg_hex: &'a str,
}

/// The entry's colours are those its hex codes denote.
pub open spec fn entry_consistent(e: ColorEntry) -> bool {
    &&& e.bg_rgb == rgb_of(e.bg_hex@)
    &&& e.fg_rgb == rgb_of(e.fg_hex@)
}

impl<'a> ColorEntry<'a> {
    fn new(bg_hex: &'a str, fg_hex: &'a str, accent: &'a str) -> (r: Self)
        requires
            is_rgb_code(bg_hex@),
            is_rgb_code(fg_hex@),
        ensures
            entry_consistent(r),
            r.bg_hex@ == bg_hex@,
            r.fg_hex@ == fg_hex@,
            r.accent@ == accent@,
    {
        ColorEntry {
            bg_rgb: parse_rgb(bg_hex).unwrap(),
            fg_rgb: parse_rgb(fg_hex).unwrap(),
            accent,
            bg_hex,
            fg_hex,
        }
    }
}

/// A fixed palette of colour entries with a cursor for walking through it.
pub struct ColorList<'a> {
    colors: Vec<ColorEntry<'a>>,
    index: usize,
}

impl<'a> ColorList<'a> {
    pub closed spec fn entries(&self) -> Seq<ColorEntry<'a>> {
        self.colors@
    }

    pub closed spec fn cursor(&self) -> nat {
        self.index as nat
    }

    /// The four-entry palette, cursor at its start.
    pub fn new() -> (r: Self)
        ensures
            r.cursor() == 0,
            r.entries().len() == 4,
            forall|i: int| 0 <= i < 4 ==> entry_consistent(#[trigger] r.entries()[i]),
            r.entries()[0].bg_hex@ == "#250EAE"@,
            r.entries()[1].bg_hex@ == "#330835"@,
            r.entries()[2].bg_hex@ == "#0d183a"@,
            r.entries()[3].bg_hex@ == "#592851"@,
            r.entries()[0].accent@ == "#46FF5D"@,
            r.entries()[1].accent@ == "#d3e775"@,
            r.entries()[2].accent@ == "#c4f941"@,
            r.entries()[3].accent@ == "#f1e729"@,
            forall|i: int| 0 <= i < 4 ==> (#[trigger] r.entries()[i]).fg_hex@ == "#FFFFFF"@,
    {
        let mut list = ColorList { colors: Vec::new(), index: 0 };
        list.instantiate_colors();
        list
    }

    fn add(&mut self, bg_hex: &'a str, fg_hex: &'a str, accent: &'a str)
        requires
            is_rgb_code(bg_hex@),
            is_rgb_code(fg_hex@),
        ensures
            final(self).index == old(self).index,
            final(self).colors@.len() == old(self).colors@.len() + 1,
            final(self).colors@.drop_last() == old(self).colors@,
            entry_consistent(final(self).colors@.last()),
            final(self).colors@.last().bg_hex@ == bg_hex@,
            final(self).colors@.last().fg_hex@ == fg_hex@,
            final(self).colors@.last().accent@ == accent@,
    {
        self.colors.push(ColorEntry::new(bg_hex, fg_hex, accent));
        assert(self.colors@.drop_last() =~= old(self).colors@);
    }

    fn instantiate_colors(&mut self)
        requires
            old(self).colors@.len() == 0,
        ensures
            final(self).index == old(self).index,
            final(self).colors@.len() == 4,
            forall|i: int| 0 <= i < 4 ==> entry_consistent(#[trigger] final(self).colors@[i]),
            final(self).colors@[0].bg_hex@ == "#250EAE"@,
            final(self).colors@[1].bg_hex@ == "#330835"@,
            final(self).colors@[2].bg_hex@ == "#0d183a"@,
            final(self).colors@[3].bg_hex@ == "#592851"@,
            final(self).colors@[0].accent@ == "#46FF5D"@,
            final(self).colors@[1].accent@ == "#d3e775"@,
            final(self).colors@[2].accent@ == "#c4f941"@,
            final(self).colors@[3].accent@ == "#f1e729"@,
            forall|i: int| 0 <= i < 4 ==> (#[trigger] final(self).colors@[i]).fg_hex@ == "#FFFFFF"@,
    {
        proof {
            reveal_strlit("#250EAE");
            reveal_strlit("#330835");
            reveal_strlit("#0d183a");
            reveal_strlit("#592851");
            reveal_strlit("#FFFFFF");
        }
        self.add("#250EAE", "#FFFFFF", "#46FF5D");
        self.add("#330835", "#FFFFFF", "#d3e775");
        self.add("#0d183a", "#FFFFFF", "#c4f941");
        self.add("#592851", "#FFFFFF", "#f1e729");
    }

    /// The entry under the cursor; the cursor then moves on by one.
    pub fn next_color(&mut self) -> (r: ColorEntry<'a>)
        requires
            old(self).cursor() < old(self).entries().len(),
        ensures
            r == old(self).entries()[old(self).cursor() as int],
            final(self).cursor() == old(self).cursor() + 1,
            final(self).entries() == old(self).entries(),
    {
        let color = self.colors[self.index];
        assert(self.index < self.colors.len());
        self.index = self.index + 1;
        color
    }

    /// The entry at `index`, or the last entry when `index` is past the end.
    pub fn get_color(&self, index: usize) -> (r: ColorEntry<'a>)
        requires
            self.entries().len() > 0,
        ensures
            r == self.entries()[if index < self.entries().len() { index as int } else { self.entries().len() - 1 }],
    {
        let mut i = index;
        if i >= self.colors.len() {
            i = self.colors.len() - 1;
        }
        self.colors[i]
    }

    /// Where the cursor stands.
    pub fn index(&self) -> (r: usize)
        ensures
            r == self.cursor(),
    {
        self.index
    }

    /// The number of entries.
    pub fn len(&self) -> (r: usize)
        ensures
            r == self.entries().len(),
    {
        self.colors.len()
    }
}

} // verus!
