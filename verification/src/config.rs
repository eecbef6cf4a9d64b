use vstd::prelude::*;
use vstd::string::*;
use crate::text::{
    chars_of, dec_seq, debug_str, debug_text, digit_of, digit_value,
    push_decimal, slice_string, trim_start_char_len, trim_start_char_seq, views,
};

verus! {

// ── UTF-8 lengths ─────────────────────────────────────────────────────────────

/// Number of bytes that `c` takes in UTF-8.
pub open spec fn utf8_width(c: char) -> nat {
    let u = c as u32;
    if u < 0x80 {
        1
    } else if u < 0x800 {
        2
    } else if u < 0x10000 {
        3
    } else {
        4
    }
}

/// Length of `s` in UTF-8 bytes (`str::len`).
pub open spec fn byte_len(s: Seq<char>) -> nat
    decreases s.len(),
{
    if s.len() == 0 {
        0
    } else {
        byte_len(s.drop_last()) + utf8_width(s.last())
    }
}

pub open spec fn all_ascii(s: Seq<char>) -> bool {
    forall|i: int| 0 <= i < s.len() ==> (#[trigger] s[i] as u32) < 0x80
}

pub proof fn lemma_byte_len_ascii(s: Seq<char>)
    requires
        all_ascii(s),
    ensures
        byte_len(s) == s.len(),
    decreases s.len(),
{
    if s.len() > 0 {
        assert(all_ascii(s.drop_last())) by {
            assert forall|i: int| 0 <= i < s.drop_last().len() implies (
            #[trigger] s.drop_last()[i] as u32) < 0x80 by {
                assert(s.drop_last()[i] == s[i]);
            }
        }
        lemma_byte_len_ascii(s.drop_last());
        assert((s.last() as u32) < 0x80);
    }
}

pub proof fn lemma_byte_len_take(s: Seq<char>, i: int)
    requires
        0 <= i < s.len(),
    ensures
        byte_len(s.take(i + 1)) == byte_len(s.take(i)) + utf8_width(s[i]),
{
    assert(s.take(i + 1).drop_last() == s.take(i));
}

/// UTF-8 width of one character.
pub fn char_width(c: char) -> (w: usize)
    ensures
        w == utf8_width(c),
{
    let u = c as u32;
    if u < 0x80 {
        1
    } else if u < 0x800 {
        2
    } else if u < 0x10000 {
        3
    } else {
        4
    }
}

/// Byte length of `v`, and whether all of it is ASCII.
fn byte_facts(v: &Vec<char>) -> (r: (u128, bool))
    ensures
        r.0 == byte_len(v@),
        r.1 == all_ascii(v@),
{
    let mut n: u128 = 0;
    let mut ascii = true;
    let mut i: usize = 0;
    assert(v@.take(0) == Seq::<char>::empty());
    while i < v.len()
        invariant
            i <= v.len(),
            n == byte_len(v@.take(i as int)),
            n <= 4 * i,
            ascii == (forall|j: int| 0 <= j < i ==> (#[trigger] v@[j] as u32) < 0x80),
        decreases v.len() - i,
    {
        proof {
            lemma_byte_len_take(v@, i as int);
        }
        let w = char_width(v[i]);
        if (v[i] as u32) >= 0x80 {
            ascii = false;
        }
        n = n + w as u128;
        i = i + 1;
    }
    assert(v@.take(v.len() as int) == v@);
    (n, ascii)
}

// ── Hex colours ──────────────────────────────────────────────────────────────

/// Outcome of reading one colour field.
#[derive(Clone, Copy, Debug, PartialEq, Eq, Structural)]
pub enum HexOutcome {
    Rgb(u8, u8, u8),
    BadLength,
    NonHex,
}

/// Value of a pair of hex digits; none unless both characters are hex digits.
pub open spec fn hex_pair(a: char, b: char) -> Option<nat> {
    match (digit_value(a, 16), digit_value(b, 16)) {
        (Some(x), Some(y)) => Some(16 * x + y),
        _ => None,
    }
}

/// How a colour field is read once its leading `#`s are gone: six or eight hex characters
/// (`rrggbb` or `rrggbbaa`, the alpha pair checked and not used).
pub open spec fn hex_outcome(t: Seq<char>) -> HexOutcome {
    let n = byte_len(t);
    if n != 6 && n != 8 {
        HexOutcome::BadLength
    } else if !all_ascii(t) {
        HexOutcome::NonHex
    } else {
        match (hex_pair(t[0], t[1]), hex_pair(t[2], t[3]), hex_pair(t[4], t[5])) {
            (Some(r), Some(g), Some(b)) => {
                if n == 8 && hex_pair(t[6], t[7]) is None {
                    HexOutcome::NonHex
                } else {
                    HexOutcome::Rgb(r as u8, g as u8, b as u8)
                }
            },
            _ => HexOutcome::NonHex,
        }
    }
}

/// The field without its leading `#` characters.
pub open spec fn hex_body(s: Seq<char>) -> Seq<char> {
    trim_start_char_seq(s, '#')
}

/// A leading `#` does not change how a colour reads: `"#a6e3a1"` is `"a6e3a1"`.
pub proof fn law_hash_prefix_ignored(s: Seq<char>)
    ensures
        hex_body(seq!['#'] + s) == hex_body(s),
{
    assert((seq!['#'] + s).drop_first() == s);
}

/// The message recorded for a field that cannot be read, if any.
#[verifier::opaque]
pub open spec fn hex_error(field: Seq<char>, s: Seq<char>) -> Seq<Seq<char>> {
    let t = hex_body(s);
    match hex_outcome(t) {
        HexOutcome::Rgb(_, _, _) => seq![],
        HexOutcome::BadLength => seq![
            "colors."@ + field + ": expected 6- or 8-char hex (\"rrggbb\" or \"rrggbbaa\"), got "@
                + debug_text(t),
        ],
        HexOutcome::NonHex => seq![
            "colors."@ + field + ": "@ + debug_text(t) + " contains non-hex characters"@,
        ],
    }
}

/// Value of the hex pair at `v[i], v[i+1]`.
fn hex_pair_exec(v: &Vec<char>, i: usize) -> (r: Option<u8>)
    requires
        i + 1 < v.len(),
    ensures
        r matches Some(x) ==> hex_pair(v@[i as int], v@[i + 1]) == Some(x as nat),
        r is None ==> hex_pair(v@[i as int], v@[i + 1]) is None,
{
    match (digit_of(v[i], 16), digit_of(v[i + 1], 16)) {
        (Some(x), Some(y)) => {
            assert(x < 16 && y < 16);
            Some((16 * x + y) as u8)
        },
        _ => None,
    }
}

/// Parse a hex colour (`rrggbb` or `rrggbbaa`, leading `#`s ignored) into `(r, g, b)`.
/// Returns `None` and records a message in `errors` when the string is malformed.
pub fn parse_hex(s: &str, field: &str, errors: &mut Vec<String>) -> (r: Option<(u8, u8, u8)>)
    ensures
        match hex_outcome(hex_body(s@)) {
            HexOutcome::Rgb(x, y, z) => r == Some((x, y, z)),
            _ => r is None,
        },
        views(final(errors)@) == views(old(errors)@) + hex_error(field@, s@),
{
    let v = chars_of(s);
    let i = trim_start_char_len(&v, '#');
    let t = slice_string(&v, i, v.len());
    let w = chars_of(t.as_str());
    let (n, ascii) = byte_facts(&w);
    let ghost old_views = views(errors@);
    proof {
        reveal(hex_error);
    }
    if n != 6 && n != 8 {
        let mut msg = String::from_str("colors.");
        msg.append(field);
        msg.append(": expected 6- or 8-char hex (\"rrggbb\" or \"rrggbbaa\"), got ");
        let q = debug_str(t.as_str());
        msg.append(q.as_str());
        errors.push(msg);
        assert(views(errors@) == old_views.push(msg@));
        return None;
    }
    if !ascii {
        let mut msg = String::from_str("colors.");
        msg.append(field);
        msg.append(": ");
        let q = debug_str(t.as_str());
        msg.append(q.as_str());
        msg.append(" contains non-hex characters");
        errors.push(msg);
        assert(views(errors@) == old_views.push(msg@));
        return None;
    }
    proof {
        lemma_byte_len_ascii(w@);
    }
    let r = hex_pair_exec(&w, 0);
    let g = hex_pair_exec(&w, 2);
    let b = hex_pair_exec(&w, 4);
    let a_ok = if n == 8 {
        hex_pair_exec(&w, 6).is_some()
    } else {
        true
    };
    match (r, g, b) {
        (Some(r), Some(g), Some(b)) => {
            if a_ok {
                assert(views(errors@) == old_views);
                return Some((r, g, b));
            }
        },
        _ => {},
    }
    let mut msg = String::from_str("colors.");
    msg.append(field);
    msg.append(": ");
    let q = debug_str(t.as_str());
    msg.append(q.as_str());
    msg.append(" contains non-hex characters");
    errors.push(msg);
    assert(views(errors@) == old_views.push(msg@));
    None
}

// ── ANSI sequences ───────────────────────────────────────────────────────────

/// The 24-bit foreground escape `ESC[38;2;r;g;bm`.
pub open spec fn ansi_seq(c: (u8, u8, u8)) -> Seq<char> {
    "\x1b[38;2;"@ + dec_seq(c.0 as nat) + ";"@ + dec_seq(c.1 as nat) + ";"@ + dec_seq(c.2 as nat)
        + "m"@
}

/// The 24-bit foreground escape for `(r, g, b)`.
pub fn ansi_fg(r: u8, g: u8, b: u8) -> (s: String)
    ensures
        s@ == ansi_seq((r, g, b)),
{
    let mut s = String::from_str("\x1b[38;2;");
    push_decimal(&mut s, r as u128);
    s.append(";");
    push_decimal(&mut s, g as u128);
    s.append(";");
    push_decimal(&mut s, b as u128);
    s.append("m");
    s
}

/// The colour a field gives, or the fallback when the field cannot be read.
pub open spec fn colour_or(s: Seq<char>, d: (u8, u8, u8)) -> (u8, u8, u8) {
    match hex_outcome(hex_body(s)) {
        HexOutcome::Rgb(r, g, b) => (r, g, b),
        _ => d,
    }
}

/// The Catppuccin Mocha colour of each named field.
pub open spec fn mocha_green() -> (u8, u8, u8) {
    (166, 227, 161)
}

pub open spec fn mocha_blue() -> (u8, u8, u8) {
    (137, 180, 250)
}

pub open spec fn mocha_red() -> (u8, u8, u8) {
    (243, 139, 168)
}

pub open spec fn mocha_yellow() -> (u8, u8, u8) {
    (249, 226, 175)
}

pub open spec fn mocha_mauve() -> (u8, u8, u8) {
    (203, 166, 247)
}

pub open spec fn mocha_peach() -> (u8, u8, u8) {
    (250, 179, 135)
}

pub open spec fn mocha_teal() -> (u8, u8, u8) {
    (148, 226, 213)
}

pub open spec fn mocha_text() -> (u8, u8, u8) {
    (205, 214, 244)
}

pub open spec fn mocha_subtext1() -> (u8, u8, u8) {
    (186, 194, 222)
}

pub open spec fn mocha_subtext0() -> (u8, u8, u8) {
    (166, 173, 200)
}

pub open spec fn mocha_surface2() -> (u8, u8, u8) {
    (88, 91, 112)
}

pub open spec fn mocha_surface1() -> (u8, u8, u8) {
    (69, 71, 90)
}

pub open spec fn mocha_rosewater() -> (u8, u8, u8) {
    (245, 224, 220)
}

pub open spec fn mocha_flamingo() -> (u8, u8, u8) {
    (242, 205, 205)
}

/// Resolve one field to its escape sequence, falling back to `d`.
fn resolve_field(s: &str, field: &str, d: (u8, u8, u8), errors: &mut Vec<String>) -> (r: String)
    ensures
        r@ == ansi_seq(colour_or(s@, d)),
        views(final(errors)@) == views(old(errors)@) + hex_error(field@, s@),
{
    let (r, g, b) = match parse_hex(s, field, errors) {
        Some(c) => c,
        None => d,
    };
    ansi_fg(r, g, b)
}

// ── Resolved (eager) colour set ───────────────────────────────────────────────

/// Ready-to-use ANSI escape sequences, produced once at load time.
#[derive(Debug, Clone)]
pub struct ResolvedColors {
    pub reset: String,
    pub bold: String,
    pub dim: String,
    pub italic: String,
    pub green: String,
    pub blue: String,
    pub red: String,
    pub yellow: String,
    pub mauve: String,
    pub peach: String,
    pub teal: String,
    pub text: String,
    pub subtext1: String,
    pub subtext0: String,
    pub surface2: String,
    pub surface1: String,
    pub rosewater: String,
    pub flamingo: String,
}

/// All colour fields are hex strings (`rrggbb` or `rrggbbaa`).
/// Defaults are Catppuccin Mocha.
#[derive(Debug, Clone)]
pub struct ColorHexConfig {
    pub green: String,
    pub blue: String,
    pub red: String,
    pub yellow: String,
    pub mauve: String,
    pub peach: String,
    pub teal: String,
    pub text: String,
    pub subtext1: String,
    pub subtext0: String,
    pub surface2: String,
    pub surface1: String,
    pub rosewater: String,
    pub flamingo: String,
}

impl ColorHexConfig {
    /// `e` followed by the messages that resolving records, field by field in declaration order.
    pub open spec fn errors_after(&self, e: Seq<Seq<char>>) -> Seq<Seq<char>> {
        e + hex_error("green"@, self.green@)
            + hex_error("blue"@, self.blue@)
            + hex_error("red"@, self.red@)
            + hex_error("yellow"@, self.yellow@)
            + hex_error("mauve"@, self.mauve@)
            + hex_error("peach"@, self.peach@)
            + hex_error("teal"@, self.teal@)
            + hex_error("text"@, self.text@)
            + hex_error("subtext1"@, self.subtext1@)
            + hex_error("subtext0"@, self.subtext0@)
            + hex_error("surface2"@, self.surface2@)
            + hex_error("surface1"@, self.surface1@)
            + hex_error("rosewater"@, self.rosewater@)
            + hex_error("flamingo"@, self.flamingo@)
    }

    /// The messages that resolving records, field by field in declaration order.
    pub open spec fn colour_errors(&self) -> Seq<Seq<char>> {
        self.errors_after(Seq::empty())
    }
}

impl Default for ColorHexConfig {
    fn default() -> (c: Self)
        ensures
            c.green@ == "a6e3a1"@,
            c.blue@ == "89b4fa"@,
            c.red@ == "f38ba8"@,
            c.yellow@ == "f9e2af"@,
            c.mauve@ == "cba6f7"@,
            c.peach@ == "fab387"@,
            c.teal@ == "94e2d5"@,
            c.text@ == "cdd6f4"@,
            c.subtext1@ == "bac2de"@,
            c.subtext0@ == "a6adc8"@,
            c.surface2@ == "585b70"@,
            c.surface1@ == "45475a"@,
            c.rosewater@ == "f5e0dc"@,
            c.flamingo@ == "f2cdcd"@,
    {
        Self {
            green: String::from_str("a6e3a1"),
            blue: String::from_str("89b4fa"),
            red: String::from_str("f38ba8"),
            yellow: String::from_str("f9e2af"),
            mauve: String::from_str("cba6f7"),
            peach: String::from_str("fab387"),
            teal: String::from_str("94e2d5"),
            text: String::from_str("cdd6f4"),
            subtext1: String::from_str("bac2de"),
            subtext0: String::from_str("a6adc8"),
            surface2: String::from_str("585b70"),
            surface1: String::from_str("45475a"),
            rosewater: String::from_str("f5e0dc"),
            flamingo: String::from_str("f2cdcd"),
        }
    }
}

impl ResolvedColors {
    /// The escape sequence that `role` names.
    pub open spec fn role_seq(&self, role: ColorRole) -> Seq<char> {
        match role {
            ColorRole::Green => self.green@,
            ColorRole::Blue => self.blue@,
            ColorRole::Red => self.red@,
            ColorRole::Yellow => self.yellow@,
            ColorRole::Mauve => self.mauve@,
            ColorRole::Peach => self.peach@,
            ColorRole::Teal => self.teal@,
            ColorRole::Text => self.text@,
            ColorRole::Subtext1 => self.subtext1@,
            ColorRole::Subtext0 => self.subtext0@,
            ColorRole::Surface2 => self.surface2@,
            ColorRole::Surface1 => self.surface1@,
            ColorRole::Rosewater => self.rosewater@,
            ColorRole::Flamingo => self.flamingo@,
        }
    }

    /// Resolve a `ColorHexConfig`, falling back to Mocha defaults for any
    /// field that fails to parse. Errors are appended to `errors`.
    pub fn resolve(hex: &ColorHexConfig, errors: &mut Vec<String>) -> (r: Self)
        ensures
            r.reset@ == "\x1b[0m"@,
            r.bold@ == "\x1b[1m"@,
            r.dim@ == "\x1b[2m"@,
            r.italic@ == "\x1b[3m"@,
            r.green@ == ansi_seq(colour_or(hex.green@, mocha_green())),
            r.blue@ == ansi_seq(colour_or(hex.blue@, mocha_blue())),
            r.red@ == ansi_seq(colour_or(hex.red@, mocha_red())),
            r.yellow@ == ansi_seq(colour_or(hex.yellow@, mocha_yellow())),
            r.mauve@ == ansi_seq(colour_or(hex.mauve@, mocha_mauve())),
            r.peach@ == ansi_seq(colour_or(hex.peach@, mocha_peach())),
            r.teal@ == ansi_seq(colour_or(hex.teal@, mocha_teal())),
            r.text@ == ansi_seq(colour_or(hex.text@, mocha_text())),
            r.subtext1@ == ansi_seq(colour_or(hex.subtext1@, mocha_subtext1())),
            r.subtext0@ == ansi_seq(colour_or(hex.subtext0@, mocha_subtext0())),
            r.surface2@ == ansi_seq(colour_or(hex.surface2@, mocha_surface2())),
            r.surface1@ == ansi_seq(colour_or(hex.surface1@, mocha_surface1())),
            r.rosewater@ == ansi_seq(colour_or(hex.rosewater@, mocha_rosewater())),
            r.flamingo@ == ansi_seq(colour_or(hex.flamingo@, mocha_flamingo())),
            views(final(errors)@) == hex.errors_after(views(old(errors)@)),
    {
        let ghost e0 = views(errors@);
        let green = resolve_field(hex.green.as_str(), "green", (166, 227, 161), errors);
        let blue = resolve_field(hex.blue.as_str(), "blue", (137, 180, 250), errors);
        let red = resolve_field(hex.red.as_str(), "red", (243, 139, 168), errors);
        let yellow = resolve_field(hex.yellow.as_str(), "yellow", (249, 226, 175), errors);
        let mauve = resolve_field(hex.mauve.as_str(), "mauve", (203, 166, 247), errors);
        let peach = resolve_field(hex.peach.as_str(), "peach", (250, 179, 135), errors);
        let teal = resolve_field(hex.teal.as_str(), "teal", (148, 226, 213), errors);
        let text = resolve_field(hex.text.as_str(), "text", (205, 214, 244), errors);
        let subtext1 = resolve_field(hex.subtext1.as_str(), "subtext1", (186, 194, 222), errors);
        let subtext0 = resolve_field(hex.subtext0.as_str(), "subtext0", (166, 173, 200), errors);
        let surface2 = resolve_field(hex.surface2.as_str(), "surface2", (88, 91, 112), errors);
        let surface1 = resolve_field(hex.surface1.as_str(), "surface1", (69, 71, 90), errors);
        let rosewater = resolve_field(hex.rosewater.as_str(), "rosewater", (245, 224, 220), errors);
        let flamingo = resolve_field(hex.flamingo.as_str(), "flamingo", (242, 205, 205), errors);
        Self {
            reset: String::from_str("\x1b[0m"),
            bold: String::from_str("\x1b[1m"),
            dim: String::from_str("\x1b[2m"),
            italic: String::from_str("\x1b[3m"),
            green,
            blue,
            red,
            yellow,
            mauve,
            peach,
            teal,
            text,
            subtext1,
            subtext0,
            surface2,
            surface1,
            rosewater,
            flamingo,
        }
    }

    /// Mocha defaults with no config involved.
    pub fn mocha() -> (r: Self)
        ensures
            r.reset@ == "\x1b[0m"@,
            r.bold@ == "\x1b[1m"@,
            r.dim@ == "\x1b[2m"@,
            r.italic@ == "\x1b[3m"@,
            r.green@ == ansi_seq(mocha_green()),
            r.blue@ == ansi_seq(mocha_blue()),
            r.red@ == ansi_seq(mocha_red()),
            r.yellow@ == ansi_seq(mocha_yellow()),
            r.mauve@ == ansi_seq(mocha_mauve()),
            r.peach@ == ansi_seq(mocha_peach()),
            r.teal@ == ansi_seq(mocha_teal()),
            r.text@ == ansi_seq(mocha_text()),
            r.subtext1@ == ansi_seq(mocha_subtext1()),
            r.subtext0@ == ansi_seq(mocha_subtext0()),
            r.surface2@ == ansi_seq(mocha_surface2()),
            r.surface1@ == ansi_seq(mocha_surface1()),
            r.rosewater@ == ansi_seq(mocha_rosewater()),
            r.flamingo@ == ansi_seq(mocha_flamingo()),
    {
        let mut errors: Vec<String> = Vec::new();
        let hex = ColorHexConfig::default();
        proof {
            lemma_default_hex_reads(hex);
        }
        Self::resolve(&hex, &mut errors)
    }
}

proof fn lemma_hex_pair(a: char, b: char, x: nat, y: nat)
    requires
        digit_value(a, 16) == Some(x),
        digit_value(b, 16) == Some(y),
    ensures
        hex_pair(a, b) == Some(16 * x + y),
{
}

/// A six-character hex literal reads as the colour it spells.
proof fn lemma_hex_literal(s: Seq<char>, c: (u8, u8, u8))
    requires
        s.len() == 6,
        all_ascii(s),
        s[0] != '#',
        hex_pair(s[0], s[1]) == Some(c.0 as nat),
        hex_pair(s[2], s[3]) == Some(c.1 as nat),
        hex_pair(s[4], s[5]) == Some(c.2 as nat),
    ensures
        hex_body(s) == s,
        hex_outcome(s) == HexOutcome::Rgb(c.0, c.1, c.2),
        forall|d: (u8, u8, u8)| colour_or(s, d) == c,
        forall|f: Seq<char>| hex_error(f, s) == Seq::<Seq<char>>::empty(),
{
    reveal(hex_error);
    lemma_byte_len_ascii(s);
    assert(hex_body(s) == s);
}

proof fn lemma_default_green(s: Seq<char>)
    requires
        s == "a6e3a1"@,
    ensures
        forall|d: (u8, u8, u8)| colour_or(s, d) == mocha_green(),
        forall|f: Seq<char>| hex_error(f, s) == Seq::<Seq<char>>::empty(),
{
    reveal_strlit("a6e3a1");
    assert(all_ascii(s));
    lemma_hex_pair(s[0], s[1], 10, 6);
    lemma_hex_pair(s[2], s[3], 14, 3);
    lemma_hex_pair(s[4], s[5], 10, 1);
    lemma_hex_literal(s, mocha_green());
}

proof fn lemma_default_blue(s: Seq<char>)
    requires
        s == "89b4fa"@,
    ensures
        forall|d: (u8, u8, u8)| colour_or(s, d) == mocha_blue(),
        forall|f: Seq<char>| hex_error(f, s) == Seq::<Seq<char>>::empty(),
{
    reveal_strlit("89b4fa");
    assert(all_ascii(s));
    lemma_hex_pair(s[0], s[1], 8, 9);
    lemma_hex_pair(s[2], s[3], 11, 4);
    lemma_hex_pair(s[4], s[5], 15, 10);
    lemma_hex_literal(s, mocha_blue());
}

proof fn lemma_default_red(s: Seq<char>)
    requires
        s == "f38ba8"@,
    ensures
        forall|d: (u8, u8, u8)| colour_or(s, d) == mocha_red(),
        forall|f: Seq<char>| hex_error(f, s) == Seq::<Seq<char>>::empty(),
{
    reveal_strlit("f38ba8");
    assert(all_ascii(s));
    lemma_hex_pair(s[0], s[1], 15, 3);
    lemma_hex_pair(s[2], s[3], 8, 11);
    lemma_hex_pair(s[4], s[5], 10, 8);
    lemma_hex_literal(s, mocha_red());
}

proof fn lemma_default_yellow(s: Seq<char>)
    requires
        s == "f9e2af"@,
    ensures
        forall|d: (u8, u8, u8)| colour_or(s, d) == mocha_yellow(),
        forall|f: Seq<char>| hex_error(f, s) == Seq::<Seq<char>>::empty(),
{
    reveal_strlit("f9e2af");
    assert(all_ascii(s));
    lemma_hex_pair(s[0], s[1], 15, 9);
    lemma_hex_pair(s[2], s[3], 14, 2);
    lemma_hex_pair(s[4], s[5], 10, 15);
    lemma_hex_literal(s, mocha_yellow());
}

proof fn lemma_default_mauve(s: Seq<char>)
    requires
        s == "cba6f7"@,
    ensures
        forall|d: (u8, u8, u8)| colour_or(s, d) == mocha_mauve(),
        forall|f: Seq<char>| hex_error(f, s) == Seq::<Seq<char>>::empty(),
{
    reveal_strlit("cba6f7");
    assert(all_ascii(s));
    lemma_hex_pair(s[0], s[1], 12, 11);
    lemma_hex_pair(s[2], s[3], 10, 6);
    lemma_hex_pair(s[4], s[5], 15, 7);
    lemma_hex_literal(s, mocha_mauve());
}

proof fn lemma_default_peach(s: Seq<char>)
    requires
        s == "fab387"@,
    ensures
        forall|d: (u8, u8, u8)| colour_or(s, d) == mocha_peach(),
        forall|f: Seq<char>| hex_error(f, s) == Seq::<Seq<char>>::empty(),
{
    reveal_strlit("fab387");
    assert(all_ascii(s));
    lemma_hex_pair(s[0], s[1], 15, 10);
    lemma_hex_pair(s[2], s[3], 11, 3);
    lemma_hex_pair(s[4], s[5], 8, 7);
    lemma_hex_literal(s, mocha_peach());
}

proof fn lemma_default_teal(s: Seq<char>)
    requires
        s == "94e2d5"@,
    ensures
        forall|d: (u8, u8, u8)| colour_or(s, d) == mocha_teal(),
        forall|f: Seq<char>| hex_error(f, s) == Seq::<Seq<char>>::empty(),
{
    reveal_strlit("94e2d5");
    assert(all_ascii(s));
    lemma_hex_pair(s[0], s[1], 9, 4);
    lemma_hex_pair(s[2], s[3], 14, 2);
    lemma_hex_pair(s[4], s[5], 13, 5);
    lemma_hex_literal(s, mocha_teal());
}

proof fn lemma_default_text(s: Seq<char>)
    requires
        s == "cdd6f4"@,
    ensures
        forall|d: (u8, u8, u8)| colour_or(s, d) == mocha_text(),
        forall|f: Seq<char>| hex_error(f, s) == Seq::<Seq<char>>::empty(),
{
    reveal_strlit("cdd6f4");
    assert(all_ascii(s));
    lemma_hex_pair(s[0], s[1], 12, 13);
    lemma_hex_pair(s[2], s[3], 13, 6);
    lemma_hex_pair(s[4], s[5], 15, 4);
    lemma_hex_literal(s, mocha_text());
}

proof fn lemma_default_subtext1(s: Seq<char>)
    requires
        s == "bac2de"@,
    ensures
        forall|d: (u8, u8, u8)| colour_or(s, d) == mocha_subtext1(),
        forall|f: Seq<char>| hex_error(f, s) == Seq::<Seq<char>>::empty(),
{
    reveal_strlit("bac2de");
    assert(all_ascii(s));
    lemma_hex_pair(s[0], s[1], 11, 10);
    lemma_hex_pair(s[2], s[3], 12, 2);
    lemma_hex_pair(s[4], s[5], 13, 14);
    lemma_hex_literal(s, mocha_subtext1());
}

proof fn lemma_default_subtext0(s: Seq<char>)
    requires
        s == "a6adc8"@,
    ensures
        forall|d: (u8, u8, u8)| colour_or(s, d) == mocha_subtext0(),
        forall|f: Seq<char>| hex_error(f, s) == Seq::<Seq<char>>::empty(),
{
    reveal_strlit("a6adc8");
    assert(all_ascii(s));
    lemma_hex_pair(s[0], s[1], 10, 6);
    lemma_hex_pair(s[2], s[3], 10, 13);
    lemma_hex_pair(s[4], s[5], 12, 8);
    lemma_hex_literal(s, mocha_subtext0());
}

proof fn lemma_default_surface2(s: Seq<char>)
    requires
        s == "585b70"@,
    ensures
        forall|d: (u8, u8, u8)| colour_or(s, d) == mocha_surface2(),
        forall|f: Seq<char>| hex_error(f, s) == Seq::<Seq<char>>::empty(),
{
    reveal_strlit("585b70");
    assert(all_ascii(s));
    lemma_hex_pair(s[0], s[1], 5, 8);
    lemma_hex_pair(s[2], s[3], 5, 11);
    lemma_hex_pair(s[4], s[5], 7, 0);
    lemma_hex_literal(s, mocha_surface2());
}

proof fn lemma_default_surface1(s: Seq<char>)
    requires
        s == "45475a"@,
    ensures
        forall|d: (u8, u8, u8)| colour_or(s, d) == mocha_surface1(),
        forall|f: Seq<char>| hex_error(f, s) == Seq::<Seq<char>>::empty(),
{
    reveal_strlit("45475a");
    assert(all_ascii(s));
    lemma_hex_pair(s[0], s[1], 4, 5);
    lemma_hex_pair(s[2], s[3], 4, 7);
    lemma_hex_pair(s[4], s[5], 5, 10);
    lemma_hex_literal(s, mocha_surface1());
}

proof fn lemma_default_rosewater(s: Seq<char>)
    requires
        s == "f5e0dc"@,
    ensures
        forall|d: (u8, u8, u8)| colour_or(s, d) == mocha_rosewater(),
        forall|f: Seq<char>| hex_error(f, s) == Seq::<Seq<char>>::empty(),
{
    reveal_strlit("f5e0dc");
    assert(all_ascii(s));
    lemma_hex_pair(s[0], s[1], 15, 5);
    lemma_hex_pair(s[2], s[3], 14, 0);
    lemma_hex_pair(s[4], s[5], 13, 12);
    lemma_hex_literal(s, mocha_rosewater());
}

proof fn lemma_default_flamingo(s: Seq<char>)
    requires
        s == "f2cdcd"@,
    ensures
        forall|d: (u8, u8, u8)| colour_or(s, d) == mocha_flamingo(),
        forall|f: Seq<char>| hex_error(f, s) == Seq::<Seq<char>>::empty(),
{
    reveal_strlit("f2cdcd");
    assert(all_ascii(s));
    lemma_hex_pair(s[0], s[1], 15, 2);
    lemma_hex_pair(s[2], s[3], 12, 13);
    lemma_hex_pair(s[4], s[5], 12, 13);
    lemma_hex_literal(s, mocha_flamingo());
}

/// The default colour fields all read as their Mocha colours, with no message.
pub proof fn lemma_default_hex_reads(hex: ColorHexConfig)
    requires
        hex.green@ == "a6e3a1"@,
        hex.blue@ == "89b4fa"@,
        hex.red@ == "f38ba8"@,
        hex.yellow@ == "f9e2af"@,
        hex.mauve@ == "cba6f7"@,
        hex.peach@ == "fab387"@,
        hex.teal@ == "94e2d5"@,
        hex.text@ == "cdd6f4"@,
        hex.subtext1@ == "bac2de"@,
        hex.subtext0@ == "a6adc8"@,
        hex.surface2@ == "585b70"@,
        hex.surface1@ == "45475a"@,
        hex.rosewater@ == "f5e0dc"@,
        hex.flamingo@ == "f2cdcd"@,
    ensures
        hex.colour_errors() == Seq::<Seq<char>>::empty(),
        forall|d: (u8, u8, u8)| colour_or(hex.green@, d) == mocha_green(),
        forall|d: (u8, u8, u8)| colour_or(hex.blue@, d) == mocha_blue(),
        forall|d: (u8, u8, u8)| colour_or(hex.red@, d) == mocha_red(),
        forall|d: (u8, u8, u8)| colour_or(hex.yellow@, d) == mocha_yellow(),
        forall|d: (u8, u8, u8)| colour_or(hex.mauve@, d) == mocha_mauve(),
        forall|d: (u8, u8, u8)| colour_or(hex.peach@, d) == mocha_peach(),
        forall|d: (u8, u8, u8)| colour_or(hex.teal@, d) == mocha_teal(),
        forall|d: (u8, u8, u8)| colour_or(hex.text@, d) == mocha_text(),
        forall|d: (u8, u8, u8)| colour_or(hex.subtext1@, d) == mocha_subtext1(),
        forall|d: (u8, u8, u8)| colour_or(hex.subtext0@, d) == mocha_subtext0(),
        forall|d: (u8, u8, u8)| colour_or(hex.surface2@, d) == mocha_surface2(),
        forall|d: (u8, u8, u8)| colour_or(hex.surface1@, d) == mocha_surface1(),
        forall|d: (u8, u8, u8)| colour_or(hex.rosewater@, d) == mocha_rosewater(),
        forall|d: (u8, u8, u8)| colour_or(hex.flamingo@, d) == mocha_flamingo(),
{
    lemma_default_green(hex.green@);
    lemma_default_blue(hex.blue@);
    lemma_default_red(hex.red@);
    lemma_default_yellow(hex.yellow@);
    lemma_default_mauve(hex.mauve@);
    lemma_default_peach(hex.peach@);
    lemma_default_teal(hex.teal@);
    lemma_default_text(hex.text@);
    lemma_default_subtext1(hex.subtext1@);
    lemma_default_subtext0(hex.subtext0@);
    lemma_default_surface2(hex.surface2@);
    lemma_default_surface1(hex.surface1@);
    lemma_default_rosewater(hex.rosewater@);
    lemma_default_flamingo(hex.flamingo@);
    assert(hex.colour_errors() =~= Seq::<Seq<char>>::empty());
}

/// Named colour roles that resolve against `ResolvedColors`.
#[derive(Clone, Copy, Debug, PartialEq, Eq, Structural)]
pub enum ColorRole {
    Green,
    Blue,
    Red,
    Yellow,
    Mauve,
    Peach,
    Teal,
    Text,
    Subtext1,
    Subtext0,
    Surface2,
    Surface1,
    Rosewater,
    Flamingo,
}

impl ColorRole {
    /// The escape sequence of this role in `c`.
    pub fn resolve<'a>(&self, c: &'a ResolvedColors) -> (s: &'a str)
        ensures
            s@ == c.role_seq(*self),
    {
        match self {
            ColorRole::Green => c.green.as_str(),
            ColorRole::Blue => c.blue.as_str(),
            ColorRole::Red => c.red.as_str(),
            ColorRole::Yellow => c.yellow.as_str(),
            ColorRole::Mauve => c.mauve.as_str(),
            ColorRole::Peach => c.peach.as_str(),
            ColorRole::Teal => c.teal.as_str(),
            ColorRole::Text => c.text.as_str(),
            ColorRole::Subtext1 => c.subtext1.as_str(),
            ColorRole::Subtext0 => c.subtext0.as_str(),
            ColorRole::Surface2 => c.surface2.as_str(),
            ColorRole::Surface1 => c.surface1.as_str(),
            ColorRole::Rosewater => c.rosewater.as_str(),
            ColorRole::Flamingo => c.flamingo.as_str(),
        }
    }
}

// ── Bar ───────────────────────────────────────────────────────────────────────

#[derive(Debug, Clone)]
pub struct BarConfig {
    pub width: usize,
    pub fill: String,
    pub empty: String,
    pub dl_color: ColorRole,
    pub install_color: ColorRole,
    pub remove_color: ColorRole,
    pub upgrade_color: ColorRole,
    pub downgrade_color: ColorRole,
}

impl Default for BarConfig {
    fn default() -> (b: Self)
        ensures
            b.width == 24,
            b.fill@ == "█"@,
            b.empty@ == "░"@,
            b.dl_color == ColorRole::Teal,
            b.install_color == ColorRole::Blue,
            b.remove_color == ColorRole::Red,
            b.upgrade_color == ColorRole::Blue,
            b.downgrade_color == ColorRole::Yellow,
    {
        Self {
            width: 24,
            fill: String::from_str("█"),
            empty: String::from_str("░"),
            dl_color: ColorRole::Teal,
            install_color: ColorRole::Blue,
            remove_color: ColorRole::Red,
            upgrade_color: ColorRole::Blue,
            downgrade_color: ColorRole::Yellow,
        }
    }
}

// ── Symbols ───────────────────────────────────────────────────────────────────

#[derive(Debug, Clone)]
pub struct SymbolConfig {
    pub install: String,
    pub upgrade: String,
    pub downgrade: String,
    pub reinstall: String,
    pub remove: String,
    pub success: String,
    pub error: String,
    pub warn: String,
    pub download: String,
    pub done: String,
    pub box_top: String,
    pub box_bar: String,
    pub box_tick: String,
    pub header: String,
    pub bullet: String,
}

impl Default for SymbolConfig {
    fn default() -> (c: Self)
        ensures
            c.install@ == "↑"@,
            c.upgrade@ == "⟳"@,
            c.downgrade@ == "↓"@,
            c.reinstall@ == "↺"@,
            c.remove@ == "✕"@,
            c.success@ == "✓"@,
            c.error@ == "✗"@,
            c.warn@ == "⚠"@,
            c.download@ == "↓"@,
            c.done@ == "done"@,
            c.box_top@ == "┌─"@,
            c.box_bar@ == "│"@,
            c.box_tick@ == "┄"@,
            c.header@ == "::"@,
            c.bullet@ == "•"@,
    {
        Self {
            install: String::from_str("↑"),
            upgrade: String::from_str("⟳"),
            downgrade: String::from_str("↓"),
            reinstall: String::from_str("↺"),
            remove: String::from_str("✕"),
            success: String::from_str("✓"),
            error: String::from_str("✗"),
            warn: String::from_str("⚠"),
            download: String::from_str("↓"),
            done: String::from_str("done"),
            box_top: String::from_str("┌─"),
            box_bar: String::from_str("│"),
            box_tick: String::from_str("┄"),
            header: String::from_str("::"),
            bullet: String::from_str("•"),
        }
    }
}

// ── Suppression ───────────────────────────────────────────────────────────────

#[derive(Debug, Clone, Copy)]
pub struct SuppressConfig {
    pub mirror_errors: bool,
    pub mirror_warnings: bool,
    pub hook_names: bool,
    pub scriptlet: bool,
    pub optdep_removal: bool,
    pub pacnew: bool,
}

impl Default for SuppressConfig {
    fn default() -> (c: Self)
        ensures
            c.mirror_errors && c.mirror_warnings,
            !c.hook_names && !c.scriptlet && !c.optdep_removal && !c.pacnew,
    {
        Self {
            mirror_errors: true,
            mirror_warnings: true,
            hook_names: false,
            scriptlet: false,
            optdep_removal: false,
            pacnew: false,
        }
    }
}

// ── Behavior ──────────────────────────────────────────────────────────────────

#[derive(Debug, Clone, Copy)]
pub struct BehaviorConfig {
    pub noconfirm: bool,
    pub dl_name_width: usize,
    pub pkg_name_width: usize,
    pub show_counter: bool,
    pub show_summary: bool,
    pub show_db_uptodate: bool,
}

impl Default for BehaviorConfig {
    fn default() -> (c: Self)
        ensures
            !c.noconfirm,
            c.dl_name_width == 24,
            c.pkg_name_width == 28,
            c.show_counter && c.show_summary && c.show_db_uptodate,
    {
        Self {
            noconfirm: false,
            dl_name_width: 24,
            pkg_name_width: 28,
            show_counter: true,
            show_summary: true,
            show_db_uptodate: true,
        }
    }
}

// ── Top-level config ──────────────────────────────────────────────────────────

/// The on-disk JSON structure.
#[derive(Debug, Clone)]
pub struct Config {
    pub colors: ColorHexConfig,
    pub bar: BarConfig,
    pub symbols: SymbolConfig,
    pub suppress: SuppressConfig,
    pub behavior: BehaviorConfig,
}

/// The default colour fields: Catppuccin Mocha.
pub open spec fn default_hex(h: ColorHexConfig) -> bool {
    &&& h.green@ == "a6e3a1"@
    &&& h.blue@ == "89b4fa"@
    &&& h.red@ == "f38ba8"@
    &&& h.yellow@ == "f9e2af"@
    &&& h.mauve@ == "cba6f7"@
    &&& h.peach@ == "fab387"@
    &&& h.teal@ == "94e2d5"@
    &&& h.text@ == "cdd6f4"@
    &&& h.subtext1@ == "bac2de"@
    &&& h.subtext0@ == "a6adc8"@
    &&& h.surface2@ == "585b70"@
    &&& h.surface1@ == "45475a"@
    &&& h.rosewater@ == "f5e0dc"@
    &&& h.flamingo@ == "f2cdcd"@
}

/// The default bar settings.
pub open spec fn default_bar(b: BarConfig) -> bool {
    &&& b.width == 24
    &&& b.fill@ == "█"@
    &&& b.empty@ == "░"@
    &&& b.dl_color == ColorRole::Teal
    &&& b.install_color == ColorRole::Blue
    &&& b.remove_color == ColorRole::Red
    &&& b.upgrade_color == ColorRole::Blue
    &&& b.downgrade_color == ColorRole::Yellow
}

/// The default symbols.
pub open spec fn default_symbols(c: SymbolConfig) -> bool {
    &&& c.install@ == "↑"@
    &&& c.upgrade@ == "⟳"@
    &&& c.downgrade@ == "↓"@
    &&& c.reinstall@ == "↺"@
    &&& c.remove@ == "✕"@
    &&& c.success@ == "✓"@
    &&& c.error@ == "✗"@
    &&& c.warn@ == "⚠"@
    &&& c.download@ == "↓"@
    &&& c.done@ == "done"@
    &&& c.box_top@ == "┌─"@
    &&& c.box_bar@ == "│"@
    &&& c.box_tick@ == "┄"@
    &&& c.header@ == "::"@
    &&& c.bullet@ == "•"@
}

/// The default suppression settings.
pub open spec fn default_suppress(c: SuppressConfig) -> bool {
    c.mirror_errors && c.mirror_warnings && !c.hook_names && !c.scriptlet && !c.optdep_removal && !c.pacnew
}

/// The default behaviour settings.
pub open spec fn default_behavior(c: BehaviorConfig) -> bool {
    &&& !c.noconfirm
    &&& c.dl_name_width == 24
    &&& c.pkg_name_width == 28
    &&& c.show_counter && c.show_summary && c.show_db_uptodate
}

/// The configuration used when there is no file, or it cannot be read.
pub open spec fn is_default_config(c: Config) -> bool {
    &&& default_hex(c.colors)
    &&& default_bar(c.bar)
    &&& default_symbols(c.symbols)
    &&& default_suppress(c.suppress)
    &&& default_behavior(c.behavior)
}

impl Default for Config {
    fn default() -> (c: Self)
        ensures
            is_default_config(c),
    {
        Self {
            colors: ColorHexConfig::default(),
            bar: BarConfig::default(),
            symbols: SymbolConfig::default(),
            suppress: SuppressConfig::default(),
            behavior: BehaviorConfig::default(),
        }
    }
}

/// Everything the rest of the program uses at runtime.
#[derive(Debug, Clone)]
pub struct ResolvedConfig {
    pub colors: ResolvedColors,
    pub bar: BarConfig,
    pub symbols: SymbolConfig,
    pub suppress: SuppressConfig,
    pub behavior: BehaviorConfig,
    /// Print without colours or decoration.
    pub plain: bool,
    /// Do not draw progress bars.
    pub noprogressbar: bool,
}

/// `rc` is the runtime form of `c`: its colours resolved (each unreadable field in its
/// Mocha colour), everything else carried over.
pub open spec fn resolved_from(rc: ResolvedConfig, c: Config) -> bool {
    &&& rc.colors.reset@ == "\x1b[0m"@
    &&& rc.colors.bold@ == "\x1b[1m"@
    &&& rc.colors.dim@ == "\x1b[2m"@
    &&& rc.colors.italic@ == "\x1b[3m"@
    &&& rc.colors.green@ == ansi_seq(colour_or(c.colors.green@, mocha_green()))
    &&& rc.colors.blue@ == ansi_seq(colour_or(c.colors.blue@, mocha_blue()))
    &&& rc.colors.red@ == ansi_seq(colour_or(c.colors.red@, mocha_red()))
    &&& rc.colors.yellow@ == ansi_seq(colour_or(c.colors.yellow@, mocha_yellow()))
    &&& rc.colors.mauve@ == ansi_seq(colour_or(c.colors.mauve@, mocha_mauve()))
    &&& rc.colors.peach@ == ansi_seq(colour_or(c.colors.peach@, mocha_peach()))
    &&& rc.colors.teal@ == ansi_seq(colour_or(c.colors.teal@, mocha_teal()))
    &&& rc.colors.text@ == ansi_seq(colour_or(c.colors.text@, mocha_text()))
    &&& rc.colors.subtext1@ == ansi_seq(colour_or(c.colors.subtext1@, mocha_subtext1()))
    &&& rc.colors.subtext0@ == ansi_seq(colour_or(c.colors.subtext0@, mocha_subtext0()))
    &&& rc.colors.surface2@ == ansi_seq(colour_or(c.colors.surface2@, mocha_surface2()))
    &&& rc.colors.surface1@ == ansi_seq(colour_or(c.colors.surface1@, mocha_surface1()))
    &&& rc.colors.rosewater@ == ansi_seq(colour_or(c.colors.rosewater@, mocha_rosewater()))
    &&& rc.colors.flamingo@ == ansi_seq(colour_or(c.colors.flamingo@, mocha_flamingo()))
    &&& rc.bar == c.bar
    &&& rc.symbols == c.symbols
    &&& rc.suppress == c.suppress
    &&& rc.behavior == c.behavior
}

impl Config {
    /// The runtime configuration: colours resolved eagerly, everything else carried over;
    /// with the messages of the colour fields that fell back to their Mocha default.
    pub fn into_resolved(self) -> (r: (ResolvedConfig, Vec<String>))
        ensures
            resolved_from(r.0, self),
            !r.0.plain,
            !r.0.noprogressbar,
            views(r.1@) == self.colors.colour_errors(),
    {
        let mut errors: Vec<String> = Vec::new();
        let colors = ResolvedColors::resolve(&self.colors, &mut errors);
        assert(views(errors@) == self.colors.colour_errors());
        (
            ResolvedConfig {
                colors,
                bar: self.bar,
                symbols: self.symbols,
                suppress: self.suppress,
                behavior: self.behavior,
                plain: false,
                noprogressbar: false,
            },
            errors,
        )
    }
}

// ── XDG path ──────────────────────────────────────────────────────────────────

/// `PathBuf::join` of a path and one component: an absolute component replaces the path;
/// otherwise a `/` goes between unless the base is empty or already ends in `/`.
pub open spec fn path_join(base: Seq<char>, comp: Seq<char>) -> Seq<char> {
    if comp.len() > 0 && comp[0] == '/' {
        comp
    } else if base.len() == 0 || base.last() == '/' {
        base + comp
    } else {
        base + seq!['/'] + comp
    }
}

/// Joins a relative component onto a path.
pub fn join_path(base: &str, comp: &str) -> (r: String)
    ensures
        r@ == path_join(base@, comp@),
{
    let c = chars_of(comp);
    if c.len() > 0 && c[0] == '/' {
        return String::from_str(comp);
    }
    let v = chars_of(base);
    let mut r = String::from_str(base);
    if v.len() > 0 && v[v.len() - 1] != '/' {
        crate::text::push_char(&mut r, '/');
    }
    r.append(comp);
    r
}

/// The configuration directory: `$XDG_CONFIG_HOME`, else `$HOME/.config`, else
/// `/root/.config`.
pub open spec fn config_base(xdg: Option<Seq<char>>, home: Option<Seq<char>>) -> Seq<char> {
    match xdg {
        Some(x) => x,
        None => path_join(
            match home {
                Some(h) => h,
                None => "/root"@,
            },
            ".config"@,
        ),
    }
}

/// Where the config file lives, from the values of `XDG_CONFIG_HOME` and `HOME`
/// (each `None` when unset or not valid Unicode).
pub fn config_path(xdg_config_home: Option<String>, home: Option<String>) -> (p: String)
    ensures
        p@ == path_join(
            path_join(
                config_base(
                    match xdg_config_home {
                        Some(x) => Some(x@),
                        None => None,
                    },
                    match home {
                        Some(h) => Some(h@),
                        None => None,
                    },
                ),
                "pacwoman"@,
            ),
            "config.json"@,
        ),
{
    let base = match xdg_config_home {
        Some(x) => x,
        None => {
            let h = match home {
                Some(h) => h,
                None => String::from_str("/root"),
            };
            join_path(h.as_str(), ".config")
        },
    };
    let dir = join_path(base.as_str(), "pacwoman");
    join_path(dir.as_str(), "config.json")
}

} // verus!
