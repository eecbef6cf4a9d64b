use vstd::prelude::*;
use vstd::string::*;
use crate::config::ResolvedConfig;
use crate::size::{div_round_even_exec, f64_int, f64_of, human_size_seq, lemma_bit_len_small, lemma_pow2_values, push_fixed};
use crate::text::{dec_int_seq, dec_seq, pad_seq, push_char, push_decimal, push_padded};

verus! {

/// Reset of all attributes.
pub const RST: &'static str = "\x1b[0m";
/// Bold.
pub const BOLD: &'static str = "\x1b[1m";
/// Dim.
pub const DIM: &'static str = "\x1b[2m";
/// Catppuccin Mocha green.
pub const GREEN: &'static str = "\x1b[38;2;166;227;161m";
/// Catppuccin Mocha blue.
pub const BLUE: &'static str = "\x1b[38;2;137;180;250m";
/// Catppuccin Mocha red.
pub const RED: &'static str = "\x1b[38;2;243;139;168m";
/// Catppuccin Mocha yellow.
pub const YELLOW: &'static str = "\x1b[38;2;249;226;175m";
/// Catppuccin Mocha mauve.
pub const MAUVE: &'static str = "\x1b[38;2;203;166;247m";
/// Catppuccin Mocha text.
pub const TEXT: &'static str = "\x1b[38;2;205;214;244m";
/// Catppuccin Mocha subtext1.
pub const SUBTEXT1: &'static str = "\x1b[38;2;186;194;222m";
/// Catppuccin Mocha surface2.
pub const SURFACE2: &'static str = "\x1b[38;2;88;91;112m";
/// Catppuccin Mocha rosewater.
pub const ROSEWATER: &'static str = "\x1b[38;2;245;224;220m";

/// The line `header` prints (it starts with an empty line).
pub fn header(msg: &str, cfg: &ResolvedConfig) -> (s: String)
    ensures
        cfg.plain ==> s@ == "\n:: "@ + msg@,
        !cfg.plain ==> s@ == "\n"@ + cfg.colors.mauve@ + cfg.colors.bold@ + "  "@
            + cfg.symbols.header@ + cfg.colors.reset@ + " "@ + cfg.colors.text@ + cfg.colors.bold@
            + msg@ + cfg.colors.reset@,
{
    if cfg.plain {
        let mut s = String::from_str("\n:: ");
        s.append(msg);
        s
    } else {
        let c = &cfg.colors;
        let mut s = String::from_str("\n");
        s.append(c.mauve.as_str());
        s.append(c.bold.as_str());
        s.append("  ");
        s.append(cfg.symbols.header.as_str());
        s.append(c.reset.as_str());
        s.append(" ");
        s.append(c.text.as_str());
        s.append(c.bold.as_str());
        s.append(msg);
        s.append(c.reset.as_str());
        s
    }
}

/// The line of a piece of information.
pub open spec fn info_seq(msg: Seq<char>, cfg: ResolvedConfig) -> Seq<char> {
    if cfg.plain {
        msg
    } else {
        "  "@ + cfg.colors.subtext1@ + msg + cfg.colors.reset@
    }
}

/// The line of a warning.
pub open spec fn warn_seq(msg: Seq<char>, cfg: ResolvedConfig) -> Seq<char> {
    if cfg.plain {
        "WARNING: "@ + msg
    } else {
        status_line_seq(cfg.colors.peach@, cfg.symbols.warn@, msg, cfg)
    }
}

/// The line of a success.
pub open spec fn success_seq(msg: Seq<char>, cfg: ResolvedConfig) -> Seq<char> {
    if cfg.plain {
        "  [OK] "@ + msg
    } else {
        status_line_seq(cfg.colors.green@, cfg.symbols.success@, msg, cfg)
    }
}

/// The line `info` prints.
pub fn info(msg: &str, cfg: &ResolvedConfig) -> (s: String)
    ensures
        s@ == info_seq(msg@, *cfg),
        cfg.plain ==> s@ == msg@,
        !cfg.plain ==> s@ == "  "@ + cfg.colors.subtext1@ + msg@ + cfg.colors.reset@,
{
    if cfg.plain {
        String::from_str(msg)
    } else {
        let mut s = String::from_str("  ");
        s.append(cfg.colors.subtext1.as_str());
        s.append(msg);
        s.append(cfg.colors.reset.as_str());
        s
    }
}

/// A status line: two spaces, the symbol in `col` and bold, then the message in `col`.
pub open spec fn status_line_seq(col: Seq<char>, sym: Seq<char>, msg: Seq<char>, cfg: ResolvedConfig) -> Seq<char> {
    "  "@ + col + cfg.colors.bold@ + sym + cfg.colors.reset@ + "  "@ + col + msg
        + cfg.colors.reset@
}

pub fn status_line(col: &str, sym: &str, msg: &str, cfg: &ResolvedConfig) -> (s: String)
    ensures
        s@ == status_line_seq(col@, sym@, msg@, *cfg),
{
    let mut s = String::from_str("  ");
    s.append(col);
    s.append(cfg.colors.bold.as_str());
    s.append(sym);
    s.append(cfg.colors.reset.as_str());
    s.append("  ");
    s.append(col);
    s.append(msg);
    s.append(cfg.colors.reset.as_str());
    s
}

/// The line `warn` prints.
pub fn warn(msg: &str, cfg: &ResolvedConfig) -> (s: String)
    ensures
        s@ == warn_seq(msg@, *cfg),
        cfg.plain ==> s@ == "WARNING: "@ + msg@,
        !cfg.plain ==> s@ == status_line_seq(cfg.colors.peach@, cfg.symbols.warn@, msg@, *cfg),
{
    if cfg.plain {
        let mut s = String::from_str("WARNING: ");
        s.append(msg);
        s
    } else {
        status_line(cfg.colors.peach.as_str(), cfg.symbols.warn.as_str(), msg, cfg)
    }
}

/// The line `error` prints (to standard error).
pub fn error(msg: &str, cfg: &ResolvedConfig) -> (s: String)
    ensures
        cfg.plain ==> s@ == "  ERROR: "@ + msg@,
        !cfg.plain ==> s@ == status_line_seq(cfg.colors.red@, cfg.symbols.error@, msg@, *cfg),
{
    if cfg.plain {
        let mut s = String::from_str("  ERROR: ");
        s.append(msg);
        s
    } else {
        status_line(cfg.colors.red.as_str(), cfg.symbols.error.as_str(), msg, cfg)
    }
}

/// The line `success` prints.
pub fn success(msg: &str, cfg: &ResolvedConfig) -> (s: String)
    ensures
        s@ == success_seq(msg@, *cfg),
        cfg.plain ==> s@ == "  [OK] "@ + msg@,
        !cfg.plain ==> s@ == status_line_seq(cfg.colors.green@, cfg.symbols.success@, msg@, *cfg),
{
    if cfg.plain {
        let mut s = String::from_str("  [OK] ");
        s.append(msg);
        s
    } else {
        status_line(cfg.colors.green.as_str(), cfg.symbols.success.as_str(), msg, cfg)
    }
}

/// The `key: value` line of package details, the key padded to 18 characters.
pub fn kv(key: &str, val: &str, cfg: &ResolvedConfig) -> (s: String)
    ensures
        cfg.plain ==> s@ == pad_seq(key@, 18) + ": "@ + val@,
        !cfg.plain ==> s@ == "  "@ + cfg.colors.mauve@ + cfg.colors.bold@ + pad_seq(key@, 18)
            + cfg.colors.reset@ + " "@ + cfg.colors.text@ + val@ + cfg.colors.reset@,
{
    if cfg.plain {
        let mut s = String::new();
        push_padded(&mut s, key, 18);
        s.append(": ");
        s.append(val);
        s
    } else {
        let c = &cfg.colors;
        let mut s = String::from_str("  ");
        s.append(c.mauve.as_str());
        s.append(c.bold.as_str());
        push_padded(&mut s, key, 18);
        s.append(c.reset.as_str());
        s.append(" ");
        s.append(c.text.as_str());
        s.append(val);
        s.append(c.reset.as_str());
        s
    }
}

/// A byte count in human units: `B` below 1 KiB, then `KiB`, `MiB`, `GiB`.
pub fn human_size(bytes: i64) -> (s: String)
    ensures
        s@ == human_size_seq(bytes as int),
{
    let mut out = String::new();
    if bytes < 1024 {
        if bytes < 0 {
            let mag: i128 = -(bytes as i128);
            let m = f64_of(mag as u64);
            push_char(&mut out, '-');
            push_decimal(&mut out, m);
            assert(dec_int_seq(f64_int(bytes as int)) == seq!['-'] + dec_seq(m as nat));
        } else {
            proof {
                lemma_pow2_values();
                lemma_bit_len_small(bytes as nat, 53);
            }
            push_decimal(&mut out, bytes as u128);
        }
        out.append(" B");
    } else if bytes < 1024 * 1024 {
        let r = div_round_even_exec((bytes as u128) * 10, 1024);
        push_fixed(&mut out, r, 1);
        out.append(" KiB");
    } else if bytes < 1024 * 1024 * 1024 {
        let r = div_round_even_exec((bytes as u128) * 100, 1024 * 1024);
        push_fixed(&mut out, r, 2);
        out.append(" MiB");
    } else {
        let m = f64_of(bytes as u64);
        let r = div_round_even_exec(m * 100, 1024 * 1024 * 1024);
        push_fixed(&mut out, r, 2);
        out.append(" GiB");
    }
    out
}

} // verus!
