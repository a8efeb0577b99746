//! Rendering arithmetic: bars, colors, unit thresholds and uptime parts.
//!
//! Everything here is exact integer logic; the terminal layer outside the
//! library only turns the results into styled text.

use vstd::prelude::*;
use vstd::string::StringExecFns;
use vstd::string::StrSliceExecFns;
use vstd::arithmetic::div_mod::lemma_div_is_ordered;
use vstd::arithmetic::div_mod::lemma_div_multiples_vanish;
use vstd::arithmetic::mul::lemma_mul_inequality;

verus! {

/// A display color for a figure.
#[derive(Clone, Copy, Debug, PartialEq, Eq, Structural)]
pub enum Color {
    Green,
    Yellow,
    Red,
    White,
}

/// The color a usage percentage is shown in: green below 30, yellow below
/// 70, red from 70 up.
pub fn get_color_for_percentage(percentage: u64) -> (r: Color)
    ensures
        r == (if percentage < 30 {
            Color::Green
        } else if percentage < 70 {
            Color::Yellow
        } else {
            Color::Red
        }),
{
    if percentage < 30 {
        Color::Green
    } else if percentage < 70 {
        Color::Yellow
    } else {
        Color::Red
    }
}

/// The color a process's resident memory is shown in: red from 2 GiB up,
/// yellow from 512 MiB up, green below.
pub fn get_color_for_memory(memory_bytes: u64) -> (r: Color)
    ensures
        r == (if memory_bytes >= 2147483648 {
            Color::Red
        } else if memory_bytes >= 536870912 {
            Color::Yellow
        } else {
            Color::Green
        }),
{
    if memory_bytes >= 2147483648 {
        Color::Red
    } else if memory_bytes >= 536870912 {
        Color::Yellow
    } else {
        Color::Green
    }
}

/// The color of the download figure, whose value is in hundredths of its
/// display unit: green once it passes 10 units, white otherwise.
pub fn download_color(value_hundredths: u64) -> (r: Color)
    ensures
        r == (if value_hundredths > 1000 {
            Color::Green
        } else {
            Color::White
        }),
{
    if value_hundredths > 1000 {
        Color::Green
    } else {
        Color::White
    }
}

/// The color of the upload figure, whose value is in hundredths of its
/// display unit: green once it passes 1 unit, white otherwise.
pub fn upload_color(value_hundredths: u64) -> (r: Color)
    ensures
        r == (if value_hundredths > 100 {
            Color::Green
        } else {
            Color::White
        }),
{
    if value_hundredths > 100 {
        Color::Green
    } else {
        Color::White
    }
}

/// How many processes the CPU leaderboard shows: ten detailed, five
/// compact.
pub fn process_cpu_count(detailed: bool) -> (r: usize)
    ensures
        r == (if detailed {
            10usize
        } else {
            5usize
        }),
{
    if detailed {
        10
    } else {
        5
    }
}

/// How many processes the memory leaderboard shows: five detailed, three
/// compact.
pub fn process_memory_count(detailed: bool) -> (r: usize)
    ensures
        r == (if detailed {
            5usize
        } else {
            3usize
        }),
{
    if detailed {
        5
    } else {
        3
    }
}

/// How many segments of a bar of the given width are filled at the given
/// percentage: the floor of their product over 100.
pub open spec fn filled_spec(percentage: u64, width: usize) -> int {
    percentage * width / 100
}

/// The characters of a usage bar: a bracketed row of `filled` full blocks
/// (U+2588) followed by `width - filled` light shades (U+2591).
pub open spec fn bar_chars(filled: int, width: int) -> Seq<char> {
    seq!['['] + Seq::new(filled as nat, |i: int| '\u{2588}') + Seq::new(
        (width - filled) as nat,
        |i: int| '\u{2591}',
    ) + seq![']']
}

/// Draw a usage bar: `[` then the filled blocks, the empty shades, and
/// `]`. At 50 percent over width 10 that is 5 blocks and 5 shades; 100
/// percent fills the bar and 0 percent leaves it empty.
pub fn create_bar(percentage: u64, width: usize) -> (r: String)
    requires
        percentage <= 100,
    ensures
        r@ == bar_chars(filled_spec(percentage, width), width as int),
{
    proof {
        reveal_strlit("[");
        reveal_strlit("]");
        reveal_strlit("\u{2588}");
        reveal_strlit("\u{2591}");
        lemma_mul_inequality(percentage as int, 100, width as int);
        lemma_div_is_ordered(percentage * width, 100 * width, 100);
        lemma_div_multiples_vanish(width as int, 100);
    }
    let wide: u128 = (percentage as u128) * (width as u128) / 100;
    let filled: usize = wide as usize;
    let empty: usize = width - filled;
    let mut s = String::new();
    s.append("[");
    let mut i: usize = 0;
    #[verifier::loop_isolation(false)]
    while i < filled
        invariant
            i <= filled,
            s@ == seq!['['] + Seq::new(i as nat, |j: int| '\u{2588}'),
        decreases filled - i,
    {
        s.append("\u{2588}");
        i = i + 1;
        proof {
            assert(s@ =~= seq!['['] + Seq::new(i as nat, |j: int| '\u{2588}'));
        }
    }
    let mut k: usize = 0;
    #[verifier::loop_isolation(false)]
    while k < empty
        invariant
            k <= empty,
            s@ == seq!['['] + Seq::new(filled as nat, |j: int| '\u{2588}') + Seq::new(
                k as nat,
                |j: int| '\u{2591}',
            ),
        decreases empty - k,
    {
        s.append("\u{2591}");
        k = k + 1;
        proof {
            assert(s@ =~= seq!['['] + Seq::new(filled as nat, |j: int| '\u{2588}') + Seq::new(
                k as nat,
                |j: int| '\u{2591}',
            ));
        }
    }
    s.append("]");
    proof {
        assert(s@ =~= bar_chars(filled_spec(percentage, width), width as int));
    }
    s
}

/// Shorten a name to at most `max_len` characters: a longer one keeps its
/// first `max_len - 3` characters and ends in three dots.
pub fn truncate_string(s: &str, max_len: usize) -> (r: String)
    requires
        3 <= max_len,
    ensures
        s@.len() <= max_len ==> r@ == s@,
        s@.len() > max_len ==> r@ == s@.subrange(0, max_len - 3) + "..."@,
{
    let n = s.unicode_len();
    if n > max_len {
        let head = s.substring_char(0, max_len - 3);
        let mut r = head.to_owned();
        r.append("...");
        r
    } else {
        s.to_owned()
    }
}

/// Split an uptime in seconds into whole days, hours and minutes.
pub fn uptime_parts(uptime_secs: u64) -> (r: (u64, u64, u64))
    ensures
        r.0 == uptime_secs / 86400,
        r.1 == (uptime_secs % 86400) / 3600,
        r.2 == (uptime_secs % 3600) / 60,
{
    let days = uptime_secs / 86400;
    let hours = (uptime_secs % 86400) / 3600;
    let minutes = (uptime_secs % 3600) / 60;
    (days, hours, minutes)
}

} // verus!
