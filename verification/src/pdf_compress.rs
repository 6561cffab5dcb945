//! Compression levels and the display of file sizes.

use vstd::prelude::*;
use vstd::string::*;
use crate::decimal::{decimal, digit, push_decimal, two_digits};
use crate::strings::same_text;

verus! {

/// How hard a document is compressed.
#[derive(Clone, Copy, Debug, PartialEq, Eq, Structural)]
pub enum CompressionLevel {
    /// Unused objects are removed, nothing more.
    Low,
    /// Unused objects are removed and streams are compressed.
    Medium,
    /// Everything is compressed, cleaned and laid out for fast display.
    High,
}

impl Default for CompressionLevel {
    fn default() -> (level: CompressionLevel)
        ensures
            level == CompressionLevel::Medium,
    {
        CompressionLevel::Medium
    }
}

impl CompressionLevel {
    /// The level that a name stands for: `low` and `high` for themselves,
    /// anything else and no name for the medium level.
    pub open spec fn spec_from_name(name: Option<Seq<char>>) -> CompressionLevel {
        match name {
            Some(n) => if n == "low"@ {
                CompressionLevel::Low
            } else if n == "high"@ {
                CompressionLevel::High
            } else {
                CompressionLevel::Medium
            },
            None => CompressionLevel::Medium,
        }
    }

    /// The level that a name stands for.
    pub fn from_name(name: Option<&str>) -> (level: CompressionLevel)
        ensures
            level == CompressionLevel::spec_from_name(
                match name {
                    Some(n) => Some(n@),
                    None => None,
                },
            ),
    {
        match name {
            Some(n) => {
                if same_text(n, "low") {
                    CompressionLevel::Low
                } else if same_text(n, "high") {
                    CompressionLevel::High
                } else {
                    CompressionLevel::Medium
                }
            },
            None => CompressionLevel::Medium,
        }
    }
}

/// How a document is written back: which clean-up and compression steps
/// the writer takes.
#[derive(Clone, Copy, Debug, PartialEq, Eq, Structural)]
pub struct WriteSettings {
    /// Remove objects that nothing refers to.
    pub garbage: bool,
    /// How thorough the removal is, 0 to 4.
    pub garbage_level: i32,
    /// Compress streams.
    pub compress: bool,
    /// Compress images.
    pub compress_images: bool,
    /// Compress fonts.
    pub compress_fonts: bool,
    /// Clean content streams.
    pub clean: bool,
    /// Sanitize content streams.
    pub sanitize: bool,
    /// Lay the file out for fast display over a network.
    pub linear: bool,
}

impl WriteSettings {
    /// The settings of a level. The low level only removes unused objects;
    /// the medium level removes them more thoroughly, compresses streams
    /// and cleans; the high level removes them most thoroughly and takes
    /// every other step too.
    pub open spec fn spec_for_level(level: CompressionLevel) -> WriteSettings {
        match level {
            CompressionLevel::Low => WriteSettings {
                garbage: true,
                garbage_level: 1,
                compress: false,
                compress_images: false,
                compress_fonts: false,
                clean: false,
                sanitize: false,
                linear: false,
            },
            CompressionLevel::Medium => WriteSettings {
                garbage: true,
                garbage_level: 2,
                compress: true,
                compress_images: false,
                compress_fonts: false,
                clean: true,
                sanitize: false,
                linear: false,
            },
            CompressionLevel::High => WriteSettings {
                garbage: true,
                garbage_level: 4,
                compress: true,
                compress_images: true,
                compress_fonts: true,
                clean: true,
                sanitize: true,
                linear: true,
            },
        }
    }

    /// The settings of a level.
    pub fn for_level(level: CompressionLevel) -> (settings: WriteSettings)
        ensures
            settings == WriteSettings::spec_for_level(level),
    {
        match level {
            CompressionLevel::Low => WriteSettings {
                garbage: true,
                garbage_level: 1,
                compress: false,
                compress_images: false,
                compress_fonts: false,
                clean: false,
                sanitize: false,
                linear: false,
            },
            CompressionLevel::Medium => WriteSettings {
                garbage: true,
                garbage_level: 2,
                compress: true,
                compress_images: false,
                compress_fonts: false,
                clean: true,
                sanitize: false,
                linear: false,
            },
            CompressionLevel::High => WriteSettings {
                garbage: true,
                garbage_level: 4,
                compress: true,
                compress_images: true,
                compress_fonts: true,
                clean: true,
                sanitize: true,
                linear: true,
            },
        }
    }
}

/// Where a compressed document is written first. A document compressed in
/// place, its output being its input, is written beside itself with `.tmp`
/// appended and then moved into its place; any other goes straight to
/// its output.
pub fn staging_path(input: &str, output: &str) -> (path: String)
    ensures
        path@ == if input@ == output@ {
            output@ + ".tmp"@
        } else {
            output@
        },
{
    if same_text(input, output) {
        String::from_str(output).concat(".tmp")
    } else {
        String::from_str(output)
    }
}

/// The bytes that a compression saved: the size before less the
/// compressed size, negative where the file grew, and held to the range of
/// 64 bits with a sign.
pub open spec fn saved(original_size: u64, compressed_size: u64) -> int {
    if original_size - compressed_size > i64::MAX {
        i64::MAX as int
    } else if original_size - compressed_size < i64::MIN {
        i64::MIN as int
    } else {
        original_size - compressed_size
    }
}

/// The bytes that a compression saved.
pub fn bytes_saved(original_size: u64, compressed_size: u64) -> (bytes: i64)
    ensures
        bytes == saved(original_size, compressed_size),
{
    let difference: i128 = original_size as i128 - compressed_size as i128;
    if difference > i64::MAX as i128 {
        i64::MAX
    } else if difference < i64::MIN as i128 {
        i64::MIN
    } else {
        difference as i64
    }
}

/// The size of a document per page, rounded down; a document without pages
/// counts as one page.
pub open spec fn per_page(original_size: u64, page_count: u32) -> int {
    if page_count == 0 {
        original_size as int
    } else {
        (original_size as int) / (page_count as int)
    }
}

/// The share of its size, in percent, that a document is expected to lose
/// when compressed: half where a page takes more than 500 000 bytes, which
/// speaks for uncompressed images; 30 where a page takes more than
/// 100 000 bytes; else 10.
pub open spec fn expected_reduction(original_size: u64, page_count: u32) -> int {
    let pages: int = if page_count == 0 {
        1
    } else {
        page_count as int
    };
    if original_size > 500_000 * pages {
        50
    } else if original_size > 100_000 * pages {
        30
    } else {
        10
    }
}

/// The size of a document per page.
pub fn bytes_per_page(original_size: u64, page_count: u32) -> (bytes: u64)
    ensures
        bytes == per_page(original_size, page_count),
{
    if page_count == 0 {
        original_size
    } else {
        original_size / (page_count as u64)
    }
}

/// The share of its size, in percent, that a document is expected to lose
/// when compressed.
pub fn estimated_reduction_percent(original_size: u64, page_count: u32) -> (percent: u8)
    ensures
        percent == expected_reduction(original_size, page_count),
{
    let pages: u128 = if page_count == 0 { 1 } else { page_count as u128 };
    let size: u128 = original_size as u128;
    if size > 500_000 * pages {
        50
    } else if size > 100_000 * pages {
        30
    } else {
        10
    }
}

/// Bytes in a kilobyte.
pub const KB: u64 = 1024;

/// Bytes in a megabyte.
pub const MB: u64 = 1_048_576;

/// Bytes in a gigabyte.
pub const GB: u64 = 1_073_741_824;

/// The least size that does not fit the 53 significant bits of a double.
pub const DOUBLE_LIMIT: u64 = 0x20_0000_0000_0000;

/// `n / unit` rounded to the nearest whole number, a tie going to the even
/// neighbour.
pub open spec fn round_half_even(n: nat, unit: nat) -> nat {
    let q = n / unit;
    let r = n % unit;
    if 2 * r < unit {
        q
    } else if 2 * r > unit {
        q + 1
    } else if q % 2 == 0 {
        q
    } else {
        q + 1
    }
}

/// The gap between neighbouring doubles at a size: one up to 53 bits, and
/// twice as much for every bit beyond.
pub open spec fn double_step(n: nat) -> nat
    decreases n,
{
    if n < 0x20_0000_0000_0000 {
        1
    } else {
        2 * double_step(n / 2)
    }
}

/// A size at the precision of a double: the nearest number with 53
/// significant bits, a tie going to the even neighbour. Sizes are shown at
/// this precision, as a floating-point display shows them.
pub open spec fn nearest_double(n: nat) -> nat {
    round_half_even(n, double_step(n)) * double_step(n)
}

/// A size in a unit, with two decimals: the size at double precision over
/// the unit, rounded to hundredths with ties to even.
pub open spec fn fixed_two(bytes: nat, unit: nat) -> Seq<char> {
    let hundredths = round_half_even(nearest_double(bytes) * 100, unit);
    decimal(hundredths / 100) + seq!['.'] + two_digits(hundredths % 100)
}

/// A file size for display: in GB, MB or KB with two decimals where it
/// reaches one of these units, else in bytes.
pub open spec fn size_text(bytes: nat) -> Seq<char> {
    if bytes >= 1_073_741_824 {
        fixed_two(bytes, 1_073_741_824) + " GB"@
    } else if bytes >= 1_048_576 {
        fixed_two(bytes, 1_048_576) + " MB"@
    } else if bytes >= 1024 {
        fixed_two(bytes, 1024) + " KB"@
    } else {
        decimal(bytes) + " bytes"@
    }
}

/// A size with no more than `53 + bits` bits has a step of at most two to
/// the power of `bits`.
proof fn lemma_double_step_bound(n: nat, bits: nat)
    requires
        n < 0x20_0000_0000_0000 * vstd::arithmetic::power2::pow2(bits),
    ensures
        1 <= double_step(n) <= vstd::arithmetic::power2::pow2(bits),
    decreases bits,
{
    vstd::arithmetic::power2::lemma_pow2_pos(bits);
    if n >= 0x20_0000_0000_0000 {
        if bits == 0 {
            vstd::arithmetic::power2::lemma2_to64();
        } else {
            vstd::arithmetic::power2::lemma_pow2_unfold(bits);
            lemma_double_step_bound(n / 2, (bits - 1) as nat);
        }
    }
}

fn step_of(n: u64) -> (step: u64)
    ensures
        step == double_step(n as nat),
        1 <= step <= 2048,
    decreases n,
{
    proof {
        vstd::arithmetic::power2::lemma2_to64();
        lemma_double_step_bound(n as nat, 11);
    }
    if n < DOUBLE_LIMIT {
        1
    } else {
        2 * step_of(n / 2)
    }
}

fn rounded(n: u128, unit: u128) -> (q: u128)
    requires
        0 < unit <= 0xffff_ffff_ffff_ffff,
        n <= 0xffff_ffff_ffff_ffff_ffff,
    ensures
        q == round_half_even(n as nat, unit as nat),
        q <= n / unit + 1,
{
    let q = n / unit;
    let r = n % unit;
    if 2 * r < unit {
        q
    } else if 2 * r > unit {
        q + 1
    } else if q % 2 == 0 {
        q
    } else {
        q + 1
    }
}

fn push_fixed_two(out: &mut String, bytes: u64, unit: u64)
    requires
        unit > 0,
    ensures
        final(out)@ == old(out)@ + fixed_two(bytes as nat, unit as nat),
{
    let step = step_of(bytes);
    let steps = rounded(bytes as u128, step as u128);
    assert(steps * step <= bytes + step) by (nonlinear_arith)
        requires
            0 <= steps <= (bytes as int) / (step as int) + 1,
            0 < step,
            0 <= bytes,
    ;
    let double: u128 = steps * (step as u128);
    let hundredths = rounded(double * 100, unit as u128);
    let whole = hundredths / 100;
    let part = hundredths % 100;
    push_decimal(out, whole);
    out.push('.');
    out.push(digit((part / 10) as u8));
    out.push(digit((part % 10) as u8));
}

/// Formats a file size for display.
pub fn format_size(bytes: u64) -> (text: String)
    ensures
        text@ == size_text(bytes as nat),
{
    let mut text = String::new();
    if bytes >= GB {
        push_fixed_two(&mut text, bytes, GB);
        text.append(" GB");
    } else if bytes >= MB {
        push_fixed_two(&mut text, bytes, MB);
        text.append(" MB");
    } else if bytes >= KB {
        push_fixed_two(&mut text, bytes, KB);
        text.append(" KB");
    } else {
        push_decimal(&mut text, bytes as u128);
        text.append(" bytes");
    }
    text
}

} // verus!
