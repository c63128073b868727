//! Starting with the system: the value that asks for it, and whether it names
//! this program.

use crate::text::decode_utf16_lossy;
use crate::text::lemma_last_zero_stands_alone;
use crate::text::lemma_zero_comes_from_a_zero;
use crate::text::eq_ignore_ascii_case;
use crate::text::equal_ignoring_ascii_case;
use crate::text::trim_end;
use crate::text::trimmed_end;
use crate::text::utf16_lossy;
use vstd::prelude::*;

verus! {

/// The 16-bit units that bytes stand for, low byte first; an odd byte is left over.
pub open spec fn units_of(bytes: Seq<u8>) -> Seq<u16> {
    Seq::new(
        bytes.len() / 2,
        |i: int| (bytes[2 * i] + 0x100 * bytes[2 * i + 1]) as u16,
    )
}

/// The bytes of 16-bit units, low byte first.
pub open spec fn bytes_of(units: Seq<u16>) -> Seq<u8> {
    Seq::new(
        2 * units.len(),
        |i: int|
            (if i % 2 == 0 {
                units[i / 2] % 0x100
            } else {
                units[i / 2] / 0x100
            }) as u8,
    )
}

/// Units come back from their bytes.
pub proof fn lemma_units_come_back(units: Seq<u16>)
    ensures
        units_of(bytes_of(units)) == units,
{
    let back = units_of(bytes_of(units));
    assert forall|i: int| 0 <= i < units.len() implies back[i] == units[i] by {
        let bytes = bytes_of(units);
        assert((2 * i) / 2 == i && (2 * i) % 2 == 0);
        assert((2 * i + 1) / 2 == i && (2 * i + 1) % 2 == 1);
        assert(bytes[2 * i] == units[i] % 0x100);
        assert(bytes[2 * i + 1] == units[i] / 0x100);
    }
    assert(back =~= units);
}

/// The 16-bit units that bytes stand for.
pub fn wide_units(bytes: &Vec<u8>) -> (r: Vec<u16>)
    ensures
        r@ == units_of(bytes@),
{
    let mut units: Vec<u16> = Vec::new();
    let n: usize = bytes.len() / 2;
    let mut i: usize = 0;
    while i < n
        invariant
            i <= n,
            n == bytes.len() / 2,
            units@ =~= units_of(bytes@).take(i as int),
        decreases n - i,
    {
        let low: u16 = bytes[2 * i] as u16;
        let high: u16 = bytes[2 * i + 1] as u16;
        units.push(low + 0x100 * high);
        i += 1;
    }
    assert(units_of(bytes@).take(n as int) =~= units_of(bytes@));
    units
}

/// The value that makes the system start a program: its path with a zero behind it.
pub open spec fn startup_bytes(path: Seq<u16>) -> Seq<u8> {
    bytes_of(path.push(0))
}

/// The value that makes the system start the program at `path`; none where the
/// path is not known.
pub fn startup_value(path: &Vec<u16>) -> (r: Option<Vec<u8>>)
    ensures
        match r {
            Some(bytes) => path@.len() > 0 && bytes@ == startup_bytes(path@),
            None => path@.len() == 0,
        },
{
    if path.len() == 0 {
        return None;
    }
    let mut bytes: Vec<u8> = Vec::new();
    let mut i: usize = 0;
    while i < path.len()
        invariant
            i <= path.len(),
            bytes@.len() == 2 * i,
            bytes@ =~= startup_bytes(path@).take(2 * i as int),
        decreases path.len() - i,
    {
        let unit: u16 = path[i];
        let ghost before = bytes@;
        bytes.push((unit % 0x100) as u8);
        bytes.push((unit / 0x100) as u8);
        proof {
            let whole = startup_bytes(path@);
            assert(path@.push(0)[i as int] == unit);
            assert((2 * i) / 2 == i && (2 * i) % 2 == 0);
            assert((2 * i + 1) / 2 == i && (2 * i + 1) % 2 == 1);
            assert(whole[2 * i as int] == (unit % 0x100) as u8);
            assert(whole[2 * i + 1] == (unit / 0x100) as u8);
            assert(bytes@ =~= whole.take(2 * (i + 1)));
        }
        i += 1;
    }
    bytes.push(0);
    bytes.push(0);
    proof {
        let n = path@.len() as int;
        let whole = startup_bytes(path@);
        assert(path@.push(0)[n] == 0);
        assert((2 * n) / 2 == n && (2 * n) % 2 == 0);
        assert((2 * n + 1) / 2 == n && (2 * n + 1) % 2 == 1);
        assert(whole[2 * n] == 0);
        assert(whole[2 * n + 1] == 0);
        assert(bytes@ =~= whole);
    }
    Some(bytes)
}

/// A value names the program at a path: the same text, but for case and for zeros
/// at its end.
pub open spec fn names_program(value: Seq<u8>, path: Seq<u16>) -> bool {
    equal_ignoring_ascii_case(trimmed_end(utf16_lossy(units_of(value)), '\0'), utf16_lossy(path))
}

/// A path that holds something and does not end in a zero.
pub open spec fn proper_path(path: Seq<u16>) -> bool {
    path.len() > 0 && path.last() != 0
}

/// Whether the program starts with the system: the value that asks for it names
/// the program at `path`. `value` is absent where it could not be read. The value
/// that asks for the start of the program at a proper path is recognised.
pub fn is_startup_enabled(value: &Option<Vec<u8>>, path: &Vec<u16>) -> (r: bool)
    ensures
        r == (value matches Some(bytes) && bytes@.len() > 0 && path@.len() > 0 && names_program(
            bytes@,
            path@,
        )),
        value matches Some(bytes) && bytes@ == startup_bytes(path@) && proper_path(path@) ==> r,
{
    let bytes = match value {
        Some(bytes) => bytes,
        None => return false,
    };
    if bytes.len() == 0 || path.len() == 0 {
        return false;
    }
    let units = wide_units(bytes);
    let text = decode_utf16_lossy(&units);
    let named = trim_end(text.as_str(), '\0');
    let current = decode_utf16_lossy(path);
    proof {
        if bytes@ == startup_bytes(path@) && proper_path(path@) {
            lemma_units_come_back(path@.push(0));
            lemma_last_zero_stands_alone(path@);
            lemma_zero_comes_from_a_zero(path@);
            assert(text@ == utf16_lossy(path@).push('\0'));
            assert(text@.drop_last() =~= utf16_lossy(path@));
            assert(trimmed_end(text@, '\0') == trimmed_end(utf16_lossy(path@), '\0'));
            assert(trimmed_end(utf16_lossy(path@), '\0') == utf16_lossy(path@));
        }
    }
    eq_ignore_ascii_case(named.as_str(), current.as_str())
}

} // verus!
