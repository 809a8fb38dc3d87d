//! Answers of renderers to a search on the network.

use vstd::prelude::*;
use vstd::utf8::{decode_utf8, valid_utf8};

use crate::text::{str_from_utf8, trim, trimmed};

verus! {

/// Whether `from_str` of `http::Uri` accepts a text as an address.
pub uninterp spec fn uri_is_valid(text: Seq<char>) -> bool;

/// Tells whether a text is an address.
///
/// Trusted: calls `from_str` of `http::Uri`, through `parse` of `str`,
/// and reports whether it succeeds. The call reads nothing but the text
/// and returns for every text.
#[verifier::external_body]
fn uri_parses(text: &str) -> (valid: bool)
    ensures
        valid == uri_is_valid(text@),
{
    text.parse::<http::Uri>().is_ok()
}

/// Whether a byte is white space of the ASCII range: a blank, a tab, a
/// line feed, a form feed or a carriage return.
pub open spec fn is_space(byte: u8) -> bool {
    byte == 0x20 || byte == 0x09 || byte == 0x0a || byte == 0x0c || byte == 0x0d
}

/// The bytes without the white space at their start.
pub open spec fn trim_start(bytes: Seq<u8>) -> Seq<u8>
    decreases bytes.len(),
{
    if bytes.len() > 0 && is_space(bytes[0]) {
        trim_start(bytes.drop_first())
    } else {
        bytes
    }
}

/// The bytes without the white space at their end.
pub open spec fn trim_end(bytes: Seq<u8>) -> Seq<u8>
    decreases bytes.len(),
{
    if bytes.len() > 0 && is_space(bytes.last()) {
        trim_end(bytes.drop_last())
    } else {
        bytes
    }
}

/// Where the line that starts at `pos` ends: at the next line feed, or
/// at the end of the bytes.
pub open spec fn line_end(bytes: Seq<u8>, pos: int) -> int
    decreases bytes.len() - pos,
{
    if pos >= bytes.len() {
        bytes.len() as int
    } else if bytes[pos] == 0x0a {
        pos
    } else {
        line_end(bytes, pos + 1)
    }
}

/// A line ends at or after its start, and within the bytes.
pub proof fn line_end_is_ahead(bytes: Seq<u8>, pos: int)
    requires
        0 <= pos <= bytes.len(),
    ensures
        pos <= line_end(bytes, pos) <= bytes.len(),
    decreases bytes.len() - pos,
{
    if pos < bytes.len() && bytes[pos] != 0x0a {
        line_end_is_ahead(bytes, pos + 1);
    }
}

/// The line that starts at `pos`, without the white space around it.
pub open spec fn line_at(bytes: Seq<u8>, pos: int) -> Seq<u8> {
    trim_end(trim_start(bytes.subrange(pos, line_end(bytes, pos))))
}

/// The place of the first `byte` in `bytes` from `from` on, if there is
/// one.
pub open spec fn position(bytes: Seq<u8>, byte: u8, from: int) -> Option<int>
    decreases bytes.len() - from,
{
    if from >= bytes.len() {
        None
    } else if bytes[from] == byte {
        Some(from)
    } else {
        position(bytes, byte, from + 1)
    }
}

/// A letter of the ASCII range in lower case; any other byte as it is.
pub open spec fn lower(byte: u8) -> u8 {
    if 0x41 <= byte <= 0x5a {
        (byte + 0x20) as u8
    } else {
        byte
    }
}

/// Whether `name` reads `location`, in letters of either case.
pub open spec fn is_location(name: Seq<u8>) -> bool {
    &&& name.len() == 8
    &&& lower(name[0]) == 0x6c
    &&& lower(name[1]) == 0x6f
    &&& lower(name[2]) == 0x63
    &&& lower(name[3]) == 0x61
    &&& lower(name[4]) == 0x74
    &&& lower(name[5]) == 0x69
    &&& lower(name[6]) == 0x6f
    &&& lower(name[7]) == 0x6e
}

/// What the header `Location` holds, among the header lines from `pos`
/// on.
///
/// A header line is a name, a colon and a value. The headers end at the
/// first line without a colon. Of several headers of that name the first
/// counts.
pub open spec fn location_from(bytes: Seq<u8>, pos: int) -> Option<Seq<u8>>
    decreases bytes.len() - pos,
{
    if pos > bytes.len() || pos < 0 {
        None
    } else {
        let line = line_at(bytes, pos);
        match position(line, 0x3a, 0) {
            None => None,
            Some(colon) => if is_location(line.take(colon)) {
                Some(line.skip(colon + 1))
            } else if line_end(bytes, pos) >= bytes.len() {
                None
            } else {
                proof {
                    line_end_is_ahead(bytes, pos);
                }
                location_from(bytes, line_end(bytes, pos) + 1)
            },
        }
    }
}

/// What the header `Location` of an answer holds.
///
/// The first line of an answer is its status: it has to hold at least
/// two words, with a blank between them. The header lines follow it.
pub open spec fn location_value(response: Seq<u8>) -> Option<Seq<u8>> {
    if position(line_at(response, 0), 0x20, 0) is None {
        None
    } else if line_end(response, 0) >= response.len() {
        None
    } else {
        location_from(response, line_end(response, 0) + 1)
    }
}

/// The address that an answer points to: the text of its header
/// `Location` without the white space around it, if that is an address.
pub open spec fn notified_location(response: Seq<u8>) -> Option<Seq<char>> {
    match location_value(response) {
        Some(value) => if valid_utf8(value) && uri_is_valid(trimmed(decode_utf8(value))) {
            Some(trimmed(decode_utf8(value)))
        } else {
            None
        },
        None => None,
    }
}

/// What a renderer says of itself when it answers a search.
#[derive(Debug, PartialEq, Eq)]
pub struct Notify {
    /// Where the renderer describes itself. This is an address.
    pub location: String,
}

fn find_line_end(bytes: &[u8], pos: usize) -> (end: usize)
    requires
        pos <= bytes@.len(),
    ensures
        end == line_end(bytes@, pos as int),
        pos <= end <= bytes@.len(),
{
    let mut end = pos;
    while end < bytes.len() && bytes[end] != 0x0a
        invariant
            pos <= end <= bytes@.len(),
            line_end(bytes@, end as int) == line_end(bytes@, pos as int),
        decreases bytes@.len() - end,
    {
        end += 1;
    }
    end
}

proof fn trim_start_skips(bytes: Seq<u8>, n: int)
    requires
        0 <= n <= bytes.len(),
        forall|j: int| 0 <= j < n ==> is_space(bytes[j]),
    ensures
        trim_start(bytes) == trim_start(bytes.skip(n)),
    decreases n,
{
    if n == 0 {
        assert(bytes.skip(0) =~= bytes);
    } else {
        trim_start_skips(bytes.drop_first(), n - 1);
        assert(bytes.drop_first().skip(n - 1) =~= bytes.skip(n));
    }
}

proof fn trim_end_drops(bytes: Seq<u8>, n: int)
    requires
        0 <= n <= bytes.len(),
        forall|j: int| n <= j < bytes.len() ==> is_space(bytes[j]),
    ensures
        trim_end(bytes) == trim_end(bytes.take(n)),
    decreases bytes.len() - n,
{
    if n == bytes.len() {
        assert(bytes.take(n) =~= bytes);
    } else {
        trim_end_drops(bytes.drop_last(), n);
        assert(bytes.drop_last().take(n) =~= bytes.take(n));
    }
}

/// The bounds of the part of `bytes` between `lo` and `hi` that is left
/// when the white space around it is taken off.
fn trim_bounds(bytes: &[u8], lo: usize, hi: usize) -> (inner: (usize, usize))
    requires
        lo <= hi <= bytes@.len(),
    ensures
        lo <= inner.0 <= inner.1 <= hi,
        bytes@.subrange(inner.0 as int, inner.1 as int) == trim_end(
            trim_start(bytes@.subrange(lo as int, hi as int)),
        ),
{
    let ghost part = bytes@.subrange(lo as int, hi as int);
    let mut start = lo;
    while start < hi && is_space_byte(bytes[start])
        invariant
            lo <= start <= hi <= bytes@.len(),
            forall|j: int| lo <= j < start ==> is_space(bytes@[j]),
        decreases hi - start,
    {
        start += 1;
    }
    let mut end = hi;
    while end > start && is_space_byte(bytes[end - 1])
        invariant
            start <= end <= hi <= bytes@.len(),
            forall|j: int| end <= j < hi ==> is_space(bytes@[j]),
        decreases end,
    {
        end -= 1;
    }
    proof {
        trim_start_skips(part, start - lo);
        let rest = part.skip(start - lo);
        assert(rest =~= bytes@.subrange(start as int, hi as int));
        // Nothing more comes off the start: it is empty or starts with another byte.
        assert(trim_start(rest) == rest) by {
            if rest.len() > 0 {
                assert(rest[0] == bytes@[start as int]);
            }
        }
        trim_end_drops(rest, end - start);
        let inner = rest.take(end - start);
        assert(inner =~= bytes@.subrange(start as int, end as int));
        assert(trim_end(inner) == inner) by {
            if inner.len() > 0 {
                assert(inner.last() == bytes@[end - 1]);
            }
        }
    }
    (start, end)
}

fn is_space_byte(byte: u8) -> (space: bool)
    ensures
        space == is_space(byte),
{
    byte == 0x20 || byte == 0x09 || byte == 0x0a || byte == 0x0c || byte == 0x0d
}

proof fn position_skips(bytes: Seq<u8>, byte: u8, from: int, to: int)
    requires
        0 <= from <= to <= bytes.len(),
        forall|j: int| from <= j < to ==> bytes[j] != byte,
    ensures
        position(bytes, byte, from) == position(bytes, byte, to),
    decreases to - from,
{
    if from < to {
        position_skips(bytes, byte, from + 1, to);
    }
}

/// Finds the first `byte` between `lo` and `hi`.
fn find_byte(bytes: &[u8], byte: u8, lo: usize, hi: usize) -> (found: Option<usize>)
    requires
        lo <= hi <= bytes@.len(),
    ensures
        match found {
            Some(i) => lo <= i < hi && position(bytes@.subrange(lo as int, hi as int), byte, 0)
                == Some(i - lo),
            None => position(bytes@.subrange(lo as int, hi as int), byte, 0) is None,
        },
{
    let ghost part = bytes@.subrange(lo as int, hi as int);
    let mut i = lo;
    while i < hi
        invariant
            lo <= i <= hi <= bytes@.len(),
            part == bytes@.subrange(lo as int, hi as int),
            forall|j: int| 0 <= j < i - lo ==> part[j] != byte,
        decreases hi - i,
    {
        if bytes[i] == byte {
            proof {
                position_skips(part, byte, 0, i - lo);
                assert(part[i - lo] == byte);
            }
            return Some(i);
        }
        i += 1;
    }
    proof {
        position_skips(part, byte, 0, part.len() as int);
    }
    None
}

fn lower_byte(byte: u8) -> (folded: u8)
    ensures
        folded == lower(byte),
{
    if 0x41 <= byte && byte <= 0x5a {
        byte + 0x20
    } else {
        byte
    }
}

fn names_location(bytes: &[u8], lo: usize, hi: usize) -> (named: bool)
    requires
        lo <= hi <= bytes@.len(),
    ensures
        named == is_location(bytes@.subrange(lo as int, hi as int)),
{
    if hi - lo != 8 {
        return false;
    }
    let ghost name = bytes@.subrange(lo as int, hi as int);
    assert(name[0] == bytes@[lo as int] && name[1] == bytes@[lo + 1] && name[2] == bytes@[lo + 2]
        && name[3] == bytes@[lo + 3] && name[4] == bytes@[lo + 4] && name[5] == bytes@[lo + 5]
        && name[6] == bytes@[lo + 6] && name[7] == bytes@[lo + 7]);
    lower_byte(bytes[lo]) == 0x6c && lower_byte(bytes[lo + 1]) == 0x6f && lower_byte(bytes[lo + 2])
        == 0x63 && lower_byte(bytes[lo + 3]) == 0x61 && lower_byte(bytes[lo + 4]) == 0x74
        && lower_byte(bytes[lo + 5]) == 0x69 && lower_byte(bytes[lo + 6]) == 0x6f && lower_byte(
        bytes[lo + 7],
    ) == 0x6e
}

/// Finds the value of the header `Location` among the lines from `pos`
/// on, as bounds into `bytes`.
fn find_location(bytes: &[u8], pos: usize) -> (found: Option<(usize, usize)>)
    requires
        pos <= bytes@.len(),
    ensures
        match found {
            Some((lo, hi)) => lo <= hi <= bytes@.len() && location_from(bytes@, pos as int) == Some(
                bytes@.subrange(lo as int, hi as int),
            ),
            None => location_from(bytes@, pos as int) is None,
        },
    decreases bytes@.len() - pos,
{
    let end = find_line_end(bytes, pos);
    let (lo, hi) = trim_bounds(bytes, pos, end);
    let ghost line = line_at(bytes@, pos as int);
    assert(line == bytes@.subrange(lo as int, hi as int));
    match find_byte(bytes, 0x3a, lo, hi) {
        None => None,
        Some(colon) => {
            assert(line.take(colon - lo) =~= bytes@.subrange(lo as int, colon as int));
            if names_location(bytes, lo, colon) {
                assert(line.skip(colon - lo + 1) =~= bytes@.subrange(colon + 1, hi as int));
                Some((colon + 1, hi))
            } else if end >= bytes.len() {
                None
            } else {
                find_location(bytes, end + 1)
            }
        },
    }
}

impl Notify {
    /// Reads the answer of a renderer.
    ///
    /// There is a result if the answer has a status line and a header
    /// `Location` whose value is an address, and none otherwise.
    pub fn from_response(response: &[u8]) -> (notify: Option<Notify>)
        ensures
            match notify {
                Some(notify) => notified_location(response@) == Some(notify.location@),
                None => notified_location(response@) is None,
            },
    {
        let end = find_line_end(response, 0);
        let (lo, hi) = trim_bounds(response, 0, end);
        if find_byte(response, 0x20, lo, hi).is_none() {
            return None;
        }
        if end >= response.len() {
            return None;
        }
        let (lo, hi) = match find_location(response, end + 1) {
            Some(bounds) => bounds,
            None => {
                return None;
            },
        };
        let value = &response[lo..hi];
        let text = match str_from_utf8(value) {
            Some(text) => text,
            None => {
                return None;
            },
        };
        let location = trim(text);
        if !uri_parses(location) {
            return None;
        }
        Some(Notify { location: location.to_owned() })
    }
}

} // verus!
