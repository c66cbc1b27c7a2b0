//! How deeply the brackets of a report nest, line by line.
//!
//! A report is read one line at a time, each line as one JSON value. The
//! measure taken here follows the brackets of a line as a JSON reader meets
//! them: brackets inside a string literal do not count, and a backslash
//! inside a string literal takes the next byte with it.

use vstd::prelude::*;
use vstd::string::StringSliceAdditionalSpecFns;

verus! {

/// The deepest nesting that a line of a report may have.
pub const NESTING_LIMIT: usize = 127;

/// Where the reading of a text stands: how many brackets are open in the
/// current line, the most that were open at once in any line so far, and
/// whether the reader is inside a string literal, right after a backslash.
pub struct Reading {
    pub depth: nat,
    pub peak: nat,
    pub quoted: bool,
    pub escaped: bool,
}

/// The reading before the first byte.
pub open spec fn reading_start() -> Reading {
    Reading { depth: 0, peak: 0, quoted: false, escaped: false }
}

/// The reading after one more byte. A line feed starts a new line; inside a
/// string literal only the closing quote and the backslash matter; outside,
/// a quote opens a string literal, `[` and `{` open a level, `]` and `}`
/// close one.
pub open spec fn reading_after(before: Reading, byte: u8) -> Reading {
    if byte == 0x0a {
        Reading { depth: 0, peak: before.peak, quoted: false, escaped: false }
    } else if before.quoted {
        if before.escaped {
            Reading { escaped: false, ..before }
        } else if byte == 0x5c {
            Reading { escaped: true, ..before }
        } else if byte == 0x22 {
            Reading { quoted: false, ..before }
        } else {
            before
        }
    } else if byte == 0x22 {
        Reading { quoted: true, ..before }
    } else if byte == 0x5b || byte == 0x7b {
        Reading {
            depth: before.depth + 1,
            peak: if before.depth + 1 > before.peak {
                before.depth + 1
            } else {
                before.peak
            },
            ..before
        }
    } else if byte == 0x5d || byte == 0x7d {
        Reading { depth: if before.depth > 0 { (before.depth - 1) as nat } else { 0 }, ..before }
    } else {
        before
    }
}

/// The reading after all of `bytes`.
pub open spec fn reading(bytes: Seq<u8>) -> Reading
    decreases bytes.len(),
{
    if bytes.len() == 0 {
        reading_start()
    } else {
        reading_after(reading(bytes.drop_last()), bytes.last())
    }
}

/// The deepest nesting of brackets in any line of `bytes`.
pub open spec fn nesting(bytes: Seq<u8>) -> nat {
    reading(bytes).peak
}

/// Whether no line of `bytes` nests deeper than [`NESTING_LIMIT`].
pub open spec fn shallow(bytes: Seq<u8>) -> bool {
    nesting(bytes) <= NESTING_LIMIT
}

/// The nesting of a text is at least that of each of its prefixes.
pub proof fn lemma_nesting_grows(bytes: Seq<u8>, k: int)
    requires
        0 <= k <= bytes.len(),
    ensures
        nesting(bytes.take(k)) <= nesting(bytes),
    decreases bytes.len() - k,
{
    if k == bytes.len() {
        assert(bytes.take(k) =~= bytes);
    } else {
        lemma_nesting_grows(bytes.drop_last(), k);
        assert(bytes.drop_last().take(k) =~= bytes.take(k));
    }
}

/// Computes [`nesting`], up to one past the limit: the result is the
/// nesting where that is within [`NESTING_LIMIT`], and `NESTING_LIMIT + 1`
/// where it is not.
pub fn measure(report: &str) -> (deepest: usize)
    ensures
        deepest <= NESTING_LIMIT + 1,
        shallow(report.spec_bytes()) ==> deepest == nesting(report.spec_bytes()),
        !shallow(report.spec_bytes()) ==> deepest == NESTING_LIMIT + 1,
{
    let bytes = report.as_bytes();
    let mut depth: usize = 0;
    let mut peak: usize = 0;
    let mut quoted = false;
    let mut escaped = false;
    let mut i: usize = 0;
    assert(bytes@.take(0) =~= Seq::<u8>::empty());
    while i < bytes.len()
        invariant
            i <= bytes.len(),
            bytes@ == report.spec_bytes(),
            depth <= peak <= NESTING_LIMIT,
            reading(bytes@.take(i as int)) == (Reading {
                depth: depth as nat,
                peak: peak as nat,
                quoted,
                escaped,
            }),
        decreases bytes.len() - i,
    {
        let byte = bytes[i];
        proof {
            let next = bytes@.take(i + 1);
            assert(next.drop_last() =~= bytes@.take(i as int));
            assert(next.last() == byte);
        }
        if byte == 0x0a {
            depth = 0;
            quoted = false;
            escaped = false;
        } else if quoted {
            if escaped {
                escaped = false;
            } else if byte == 0x5c {
                escaped = true;
            } else if byte == 0x22 {
                quoted = false;
            }
        } else if byte == 0x22 {
            quoted = true;
        } else if byte == 0x5b || byte == 0x7b {
            if depth == NESTING_LIMIT {
                proof {
                    lemma_nesting_grows(bytes@, i + 1);
                }
                return NESTING_LIMIT + 1;
            }
            depth = depth + 1;
            if depth > peak {
                peak = depth;
            }
        } else if byte == 0x5d || byte == 0x7d {
            if depth > 0 {
                depth = depth - 1;
            }
        }
        i = i + 1;
    }
    assert(bytes@.take(i as int) =~= bytes@);
    peak
}

/// Decides [`shallow`] of the bytes of `report`.
pub fn is_shallow(report: &str) -> (yes: bool)
    ensures
        yes == shallow(report.spec_bytes()),
{
    measure(report) <= NESTING_LIMIT
}

} // verus!
