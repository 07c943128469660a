use vstd::prelude::*;

use crate::stats::FileStats;

verus! {

/// The line feed byte, the Unix line terminator.
pub const LF: u8 = 10;

/// The carriage return byte; together with a following LF it forms the
/// DOS line terminator, alone it is ordinary content.
pub const CR: u8 = 13;

/// What one pass over a byte buffer counts.
pub ghost struct LineCounts {
    /// Terminated lines, plus one for an unterminated trailing fragment.
    pub total: nat,
    /// Lone LF terminators.
    pub unix: nat,
    /// CRLF terminator pairs.
    pub dos: nat,
    /// Terminated lines with empty content.
    pub empty: nat,
}

/// A CRLF pair starts at position `i` of `s`.
pub open spec fn is_crlf_at(s: Seq<u8>, i: int) -> bool {
    s[i] == CR && i + 1 < s.len() && s[i + 1] == LF
}

/// The counts contributed by `s` from position `i` on, where `line_open`
/// says whether the line in progress already has content. A CRLF pair ends
/// a line as a DOS terminator, a lone LF ends one as a Unix terminator, a
/// CR without a following LF is ordinary content, and a line still open at
/// the end of the buffer adds one final unterminated line.
pub open spec fn scan_from(s: Seq<u8>, i: int, line_open: bool) -> LineCounts
    decreases s.len() - i,
{
    if i < 0 || i >= s.len() {
        LineCounts { total: if line_open { 1nat } else { 0nat }, unix: 0, dos: 0, empty: 0 }
    } else if is_crlf_at(s, i) {
        let rest = scan_from(s, i + 2, false);
        LineCounts {
            total: rest.total + 1,
            unix: rest.unix,
            dos: rest.dos + 1,
            empty: rest.empty + if line_open { 0nat } else { 1nat },
        }
    } else if s[i] == LF {
        let rest = scan_from(s, i + 1, false);
        LineCounts {
            total: rest.total + 1,
            unix: rest.unix + 1,
            dos: rest.dos,
            empty: rest.empty + if line_open { 0nat } else { 1nat },
        }
    } else {
        scan_from(s, i + 1, true)
    }
}

/// The counts for a whole byte buffer.
pub open spec fn scan_bytes(s: Seq<u8>) -> LineCounts {
    scan_from(s, 0, false)
}

/// Whether a line is still open (has unterminated content) once the scan
/// that starts at position `i` with state `line_open` reaches the end of `s`.
pub open spec fn open_at_end(s: Seq<u8>, i: int, line_open: bool) -> bool
    decreases s.len() - i,
{
    if i < 0 || i >= s.len() {
        line_open
    } else if is_crlf_at(s, i) {
        open_at_end(s, i + 2, false)
    } else if s[i] == LF {
        open_at_end(s, i + 1, false)
    } else {
        open_at_end(s, i + 1, true)
    }
}

/// The buffer ends in content that no terminator closed.
pub open spec fn trailing_unterminated(s: Seq<u8>) -> bool {
    open_at_end(s, 0, false)
}

proof fn lemma_scan_from_breakdown(s: Seq<u8>, i: int, line_open: bool)
    ensures
        scan_from(s, i, line_open).total == scan_from(s, i, line_open).unix + scan_from(
            s,
            i,
            line_open,
        ).dos + if open_at_end(s, i, line_open) {
            1nat
        } else {
            0nat
        },
    decreases s.len() - i,
{
    if i < 0 || i >= s.len() {
    } else if is_crlf_at(s, i) {
        lemma_scan_from_breakdown(s, i + 2, false);
    } else if s[i] == LF {
        lemma_scan_from_breakdown(s, i + 1, false);
    } else {
        lemma_scan_from_breakdown(s, i + 1, true);
    }
}

/// Law: for every byte sequence, the total line count is exactly the Unix
/// terminator count plus the DOS terminator count, plus one more line if
/// and only if the buffer ends in unterminated content. In particular the
/// total is never below the sum of the two terminator counts.
pub proof fn lemma_line_count_breakdown(s: Seq<u8>)
    ensures
        scan_bytes(s).total == scan_bytes(s).unix + scan_bytes(s).dos + if trailing_unterminated(
            s,
        ) {
            1nat
        } else {
            0nat
        },
        scan_bytes(s).total >= scan_bytes(s).unix + scan_bytes(s).dos,
{
    lemma_scan_from_breakdown(s, 0, false);
}

/// Scan `contents` once, left to right, and count its lines, terminators
/// and empty lines; the file name is recorded as `FileStats::new` records it.
pub fn analyze_bytes(file_name: String, contents: &[u8]) -> (r: FileStats)
    ensures
        r.total_lines == scan_bytes(contents@).total,
        r.unix_endings == scan_bytes(contents@).unix,
        r.dos_endings == scan_bytes(contents@).dos,
        r.empty_lines == scan_bytes(contents@).empty,
        r.file_name == file_name,
        r.file_extension.is_some() == crate::stats::extension_of(file_name@).is_some(),
        r.file_extension.is_some() ==> r.file_extension.unwrap()@ == crate::stats::extension_of(
            file_name@,
        ).unwrap(),
{
    let mut stats = FileStats::new(file_name);
    let ghost name0 = stats.file_name;
    let ghost ext0 = stats.file_extension;
    let mut line_open = false;
    let mut i: usize = 0;
    while i < contents.len()
        invariant
            i <= contents@.len(),
            stats.unix_endings + 2 * stats.dos_endings + (if line_open {
                1int
            } else {
                0int
            }) <= i,
            stats.total_lines == stats.unix_endings + stats.dos_endings,
            stats.empty_lines <= stats.total_lines,
            scan_bytes(contents@).total == stats.total_lines + scan_from(
                contents@,
                i as int,
                line_open,
            ).total,
            scan_bytes(contents@).unix == stats.unix_endings + scan_from(
                contents@,
                i as int,
                line_open,
            ).unix,
            scan_bytes(contents@).dos == stats.dos_endings + scan_from(
                contents@,
                i as int,
                line_open,
            ).dos,
            scan_bytes(contents@).empty == stats.empty_lines + scan_from(
                contents@,
                i as int,
                line_open,
            ).empty,
            stats.file_name == name0,
            stats.file_extension == ext0,
        decreases contents@.len() - i,
    {
        let b = contents[i];
        if b == CR && i + 1 < contents.len() && contents[i + 1] == LF {
            stats.dos_endings = stats.dos_endings + 1;
            stats.total_lines = stats.total_lines + 1;
            if !line_open {
                stats.empty_lines = stats.empty_lines + 1;
            }
            line_open = false;
            i = i + 2;
        } else if b == LF {
            stats.unix_endings = stats.unix_endings + 1;
            stats.total_lines = stats.total_lines + 1;
            if !line_open {
                stats.empty_lines = stats.empty_lines + 1;
            }
            line_open = false;
            i = i + 1;
        } else {
            line_open = true;
            i = i + 1;
        }
    }
    if line_open {
        stats.total_lines = stats.total_lines + 1;
    }
    stats
}

} // verus!
