use vstd::prelude::*;

use crate::stats::FileStats;
use crate::stats::line_ending_label;

verus! {

/// The decimal digit character for a value below ten.
pub open spec fn dec_digit_char(d: nat) -> char {
    if d == 0 {
        '0'
    } else if d == 1 {
        '1'
    } else if d == 2 {
        '2'
    } else if d == 3 {
        '3'
    } else if d == 4 {
        '4'
    } else if d == 5 {
        '5'
    } else if d == 6 {
        '6'
    } else if d == 7 {
        '7'
    } else if d == 8 {
        '8'
    } else {
        '9'
    }
}

/// The usual decimal rendering of `n`, without leading zeros.
pub open spec fn dec_str(n: nat) -> Seq<char>
    decreases n,
{
    if n < 10 {
        seq![dec_digit_char(n)]
    } else {
        dec_str(n / 10).push(dec_digit_char(n % 10))
    }
}

/// What the extension line of the report shows: the extension itself, or a
/// placeholder when the file name has none.
pub open spec fn extension_label(ext: Option<String>) -> Seq<char> {
    match ext {
        Some(e) => e@,
        None => "none"@,
    }
}

/// The full text of the report for `stats`: a fixed multi-line layout with
/// the file name, the extension (or its placeholder), the line counts, the
/// ending-style label and the two terminator counts.
pub open spec fn report_text(stats: FileStats) -> Seq<char> {
    "File Analysis Report\n"@ + "====================\n"@ + "File name: "@ + stats.file_name@
        + "\n"@ + "File extension: "@ + extension_label(stats.file_extension) + "\n"@
        + "Total lines: "@ + dec_str(stats.total_lines as nat) + "\n"@ + "Empty lines: "@
        + dec_str(stats.empty_lines as nat) + "\n"@ + "Line ending type: "@ + line_ending_label(
        stats.unix_endings as nat,
        stats.dos_endings as nat,
    ) + "\n"@ + "DOS line endings (CRLF): "@ + dec_str(stats.dos_endings as nat) + "\n"@
        + "Unix line endings (LF): "@ + dec_str(stats.unix_endings as nat) + "\n"@
}

/// The one-character string for a decimal digit.
fn digit_str(d: usize) -> (r: &'static str)
    requires
        d < 10,
    ensures
        r@ == seq![dec_digit_char(d as nat)],
{
    let r: &'static str = if d == 0 {
        "0"
    } else if d == 1 {
        "1"
    } else if d == 2 {
        "2"
    } else if d == 3 {
        "3"
    } else if d == 4 {
        "4"
    } else if d == 5 {
        "5"
    } else if d == 6 {
        "6"
    } else if d == 7 {
        "7"
    } else if d == 8 {
        "8"
    } else {
        "9"
    };
    proof {
        reveal_strlit("0");
        reveal_strlit("1");
        reveal_strlit("2");
        reveal_strlit("3");
        reveal_strlit("4");
        reveal_strlit("5");
        reveal_strlit("6");
        reveal_strlit("7");
        reveal_strlit("8");
        reveal_strlit("9");
        assert(r@ =~= seq![dec_digit_char(d as nat)]);
    }
    r
}

/// Render `n` in decimal.
pub fn usize_to_string(n: usize) -> (r: String)
    ensures
        r@ == dec_str(n as nat),
    decreases n,
{
    if n < 10 {
        digit_str(n).to_owned()
    } else {
        let mut s = usize_to_string(n / 10);
        s.append(digit_str(n % 10));
        s
    }
}

impl FileStats {
    /// The report for these statistics, as one string ready to be written
    /// to any output.
    pub fn display(&self) -> (r: String)
        ensures
            r@ == report_text(*self),
    {
        let mut out = String::new();
        out.append("File Analysis Report\n");
        out.append("====================\n");
        out.append("File name: ");
        out.append(self.file_name.as_str());
        out.append("\n");
        out.append("File extension: ");
        match &self.file_extension {
            Some(e) => out.append(e.as_str()),
            None => out.append("none"),
        }
        out.append("\n");
        out.append("Total lines: ");
        let total = usize_to_string(self.total_lines);
        out.append(total.as_str());
        out.append("\n");
        out.append("Empty lines: ");
        let empty = usize_to_string(self.empty_lines);
        out.append(empty.as_str());
        out.append("\n");
        out.append("Line ending type: ");
        out.append(self.determine_line_ending_type());
        out.append("\n");
        out.append("DOS line endings (CRLF): ");
        let dos = usize_to_string(self.dos_endings);
        out.append(dos.as_str());
        out.append("\n");
        out.append("Unix line endings (LF): ");
        let unix = usize_to_string(self.unix_endings);
        out.append(unix.as_str());
        out.append("\n");
        out
    }
}

} // verus!
