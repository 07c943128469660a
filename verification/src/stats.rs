use vstd::prelude::*;

verus! {

/// Line and ending statistics for one file, computed by a single pass over
/// its bytes and immutable afterwards.
pub struct FileStats {
    /// Terminated lines, plus one if the file ends in unterminated content.
    pub total_lines: usize,
    /// Lone LF terminators (an LF not consumed as the second byte of a CRLF).
    pub unix_endings: usize,
    /// CRLF terminator pairs.
    pub dos_endings: usize,
    /// Terminated lines whose content is empty.
    pub empty_lines: usize,
    /// Characters after the last `.` of the file name, if it has one.
    pub file_extension: Option<String>,
    /// The file name exactly as given.
    pub file_name: String,
}

/// Index of the last `.` among the first `i` characters of `s`, or -1 if
/// there is none.
pub open spec fn last_dot_before(s: Seq<char>, i: int) -> int
    decreases i,
{
    if i <= 0 {
        -1
    } else if s[i - 1] == '.' {
        i - 1
    } else {
        last_dot_before(s, i - 1)
    }
}

/// The extension of a file name: the characters after its last `.`, or
/// nothing when the name has no `.` at all.
pub open spec fn extension_of(name: Seq<char>) -> Option<Seq<char>> {
    let d = last_dot_before(name, name.len() as int);
    if d < 0 {
        None
    } else {
        Some(name.subrange(d + 1, name.len() as int))
    }
}

/// The label that describes which line-ending style dominates: whichever
/// count is strictly larger wins; equal zero counts mean no endings were
/// seen; equal nonzero counts mean the endings are mixed.
pub open spec fn line_ending_label(unix: nat, dos: nat) -> Seq<char> {
    if dos > unix {
        "DOS/Windows (CRLF)"@
    } else if unix > dos {
        "Unix/Linux (LF)"@
    } else if unix == 0 && dos == 0 {
        "No line endings detected"@
    } else {
        "Mixed line endings"@
    }
}

/// Index of the last `.` in `name`, or `None` if it contains no `.`.
fn find_last_dot(name: &str) -> (r: Option<usize>)
    ensures
        match r {
            Some(j) => j < name@.len() && last_dot_before(name@, name@.len() as int) == j as int,
            None => last_dot_before(name@, name@.len() as int) == -1,
        },
{
    let len = name.unicode_len();
    let mut i = len;
    while i > 0
        invariant
            i <= len,
            len == name@.len(),
            last_dot_before(name@, len as int) == last_dot_before(name@, i as int),
        decreases i,
    {
        if name.get_char(i - 1) == '.' {
            return Some(i - 1);
        }
        i = i - 1;
    }
    None
}

impl FileStats {
    /// Fresh statistics for the named file: every counter zero, and the
    /// extension taken from the characters after the name's last `.`.
    pub fn new(file_name: String) -> (r: FileStats)
        ensures
            r.total_lines == 0,
            r.unix_endings == 0,
            r.dos_endings == 0,
            r.empty_lines == 0,
            r.file_name == file_name,
            r.file_extension.is_some() == extension_of(file_name@).is_some(),
            r.file_extension.is_some() ==> r.file_extension.unwrap()@ == extension_of(
                file_name@,
            ).unwrap(),
    {
        let file_extension: Option<String> = match find_last_dot(file_name.as_str()) {
            Some(d) => {
                let len = file_name.as_str().unicode_len();
                Some(file_name.as_str().substring_char(d + 1, len).to_owned())
            },
            None => None,
        };
        FileStats {
            total_lines: 0,
            unix_endings: 0,
            dos_endings: 0,
            empty_lines: 0,
            file_extension,
            file_name,
        }
    }

    /// The line-ending style this file shows, as a fixed label.
    pub fn determine_line_ending_type(&self) -> (r: &'static str)
        ensures
            r@ == line_ending_label(self.unix_endings as nat, self.dos_endings as nat),
    {
        if self.dos_endings > self.unix_endings {
            "DOS/Windows (CRLF)"
        } else if self.unix_endings > self.dos_endings {
            "Unix/Linux (LF)"
        } else if self.unix_endings == 0 && self.dos_endings == 0 {
            "No line endings detected"
        } else {
            "Mixed line endings"
        }
    }
}

} // verus!
