//! The camera parameter file: `key=value` lines, `#` comments, blank lines.
//!
//! Reading keeps, for each key, the value of its last line; keys and values
//! are trimmed of white space as `str::trim` trims (the Unicode `White_Space`
//! characters). The numbers in the file are read by the caller.

use vstd::prelude::*;
use crate::text::join2;

verus! {

/// The characters that `char::is_whitespace` accepts (Unicode `White_Space`).
pub open spec fn is_space(c: char) -> bool {
    let u = c as u32;
    (0x9 <= u && u <= 0xd) || u == 0x20 || u == 0x85 || u == 0xa0 || u == 0x1680
        || (0x2000 <= u && u <= 0x200a) || u == 0x2028 || u == 0x2029 || u == 0x202f
        || u == 0x205f || u == 0x3000
}

/// `s` without its leading white space.
pub open spec fn trim_start(s: Seq<char>) -> Seq<char>
    decreases s.len(),
{
    if s.len() > 0 && is_space(s[0]) {
        trim_start(s.drop_first())
    } else {
        s
    }
}

/// `s` without its trailing white space.
pub open spec fn trim_end(s: Seq<char>) -> Seq<char>
    decreases s.len(),
{
    if s.len() > 0 && is_space(s.last()) {
        trim_end(s.drop_last())
    } else {
        s
    }
}

/// `s` without its leading and trailing white space.
pub open spec fn trim(s: Seq<char>) -> Seq<char> {
    trim_end(trim_start(s))
}

/// `p` is the position of the first `=` of the line.
pub open spec fn is_first_equals(line: Seq<char>, p: int) -> bool {
    0 <= p < line.len() && line[p] == '=' && forall|k: int| 0 <= k < p ==> line[k] != '='
}

/// The key and value of a line: none for a comment (first character `#`),
/// for a blank line, or for a line without `=`; otherwise the trimmed text
/// before the first `=` and the trimmed text after it.
pub open spec fn key_value(line: Seq<char>) -> Option<(Seq<char>, Seq<char>)> {
    if (line.len() > 0 && line[0] == '#') || trim(line).len() == 0 {
        None
    } else if exists|p: int| is_first_equals(line, p) {
        let p = choose|p: int| is_first_equals(line, p);
        Some((trim(line.subrange(0, p)), trim(line.subrange(p + 1, line.len() as int))))
    } else {
        None
    }
}

/// The value of the last line that sets `key`.
pub open spec fn value_for(lines: Seq<Seq<char>>, key: Seq<char>) -> Option<Seq<char>>
    decreases lines.len(),
{
    if lines.len() == 0 {
        None
    } else {
        match key_value(lines.last()) {
            Some(kv) => if kv.0 == key {
                Some(kv.1)
            } else {
                value_for(lines.drop_last(), key)
            },
            None => value_for(lines.drop_last(), key),
        }
    }
}

/// Skipping leading white space one character at a time.
proof fn lemma_trim_start_skip(s: Seq<char>, i: int)
    requires
        0 <= i <= s.len(),
        forall|k: int| 0 <= k < i ==> is_space(s[k]),
    ensures
        trim_start(s) == trim_start(s.subrange(i, s.len() as int)),
    decreases i,
{
    if i == 0 {
        assert(s.subrange(0, s.len() as int) =~= s);
    } else {
        lemma_trim_start_skip(s, i - 1);
        let t = s.subrange(i - 1, s.len() as int);
        assert(t.drop_first() =~= s.subrange(i, s.len() as int));
    }
}

/// Skipping trailing white space one character at a time.
proof fn lemma_trim_end_skip(s: Seq<char>, j: int)
    requires
        0 <= j <= s.len(),
        forall|k: int| j <= k < s.len() ==> is_space(s[k]),
    ensures
        trim_end(s) == trim_end(s.subrange(0, j)),
    decreases s.len() - j,
{
    if j == s.len() {
        assert(s.subrange(0, j) =~= s);
    } else {
        lemma_trim_end_skip(s, j + 1);
        let t = s.subrange(0, j + 1);
        assert(t.drop_last() =~= s.subrange(0, j));
    }
}

/// Whether a character is white space, as `char::is_whitespace` decides.
pub fn is_space_char(c: char) -> (r: bool)
    ensures
        r == is_space(c),
{
    let u = c as u32;
    (0x9 <= u && u <= 0xd) || u == 0x20 || u == 0x85 || u == 0xa0 || u == 0x1680
        || (0x2000 <= u && u <= 0x200a) || u == 0x2028 || u == 0x2029 || u == 0x202f
        || u == 0x205f || u == 0x3000
}

/// `s` without its leading and trailing white space.
pub fn trim_str(s: &str) -> (r: String)
    ensures
        r@ == trim(s@),
{
    let n = s.unicode_len();
    let mut i: usize = 0;
    while i < n && is_space_char(s.get_char(i))
        invariant
            n == s@.len(),
            i <= n,
            forall|k: int| 0 <= k < i ==> is_space(s@[k]),
        decreases n - i,
    {
        i = i + 1;
    }
    proof {
        lemma_trim_start_skip(s@, i as int);
    }
    let ghost t = s@.subrange(i as int, n as int);
    assert(trim_start(t) == t);
    let mut j: usize = n;
    while j > i && is_space_char(s.get_char(j - 1))
        invariant
            n == s@.len(),
            i <= j <= n,
            forall|k: int| j <= k < n ==> is_space(s@[k]),
        decreases j,
    {
        j = j - 1;
    }
    proof {
        assert forall|k: int| (j - i) <= k < t.len() implies is_space(t[k]) by {
            assert(t[k] == s@[k + i]);
        }
        lemma_trim_end_skip(t, (j - i) as int);
        let u = t.subrange(0, (j - i) as int);
        assert(u =~= s@.subrange(i as int, j as int));
        if u.len() > 0 {
            assert(u.last() == s@[j - 1]);
        }
        assert(trim_end(u) == u);
    }
    s.substring_char(i, j).to_string()
}

/// The key and value of a line.
pub fn parse_line(line: &str) -> (r: Option<(String, String)>)
    ensures
        match key_value(line@) {
            Some(kv) => r matches Some(p) && p.0@ == kv.0 && p.1@ == kv.1,
            None => r is None,
        },
{
    let n = line.unicode_len();
    if n > 0 && line.get_char(0) == '#' {
        return None;
    }
    let trimmed = trim_str(line);
    if trimmed.as_str().unicode_len() == 0 {
        return None;
    }
    let mut p: usize = 0;
    while p < n && line.get_char(p) != '='
        invariant
            n == line@.len(),
            p <= n,
            forall|k: int| 0 <= k < p ==> line@[k] != '=',
        decreases n - p,
    {
        p = p + 1;
    }
    if p == n {
        assert(!exists|q: int| is_first_equals(line@, q));
        return None;
    }
    proof {
        assert(is_first_equals(line@, p as int));
        let q = choose|q: int| is_first_equals(line@, q);
        assert(q == p as int);
    }
    let key = trim_str(line.substring_char(0, p));
    let value = trim_str(line.substring_char(p + 1, n));
    Some((key, value))
}

/// The value of the last line that sets `key`.
pub fn value_of_key(lines: &Vec<String>, key: &str) -> (r: Option<String>)
    ensures
        match value_for(lines@.map_values(|l: String| l@), key@) {
            Some(v) => r matches Some(s) && s@ == v,
            None => r is None,
        },
{
    let ghost views = lines@.map_values(|l: String| l@);
    let n = lines.len();
    let mut found: Option<String> = None;
    let mut i: usize = 0;
    while i < n
        invariant
            n == lines@.len(),
            views == lines@.map_values(|l: String| l@),
            i <= n,
            match value_for(views.take(i as int), key@) {
                Some(v) => found matches Some(s) && s@ == v,
                None => found is None,
            },
        decreases n - i,
    {
        proof {
            assert(views.take(i + 1).drop_last() =~= views.take(i as int));
            assert(views.take(i + 1).last() == lines@[i as int]@);
        }
        match parse_line(lines[i].as_str()) {
            Some((k, v)) => {
                if crate::text::str_eq(k.as_str(), key) {
                    found = Some(v);
                }
            },
            None => {},
        }
        i = i + 1;
    }
    assert(views.take(n as int) =~= views);
    found
}

/// The text that an optional string holds.
pub open spec fn text_of(o: Option<String>) -> Option<Seq<char>> {
    match o {
        Some(s) => Some(s@),
        None => None,
    }
}

/// The parameters that the camera parameter file holds, as text, and the
/// serials with their defaults (`DA4347673` left, `DA4347675` right).
pub struct CameraParamsText {
    pub frame_rate: Option<String>,
    pub exposure_time: Option<String>,
    pub gain: Option<String>,
    pub left_serial: String,
    pub right_serial: String,
}

/// Reads the parameters from the lines of the camera parameter file.
pub fn camera_params_from_lines(lines: &Vec<String>) -> (r: CameraParamsText)
    ensures
        ({
            let views = lines@.map_values(|l: String| l@);
            &&& value_for(views, "frame_rate"@) == text_of(r.frame_rate)
            &&& value_for(views, "exposure_time"@) == text_of(r.exposure_time)
            &&& value_for(views, "gain"@) == text_of(r.gain)
            &&& r.left_serial@ == match value_for(views, "left_camera_serial"@) {
                Some(v) => v,
                None => "DA4347673"@,
            }
            &&& r.right_serial@ == match value_for(views, "right_camera_serial"@) {
                Some(v) => v,
                None => "DA4347675"@,
            }
        }),
{
    CameraParamsText {
        frame_rate: value_of_key(lines, "frame_rate"),
        exposure_time: value_of_key(lines, "exposure_time"),
        gain: value_of_key(lines, "gain"),
        left_serial: match value_of_key(lines, "left_camera_serial") {
            Some(v) => v,
            None => "DA4347673".to_string(),
        },
        right_serial: match value_of_key(lines, "right_camera_serial") {
            Some(v) => v,
            None => "DA4347675".to_string(),
        },
    }
}

} // verus!

verus! {

/// The lines of the camera parameter file that holds the given serials and
/// parameter texts.
pub open spec fn camera_params_file_lines(left: Seq<char>, right: Seq<char>, frame_rate: Seq<char>,
    exposure_time: Seq<char>, gain: Seq<char>) -> Seq<Seq<char>> {
    seq![
        "# Camera Hardware Configuration"@,
        "# Format: key=value"@,
        "# Lines starting with # are comments"@,
        Seq::<char>::empty(),
        "# Camera Serial Numbers"@,
        "left_camera_serial="@ + left,
        "right_camera_serial="@ + right,
        Seq::<char>::empty(),
        "# Camera Parameters"@,
        "frame_rate="@ + frame_rate,
        "exposure_time="@ + exposure_time,
        "gain="@ + gain,
        Seq::<char>::empty(),
        "# ROI Parameters (reserved for future use)"@,
        "# roi_width=2448"@,
        "# roi_height=2048"@,
        "# roi_offset_x=0"@,
        "# roi_offset_y=0"@
    ]
}

/// Lines joined with newlines, no newline after the last.
pub open spec fn join_lines(lines: Seq<Seq<char>>) -> Seq<char>
    decreases lines.len(),
{
    if lines.len() == 0 {
        Seq::empty()
    } else if lines.len() == 1 {
        lines[0]
    } else {
        join_lines(lines.drop_last()) + "\n"@ + lines.last()
    }
}

/// The lines of the camera parameter file for the given serials and
/// parameter texts (the numbers as the caller writes them).
pub fn camera_params_lines(left_serial: &str, right_serial: &str, frame_rate: &str, exposure_time: &str,
    gain: &str) -> (r: Vec<String>)
    ensures
        r@.map_values(|l: String| l@) == camera_params_file_lines(left_serial@, right_serial@,
            frame_rate@, exposure_time@, gain@),
{
    let mut lines: Vec<String> = Vec::new();
    lines.push("# Camera Hardware Configuration".to_string());
    lines.push("# Format: key=value".to_string());
    lines.push("# Lines starting with # are comments".to_string());
    lines.push(String::new());
    lines.push("# Camera Serial Numbers".to_string());
    lines.push(join2("left_camera_serial=", left_serial));
    lines.push(join2("right_camera_serial=", right_serial));
    lines.push(String::new());
    lines.push("# Camera Parameters".to_string());
    lines.push(join2("frame_rate=", frame_rate));
    lines.push(join2("exposure_time=", exposure_time));
    lines.push(join2("gain=", gain));
    lines.push(String::new());
    lines.push("# ROI Parameters (reserved for future use)".to_string());
    lines.push("# roi_width=2448".to_string());
    lines.push("# roi_height=2048".to_string());
    lines.push("# roi_offset_x=0".to_string());
    lines.push("# roi_offset_y=0".to_string());
    assert(lines@.map_values(|l: String| l@) =~= camera_params_file_lines(left_serial@, right_serial@,
        frame_rate@, exposure_time@, gain@));
    lines
}

/// The text of a file made of the given lines.
pub fn lines_to_text(lines: &Vec<String>) -> (r: String)
    ensures
        r@ == join_lines(lines@.map_values(|l: String| l@)),
{
    let ghost views = lines@.map_values(|l: String| l@);
    let n = lines.len();
    let mut text = String::new();
    let mut i: usize = 0;
    while i < n
        invariant
            n == lines@.len(),
            views == lines@.map_values(|l: String| l@),
            i <= n,
            text@ == join_lines(views.take(i as int)),
        decreases n - i,
    {
        proof {
            assert(views.take(i + 1).drop_last() =~= views.take(i as int));
            assert(views.take(i + 1).last() == lines@[i as int]@);
        }
        if i > 0 {
            text.append("\n");
        } else {
            assert(views.take(1) =~= seq![views[0]]);
        }
        text.append(lines[i].as_str());
        i = i + 1;
    }
    assert(views.take(n as int) =~= views);
    text
}

/// The value of a key is that of its last line.
proof fn lemma_value_for_at(lines: Seq<Seq<char>>, key: Seq<char>, value: Seq<char>, i: int)
    requires
        0 <= i < lines.len(),
        key_value(lines[i]) == Some((key, value)),
        forall|j: int| i < j < lines.len() ==> match key_value(#[trigger] lines[j]) {
            Some(kv) => kv.0 != key,
            None => true,
        },
    ensures
        value_for(lines, key) == Some(value),
    decreases lines.len(),
{
    if lines.len() - 1 > i {
        let shorter = lines.drop_last();
        assert forall|j: int| i < j < shorter.len() implies match key_value(#[trigger] shorter[j]) {
            Some(kv) => kv.0 != key,
            None => true,
        } by {
            assert(shorter[j] == lines[j]);
        }
        lemma_value_for_at(shorter, key, value, i);
        let last = lines.len() - 1;
        assert(lines.last() == lines[last]);
    }
}

/// A line that begins with `#` is a comment.
proof fn lemma_comment_line(line: Seq<char>)
    requires
        line.len() > 0,
        line[0] == '#',
    ensures
        key_value(line) is None,
{
}

/// Trimming a text that neither begins nor ends with white space keeps it.
proof fn lemma_trim_plain(s: Seq<char>)
    requires
        s.len() > 0 ==> !is_space(s[0]) && !is_space(s.last()),
    ensures
        trim(s) == s,
{
}

/// A line `key=value`, with a key free of `=` that neither begins with `#`
/// nor begins or ends with white space, and a value that trimming keeps,
/// sets the key to the value.
proof fn lemma_key_line(key: Seq<char>, value: Seq<char>)
    requires
        key.len() > 0,
        key[0] != '#',
        !is_space(key[0]),
        !is_space(key.last()),
        forall|k: int| 0 <= k < key.len() ==> key[k] != '=',
        trim(value) == value,
    ensures
        key_value(key + "="@ + value) == Some((key, value)),
{
    reveal_strlit("=");
    let line = key + "="@ + value;
    let n = key.len() as int;
    assert(line[0] == key[0]);
    assert(trim_start(line) == line);
    assert(trim_end(line).len() > 0) by {
        lemma_trim_end_keeps(line, n);
    }
    assert(is_first_equals(line, n));
    let p = choose|p: int| is_first_equals(line, p);
    assert(p == n) by {
        if p < n {
            assert(line[p] == key[p]);
        }
        if p > n {
            assert(line[n] == '=');
        }
    }
    assert(line.subrange(0, n) =~= key);
    assert(line.subrange(n + 1, line.len() as int) =~= value);
    lemma_trim_plain(key);
}

/// Trimming the end keeps every character up to a character that is not white space.
proof fn lemma_trim_end_keeps(s: Seq<char>, k: int)
    requires
        0 <= k < s.len(),
        !is_space(s[k]),
    ensures
        trim_end(s).len() > k,
    decreases s.len(),
{
    if s.len() > 0 && is_space(s.last()) {
        assert(k < s.len() - 1);
        lemma_trim_end_keeps(s.drop_last(), k);
    }
}

/// Reading the camera parameter file written for some serials and
/// parameter texts gives them back, provided trimming keeps each of them.
pub proof fn lemma_camera_params_round_trip(left: Seq<char>, right: Seq<char>, frame_rate: Seq<char>,
    exposure_time: Seq<char>, gain: Seq<char>)
    requires
        trim(left) == left,
        trim(right) == right,
        trim(frame_rate) == frame_rate,
        trim(exposure_time) == exposure_time,
        trim(gain) == gain,
    ensures
        ({
            let lines = camera_params_file_lines(left, right, frame_rate, exposure_time, gain);
            &&& value_for(lines, "left_camera_serial"@) == Some(left)
            &&& value_for(lines, "right_camera_serial"@) == Some(right)
            &&& value_for(lines, "frame_rate"@) == Some(frame_rate)
            &&& value_for(lines, "exposure_time"@) == Some(exposure_time)
            &&& value_for(lines, "gain"@) == Some(gain)
        }),
{
    reveal_strlit("# Camera Hardware Configuration");
    reveal_strlit("# Format: key=value");
    reveal_strlit("# Lines starting with # are comments");
    reveal_strlit("# Camera Serial Numbers");
    reveal_strlit("left_camera_serial");
    reveal_strlit("left_camera_serial=");
    reveal_strlit("right_camera_serial");
    reveal_strlit("right_camera_serial=");
    reveal_strlit("# Camera Parameters");
    reveal_strlit("frame_rate");
    reveal_strlit("frame_rate=");
    reveal_strlit("exposure_time");
    reveal_strlit("exposure_time=");
    reveal_strlit("gain");
    reveal_strlit("gain=");
    reveal_strlit("# ROI Parameters (reserved for future use)");
    reveal_strlit("# roi_width=2448");
    reveal_strlit("# roi_height=2048");
    reveal_strlit("# roi_offset_x=0");
    reveal_strlit("# roi_offset_y=0");
    reveal_strlit("=");
    let lines = camera_params_file_lines(left, right, frame_rate, exposure_time, gain);
    assert("left_camera_serial="@ =~= "left_camera_serial"@ + "="@);
    assert("right_camera_serial="@ =~= "right_camera_serial"@ + "="@);
    assert("frame_rate="@ =~= "frame_rate"@ + "="@);
    assert("exposure_time="@ =~= "exposure_time"@ + "="@);
    assert("gain="@ =~= "gain"@ + "="@);
    lemma_key_line("left_camera_serial"@, left);
    lemma_key_line("right_camera_serial"@, right);
    lemma_key_line("frame_rate"@, frame_rate);
    lemma_key_line("exposure_time"@, exposure_time);
    lemma_key_line("gain"@, gain);
    assert(trim(Seq::<char>::empty()).len() == 0);
    assert(key_value(Seq::<char>::empty()) is None);
    lemma_comment_line(lines[0]);
    lemma_comment_line(lines[1]);
    lemma_comment_line(lines[2]);
    lemma_comment_line(lines[4]);
    lemma_comment_line(lines[8]);
    lemma_comment_line(lines[13]);
    lemma_comment_line(lines[14]);
    lemma_comment_line(lines[15]);
    lemma_comment_line(lines[16]);
    lemma_comment_line(lines[17]);
    assert(key_value(lines[3]) is None);
    assert(key_value(lines[7]) is None);
    assert(key_value(lines[12]) is None);
    assert(key_value(lines[5]) == Some(("left_camera_serial"@, left)));
    assert(key_value(lines[6]) == Some(("right_camera_serial"@, right)));
    assert(key_value(lines[9]) == Some(("frame_rate"@, frame_rate)));
    assert(key_value(lines[10]) == Some(("exposure_time"@, exposure_time)));
    assert(key_value(lines[11]) == Some(("gain"@, gain)));
    assert forall|j: int| 0 <= j < 18 && j != 5 && j != 6 && j != 9 && j != 10 && j != 11
        implies key_value(#[trigger] lines[j]) is None by {
    }
    lemma_value_for_at(lines, "left_camera_serial"@, left, 5);
    lemma_value_for_at(lines, "right_camera_serial"@, right, 6);
    lemma_value_for_at(lines, "frame_rate"@, frame_rate, 9);
    lemma_value_for_at(lines, "exposure_time"@, exposure_time, 10);
    lemma_value_for_at(lines, "gain"@, gain, 11);
}

} // verus!

verus! {

/// A line without the carriage return that ends it, if one does.
pub open spec fn strip_cr(line: Seq<char>) -> Seq<char> {
    if line.len() > 0 && line.last() == '\r' {
        line.drop_last()
    } else {
        line
    }
}

/// The lines of `rest`, given that `cur` was read of the current line so
/// far: lines end at `\n` (a `\r` before it is dropped too), and a final
/// line ending adds no empty line, as `str::lines` splits.
pub open spec fn lines_from(cur: Seq<char>, rest: Seq<char>) -> Seq<Seq<char>>
    decreases rest.len(),
{
    if rest.len() == 0 {
        if cur.len() == 0 {
            Seq::empty()
        } else {
            seq![cur]
        }
    } else if rest[0] == '\n' {
        seq![strip_cr(cur)] + lines_from(Seq::empty(), rest.drop_first())
    } else {
        lines_from(cur.push(rest[0]), rest.drop_first())
    }
}

/// The lines of a text, as `str::lines` splits it.
pub open spec fn text_lines_of(text: Seq<char>) -> Seq<Seq<char>> {
    lines_from(Seq::empty(), text)
}

/// The lines of a text, as `str::lines` splits it.
pub fn text_lines(text: &str) -> (r: Vec<String>)
    ensures
        r@.map_values(|l: String| l@) == text_lines_of(text@),
{
    let n = text.unicode_len();
    let mut lines: Vec<String> = Vec::new();
    let mut start: usize = 0;
    let mut i: usize = 0;
    assert(text@.skip(0) =~= text@);
    assert(text@.subrange(0, 0) =~= Seq::<char>::empty());
    assert(lines@.map_values(|l: String| l@) + text_lines_of(text@) =~= text_lines_of(text@));
    while i < n
        invariant
            n == text@.len(),
            start <= i <= n,
            lines@.map_values(|l: String| l@) + lines_from(text@.subrange(start as int, i as int),
                text@.skip(i as int)) == text_lines_of(text@),
        decreases n - i,
    {
        let ghost before = lines@.map_values(|l: String| l@);
        let ghost cur = text@.subrange(start as int, i as int);
        let ghost rest = text@.skip(i as int);
        let c = text.get_char(i);
        assert(rest[0] == c);
        assert(rest.drop_first() =~= text@.skip(i + 1));
        if c == '\n' {
            let end = if i > start && text.get_char(i - 1) == '\r' {
                i - 1
            } else {
                i
            };
            let line = text.substring_char(start, end).to_string();
            assert(line@ =~= strip_cr(cur));
            lines.push(line);
            assert(lines@.map_values(|l: String| l@) =~= before.push(strip_cr(cur)));
            assert(before + (seq![strip_cr(cur)] + lines_from(Seq::empty(), rest.drop_first()))
                =~= before.push(strip_cr(cur)) + lines_from(Seq::empty(), rest.drop_first()));
            start = i + 1;
            assert(text@.subrange(start as int, (i + 1) as int) =~= Seq::<char>::empty());
        } else {
            assert(cur.push(c) =~= text@.subrange(start as int, (i + 1) as int));
        }
        i = i + 1;
    }
    let ghost before = lines@.map_values(|l: String| l@);
    assert(text@.skip(n as int) =~= Seq::<char>::empty());
    if start < n {
        let line = text.substring_char(start, n).to_string();
        lines.push(line);
        assert(lines@.map_values(|l: String| l@) =~= before + seq![text@.subrange(start as int, n as int)]);
    } else {
        assert(before + Seq::<Seq<char>>::empty() =~= before);
    }
    lines
}

} // verus!
verus! {

/// A line that holds no line feed and does not end with a carriage return,
/// so that it reads back as itself.
pub open spec fn plain_line(l: Seq<char>) -> bool {
    &&& forall|k: int| 0 <= k < l.len() ==> #[trigger] l[k] != '\n'
    &&& !(l.len() > 0 && l.last() == '\r')
}

/// Reading on through text without line feeds only extends the current line.
proof fn lemma_lines_from_append(cur: Seq<char>, s: Seq<char>, rest: Seq<char>)
    requires
        forall|k: int| 0 <= k < s.len() ==> #[trigger] s[k] != '\n',
    ensures
        lines_from(cur, s + rest) == lines_from(cur + s, rest),
    decreases s.len(),
{
    if s.len() == 0 {
        assert(s + rest =~= rest);
        assert(cur + s =~= cur);
    } else {
        let t = s + rest;
        assert(t[0] == s[0]);
        assert(t.drop_first() =~= s.drop_first() + rest);
        lemma_lines_from_append(cur.push(s[0]), s.drop_first(), rest);
        assert(cur.push(s[0]) + s.drop_first() =~= cur + s);
    }
}

/// Joining lines puts the first line, a line feed and the rest joined.
proof fn lemma_join_front(ls: Seq<Seq<char>>)
    requires
        ls.len() >= 2,
    ensures
        join_lines(ls) == ls[0] + "\n"@ + join_lines(ls.drop_first()),
    decreases ls.len(),
{
    if ls.len() == 2 {
        assert(ls.drop_last() =~= seq![ls[0]]);
        assert(ls.drop_first() =~= seq![ls[1]]);
        assert(join_lines(ls.drop_last()) == ls[0]);
        assert(join_lines(ls.drop_first()) == ls[1]);
    } else {
        let init = ls.drop_last();
        let tail = ls.drop_first();
        lemma_join_front(init);
        assert(init[0] == ls[0]);
        assert(init.drop_first() =~= tail.drop_last());
        assert(tail.last() == ls.last());
        assert(join_lines(tail) == join_lines(tail.drop_last()) + "\n"@ + tail.last());
        assert(join_lines(ls) == join_lines(init) + "\n"@ + ls.last());
        assert(join_lines(ls) =~= ls[0] + "\n"@ + join_lines(tail));
    }
}

/// Splitting joined lines gives them back, if each is plain and the last
/// is not empty.
pub proof fn lemma_split_join(ls: Seq<Seq<char>>)
    requires
        forall|i: int| 0 <= i < ls.len() ==> plain_line(#[trigger] ls[i]),
        ls.len() > 0 ==> ls.last().len() > 0,
    ensures
        text_lines_of(join_lines(ls)) == ls,
    decreases ls.len(),
{
    reveal_strlit("\n");
    if ls.len() == 0 {
        assert(text_lines_of(join_lines(ls)) =~= ls);
    } else if ls.len() == 1 {
        assert(plain_line(ls[0]));
        lemma_lines_from_append(Seq::empty(), ls[0], Seq::empty());
        assert(ls[0] + Seq::<char>::empty() =~= ls[0]);
        assert(Seq::<char>::empty() + ls[0] =~= ls[0]);
        assert(text_lines_of(join_lines(ls)) =~= ls);
    } else {
        let tail = ls.drop_first();
        assert forall|i: int| 0 <= i < tail.len() implies plain_line(#[trigger] tail[i]) by {
            assert(tail[i] == ls[i + 1]);
        }
        lemma_split_join(tail);
        lemma_join_front(ls);
        assert(plain_line(ls[0]));
        let rest = "\n"@ + join_lines(tail);
        assert(ls[0] + "\n"@ + join_lines(tail) =~= ls[0] + rest);
        lemma_lines_from_append(Seq::empty(), ls[0], rest);
        assert(Seq::<char>::empty() + ls[0] =~= ls[0]);
        assert(rest[0] == '\n');
        assert(rest.drop_first() =~= join_lines(tail));
        assert(strip_cr(ls[0]) == ls[0]);
        assert(seq![ls[0]] + tail =~= ls);
    }
}

/// Writing the camera parameter file for some serials and parameter texts
/// and reading it back gives them back, provided trimming keeps each of them
/// and none holds a line feed.
pub proof fn lemma_camera_params_file_round_trip(left: Seq<char>, right: Seq<char>, frame_rate: Seq<char>,
    exposure_time: Seq<char>, gain: Seq<char>)
    requires
        trim(left) == left && !left.contains('\n'),
        trim(right) == right && !right.contains('\n'),
        trim(frame_rate) == frame_rate && !frame_rate.contains('\n'),
        trim(exposure_time) == exposure_time && !exposure_time.contains('\n'),
        trim(gain) == gain && !gain.contains('\n'),
    ensures
        ({
            let lines = text_lines_of(join_lines(camera_params_file_lines(left, right, frame_rate, exposure_time, gain)));
            &&& value_for(lines, "left_camera_serial"@) == Some(left)
            &&& value_for(lines, "right_camera_serial"@) == Some(right)
            &&& value_for(lines, "frame_rate"@) == Some(frame_rate)
            &&& value_for(lines, "exposure_time"@) == Some(exposure_time)
            &&& value_for(lines, "gain"@) == Some(gain)
        }),
{
    let ls = camera_params_file_lines(left, right, frame_rate, exposure_time, gain);
    reveal_strlit("left_camera_serial=");
    reveal_strlit("right_camera_serial=");
    reveal_strlit("frame_rate=");
    reveal_strlit("exposure_time=");
    reveal_strlit("gain=");
    lemma_key_value_line_plain("left_camera_serial="@, left);
    lemma_key_value_line_plain("right_camera_serial="@, right);
    lemma_key_value_line_plain("frame_rate="@, frame_rate);
    lemma_key_value_line_plain("exposure_time="@, exposure_time);
    lemma_key_value_line_plain("gain="@, gain);
    reveal_strlit("# Camera Hardware Configuration");
    reveal_strlit("# Format: key=value");
    reveal_strlit("# Lines starting with # are comments");
    reveal_strlit("# Camera Serial Numbers");
    reveal_strlit("# Camera Parameters");
    reveal_strlit("# ROI Parameters (reserved for future use)");
    reveal_strlit("# roi_width=2448");
    reveal_strlit("# roi_height=2048");
    reveal_strlit("# roi_offset_x=0");
    reveal_strlit("# roi_offset_y=0");
    assert(plain_line(ls[0]));
    assert(plain_line(ls[1]));
    assert(plain_line(ls[2]));
    assert(plain_line(ls[3]));
    assert(plain_line(ls[4]));
    assert(plain_line(ls[7]));
    assert(plain_line(ls[8]));
    assert(plain_line(ls[12]));
    assert(plain_line(ls[13]));
    assert(plain_line(ls[14]));
    assert(plain_line(ls[15]));
    assert(plain_line(ls[16]));
    assert(plain_line(ls[17]));
    assert forall|i: int| 0 <= i < ls.len() implies plain_line(#[trigger] ls[i]) by {}
    assert(ls.last().len() > 0);
    lemma_split_join(ls);
    lemma_camera_params_round_trip(left, right, frame_rate, exposure_time, gain);
}

/// A `key=` prefix followed by a trimmed value without line feeds is a plain line.
proof fn lemma_key_value_line_plain(prefix: Seq<char>, value: Seq<char>)
    requires
        prefix.len() > 0,
        prefix.last() == '=',
        forall|k: int| 0 <= k < prefix.len() ==> #[trigger] prefix[k] != '\n',
        trim(value) == value,
        !value.contains('\n'),
    ensures
        plain_line(prefix + value),
{
    let l = prefix + value;
    assert forall|k: int| 0 <= k < l.len() implies #[trigger] l[k] != '\n' by {
        if k >= prefix.len() {
            assert(l[k] == value[k - prefix.len()]);
        }
    }
    if value.len() > 0 {
        lemma_trimmed_ends(value);
        assert(l.last() == value.last());
    }
}

/// Trimming never lengthens a text.
proof fn lemma_trim_lengths(s: Seq<char>)
    ensures
        trim_start(s).len() <= s.len(),
        trim_end(s).len() <= s.len(),
    decreases s.len(),
{
    if s.len() > 0 {
        lemma_trim_lengths(s.drop_first());
        lemma_trim_lengths(s.drop_last());
    }
}

/// A text that trimming keeps neither begins nor ends with white space.
proof fn lemma_trimmed_ends(s: Seq<char>)
    requires
        trim(s) == s,
        s.len() > 0,
    ensures
        !is_space(s[0]),
        !is_space(s.last()),
{
    lemma_trim_lengths(s);
    lemma_trim_lengths(s.drop_first());
    lemma_trim_lengths(s.drop_last());
    lemma_trim_lengths(trim_start(s));
    if is_space(s[0]) {
        assert(trim_start(s) == trim_start(s.drop_first()));
        assert(false);
    }
    assert(trim_start(s) == s);
    if is_space(s.last()) {
        assert(trim_end(s) == trim_end(s.drop_last()));
        assert(false);
    }
}

} // verus!
