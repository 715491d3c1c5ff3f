//! Text rules that the description of a method rests on: leading white space and
//! lines joined by a line feed.
use vstd::prelude::*;
use vstd::string::StrSliceExecFns;
use vstd::string::StringExecFns;

verus! {

/// Whether `c` has the Unicode property `White_Space`.
pub open spec fn is_white_space(c: char) -> bool {
    let code = c as u32;
    ||| 0x9 <= code <= 0xD
    ||| code == 0x20
    ||| code == 0x85
    ||| code == 0xA0
    ||| code == 0x1680
    ||| 0x2000 <= code <= 0x200A
    ||| code == 0x2028
    ||| code == 0x2029
    ||| code == 0x202F
    ||| code == 0x205F
    ||| code == 0x3000
}

/// `text` without the white space that it starts with.
pub open spec fn trimmed_start(text: Seq<char>) -> Seq<char>
    decreases text.len(),
{
    if text.len() > 0 && is_white_space(text[0]) {
        trimmed_start(text.skip(1))
    } else {
        text
    }
}

/// The line feed, which stands between two joined lines.
pub open spec fn line_feed() -> Seq<char> {
    "\n"@
}

/// The lines of `lines`, with a line feed between each two.
pub open spec fn joined_lines(lines: Seq<Seq<char>>) -> Seq<char>
    decreases lines.len(),
{
    if lines.len() == 0 {
        Seq::empty()
    } else if lines.len() == 1 {
        lines[0]
    } else {
        joined_lines(lines.drop_last()) + line_feed() + lines.last()
    }
}

/// Whether `c` has the Unicode property `White_Space`.
pub fn has_white_space(c: char) -> (white: bool)
    ensures
        white == is_white_space(c),
{
    let code: u32 = c as u32;
    (0x9 <= code && code <= 0xD) || code == 0x20 || code == 0x85 || code == 0xA0 || code == 0x1680
        || (0x2000 <= code && code <= 0x200A) || code == 0x2028 || code == 0x2029 || code
        == 0x202F || code == 0x205F || code == 0x3000
}

/// `text` from its first character that is no white space.
pub fn trim_start(text: &str) -> (rest: &str)
    ensures
        rest@ == trimmed_start(text@),
{
    let len: usize = text.unicode_len();
    let mut start: usize = 0;
    assert(text@.skip(0) =~= text@);
    while start < len
        invariant
            start <= len,
            len == text@.len(),
            trimmed_start(text@) == trimmed_start(text@.skip(start as int)),
        ensures
            start <= len,
            trimmed_start(text@) == text@.skip(start as int),
        decreases len - start,
    {
        let c = text.get_char(start);
        if !has_white_space(c) {
            break;
        }
        assert(text@.skip(start as int).skip(1) =~= text@.skip(start + 1));
        start = start + 1;
    }
    assert(text@.skip(start as int) =~= text@.subrange(start as int, len as int));
    text.substring_char(start, len)
}

/// Adds `line` to `text` as one more joined line; `lines` are the lines that
/// `text` holds already.
pub(crate) fn push_line(text: &mut String, line: &str, Ghost(lines): Ghost<Seq<Seq<char>>>, first: bool)
    requires
        old(text)@ == joined_lines(lines),
        first == (lines.len() == 0),
    ensures
        final(text)@ == joined_lines(lines.push(line@)),
{
    if !first {
        text.append("\n");
    }
    text.append(line);
    proof {
        let all = lines.push(line@);
        assert(all.drop_last() =~= lines);
        assert(all.last() == line@);
        if first {
            assert(old(text)@ =~= Seq::<char>::empty());
            assert(final(text)@ =~= line@);
        }
    }
}

} // verus!
