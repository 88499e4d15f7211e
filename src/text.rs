use vstd::prelude::*;

verus! {

/// Byte that opens a text section.
pub const TEXT_START: u8 = 0x00;

/// Engine code for a space.
pub const SPACE: u8 = 0x7F;

/// Move down one line.
pub const LINE_DOWN: u8 = 0x4E;

/// Code of the '?' glyph, also used for characters without a glyph.
pub const QUESTION_MARK: u8 = 0xE6;

/// Ends the message box.
pub const END_MSG: u8 = 0x57;

/// Terminates a string.
pub const TERMINATOR: u8 = 0x50;

/// The engine's byte for one character.
pub open spec fn spec_encode_char(c: char) -> u8 {
    if 'A' <= c && c <= 'Z' {
        (0x80 + (c as u32 - 'A' as u32)) as u8
    } else if 'a' <= c && c <= 'z' {
        (0xA0 + (c as u32 - 'a' as u32)) as u8
    } else if '0' <= c && c <= '9' {
        (0xF6 + (c as u32 - '0' as u32)) as u8
    } else if c == '(' {
        0x8A
    } else if c == ')' {
        0x8B
    } else if c == ':' {
        0x8C
    } else if c == ';' {
        0x8D
    } else if c == '[' {
        0x8E
    } else if c == ']' {
        0x8F
    } else if c == '\'' {
        0xE0
    } else if c == '-' {
        0xE3
    } else if c == '?' {
        QUESTION_MARK
    } else if c == '!' {
        0xE7
    } else if c == '.' {
        0xE8
    } else if c == '/' {
        0xF3
    } else if c == ',' {
        0xF4
    } else if c == ' ' {
        SPACE
    } else if c == '\n' {
        LINE_DOWN
    } else {
        QUESTION_MARK
    }
}

/// A character outside the letters, the digits, the listed punctuation, space and newline is
/// encoded as the '?' code.
pub proof fn lemma_encode_other(c: char)
    requires
        !('A' <= c && c <= 'Z'),
        !('a' <= c && c <= 'z'),
        !('0' <= c && c <= '9'),
        !(c == '(' || c == ')' || c == ':' || c == ';' || c == '[' || c == ']' || c == '\''
            || c == '-' || c == '?' || c == '!' || c == '.' || c == '/' || c == ',' || c == ' '
            || c == '\n'),
    ensures
        spec_encode_char(c) == QUESTION_MARK,
        QUESTION_MARK == 0xE6,
{
}

/// Letters and digits occupy contiguous code ranges: upper case from 0x80, lower case from
/// 0xA0, digits from 0xF6, in alphabetical and numerical order.
pub proof fn lemma_encode_ranges(c: char)
    ensures
        'A' <= c <= 'Z' ==> spec_encode_char(c) == 0x80 + (c as int - 'A' as int),
        'a' <= c <= 'z' ==> spec_encode_char(c) == 0xA0 + (c as int - 'a' as int),
        '0' <= c <= '9' ==> spec_encode_char(c) == 0xF6 + (c as int - '0' as int),
{
}

/// Encodes one character.
pub fn encode_char(c: char) -> (r: u8)
    ensures
        r == spec_encode_char(c),
{
    match c {
        'A'..='Z' => 0x80 + ((c as u32 - 'A' as u32) as u8),
        '(' => 0x8A,
        ')' => 0x8B,
        ':' => 0x8C,
        ';' => 0x8D,
        '[' => 0x8E,
        ']' => 0x8F,
        'a'..='z' => 0xA0 + ((c as u32 - 'a' as u32) as u8),
        '\'' => 0xE0,
        '-' => 0xE3,
        '?' => QUESTION_MARK,
        '!' => 0xE7,
        '.' => 0xE8,
        '/' => 0xF3,
        ',' => 0xF4,
        '0'..='9' => 0xF6 + ((c as u32 - '0' as u32) as u8),
        ' ' => SPACE,
        '\n' => LINE_DOWN,
        _ => QUESTION_MARK,
    }
}

/// The engine bytes of a text: one byte per character.
pub open spec fn spec_encode(s: Seq<char>) -> Seq<u8> {
    s.map_values(|c: char| spec_encode_char(c))
}

/// A restartable encoder over a borrowed text; each step yields the byte of the next
/// character.
pub struct Encoder<'a> {
    base: &'a str,
    pos: usize,
}

impl<'a> Encoder<'a> {
    /// The characters still to be encoded.
    pub closed spec fn remaining(&self) -> Seq<char> {
        self.base@.subrange(self.pos as int, self.base@.len() as int)
    }

    pub closed spec fn wf(&self) -> bool {
        self.pos <= self.base@.len()
    }

    pub fn new(text: &'a str) -> (r: Encoder<'a>)
        ensures
            r.wf(),
            r.remaining() == text@,
    {
        let r = Encoder { base: text, pos: 0 };
        assert(r.remaining() =~= text@);
        r
    }

    /// Yields the byte of the next character, or `None` once the text is used up.
    pub fn next(&mut self) -> (r: Option<u8>)
        requires
            old(self).wf(),
        ensures
            final(self).wf(),
            old(self).remaining().len() == 0 ==> r is None && final(self).remaining() == old(
                self,
            ).remaining(),
            old(self).remaining().len() > 0 ==> r == Some(spec_encode_char(old(self).remaining()[0]))
                && final(self).remaining() == old(self).remaining().drop_first(),
    {
        let len = self.base.unicode_len();
        if self.pos < len {
            let c = self.base.get_char(self.pos);
            self.pos = self.pos + 1;
            assert(self.remaining() =~= old(self).remaining().drop_first());
            Some(encode_char(c))
        } else {
            None
        }
    }

    /// Drains the encoder into a vector of bytes.
    pub fn collect_bytes(self) -> (r: Vec<u8>)
        requires
            self.wf(),
        ensures
            r@ == spec_encode(self.remaining()),
    {
        let ghost p0 = self.pos as int;
        let mut pos: usize = self.pos;
        let mut out: Vec<u8> = Vec::new();
        let len = self.base.unicode_len();
        while pos < len
            invariant
                p0 == self.pos,
                p0 <= pos <= len,
                len == self.base@.len(),
                out@ == spec_encode(self.base@.subrange(p0, pos as int)),
            decreases len - pos,
        {
            let c = self.base.get_char(pos);
            out.push(encode_char(c));
            assert(self.base@.subrange(p0, pos + 1) =~= self.base@.subrange(p0, pos as int).push(c));
            pos = pos + 1;
            assert(out@ =~= spec_encode(self.base@.subrange(p0, pos as int)));
        }
        out
    }
}

/// Encodes a whole text.
pub fn encode(text: &str) -> (r: Vec<u8>)
    ensures
        r@ == spec_encode(text@),
{
    Encoder::new(text).collect_bytes()
}

} // verus!
