use vstd::prelude::*;

verus! {

/// Capacity of the byte buffer of an `AiString`.
pub const MAXLEN: usize = 1024;

pub open spec fn is_cont(b: u8) -> bool {
    0x80 <= b <= 0xBF
}

/// Length of the well-formed UTF-8 sequence at the start of `b`, or 0 where
/// `b` does not start with one (Unicode, table of well-formed byte sequences).
pub open spec fn utf8_seq_len(b: Seq<u8>) -> nat {
    if b.len() == 0 {
        0
    } else if b[0] <= 0x7F {
        1
    } else if 0xC2 <= b[0] <= 0xDF {
        if b.len() >= 2 && is_cont(b[1]) { 2 } else { 0 }
    } else if 0xE0 <= b[0] <= 0xEF {
        let lo: u8 = if b[0] == 0xE0 { 0xA0 } else { 0x80 };
        let hi: u8 = if b[0] == 0xED { 0x9F } else { 0xBF };
        if b.len() >= 3 && lo <= b[1] <= hi && is_cont(b[2]) { 3 } else { 0 }
    } else if 0xF0 <= b[0] <= 0xF4 {
        let lo: u8 = if b[0] == 0xF0 { 0x90 } else { 0x80 };
        let hi: u8 = if b[0] == 0xF4 { 0x8F } else { 0xBF };
        if b.len() >= 4 && lo <= b[1] <= hi && is_cont(b[2]) && is_cont(b[3]) { 4 } else { 0 }
    } else {
        0
    }
}

/// Whether `b` is well-formed UTF-8 text.
pub open spec fn utf8_valid(b: Seq<u8>) -> bool
    decreases b.len(),
{
    if b.len() == 0 {
        true
    } else {
        let n = utf8_seq_len(b);
        n > 0 && n <= b.len() && utf8_valid(b.subrange(n as int, b.len() as int))
    }
}

/// The characters that well-formed UTF-8 bytes decode to.
pub uninterp spec fn utf8_text(b: Seq<u8>) -> Seq<char>;

/// Relies on `String::from_utf8`: it succeeds exactly on well-formed UTF-8,
/// and then holds the characters those bytes encode.
#[verifier::external_body]
fn decode_utf8(b: Vec<u8>) -> (r: Option<String>)
    ensures
        r is Some <==> utf8_valid(b@),
        r matches Some(s) ==> s@ == utf8_text(b@),
{
    String::from_utf8(b).ok()
}

/// A length and a fixed-capacity byte buffer; only the first `length` bytes
/// are meaningful.
pub struct AiString {
    pub length: u32,
    pub data: Vec<u8>,
}

impl View for AiString {
    type V = Seq<u8>;

    open spec fn view(&self) -> Seq<u8> {
        self.data@.subrange(0, self.length as int)
    }
}

impl AiString {
    pub open spec fn wf(&self) -> bool {
        &&& self.data@.len() == MAXLEN
        &&& self.length <= MAXLEN
    }

    /// Whether the meaningful bytes are well-formed text.
    pub open spec fn is_text_spec(&self) -> bool {
        utf8_valid(self@)
    }

    /// The empty string, with a zeroed buffer.
    pub fn new() -> (r: AiString)
        ensures
            r.wf(),
            r@ == Seq::<u8>::empty(),
    {
        let r = AiString { length: 0, data: vec![0u8; MAXLEN] };
        assert(r@ =~= Seq::<u8>::empty());
        r
    }

    /// The string holding `b`, or `None` where `b` does not fit the buffer.
    pub fn from_bytes(b: &[u8]) -> (r: Option<AiString>)
        ensures
            r is Some <==> b@.len() <= MAXLEN,
            r matches Some(s) ==> s.wf() && s@ == b@,
    {
        if b.len() > MAXLEN {
            return None;
        }
        let mut data: Vec<u8> = Vec::new();
        let mut i: usize = 0;
        while i < MAXLEN
            invariant
                b@.len() <= MAXLEN,
                i <= MAXLEN,
                data@.len() == i,
                forall|j: int| 0 <= j < i && j < b@.len() ==> data@[j] == b@[j],
            decreases MAXLEN - i,
        {
            if i < b.len() {
                data.push(b[i]);
            } else {
                data.push(0u8);
            }
            i = i + 1;
        }
        let s = AiString { length: b.len() as u32, data };
        assert(s@ =~= b@);
        Some(s)
    }

    /// Checks the buffer's capacity and that the length fits it.
    pub fn is_well_formed(&self) -> (r: bool)
        ensures
            r == self.wf(),
    {
        self.data.len() == MAXLEN && self.length as usize <= MAXLEN
    }

    /// Number of meaningful bytes.
    pub fn len(&self) -> (r: usize)
        requires
            self.wf(),
        ensures
            r == self@.len(),
    {
        self.length as usize
    }

    /// A copy of the meaningful bytes.
    pub fn bytes(&self) -> (r: Vec<u8>)
        requires
            self.wf(),
        ensures
            r@ == self@,
    {
        let n = self.length as usize;
        let mut r: Vec<u8> = Vec::new();
        let mut i: usize = 0;
        while i < n
            invariant
                self.wf(),
                n == self.length,
                i <= n,
                r@ == self.data@.subrange(0, i as int),
            decreases n - i,
        {
            r.push(self.data[i]);
            i = i + 1;
            assert(r@ =~= self.data@.subrange(0, i as int));
        }
        r
    }

    /// The meaningful bytes as text, or `None` where they are not
    /// well-formed UTF-8.
    pub fn to_text(&self) -> (r: Option<String>)
        requires
            self.wf(),
        ensures
            r is Some <==> self.is_text_spec(),
            r matches Some(s) ==> s@ == utf8_text(self@),
    {
        decode_utf8(self.bytes())
    }

    /// Whether the meaningful bytes are well-formed text.
    pub fn is_text(&self) -> (r: bool)
        requires
            self.wf(),
        ensures
            r == self.is_text_spec(),
    {
        self.to_text().is_some()
    }

    /// The meaningful bytes as text. Bytes that are not text are a broken
    /// guarantee of the importer, so callers establish that first.
    pub fn as_text(&self) -> (r: String)
        requires
            self.wf(),
            self.is_text_spec(),
        ensures
            r@ == utf8_text(self@),
    {
        self.to_text().unwrap()
    }

    /// A copy with the same length and buffer.
    pub fn duplicate(&self) -> (r: AiString)
        ensures
            r.length == self.length,
            r.data@ == self.data@,
    {
        AiString { length: self.length, data: self.data.clone() }
    }
}

impl Default for AiString {
    fn default() -> (r: AiString)
        ensures
            r.wf(),
            r@ == Seq::<u8>::empty(),
    {
        AiString::new()
    }
}

impl Clone for AiString {
    fn clone(&self) -> (r: AiString)
        ensures
            r.length == self.length,
            r.data@ == self.data@,
    {
        self.duplicate()
    }
}

} // verus!
