//! String-like representations: an owned string grown by mutation, an owned
//! copy of a literal, a borrowed string slice, a filesystem-path
//! representation, and a nul-terminated representation. Each exposes its
//! byte view, and an owned string can be compared against a literal.

use vstd::prelude::*;

verus! {

/// The bytes of an ASCII character sequence, one byte per character.
pub open spec fn ascii_bytes(s: Seq<char>) -> Seq<u8> {
    Seq::new(s.len(), |i: int| s[i] as u8)
}

/// An owned string built by mutation: it starts empty and the character `A`
/// is appended, which only an owned string allows.
pub fn owned_after_push() -> (r: String)
    ensures
        r@ == "A"@,
{
    let mut owned = String::new();
    owned.append("A");
    proof {
        assert(owned@ =~= "A"@);
    }
    owned
}

/// The byte view of an ASCII string slice: one byte per character.
pub fn str_bytes(s: &str) -> (r: Vec<u8>)
    requires
        vstd::string::is_ascii(s),
    ensures
        r@ == ascii_bytes(s@),
{
    proof {
        vstd::string::is_ascii_spec_bytes(s);
    }
    let r = s.as_bytes_vec();
    proof {
        assert(r@ =~= ascii_bytes(s@));
    }
    r
}

/// An owned copy of the literal `owned string`.
pub fn owned_copy() -> (r: String)
    ensures
        r@ == "owned string"@,
{
    "owned string".to_owned()
}

/// The borrowed string slice.
pub fn str_slice() -> (r: &'static str)
    ensures
        r@ == "This is a string slice, aka &'static str"@,
{
    "This is a string slice, aka &'static str"
}

/// The byte view of the borrowed string slice.
pub fn str_slice_bytes() -> (r: Vec<u8>)
    ensures
        r@ == ascii_bytes("This is a string slice, aka &'static str"@),
{
    let s = str_slice();
    proof {
        reveal_strlit("This is a string slice, aka &'static str");
        assert(vstd::string::is_ascii(s));
    }
    str_bytes(s)
}

/// A filesystem-path representation: the path's text held as plain
/// characters, standing in for an operating-system path value.
pub struct PathRepr {
    pub text: String,
}

impl PathRepr {
    /// Converts an owned string into a path representation.
    pub fn from_text(text: String) -> (r: PathRepr)
        ensures
            r.text@ == text@,
    {
        PathRepr { text }
    }

    /// The path's encoded bytes: for an ASCII path, one byte per character.
    pub fn encoded_bytes(&self) -> (r: Vec<u8>)
        requires
            vstd::string::string_is_ascii(&self.text),
        ensures
            r@ == ascii_bytes(self.text@),
    {
        str_bytes(self.text.as_str())
    }
}

/// The demonstration path.
pub fn demo_path() -> (r: PathRepr)
    ensures
        r.text@ == "/this/is/a/path"@,
{
    PathRepr::from_text("/this/is/a/path".to_owned())
}

/// A nul-terminated string representation: the content bytes followed by a
/// single terminating nul byte, with no nul among the content bytes.
pub struct NulTerminated {
    pub bytes: Vec<u8>,
}

impl NulTerminated {
    /// The representation ends in a nul byte and holds no other nul.
    pub open spec fn wf(&self) -> bool {
        &&& self.bytes@.len() >= 1
        &&& self.bytes@.last() == 0u8
        &&& forall|i: int| 0 <= i < self.bytes@.len() - 1 ==> self.bytes@[i] != 0u8
    }

    /// Appends the terminating nul to nul-free content bytes.
    pub fn new(content: Vec<u8>) -> (r: NulTerminated)
        requires
            content@.len() < usize::MAX,
            forall|i: int| 0 <= i < content@.len() ==> content@[i] != 0u8,
        ensures
            r.wf(),
            r.bytes@ == content@.push(0u8),
    {
        let mut bytes = content;
        bytes.push(0u8);
        NulTerminated { bytes }
    }

    /// The content bytes, without the terminating nul.
    pub fn to_bytes(&self) -> (r: Vec<u8>)
        requires
            self.wf(),
        ensures
            r@ == self.bytes@.drop_last(),
    {
        let mut r = self.bytes.clone();
        r.truncate(self.bytes.len() - 1);
        proof {
            assert(r@ =~= self.bytes@.drop_last());
        }
        r
    }
}

/// The nul-terminated demonstration string.
pub fn cstr_repr() -> (r: NulTerminated)
    ensures
        r.wf(),
        r.bytes@ == ascii_bytes("This is a nul-terminated string"@).push(0u8),
{
    let lit = "This is a nul-terminated string";
    proof {
        reveal_strlit("This is a nul-terminated string");
        assert(vstd::string::is_ascii(lit));
    }
    let content = str_bytes(lit);
    proof {
        assert(forall|i: int|
            0 <= i < content@.len() ==> content@[i] != 0u8) by {
            assert(forall|i: int| 0 <= i < lit@.len() ==> lit@[i] != '\0');
        }
    }
    NulTerminated::new(content)
}

/// Whether an owned string equals the literal `A`: the comparison the match
/// on the owned string makes after the mutation.
pub fn matches_a(owned: &String) -> (r: bool)
    ensures
        r == (owned@ == "A"@),
{
    let lit: String = "A".to_owned();
    *owned == lit
}

/// Builds each string-like representation and collects its byte view: the
/// owned string after its mutation, the owned copy of a literal, the
/// borrowed slice, the path, and the nul-terminated string. Also compares
/// the mutated owned string against the literal `A`, which always matches.
pub fn striiiiings() -> (r: (Vec<u8>, String, Vec<u8>, Vec<u8>, Vec<u8>, bool))
    ensures
        r.0@ == ascii_bytes("A"@),
        r.1@ == "owned string"@,
        r.2@ == ascii_bytes("This is a string slice, aka &'static str"@),
        r.3@ == ascii_bytes("/this/is/a/path"@),
        r.4@ == ascii_bytes("This is a nul-terminated string"@),
        r.5 == true,
{
    let owned = owned_after_push();
    let owned_str = owned.as_str();
    proof {
        reveal_strlit("A");
        assert(vstd::string::is_ascii(owned_str));
    }
    let owned_bytes = str_bytes(owned_str);
    let owned2 = owned_copy();
    let slice_bytes = str_slice_bytes();
    let path = demo_path();
    proof {
        reveal_strlit("/this/is/a/path");
    }
    let path_bytes = path.encoded_bytes();
    let cstr = cstr_repr();
    let cstr_bytes = cstr.to_bytes();
    proof {
        assert(cstr_bytes@ =~= ascii_bytes("This is a nul-terminated string"@));
    }
    let matched = matches_a(&owned);
    (owned_bytes, owned2, slice_bytes, path_bytes, cstr_bytes, matched)
}

} // verus!
