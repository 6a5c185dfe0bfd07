//! The foreign runtime's inline length-prefixed UTF-16 string, and its
//! decoded-text view.
//!
//! [`Il2CppString`] models the foreign layout as plain values: the object
//! header, the reported character count, and the inline UTF-16 code units.
//! [`Il2CppStr`] is the view over one such string at a known address; it is
//! only constructed when the reported length fits the captured buffer, so
//! every accessor is in bounds by construction.  Decoding to owned text is
//! pinned by [`decode_utf16`]: surrogate pairs combine, unpaired surrogates
//! become the replacement character.

use vstd::prelude::*;

verus! {

use crate::classes::object::ObjectInner;

/// The foreign string layout as plain values.
#[derive(Debug, Clone)]
pub struct Il2CppString {
    pub obj: ObjectInner,
    pub m_string_length: i32,
    pub m_first_char: Vec<u16>,
}

/// Alias under the engine-string name.
pub type UnityStringInner = Il2CppString;

/// A view over a managed string: its address and a captured copy of its
/// layout, consistent by construction.
#[derive(Debug, Clone)]
pub struct Il2CppStr {
    pub addr: usize,
    pub raw: Il2CppString,
}

/// Alias under the engine-string view name.
pub type UnityString = Il2CppStr;

/// Consistency of a string view: non-null address, non-negative reported
/// length, and the captured buffer covers the reported length.
pub open spec fn str_wf(s: Il2CppStr) -> bool {
    &&& s.addr != 0
    &&& 0 <= s.raw.m_string_length
    &&& s.raw.m_string_length as int <= s.raw.m_first_char@.len()
}

/// A UTF-16 code unit that opens a surrogate pair.
pub open spec fn is_high_surrogate(u: u16) -> bool {
    0xD800 <= u < 0xDC00
}

/// A UTF-16 code unit that closes a surrogate pair.
pub open spec fn is_low_surrogate(u: u16) -> bool {
    0xDC00 <= u < 0xE000
}

/// The Unicode scalar value of a surrogate pair.
pub open spec fn scalar_of_pair(hi: u16, lo: u16) -> u32 {
    ((0x10000 + (hi as int - 0xD800) * 0x400 + (lo as int - 0xDC00)) as u32)
}

/// UTF-16 decoding: surrogate pairs combine into one scalar, an unpaired
/// surrogate decodes to U+FFFD, everything else decodes to itself.
pub open spec fn decode_utf16(s: Seq<u16>) -> Seq<char>
    decreases s.len(),
{
    if s.len() == 0 {
        Seq::empty()
    } else if is_high_surrogate(s[0]) && s.len() >= 2 && is_low_surrogate(s[1]) {
        seq![(scalar_of_pair(s[0], s[1]) as char)] + decode_utf16(s.skip(2))
    } else if is_high_surrogate(s[0]) || is_low_surrogate(s[0]) {
        seq!['\u{FFFD}'] + decode_utf16(s.skip(1))
    } else {
        seq![((s[0] as u32) as char)] + decode_utf16(s.skip(1))
    }
}

/// Relies on `char::from_u32` of std: it returns `Some` exactly for Unicode
/// scalar values (everything up to U+10FFFF except the surrogate range),
/// and the returned character has the given code.
#[verifier::external_body]
fn char_from_u32(v: u32) -> (r: Option<char>)
    ensures
        r is Some <==> (v < 0xD800 || (0xE000 <= v && v <= 0x10FFFF)),
        r matches Some(c) ==> c as u32 == v,
{
    char::from_u32(v)
}

/// Relies on `String::push` of std: it appends exactly the given character.
#[verifier::external_body]
fn push_char(s: &mut String, c: char)
    ensures
        final(s)@ == old(s)@.push(c),
{
    s.push(c)
}

impl Il2CppStr {
    /// The reported character count of the view.
    pub open spec fn spec_len(&self) -> int {
        self.raw.m_string_length as int
    }

    /// The reported UTF-16 code units of the view.
    pub open spec fn units(&self) -> Seq<u16> {
        self.raw.m_first_char@.take(self.spec_len())
    }

    /// View a captured string layout at an address.  Yields no view for a
    /// null address, a negative reported length, or a buffer shorter than
    /// the reported length.
    pub fn from_ptr(addr: usize, raw: Il2CppString) -> (r: Option<Il2CppStr>)
        ensures
            r is Some <==> (addr != 0 && 0 <= raw.m_string_length && raw.m_string_length as int
                <= raw.m_first_char@.len()),
            r matches Some(s) ==> s == (Il2CppStr { addr, raw }) && str_wf(s),
    {
        if addr == 0 {
            return None;
        }
        if raw.m_string_length < 0 {
            return None;
        }
        if raw.m_string_length as usize > raw.m_first_char.len() {
            return None;
        }
        Some(Il2CppStr { addr, raw })
    }

    /// Length in UTF-16 code units.
    pub fn len(&self) -> (r: usize)
        requires
            str_wf(*self),
        ensures
            r == self.spec_len(),
    {
        self.raw.m_string_length as usize
    }

    /// Whether the string is empty.
    pub fn is_empty(&self) -> (r: bool)
        requires
            str_wf(*self),
        ensures
            r == (self.spec_len() == 0),
    {
        self.len() == 0
    }

    /// The UTF-16 code unit at `idx`, or nothing at or beyond the length.
    pub fn char_at(&self, idx: usize) -> (r: Option<u16>)
        requires
            str_wf(*self),
        ensures
            idx < self.spec_len() ==> r == Some(self.units()[idx as int]),
            idx >= self.spec_len() ==> r is None,
    {
        if idx >= self.len() {
            None
        } else {
            Some(self.raw.m_first_char[idx])
        }
    }

    /// Borrow the captured foreign layout.
    pub fn as_raw(&self) -> (r: &Il2CppString)
        ensures
            *r == self.raw,
    {
        &self.raw
    }

    /// The raw address of the managed string.
    pub fn as_ptr(&self) -> (r: usize)
        ensures
            r == self.addr,
    {
        self.addr
    }

    /// Decode the reported code units to owned text; an empty view decodes
    /// to the empty string.
    pub fn to_string(&self) -> (r: String)
        requires
            str_wf(*self),
        ensures
            r@ == decode_utf16(self.units()),
    {
        let ghost chars = self.units();
        let n = self.len();
        let mut out = String::new();
        let mut i: usize = 0;
        proof {
            assert(chars.skip(0) =~= chars);
            assert(out@ + decode_utf16(chars.skip(0)) =~= decode_utf16(chars));
        }
        while i < n
            invariant
                str_wf(*self),
                i <= n,
                n == self.spec_len(),
                chars == self.units(),
                decode_utf16(chars) == out@ + decode_utf16(chars.skip(i as int)),
            decreases n - i,
        {
            let ghost tail = chars.skip(i as int);
            let u = self.raw.m_first_char[i];
            let high = 0xD800 <= u && u < 0xDC00;
            let low = 0xDC00 <= u && u < 0xE000;
            let mut pair = false;
            let mut u2: u16 = 0;
            if high && i + 1 < n {
                u2 = self.raw.m_first_char[i + 1];
                if 0xDC00 <= u2 && u2 < 0xE000 {
                    pair = true;
                }
            }
            proof {
                assert(tail.len() == n - i);
                assert(tail[0] == chars[i as int]);
                assert(chars[i as int] == self.raw.m_first_char@[i as int]);
                if i + 1 < n {
                    assert(tail[1] == chars[i + 1]);
                    assert(chars[i + 1] == self.raw.m_first_char@[i + 1]);
                }
            }
            if pair {
                let scalar: u32 = 0x10000 + ((u - 0xD800) as u32) * 0x400 + ((u2 - 0xDC00) as u32);
                let c = char_from_u32(scalar).unwrap();
                proof {
                    vstd::utf8::char_u32_cast(c, scalar);
                    assert(scalar == scalar_of_pair(tail[0], tail[1]));
                    assert(decode_utf16(tail) == seq![(scalar_of_pair(tail[0], tail[1]) as char)]
                        + decode_utf16(tail.skip(2)));
                    assert(tail.skip(2) =~= chars.skip(i + 2));
                }
                push_char(&mut out, c);
                proof {
                    assert(out@ + decode_utf16(chars.skip(i + 2)) =~= decode_utf16(chars));
                }
                i = i + 2;
            } else if high || low {
                proof {
                    assert(!(is_high_surrogate(tail[0]) && tail.len() >= 2 && is_low_surrogate(
                        tail[1],
                    )));
                    assert(decode_utf16(tail) == seq!['\u{FFFD}'] + decode_utf16(tail.skip(1)));
                    assert(tail.skip(1) =~= chars.skip(i + 1));
                }
                push_char(&mut out, '\u{FFFD}');
                proof {
                    assert(out@ + decode_utf16(chars.skip(i + 1)) =~= decode_utf16(chars));
                }
                i = i + 1;
            } else {
                let c = char_from_u32(u as u32).unwrap();
                proof {
                    vstd::utf8::char_u32_cast(c, u as u32);
                    assert(decode_utf16(tail) == seq![((tail[0] as u32) as char)] + decode_utf16(
                        tail.skip(1),
                    ));
                    assert(tail.skip(1) =~= chars.skip(i + 1));
                }
                push_char(&mut out, c);
                proof {
                    assert(out@ + decode_utf16(chars.skip(i + 1)) =~= decode_utf16(chars));
                }
                i = i + 1;
            }
        }
        proof {
            assert(chars.skip(n as int) =~= Seq::<u16>::empty());
            assert(out@ =~= out@ + decode_utf16(chars.skip(n as int)));
        }
        out
    }
}

} // verus!
