//! NUL-terminated strings built from arbitrary caller data.
//!
//! The loader calls of POSIX systems take a string of bytes ended by a zero
//! byte; those of Windows take one of UTF-16 units ended by a zero unit. The
//! spec functions here speak of both through the unit type `T` and its zero.
use vstd::prelude::*;

verus! {

/// The one byte of an empty NUL-terminated string.
const EMPTY: [u8; 1] = [0];

/// Whether some unit of `s` before position `end` is `zero`.
pub open spec fn has_zero_before<T>(s: Seq<T>, end: int, zero: T) -> bool {
    exists|i: int| 0 <= i < end && s[i] == zero
}

/// Whether `s` is NUL-terminated: it holds one `zero`, at its end.
pub open spec fn is_terminated<T>(s: Seq<T>, zero: T) -> bool {
    &&& s.len() > 0
    &&& s.last() == zero
    &&& !has_zero_before(s, s.len() - 1, zero)
}

/// The NUL-terminated form of `s`, or `None` where `s` holds a `zero` that is
/// not its last unit: the string would end there, and the rest be lost.
pub open spec fn terminated<T>(s: Seq<T>, zero: T) -> Option<Seq<T>> {
    if s.len() == 0 {
        Some(seq![zero])
    } else if has_zero_before(s, s.len() - 1, zero) {
        None
    } else if s.last() == zero {
        Some(s)
    } else {
        Some(s.push(zero))
    }
}

/// A NUL-terminated byte string: a view over bytes that were already in that
/// form, or a new buffer with the terminator appended.
pub enum NulTerminated<'a> {
    Borrowed(&'a [u8]),
    Owned(Vec<u8>),
}

impl<'a> View for NulTerminated<'a> {
    type V = Seq<u8>;

    open spec fn view(&self) -> Seq<u8> {
        match self {
            NulTerminated::Borrowed(b) => b@,
            NulTerminated::Owned(v) => v@,
        }
    }
}

impl<'a> NulTerminated<'a> {
    /// The bytes, terminator included.
    pub fn as_bytes(&self) -> (r: &[u8])
        ensures
            r@ == self@,
    {
        match self {
            NulTerminated::Borrowed(b) => b,
            NulTerminated::Owned(v) => v.as_slice(),
        }
    }

    /// Whether a new buffer was allocated for the string.
    pub fn is_owned(&self) -> (r: bool)
        ensures
            r == (self is Owned),
    {
        match self {
            NulTerminated::Borrowed(_) => false,
            NulTerminated::Owned(_) => true,
        }
    }
}

/// Whether `s[..end]` holds a zero byte.
fn has_zero_byte(s: &[u8], end: usize) -> (r: bool)
    requires
        end <= s@.len(),
    ensures
        r == has_zero_before(s@, end as int, 0u8),
{
    let mut i: usize = 0;
    while i < end
        invariant
            i <= end <= s@.len(),
            !has_zero_before(s@, i as int, 0u8),
        decreases end - i,
    {
        if s[i] == 0 {
            return true;
        }
        i = i + 1;
    }
    false
}

/// Brings `slice` into NUL-terminated form, copying only where a terminator
/// has to be appended.
///
/// An empty slice gives a view over a single zero byte; a slice whose last
/// byte is its only zero byte is handed back as it is; a slice without a
/// zero byte is copied with a zero byte appended. A slice with a zero byte
/// anywhere but at its end gives `None`.
pub fn cstr_cow_from_bytes<'a>(slice: &'a [u8]) -> (r: Option<NulTerminated<'a>>)
    ensures
        r is None <==> terminated(slice@, 0u8) is None,
        r matches Some(t) ==> t@ == terminated(slice@, 0u8)->0,
        r matches Some(t) ==> is_terminated(t@, 0u8),
        r matches Some(t) ==> (t is Owned <==> slice@.len() > 0 && slice@.last() != 0),
        r matches Some(NulTerminated::Borrowed(b)) ==> slice@.len() == 0 || b == slice,
{
    let n = slice.len();
    if n == 0 {
        return Some(NulTerminated::Borrowed(&EMPTY));
    }
    if has_zero_byte(slice, n - 1) {
        return None;
    }
    if slice[n - 1] == 0 {
        Some(NulTerminated::Borrowed(slice))
    } else {
        let mut v = vstd::slice::slice_to_vec(slice);
        v.push(0);
        Some(NulTerminated::Owned(v))
    }
}

/// Brings a string of UTF-16 units into NUL-terminated form, under the same
/// rules as `cstr_cow_from_bytes`: a terminator is appended where there is
/// none, and a zero unit anywhere but at the end gives `None`.
pub fn wide_from_units(units: Vec<u16>) -> (r: Option<Vec<u16>>)
    ensures
        r is None <==> terminated(units@, 0u16) is None,
        r matches Some(w) ==> w@ == terminated(units@, 0u16)->0,
        r matches Some(w) ==> is_terminated(w@, 0u16),
{
    let n = units.len();
    if n == 0 {
        let mut w = units;
        w.push(0);
        assert(w@ =~= seq![0u16]);
        return Some(w);
    }
    let mut i: usize = 0;
    while i < n - 1
        invariant
            n == units@.len(),
            i <= n - 1,
            !has_zero_before(units@, i as int, 0u16),
        decreases n - 1 - i,
    {
        if units[i] == 0 {
            return None;
        }
        i = i + 1;
    }
    let mut w = units;
    if w[n - 1] != 0 {
        w.push(0);
    }
    Some(w)
}

/// A string without a zero byte gets exactly one zero byte appended: the
/// result is one byte longer and holds the string followed by that byte.
pub proof fn lemma_terminator_appended(s: Seq<u8>)
    requires
        !has_zero_before(s, s.len() as int, 0u8),
    ensures
        terminated(s, 0u8) == Some(s.push(0u8)),
        s.push(0u8).len() == s.len() + 1,
        is_terminated(s.push(0u8), 0u8),
{
    if s.len() == 0 {
        assert(s.push(0u8) =~= seq![0u8]);
    } else {
        assert(s[s.len() - 1] != 0u8);
    }
    assert forall|i: int| 0 <= i < s.len() implies s.push(0u8)[i] != 0u8 by {
        assert(s.push(0u8)[i] == s[i]);
    }
}

/// A string that ends in its only zero byte is already NUL-terminated: it is
/// kept as it is.
pub proof fn lemma_terminated_kept(s: Seq<u8>)
    requires
        is_terminated(s, 0u8),
    ensures
        terminated(s, 0u8) == Some(s),
{
}

} // verus!
