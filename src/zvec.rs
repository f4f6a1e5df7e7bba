//! `ZVec`: a semi fixed size byte vector that is wiped when dropped. It can
//! shrink in length but never grows past the size it was made with, and if
//! it shrinks it still owns (and wipes) the entire allocation.
//!
//! Pinning the allocation in memory is an operating-system call; this module
//! decides when that call is owed (`needs_lock`) and what its outcome means
//! (`locked`).

use vstd::prelude::*;
use vstd::string::StringExecFns;

verus! {

/// Relies on the outside error type of `nix`, an errno value, carried
/// through unchanged.
#[verifier::external_type_specification]
#[verifier::external_body]
pub struct ExErrno(nix::errno::Errno);

/// Errors of building a `ZVec`.
#[derive(Debug, PartialEq, Eq)]
pub enum Error {
    /// The operating system refused to pin the allocation.
    NixError(nix::Error),
}

/// A semi fixed size byte vector. `elems` is the whole allocation, of which
/// the first `len` bytes are visible.
pub struct ZVec {
    elems: Vec<u8>,
    len: usize,
}

impl ZVec {
    /// Every byte of the allocation, visible or not.
    pub closed spec fn store(&self) -> Seq<u8> {
        self.elems@
    }

    /// The visible length.
    pub closed spec fn active_len(&self) -> nat {
        self.len as nat
    }

    /// The size of the allocation, fixed when the buffer is made.
    pub open spec fn allocation_len(&self) -> nat {
        self.store().len()
    }

    /// The visible bytes: the first `active_len` bytes of the allocation.
    pub open spec fn view(&self) -> Seq<u8> {
        self.store().subrange(0, self.active_len() as int)
    }

    /// The visible length never exceeds the allocation.
    pub open spec fn wf(&self) -> bool {
        self.active_len() <= self.allocation_len()
    }

    /// A buffer of `size` zero bytes, all of them visible.
    pub fn new(size: usize) -> (r: ZVec)
        ensures
            r.wf(),
            r.allocation_len() == size,
            r.active_len() == size,
            r.store() == Seq::new(size as nat, |i: int| 0u8),
    {
        let elems: Vec<u8> = vec![0u8; size];
        let r = ZVec { elems, len: size };
        assert(r.store() =~= Seq::new(size as nat, |i: int| 0u8));
        r
    }

    /// A buffer holding a copy of `v`: capacity and visible length are both
    /// `v.len()`.
    pub fn from_slice(v: &[u8]) -> (r: ZVec)
        ensures
            r.wf(),
            r.allocation_len() == v@.len(),
            r@ == v@,
    {
        let mut z = ZVec::new(v.len());
        z.copy_from_slice(v);
        z
    }

    /// Takes over `v` without moving its bytes: it is first padded with zeros
    /// up to its allocated capacity, so that no reallocation leaves a stray
    /// copy behind. The visible bytes are those of `v`.
    pub fn from_vec(v: Vec<u8>) -> (r: ZVec)
        ensures
            r.wf(),
            r@ == v@,
            r.allocation_len() >= v@.len(),
            forall|i: int| v@.len() <= i < r.allocation_len() ==> r.store()[i] == 0u8,
    {
        let mut v = v;
        let len = v.len();
        let cap = capacity_of(&v);
        v.resize(cap, 0u8);
        let r = ZVec { elems: v, len };
        assert(r@ =~= v@.subrange(0, len as int));
        r
    }

    /// Whether the allocation has to be pinned in memory: an empty one has no
    /// address to pin.
    pub fn needs_lock(&self) -> (r: bool)
        ensures
            r == (self.allocation_len() > 0),
    {
        self.elems.len() > 0
    }

    /// Finishes building a buffer from the outcome of pinning its allocation:
    /// the buffer when that succeeded, else the operating system's error (and
    /// the buffer is wiped as it goes).
    pub fn locked(self, outcome: Result<(), nix::Error>) -> (r: Result<ZVec, Error>)
        ensures
            outcome is Ok ==> r == Ok::<ZVec, Error>(self),
            outcome is Err ==> r == Err::<ZVec, Error>(Error::NixError(outcome->Err_0)),
    {
        match outcome {
            Ok(()) => Ok(self),
            Err(e) => Err(Error::NixError(e)),
        }
    }

    /// Reduces the visible length to `len`. Does nothing if `len` is greater
    /// than the allocation. The allocation itself is kept whole either way.
    pub fn reduce_len(&mut self, len: usize)
        requires
            old(self).wf(),
        ensures
            final(self).wf(),
            final(self).store() == old(self).store(),
            len <= old(self).allocation_len() ==> final(self).active_len() == len,
            len > old(self).allocation_len() ==> final(self).active_len() == old(self).active_len(),
    {
        if len <= self.elems.len() {
            self.len = len;
        }
    }

    /// A new buffer whose capacity and visible length are this buffer's
    /// visible length, holding a copy of the visible bytes. It must be pinned
    /// on its own (`needs_lock`, `locked`).
    pub fn try_clone(&self) -> (r: ZVec)
        requires
            self.wf(),
        ensures
            r.wf(),
            r.allocation_len() == self@.len(),
            r@ == self@,
    {
        let mut r = ZVec::new(self.len);
        r.copy_from_slice(self.as_slice());
        r
    }

    /// The visible bytes.
    pub fn as_slice(&self) -> (r: &[u8])
        requires
            self.wf(),
        ensures
            r@ == self@,
    {
        vstd::slice::slice_subrange(self.elems.as_slice(), 0, self.len)
    }

    /// Overwrites the visible bytes with `v`, which must be as long.
    pub fn copy_from_slice(&mut self, v: &[u8])
        requires
            old(self).wf(),
            v@.len() == old(self).active_len(),
        ensures
            final(self).wf(),
            final(self)@ == v@,
            final(self).active_len() == old(self).active_len(),
            final(self).allocation_len() == old(self).allocation_len(),
            final(self).store().subrange(v@.len() as int, final(self).allocation_len() as int)
                == old(self).store().subrange(v@.len() as int, old(self).allocation_len() as int),
    {
        let n = v.len();
        let mut i: usize = 0;
        while i < n
            invariant
                0 <= i <= n,
                n == v@.len(),
                n == self.len,
                self.len <= self.elems.len(),
                self.elems@.len() == old(self).store().len(),
                forall|j: int| 0 <= j < i ==> self.elems@[j] == v@[j],
                forall|j: int| i <= j < self.elems@.len() ==> self.elems@[j] == old(self).store()[j],
            decreases n - i,
        {
            self.elems[i] = v[i];
            i = i + 1;
        }
        assert(self@ =~= v@);
        assert(self.store().subrange(n as int, self.allocation_len() as int)
            =~= old(self).store().subrange(n as int, old(self).allocation_len() as int));
    }

    /// Writes `b` at visible position `i`.
    pub fn set(&mut self, i: usize, b: u8)
        requires
            old(self).wf(),
            i < old(self).active_len(),
        ensures
            final(self).wf(),
            final(self).store() == old(self).store().update(i as int, b),
            final(self).active_len() == old(self).active_len(),
            final(self)@ == old(self)@.update(i as int, b),
    {
        self.elems[i] = b;
        assert(self@ =~= old(self)@.update(i as int, b));
    }

    /// The visible length.
    pub fn len(&self) -> (r: usize)
        ensures
            r == self.active_len(),
    {
        self.len
    }

    /// Whether no byte is visible.
    pub fn is_empty(&self) -> (r: bool)
        ensures
            r == (self.active_len() == 0),
    {
        self.len == 0
    }

    /// The size of the allocation.
    pub fn capacity(&self) -> (r: usize)
        ensures
            r == self.allocation_len(),
    {
        self.elems.len()
    }

    /// The whole allocation, visible or not: the region that is pinned.
    pub fn backing(&self) -> (r: &[u8])
        ensures
            r@ == self.store(),
    {
        self.elems.as_slice()
    }

    /// The whole allocation for writing, as the final wipe needs it; the
    /// visible length stays as it is.
    pub fn backing_mut(&mut self) -> (r: &mut [u8])
        ensures
            r@ == old(self).store(),
            final(self).store() == final(r)@,
            final(self).active_len() == old(self).active_len(),
    {
        self.elems.as_mut_slice()
    }

    /// A description that never shows the contents: "Zvec empty" for an
    /// empty allocation, else the visible length followed by a redaction
    /// notice.
    pub fn debug_text(&self) -> (r: String)
        ensures
            r@ == redacted_text(self.allocation_len(), self.active_len()),
    {
        if self.elems.len() == 0 {
            String::from_str("Zvec empty")
        } else {
            let mut r = String::from_str("Zvec size: ");
            let digits = decimal_text(self.len);
            r.append(digits.as_str());
            r.append(" [ Sensitive information redacted ]");
            r
        }
    }

    /// Overwrites every byte of the allocation, visible or not, with zero.
    pub fn wipe(&mut self)
        ensures
            final(self).store() == Seq::new(old(self).allocation_len(), |i: int| 0u8),
            final(self).active_len() == old(self).active_len(),
    {
        let n = self.elems.len();
        let mut i: usize = 0;
        while i < n
            invariant
                0 <= i <= n,
                n == self.elems@.len(),
                n == old(self).store().len(),
                self.len == old(self).len,
                forall|j: int| 0 <= j < i ==> self.elems@[j] == 0u8,
            decreases n - i,
        {
            self.elems[i] = 0u8;
            i = i + 1;
        }
        assert(self.store() =~= Seq::new(old(self).allocation_len(), |i: int| 0u8));
    }
}

/// The decimal digit `d`.
pub open spec fn digit_char(d: nat) -> char {
    seq!['0', '1', '2', '3', '4', '5', '6', '7', '8', '9'][d as int]
}

/// The decimal writing of `n`, most significant digit first, with no sign
/// and no leading zeros.
pub open spec fn decimal(n: nat) -> Seq<char>
    decreases n,
{
    if n < 10 {
        seq![digit_char(n)]
    } else {
        decimal(n / 10).push(digit_char(n % 10))
    }
}

/// What `debug_text` shows of a buffer with an allocation of `capacity`
/// bytes, `len` of them visible: the lengths, never a byte of content.
pub open spec fn redacted_text(capacity: nat, len: nat) -> Seq<char> {
    if capacity == 0 {
        "Zvec empty"@
    } else {
        "Zvec size: "@ + decimal(len) + " [ Sensitive information redacted ]"@
    }
}

/// The description of a buffer depends on its two lengths alone: two buffers
/// with the same allocation size and visible length, whatever bytes they
/// hold, are described alike, and an empty allocation is always described
/// as "Zvec empty".
pub proof fn redaction_ignores_content(a: ZVec, b: ZVec)
    requires
        a.allocation_len() == b.allocation_len(),
        a.active_len() == b.active_len(),
    ensures
        redacted_text(a.allocation_len(), a.active_len()) == redacted_text(
            b.allocation_len(),
            b.active_len(),
        ),
        a.allocation_len() == 0 ==> redacted_text(a.allocation_len(), a.active_len())
            == "Zvec empty"@,
{
}

/// Relies on `ToString` for `usize`, through its `Display`: the decimal
/// digits of `n`, with no sign or padding.
#[verifier::external_body]
fn decimal_text(n: usize) -> (r: String)
    ensures
        r@ == decimal(n as nat),
{
    n.to_string()
}

/// Relies on `Vec::capacity`: the size of the allocation, never below the
/// length.
#[verifier::external_body]
fn capacity_of(v: &Vec<u8>) -> (r: usize)
    ensures
        r >= v@.len(),
{
    v.capacity()
}

impl Drop for ZVec {
    /// Wipes the whole allocation before it is released. The body is the one
    /// call of the verified `wipe`; it is taken as is because Verus asks of
    /// `drop` that it open no invariants, which `Vec`'s own specifications do
    /// not promise. Nothing is claimed of it.
    #[verifier::external_body]
    fn drop(&mut self)
        opens_invariants none
        no_unwind
    {
        self.wipe();
    }
}

} // verus!
