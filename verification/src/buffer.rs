//! Fixed-capacity character buffers for move strings and principal
//! variations.
//!
//! A [`FixedBuffer`] stores at most `N` characters of an assigned string and
//! never grows.  `set` truncates at the capacity; `set_trim` truncates at a
//! token boundary so that a stored principal variation never ends in a cut-off
//! move token.

use vstd::prelude::*;

verus! {

/// Capacity of a buffer holding one UCI move token: four squares plus an
/// optional promotion letter.
pub const UCI_MAX_LENGTH: usize = 5;

/// Typical length of a UCI move token.
pub const UCI_TYPICAL_LENGTH: usize = 4;

/// Maximum number of principal-variation moves kept.
pub const MAX_PV_MOVES: usize = 10;

/// Capacity of the principal-variation buffer: room for `MAX_PV_MOVES` moves
/// of typical length, each followed by a separating space.
pub const PV_BUFF_SIZE: usize = MAX_PV_MOVES * (UCI_TYPICAL_LENGTH + 1);

/// A fixed-capacity character buffer: at most `N` characters are stored,
/// anything longer is cut off.  The protocol traffic is ASCII, so a character
/// here is in practice a byte.
#[derive(Debug, Clone)]
pub struct FixedBuffer<const N: usize> {
    /// number of characters currently stored
    pub len: usize,
    /// the stored characters
    pub content: String,
}

/// Buffer sized for a single UCI move token.
pub type UciBuff = FixedBuffer<UCI_MAX_LENGTH>;

/// Buffer sized for a principal-variation string.
pub type PvBuff = FixedBuffer<PV_BUFF_SIZE>;

impl<const N: usize> View for FixedBuffer<N> {
    type V = Seq<char>;

    open spec fn view(&self) -> Seq<char> {
        self.content@
    }
}

/// What `set` stores: the whole string if it fits, else its first `cap`
/// characters.
pub open spec fn cut_spec(s: Seq<char>, cap: nat) -> Seq<char> {
    if s.len() <= cap {
        s
    } else {
        s.take(cap as int)
    }
}

/// The largest index `j <= i` where `s[j]` is the boundary character, or 0 if
/// there is none.
pub open spec fn boundary_cut(s: Seq<char>, boundary: char, i: nat) -> nat
    recommends
        i < s.len(),
    decreases i,
{
    if s[i as int] == boundary {
        i
    } else if i == 0 {
        0
    } else {
        boundary_cut(s, boundary, (i - 1) as nat)
    }
}

/// What `set_trim` stores: the whole string if it fits; otherwise the prefix
/// ending just before the last boundary character at index `<= cap`, or the
/// empty sequence if no boundary character occurs that early.
pub open spec fn trim_spec(s: Seq<char>, boundary: char, cap: nat) -> Seq<char> {
    if s.len() <= cap {
        s
    } else {
        s.take(boundary_cut(s, boundary, cap) as int)
    }
}

proof fn lemma_boundary_cut_le(s: Seq<char>, boundary: char, i: nat)
    ensures
        boundary_cut(s, boundary, i) <= i,
    decreases i,
{
    if s[i as int] == boundary {
    } else if i == 0 {
    } else {
        lemma_boundary_cut_le(s, boundary, (i - 1) as nat);
    }
}

proof fn lemma_boundary_cut_hits(s: Seq<char>, boundary: char, i: nat)
    requires
        i < s.len(),
        boundary_cut(s, boundary, i) > 0,
    ensures
        s[boundary_cut(s, boundary, i) as int] == boundary,
    decreases i,
{
    if s[i as int] == boundary {
    } else if i == 0 {
    } else {
        lemma_boundary_cut_hits(s, boundary, (i - 1) as nat);
    }
}

/// A trimmed string always fits the capacity.
pub proof fn lemma_trim_len(s: Seq<char>, boundary: char, cap: nat)
    ensures
        trim_spec(s, boundary, cap).len() <= cap,
{
    if s.len() > cap {
        lemma_boundary_cut_le(s, boundary, cap);
    }
}

/// Trimming to a boundary is idempotent: trimming a trimmed string changes
/// nothing.
pub proof fn lemma_trim_idempotent(s: Seq<char>, boundary: char, cap: nat)
    ensures
        trim_spec(trim_spec(s, boundary, cap), boundary, cap) == trim_spec(s, boundary, cap),
{
    lemma_trim_len(s, boundary, cap);
}

/// Trimming never splits a token: when something was cut off and the result is
/// non-empty, the character of `s` right after the kept prefix is the boundary.
pub proof fn lemma_trim_at_boundary(s: Seq<char>, boundary: char, cap: nat)
    requires
        s.len() > cap,
        trim_spec(s, boundary, cap).len() > 0,
    ensures
        s[trim_spec(s, boundary, cap).len() as int] == boundary,
{
    lemma_boundary_cut_le(s, boundary, cap);
    lemma_boundary_cut_hits(s, boundary, cap);
}

/// A string within capacity is stored exactly.
pub proof fn lemma_cut_within_capacity(s: Seq<char>, cap: nat)
    requires
        s.len() <= cap,
    ensures
        cut_spec(s, cap) == s,
{
}

/// A string over capacity is stored as its first `cap` characters.
pub proof fn lemma_cut_over_capacity(s: Seq<char>, cap: nat)
    requires
        s.len() > cap,
    ensures
        cut_spec(s, cap) == s.take(cap as int),
{
}

impl<const N: usize> FixedBuffer<N> {
    /// The stored length is consistent with the content and the capacity.
    pub open spec fn wf(&self) -> bool {
        &&& self.len == self.content@.len()
        &&& self.len <= N
    }

    /// Create an empty buffer.
    pub fn new() -> (r: Self)
        ensures
            r.wf(),
            r@ == Seq::<char>::empty(),
            r.len == 0,
    {
        FixedBuffer { len: 0, content: String::new() }
    }

    /// Store `value`, silently cut to the first `N` characters if longer.
    pub fn set(&mut self, value: &str)
        ensures
            final(self).wf(),
            final(self)@ == cut_spec(value@, N as nat),
    {
        let vlen = value.unicode_len();
        if vlen <= N {
            self.content = String::from_str(value);
            self.len = vlen;
        } else {
            self.content = String::from_str(value.substring_char(0, N));
            self.len = N;
        }
    }

    /// Empty the buffer.
    pub fn reset(&mut self)
        ensures
            final(self).wf(),
            final(self)@ == Seq::<char>::empty(),
            final(self).len == 0,
    {
        self.content = String::new();
        self.len = 0;
    }

    /// Store the longest prefix of `value` that fits the capacity and does
    /// not end inside a boundary-delimited token: if `value` fits it is kept
    /// whole; otherwise everything from the last boundary character at index
    /// `<= N` onward is dropped, and if no boundary character occurs that
    /// early the buffer is left empty.
    pub fn set_trim(&mut self, value: &str, boundary: char)
        ensures
            final(self).wf(),
            final(self)@ == trim_spec(value@, boundary, N as nat),
    {
        let vlen = value.unicode_len();
        if vlen <= N {
            self.content = String::from_str(value);
            self.len = vlen;
        } else {
            let mut i: usize = N;
            while i > 0 && value.get_char(i) != boundary
                invariant
                    i <= N < vlen,
                    vlen as nat == value@.len(),
                    boundary_cut(value@, boundary, N as nat) == boundary_cut(
                        value@,
                        boundary,
                        i as nat,
                    ),
                decreases i,
            {
                i = i - 1;
            }
            self.content = String::from_str(value.substring_char(0, i));
            self.len = i;
        }
    }

    /// Read the contents back: absent when empty, else the stored string.
    pub fn to_opt(&self) -> (r: Option<String>)
        requires
            self.wf(),
        ensures
            match r {
                None => self@.len() == 0,
                Some(s) => s@ == self@ && self@.len() > 0,
            },
    {
        if self.len == 0 {
            None
        } else {
            Some(self.content.clone())
        }
    }

    /// The stored characters as a `String`, possibly empty.
    pub fn text(&self) -> (r: String)
        ensures
            r@ == self@,
    {
        self.content.clone()
    }
}

} // verus!
