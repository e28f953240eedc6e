//! Balanced-ternary digit buffers and the 27-symbol tryte alphabet.
//!
//! A trit is a balanced-ternary digit (-1, 0 or 1); a tryte (symbol) is a
//! group of 3 trits, displayed as one character of the alphabet
//! `9ABCDEFGHIJKLMNOPQRSTUVWXYZ`: '9' stands for the value 0, 'A'..'M' for
//! 1..13 and 'N'..'Z' for -13..-1, where the value of a tryte is
//! `t0 + 3*t1 + 9*t2` over its three trits in order.

use vstd::prelude::*;

verus! {

/// A single balanced-ternary digit is -1, 0 or 1.
pub open spec fn valid_trit(t: i8) -> bool {
    t == -1 || t == 0 || t == 1
}

/// All elements of a trit sequence are balanced-ternary digits.
pub open spec fn valid_trits(s: Seq<i8>) -> bool {
    forall|i: int| 0 <= i < s.len() ==> valid_trit(#[trigger] s[i])
}

/// The value of a tryte, from its three trits in order.
pub open spec fn tryte_val(t0: i8, t1: i8, t2: i8) -> int {
    t0 + 3 * t1 + 9 * t2
}

/// The alphabet character of a tryte value in -13..=13.
pub open spec fn tryte_char_of(v: int) -> char {
    if v == 0 {
        '9'
    } else if v == 1 {
        'A'
    } else if v == 2 {
        'B'
    } else if v == 3 {
        'C'
    } else if v == 4 {
        'D'
    } else if v == 5 {
        'E'
    } else if v == 6 {
        'F'
    } else if v == 7 {
        'G'
    } else if v == 8 {
        'H'
    } else if v == 9 {
        'I'
    } else if v == 10 {
        'J'
    } else if v == 11 {
        'K'
    } else if v == 12 {
        'L'
    } else if v == 13 {
        'M'
    } else if v == -13 {
        'N'
    } else if v == -12 {
        'O'
    } else if v == -11 {
        'P'
    } else if v == -10 {
        'Q'
    } else if v == -9 {
        'R'
    } else if v == -8 {
        'S'
    } else if v == -7 {
        'T'
    } else if v == -6 {
        'U'
    } else if v == -5 {
        'V'
    } else if v == -4 {
        'W'
    } else if v == -3 {
        'X'
    } else if v == -2 {
        'Y'
    } else {
        'Z'
    }
}

/// Whether a character belongs to the 27-symbol tryte alphabet.
pub open spec fn is_tryte_char(c: char) -> bool {
    c == '9' || ('A' <= c && c <= 'Z')
}

/// A sequence of balanced-ternary digits, grouped in triples into trytes.
pub struct TernaryBuffer {
    trits: Vec<i8>,
}

impl View for TernaryBuffer {
    type V = Seq<i8>;

    closed spec fn view(&self) -> Seq<i8> {
        self.trits@
    }
}

impl TernaryBuffer {
    /// Every digit is a trit and the digits form whole trytes.
    pub open spec fn wf(&self) -> bool {
        valid_trits(self@) && self@.len() % 3 == 0
    }

    /// Builds a buffer from raw digits, rejecting anything that is not a
    /// whole number of balanced-ternary triples.
    pub fn from_trits(trits: Vec<i8>) -> (r: Option<TernaryBuffer>)
        ensures
            r is Some <==> (valid_trits(trits@) && trits@.len() % 3 == 0),
            r matches Some(b) ==> b@ == trits@ && b.wf(),
    {
        if trits.len() % 3 != 0 {
            return None;
        }
        let mut i: usize = 0;
        while i < trits.len()
            invariant
                0 <= i <= trits@.len(),
                forall|j: int| 0 <= j < i ==> valid_trit(#[trigger] trits@[j]),
            decreases trits@.len() - i,
        {
            let t = trits[i];
            if !(t == -1 || t == 0 || t == 1) {
                return None;
            }
            i = i + 1;
        }
        Some(TernaryBuffer { trits })
    }

    /// Wraps digits already known to be valid.
    pub(crate) fn from_valid_trits(trits: Vec<i8>) -> (r: TernaryBuffer)
        requires
            valid_trits(trits@),
            trits@.len() % 3 == 0,
        ensures
            r@ == trits@,
            r.wf(),
    {
        TernaryBuffer { trits }
    }

    /// The raw balanced-ternary digits.
    pub fn as_trits(&self) -> (r: &Vec<i8>)
        ensures
            r@ == self@,
    {
        &self.trits
    }

    /// The number of digits held.
    pub fn len(&self) -> (r: usize)
        ensures
            r == self@.len(),
    {
        self.trits.len()
    }

    /// Displays the buffer as one alphabet character per tryte.
    pub fn to_tryte_chars(&self) -> (r: Vec<char>)
        requires
            self.wf(),
        ensures
            3 * r@.len() == self@.len(),
            forall|i: int| 0 <= i < r@.len() ==> #[trigger] r@[i] == tryte_char_of(
                tryte_val(self@[3 * i], self@[3 * i + 1], self@[3 * i + 2]),
            ),
    {
        let n = self.trits.len() / 3;
        let mut out: Vec<char> = Vec::new();
        let mut i: usize = 0;
        while i < n
            invariant
                0 <= i <= n,
                n == self@.len() / 3,
                self@.len() <= usize::MAX,
                self@.len() % 3 == 0,
                valid_trits(self@),
                out@.len() == i,
                forall|j: int| 0 <= j < i ==> #[trigger] out@[j] == tryte_char_of(
                    tryte_val(self@[3 * j], self@[3 * j + 1], self@[3 * j + 2]),
                ),
            decreases n - i,
        {
            proof {
                assert(3 * n <= self@.len());
                assert(3 * i + 2 < self@.len());
            }
            let c = tryte_to_char(self.trits[3 * i], self.trits[3 * i + 1], self.trits[3 * i + 2]);
            out.push(c);
            i = i + 1;
        }
        out
    }

    /// Reads a buffer back from alphabet characters, one tryte per
    /// character, rejecting any character outside the alphabet.
    pub fn from_tryte_chars(chars: &Vec<char>) -> (r: Option<TernaryBuffer>)
        ensures
            r is Some <==> (forall|i: int| 0 <= i < chars@.len() ==> is_tryte_char(
                #[trigger] chars@[i],
            )),
            r matches Some(b) ==> b.wf() && b@.len() == 3 * chars@.len() && (forall|i: int|
                0 <= i < chars@.len() ==> tryte_char_of(
                    tryte_val(b@[3 * i], b@[3 * i + 1], b@[3 * i + 2]),
                ) == #[trigger] chars@[i]),
    {
        let mut trits: Vec<i8> = Vec::new();
        let mut i: usize = 0;
        while i < chars.len()
            invariant
                0 <= i <= chars@.len(),
                trits@.len() == 3 * i,
                valid_trits(trits@),
                forall|j: int| 0 <= j < i ==> is_tryte_char(#[trigger] chars@[j]),
                forall|j: int| 0 <= j < i ==> tryte_char_of(
                    tryte_val(trits@[3 * j], trits@[3 * j + 1], trits@[3 * j + 2]),
                ) == #[trigger] chars@[j],
            decreases chars@.len() - i,
        {
            match char_to_tryte(chars[i]) {
                Some((t0, t1, t2)) => {
                    trits.push(t0);
                    trits.push(t1);
                    trits.push(t2);
                },
                None => {
                    return None;
                },
            }
            i = i + 1;
        }
        Some(TernaryBuffer { trits })
    }
}

/// The alphabet character of one tryte given as three trits.
fn tryte_to_char(t0: i8, t1: i8, t2: i8) -> (r: char)
    requires
        valid_trit(t0),
        valid_trit(t1),
        valid_trit(t2),
    ensures
        r == tryte_char_of(tryte_val(t0, t1, t2)),
{
    let v: i32 = t0 as i32 + 3 * (t1 as i32) + 9 * (t2 as i32);
    if v == 0 {
        '9'
    } else if v == 1 {
        'A'
    } else if v == 2 {
        'B'
    } else if v == 3 {
        'C'
    } else if v == 4 {
        'D'
    } else if v == 5 {
        'E'
    } else if v == 6 {
        'F'
    } else if v == 7 {
        'G'
    } else if v == 8 {
        'H'
    } else if v == 9 {
        'I'
    } else if v == 10 {
        'J'
    } else if v == 11 {
        'K'
    } else if v == 12 {
        'L'
    } else if v == 13 {
        'M'
    } else if v == -13 {
        'N'
    } else if v == -12 {
        'O'
    } else if v == -11 {
        'P'
    } else if v == -10 {
        'Q'
    } else if v == -9 {
        'R'
    } else if v == -8 {
        'S'
    } else if v == -7 {
        'T'
    } else if v == -6 {
        'U'
    } else if v == -5 {
        'V'
    } else if v == -4 {
        'W'
    } else if v == -3 {
        'X'
    } else if v == -2 {
        'Y'
    } else {
        'Z'
    }
}

/// The three trits of the tryte that an alphabet character displays, or
/// nothing for a character outside the alphabet.
fn char_to_tryte(c: char) -> (r: Option<(i8, i8, i8)>)
    ensures
        r is Some <==> is_tryte_char(c),
        r matches Some(t) ==> valid_trit(t.0) && valid_trit(t.1) && valid_trit(t.2)
            && tryte_char_of(tryte_val(t.0, t.1, t.2)) == c,
{
    if c == '9' {
        Some((0, 0, 0))
    } else if c == 'A' {
        Some((1, 0, 0))
    } else if c == 'B' {
        Some((-1, 1, 0))
    } else if c == 'C' {
        Some((0, 1, 0))
    } else if c == 'D' {
        Some((1, 1, 0))
    } else if c == 'E' {
        Some((-1, -1, 1))
    } else if c == 'F' {
        Some((0, -1, 1))
    } else if c == 'G' {
        Some((1, -1, 1))
    } else if c == 'H' {
        Some((-1, 0, 1))
    } else if c == 'I' {
        Some((0, 0, 1))
    } else if c == 'J' {
        Some((1, 0, 1))
    } else if c == 'K' {
        Some((-1, 1, 1))
    } else if c == 'L' {
        Some((0, 1, 1))
    } else if c == 'M' {
        Some((1, 1, 1))
    } else if c == 'N' {
        Some((-1, -1, -1))
    } else if c == 'O' {
        Some((0, -1, -1))
    } else if c == 'P' {
        Some((1, -1, -1))
    } else if c == 'Q' {
        Some((-1, 0, -1))
    } else if c == 'R' {
        Some((0, 0, -1))
    } else if c == 'S' {
        Some((1, 0, -1))
    } else if c == 'T' {
        Some((-1, 1, -1))
    } else if c == 'U' {
        Some((0, 1, -1))
    } else if c == 'V' {
        Some((1, 1, -1))
    } else if c == 'W' {
        Some((-1, -1, 0))
    } else if c == 'X' {
        Some((0, -1, 0))
    } else if c == 'Y' {
        Some((1, -1, 0))
    } else if c == 'Z' {
        Some((-1, 0, 0))
    } else {
        None
    }
}

} // verus!
