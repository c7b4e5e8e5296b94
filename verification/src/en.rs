//! Express-waybill tracking numbers.
//!
//! Domain validation happens at value construction and fails closed: an
//! invalid number never reaches the wire.

use vstd::prelude::*;

use crate::text::{all_dec_digits, is_dec_digit, is_dec_digit_char};

verus! {

/// Why a tracking-number text was refused.
#[derive(Debug, Clone, Copy, PartialEq, Eq, Structural)]
pub enum ENumberPasingError {
    /// The text is not fourteen characters long.
    InvalidLength,
    /// A character is not a decimal digit.
    InvalidSymbols,
}

/// The tracking-number shape: exactly fourteen decimal digits.
pub open spec fn is_en_text(s: Seq<char>) -> bool {
    s.len() == 14 && all_dec_digits(s)
}

/// A validated express-waybill tracking number.
#[derive(Debug, Clone, PartialEq, Eq)]
pub struct ENumber {
    text: String,
}

impl View for ENumber {
    type V = Seq<char>;

    closed spec fn view(&self) -> Seq<char> {
        self.text@
    }
}

impl ENumber {
    pub open spec fn wf(&self) -> bool {
        is_en_text(self@)
    }

    /// Accepts exactly the texts in the tracking-number shape; a text of
    /// the wrong length is refused before its characters are looked at.
    pub fn new(value: String) -> (r: Result<ENumber, ENumberPasingError>)
        ensures
            r matches Ok(e) ==> e@ == value@ && e.wf(),
            r is Ok <==> is_en_text(value@),
            r == Err::<ENumber, _>(ENumberPasingError::InvalidLength) <==> value@.len() != 14,
            r == Err::<ENumber, _>(ENumberPasingError::InvalidSymbols) <==> (value@.len() == 14
                && !all_dec_digits(value@)),
    {
        let n = value.as_str().unicode_len();
        if n != 14 {
            return Err(ENumberPasingError::InvalidLength);
        }
        let mut i: usize = 0;
        while i < n
            invariant
                0 <= i <= n,
                n == 14,
                n == value@.len(),
                forall|k: int| 0 <= k < i ==> is_dec_digit(#[trigger] value@[k]),
            decreases n - i,
        {
            let c = value.as_str().get_char(i);
            if !is_dec_digit_char(c) {
                proof {
                    assert(!is_dec_digit(value@[i as int]));
                    assert(!all_dec_digits(value@));
                }
                return Err(ENumberPasingError::InvalidSymbols);
            }
            i += 1;
        }
        proof {
            assert(all_dec_digits(value@));
        }
        Ok(ENumber { text: value })
    }

    pub fn as_str(&self) -> (r: &str)
        ensures
            r@ == self@,
    {
        self.text.as_str()
    }

    /// Gives the number back as its plain text.
    pub fn into_text(self) -> (r: String)
        ensures
            r@ == self@,
    {
        self.text
    }
}

} // verus!
