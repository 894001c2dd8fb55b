//! Entity identifiers.
//!
//! Users, categories and expenses are identified by 128-bit identifiers that
//! travel as text in their canonical form: 32 lowercase hexadecimal digits in
//! five dash-separated groups of 8, 4, 4, 4 and 12. The relational store
//! generates them; this library only validates and carries them, so the
//! canonical text itself is the value.

use vstd::prelude::*;

verus! {

/// Whether `c` is a lowercase hexadecimal digit.
pub open spec fn is_lower_hex_digit(c: char) -> bool {
    ('0' as u32 <= c as u32 && c as u32 <= '9' as u32) || ('a' as u32 <= c as u32 && c as u32
        <= 'f' as u32)
}

/// Whether position `i` of the canonical form holds a dash.
pub open spec fn is_dash_position(i: int) -> bool {
    i == 8 || i == 13 || i == 18 || i == 23
}

/// The canonical identifier grammar: thirty-six characters, dashes at the four
/// fixed positions, lowercase hexadecimal digits everywhere else.
pub open spec fn is_canonical_id(s: Seq<char>) -> bool {
    &&& s.len() == 36
    &&& forall|i: int|
        0 <= i < 36 ==> (if is_dash_position(i) {
            s[i] == '-'
        } else {
            is_lower_hex_digit(s[i])
        })
}

/// An entity identifier in canonical form.
#[derive(Debug)]
pub struct Id {
    text: String,
}

impl Clone for Id {
    fn clone(&self) -> (r: Id)
        ensures
            r == *self,
    {
        proof {
            use_type_invariant(self);
        }
        Id { text: self.text.clone() }
    }
}

impl View for Id {
    type V = Seq<char>;

    closed spec fn view(&self) -> Seq<char> {
        self.text@
    }
}

impl Id {
    /// The invariant of the type: the text satisfies the grammar.
    #[verifier::type_invariant]
    spec fn inv(self) -> bool {
        is_canonical_id(self.text@)
    }

    /// Parses an identifier from text, accepting exactly the canonical form.
    pub fn parse(s: &str) -> (r: Option<Id>)
        ensures
            r is Some <==> is_canonical_id(s@),
            r is Some ==> r->0@ == s@,
    {
        let n = s.unicode_len();
        if n != 36 {
            return None;
        }
        let mut i: usize = 0;
        while i < 36
            invariant
                i <= 36,
                s@.len() == 36,
                forall|j: int|
                    0 <= j < i ==> (if is_dash_position(j) {
                        s@[j] == '-'
                    } else {
                        is_lower_hex_digit(s@[j])
                    }),
            decreases 36 - i,
        {
            let c = s.get_char(i);
            if i == 8 || i == 13 || i == 18 || i == 23 {
                if c != '-' {
                    return None;
                }
            } else {
                let u = c as u32;
                let digit = ('0' as u32 <= u && u <= '9' as u32) || ('a' as u32 <= u && u
                    <= 'f' as u32);
                if !digit {
                    return None;
                }
            }
            i = i + 1;
        }
        Some(Id { text: s.to_owned() })
    }

    /// The canonical text of the identifier.
    pub fn as_str(&self) -> (r: &str)
        ensures
            r@ == self@,
            is_canonical_id(r@),
    {
        proof {
            use_type_invariant(self);
        }
        self.text.as_str()
    }

    /// An owned copy of the canonical text.
    pub fn to_text(&self) -> (r: String)
        ensures
            r@ == self@,
            is_canonical_id(r@),
    {
        proof {
            use_type_invariant(self);
        }
        self.text.clone()
    }
}

impl PartialEq for Id {
    fn eq(&self, other: &Id) -> (r: bool) {
        self.text == other.text
    }
}

impl vstd::std_specs::cmp::PartialEqSpecImpl for Id {
    open spec fn obeys_eq_spec() -> bool {
        true
    }

    open spec fn eq_spec(&self, other: &Id) -> bool {
        self@ == other@
    }
}

impl Eq for Id {

}

} // verus!
