//! A subscriber's email address, admitted only after syntactic validation.

use crate::domain::subscriber_name::is_control_char;
use vstd::prelude::*;
use vstd::string::StrSliceExecFns;

verus! {

/// A character admissible in an email address: printable and not a space.
pub open spec fn is_email_char(c: char) -> bool {
    !is_control_char(c) && c != ' '
}

/// Position `i` separates a non-empty local part from a non-empty domain.
pub open spec fn at_splits(s: Seq<char>, i: int) -> bool {
    0 < i < s.len() - 1 && s[i] == '@'
}

/// A syntactically valid email address: at most 256 characters, every
/// character admissible, and exactly one `@`, with non-empty text on both
/// sides of it.
pub open spec fn is_valid_email(s: Seq<char>) -> bool {
    &&& s.len() <= 256
    &&& forall|i: int| 0 <= i < s.len() ==> is_email_char(#[trigger] s[i])
    &&& exists|i: int|
        #[trigger] at_splits(s, i) && forall|j: int| 0 <= j < s.len() && j != i ==> s[j] != '@'
}

/// An email address that passed validation. The inner string is private: a
/// value of this type always satisfies `is_valid_email`.
pub struct SubscriberEmail {
    email: String,
}

impl View for SubscriberEmail {
    type V = Seq<char>;

    closed spec fn view(&self) -> Seq<char> {
        self.email@
    }
}

impl SubscriberEmail {
    /// Holds of every value of this type; recover it with
    /// `use_type_invariant`.
    #[verifier::type_invariant]
    pub open spec fn type_inv(self) -> bool {
        is_valid_email(self@)
    }
}

impl SubscriberEmail {
    /// Admits `s` exactly when it is a syntactically valid email address.
    pub fn parse(s: String) -> (r: Result<SubscriberEmail, String>)
        ensures
            r matches Ok(e) ==> e@ == s@ && is_valid_email(s@),
            r is Err <==> !is_valid_email(s@),
    {
        let len = s.as_str().unicode_len();
        if len > 256 {
            return Err(String::from_str("not a valid email address"));
        }
        let mut first_at: Option<usize> = None;
        let mut second_at: Option<usize> = None;
        let mut i: usize = 0;
        while i < len
            invariant
                i <= len,
                len == s@.len(),
                len <= 256,
                forall|j: int| 0 <= j < i ==> is_email_char(#[trigger] s@[j]),
                first_at is None ==> second_at is None,
                first_at is None ==> forall|j: int| 0 <= j < i ==> s@[j] != '@',
                first_at matches Some(p) ==> p < i && s@[p as int] == '@' && (second_at is None
                    ==> forall|j: int| 0 <= j < i && j != p ==> s@[j] != '@'),
                second_at matches Some(q) ==> (first_at matches Some(p) && p != q && q < i
                    && s@[q as int] == '@'),
            decreases len - i,
        {
            let c = s.as_str().get_char(i);
            if (c as u32) < 32 || (127 <= (c as u32) && (c as u32) <= 159) || c == ' ' {
                return Err(String::from_str("not a valid email address"));
            }
            if c == '@' {
                if first_at.is_none() {
                    first_at = Some(i);
                } else if second_at.is_none() {
                    second_at = Some(i);
                }
            }
            i = i + 1;
        }
        match first_at {
            None => {
                proof {
                    lemma_no_at_invalid(s@);
                }
                Err(String::from_str("not a valid email address"))
            },
            Some(p) => {
                match second_at {
                    Some(q) => {
                        proof {
                            lemma_two_ats_invalid(s@, p as int, q as int);
                        }
                        Err(String::from_str("not a valid email address"))
                    },
                    None => {
                        if 0 < p && p < len - 1 {
                            proof {
                                assert(at_splits(s@, p as int));
                            }
                            Ok(SubscriberEmail { email: s })
                        } else {
                            proof {
                                lemma_at_at_edge_invalid(s@, p as int);
                            }
                            Err(String::from_str("not a valid email address"))
                        }
                    },
                }
            },
        }
    }

    /// The address as a string slice.
    pub fn as_str(&self) -> (r: &str)
        ensures
            r@ == self@,
    {
        self.email.as_str()
    }

    /// Gives the validated string back.
    pub fn into_string(self) -> (r: String)
        ensures
            r@ == self@,
    {
        self.email
    }

}

/// A string without `@` is not a valid email address.
proof fn lemma_no_at_invalid(s: Seq<char>)
    requires
        forall|j: int| 0 <= j < s.len() ==> s[j] != '@',
    ensures
        !is_valid_email(s),
{
    assert forall|i: int| !at_splits(s, i) by {
        if 0 < i < s.len() - 1 {
            assert(s[i] != '@');
        }
    }
}

/// A string with two distinct `@` positions is not a valid email address.
proof fn lemma_two_ats_invalid(s: Seq<char>, p: int, q: int)
    requires
        0 <= p < s.len(),
        0 <= q < s.len(),
        p != q,
        s[p] == '@',
        s[q] == '@',
    ensures
        !is_valid_email(s),
{
    if is_valid_email(s) {
        let i = choose|i: int|
            #[trigger] at_splits(s, i) && forall|j: int|
                0 <= j < s.len() && j != i ==> s[j] != '@';
        if i != p {
            assert(s[p] != '@');
        } else {
            assert(s[q] != '@');
        }
    }
}

/// A string whose only `@` touches either end is not a valid email address.
proof fn lemma_at_at_edge_invalid(s: Seq<char>, p: int)
    requires
        0 <= p < s.len(),
        s[p] == '@',
        !(0 < p < s.len() - 1),
        forall|j: int| 0 <= j < s.len() && j != p ==> s[j] != '@',
    ensures
        !is_valid_email(s),
{
    if is_valid_email(s) {
        let i = choose|i: int|
            #[trigger] at_splits(s, i) && forall|j: int|
                0 <= j < s.len() && j != i ==> s[j] != '@';
        if i != p {
            assert(s[p] != '@');
        }
    }
}

} // verus!
