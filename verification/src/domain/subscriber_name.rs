//! A subscriber's display name, admitted only after validation.

use vstd::prelude::*;
use vstd::string::StrSliceExecFns;

verus! {

/// A control character: the C0 range, DEL, and the C1 range.
pub open spec fn is_control_char(c: char) -> bool {
    (c as u32) < 32 || (127 <= (c as u32) && (c as u32) <= 159)
}

/// A valid display name: non-empty, at most 256 characters, and free of
/// control characters.
pub open spec fn is_valid_name(s: Seq<char>) -> bool {
    &&& 0 < s.len() <= 256
    &&& forall|i: int| 0 <= i < s.len() ==> !is_control_char(#[trigger] s[i])
}

/// A display name that passed validation. The inner string is private: a
/// value of this type always satisfies `is_valid_name`.
pub struct SubscriberName {
    name: String,
}

impl View for SubscriberName {
    type V = Seq<char>;

    closed spec fn view(&self) -> Seq<char> {
        self.name@
    }
}

impl SubscriberName {
    /// Holds of every value of this type; recover it with
    /// `use_type_invariant`.
    #[verifier::type_invariant]
    pub open spec fn type_inv(self) -> bool {
        is_valid_name(self@)
    }
}

impl SubscriberName {
    /// Admits `s` exactly when it is a valid display name.
    pub fn parse(s: String) -> (r: Result<SubscriberName, String>)
        ensures
            r matches Ok(n) ==> n@ == s@ && is_valid_name(s@),
            r is Err <==> !is_valid_name(s@),
    {
        let len = s.as_str().unicode_len();
        if len == 0 || len > 256 {
            return Err(String::from_str("not a valid subscriber name"));
        }
        let mut i: usize = 0;
        while i < len
            invariant
                i <= len,
                len == s@.len(),
                0 < len <= 256,
                forall|j: int| 0 <= j < i ==> !is_control_char(#[trigger] s@[j]),
            decreases len - i,
        {
            let c = s.as_str().get_char(i);
            if (c as u32) < 32 || (127 <= (c as u32) && (c as u32) <= 159) {
                return Err(String::from_str("not a valid subscriber name"));
            }
            i = i + 1;
        }
        Ok(SubscriberName { name: s })
    }

    /// The name as a string slice.
    pub fn as_str(&self) -> (r: &str)
        ensures
            r@ == self@,
    {
        self.name.as_str()
    }

    /// Gives the validated string back.
    pub fn into_string(self) -> (r: String)
        ensures
            r@ == self@,
    {
        self.name
    }

}

} // verus!
