use vstd::prelude::*;
use vstd::utf8::encode_utf8;

verus! {

/// The password policy of the server configuration.
pub struct PasswordRequirements {
    pub minimum_size: usize,
    pub maximum_size: usize,
    pub forbidden_characters: String,
}

/// Length of a password as the policy measures it: its UTF-8 byte count.
pub open spec fn byte_len(s: Seq<char>) -> nat {
    encode_utf8(s).len()
}

/// No character of `forbidden` occurs in `password`.
pub open spec fn free_of(password: Seq<char>, forbidden: Seq<char>) -> bool {
    forall|i: int, j: int|
        0 <= i < password.len() && 0 <= j < forbidden.len() ==> password[i] != forbidden[j]
}

/// A password meets the policy when its length lies strictly between the two
/// bounds and it holds none of the forbidden characters.
pub open spec fn meets_policy(password: Seq<char>, min: nat, max: nat, forbidden: Seq<char>) -> bool {
    &&& min < byte_len(password)
    &&& byte_len(password) < max
    &&& free_of(password, forbidden)
}

impl PasswordRequirements {
    pub open spec fn accepts(&self, password: Seq<char>) -> bool {
        meets_policy(password, self.minimum_size as nat, self.maximum_size as nat, self.forbidden_characters@)
    }
}

fn holds_char(s: &str, c: char) -> (r: bool)
    ensures
        r == exists|i: int| 0 <= i < s@.len() && s@[i] == c,
{
    let n = s.unicode_len();
    let mut i: usize = 0;
    while i < n
        invariant
            n == s@.len(),
            i <= n,
            forall|k: int| 0 <= k < i ==> s@[k] != c,
        decreases n - i,
    {
        if s.get_char(i) == c {
            return true;
        }
        i = i + 1;
    }
    false
}

/// Checks a proposed password against the policy.
pub fn password_valid(password: &String, requirements: &PasswordRequirements) -> (r: bool)
    ensures
        r == requirements.accepts(password@),
{
    let pass = password.as_str();
    let pass_length = pass.as_bytes().len();
    if pass_length <= requirements.minimum_size || pass_length >= requirements.maximum_size {
        return false;
    }
    let forbidden = requirements.forbidden_characters.as_str();
    let n = forbidden.unicode_len();
    let mut j: usize = 0;
    while j < n
        invariant
            n == forbidden@.len(),
            forbidden@ == requirements.forbidden_characters@,
            pass@ == password@,
            requirements.minimum_size < byte_len(password@) < requirements.maximum_size,
            j <= n,
            forall|i: int, k: int|
                0 <= i < password@.len() && 0 <= k < j ==> password@[i] != forbidden@[k],
        decreases n - j,
    {
        let c = forbidden.get_char(j);
        if holds_char(pass, c) {
            return false;
        }
        j = j + 1;
    }
    true
}

} // verus!
