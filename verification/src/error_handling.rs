//! Username validation with a typed error for each way it can fail.
use vstd::prelude::*;
use vstd::string::{StrSliceExecFns, StringExecFns, StringSliceAdditionalSpecFns};

verus! {

/// Whether a character counts as alphanumeric under Unicode.
pub uninterp spec fn char_is_alphanumeric(c: char) -> bool;

/// Relies on char::is_alphanumeric: the result depends on the character
/// alone.
#[verifier::external_body]
fn is_alphanumeric_char(c: char) -> (r: bool)
    ensures
        r == char_is_alphanumeric(c),
{
    c.is_alphanumeric()
}

/// Ways a username can be rejected.
#[derive(Debug)]
pub enum ValidationError {
    /// Shorter than three bytes.
    TooShort,
    /// Longer than twenty bytes.
    TooLong,
    /// Holds a character that is neither alphanumeric nor an underscore.
    InvalidCharacter,
}

impl ValidationError {
    /// The user-facing message of this error.
    pub fn message(&self) -> (r: String)
        ensures
            self is TooShort ==> r@ == "用户名太短"@,
            self is TooLong ==> r@ == "用户名太长"@,
            self is InvalidCharacter ==> r@ == "用户名包含无效字符"@,
    {
        match self {
            ValidationError::TooShort => String::from_str("用户名太短"),
            ValidationError::TooLong => String::from_str("用户名太长"),
            ValidationError::InvalidCharacter => String::from_str("用户名包含无效字符"),
        }
    }

    /// The short technical description of this error.
    pub fn description(&self) -> (r: String)
        ensures
            self is TooShort ==> r@ == "用户名长度不足"@,
            self is TooLong ==> r@ == "用户名长度超过限制"@,
            self is InvalidCharacter ==> r@ == "用户名含有非法字符"@,
    {
        match self {
            ValidationError::TooShort => String::from_str("用户名长度不足"),
            ValidationError::TooLong => String::from_str("用户名长度超过限制"),
            ValidationError::InvalidCharacter => String::from_str("用户名含有非法字符"),
        }
    }
}

/// Every character is alphanumeric or an underscore.
pub open spec fn all_valid_username_chars(s: Seq<char>) -> bool {
    forall|i: int| 0 <= i < s.len() ==> char_is_alphanumeric(s[i]) || s[i] == '_'
}

/// Accepts a username of 3 to 20 bytes whose characters are alphanumeric or
/// underscores, returning it as an owned string; rejects anything else with
/// the first applicable error: length before content.
pub fn validate_username(username: &str) -> (r: Result<String, ValidationError>)
    ensures
        (username.spec_bytes().len() as usize) < 3 ==> (r matches Err(e) && e is TooShort),
        (username.spec_bytes().len() as usize) >= 3 && (username.spec_bytes().len() as usize) > 20
            ==> (r matches Err(e) && e is TooLong),
        3 <= (username.spec_bytes().len() as usize) <= 20 && !all_valid_username_chars(username@)
            ==> (r matches Err(e) && e is InvalidCharacter),
        3 <= (username.spec_bytes().len() as usize) <= 20 && all_valid_username_chars(username@)
            ==> (r matches Ok(s) && s@ == username@),
{
    if username.len() < 3 {
        return Err(ValidationError::TooShort);
    }
    if username.len() > 20 {
        return Err(ValidationError::TooLong);
    }
    let n = username.unicode_len();
    let mut i: usize = 0;
    while i < n
        invariant
            n == username@.len(),
            i <= n,
            3 <= (username.spec_bytes().len() as usize) <= 20,
            forall|j: int| 0 <= j < i ==> char_is_alphanumeric(username@[j]) || username@[j] == '_',
        decreases n - i,
    {
        let c = username.get_char(i);
        if !(is_alphanumeric_char(c) || c == '_') {
            proof {
                assert(!(char_is_alphanumeric(username@[i as int]) || username@[i as int] == '_'));
            }
            return Err(ValidationError::InvalidCharacter);
        }
        i += 1;
    }
    Ok(username.to_owned())
}

} // verus!
