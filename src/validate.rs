use vstd::prelude::*;
use crate::model::{RegisterFormData, RegisterFormView};
use crate::text::chars_of;
use vstd::utf8::encode_utf8;

verus! {

pub const MIN_USERNAME_LEN: usize = 3;
pub const MAX_USERNAME_LEN: usize = 20;
pub const MIN_PASSWORD_LEN: usize = 8;

/// The first rule of a registration form that the input breaks.
#[derive(PartialEq, Eq, Structural, Clone, Copy, Debug)]
pub enum FormError {
    UsernameLength,
    UsernameWhitespace,
    PasswordTooShort,
    PasswordMismatch,
    InvalidEmail,
}

pub open spec fn form_error_message(e: FormError) -> Seq<char> {
    match e {
        FormError::UsernameLength => "Username must be between 3 and 20 characters long."@,
        FormError::UsernameWhitespace => "Username cannot contain spaces."@,
        FormError::PasswordTooShort => "Password must be at least 8 characters long."@,
        FormError::PasswordMismatch => "Password and confirmation do not match."@,
        FormError::InvalidEmail => "Invalid email format."@,
    }
}

impl FormError {
    /// The message shown to the user for this error.
    pub fn message(&self) -> (r: String)
        ensures
            r@ == form_error_message(*self),
    {
        match self {
            FormError::UsernameLength => String::from_str(
                "Username must be between 3 and 20 characters long.",
            ),
            FormError::UsernameWhitespace => String::from_str("Username cannot contain spaces."),
            FormError::PasswordTooShort => String::from_str(
                "Password must be at least 8 characters long.",
            ),
            FormError::PasswordMismatch => String::from_str(
                "Password and confirmation do not match.",
            ),
            FormError::InvalidEmail => String::from_str("Invalid email format."),
        }
    }
}

/// Unicode `White_Space`: the characters that `char::is_whitespace` accepts.
pub open spec fn is_white_space(c: char) -> bool {
    let u = c as u32;
    (0x9 <= u && u <= 0xd) || u == 0x20 || u == 0x85 || u == 0xa0 || u == 0x1680 || (0x2000 <= u
        && u <= 0x200a) || u == 0x2028 || u == 0x2029 || u == 0x202f || u == 0x205f || u == 0x3000
}

pub open spec fn is_ascii_alpha(c: char) -> bool {
    ('a' <= c && c <= 'z') || ('A' <= c && c <= 'Z')
}

/// What Unicode's `\w` holds of a character outside ASCII.
pub uninterp spec fn unicode_word_char(c: char) -> bool;

/// A word character, as Unicode's `\w` defines it: among ASCII characters the
/// letters, the digits and `_`.
pub open spec fn is_word_char(c: char) -> bool {
    if (c as u32) < 128 {
        is_ascii_alpha(c) || ('0' <= c && c <= '9') || c == '_'
    } else {
        unicode_word_char(c)
    }
}

/// Relies on regex_syntax::is_word_character: membership in Unicode's `\w`
/// (UTS#18 Annex C: Alphabetic, Mark, Decimal_Number, Connector_Punctuation,
/// Join_Control), which among ASCII characters holds of letters, digits and
/// `_` alone. It cannot panic with the `unicode-perl` feature, which is on.
#[verifier::external_body]
fn word_character(c: char) -> (r: bool)
    ensures
        (c as u32) < 128 ==> r == (is_ascii_alpha(c) || ('0' <= c && c <= '9') || c == '_'),
        (c as u32) >= 128 ==> r == unicode_word_char(c),
{
    regex_syntax::is_word_character(c)
}

/// A character that may stand in a domain label.
pub open spec fn is_label_char(c: char) -> bool {
    is_word_char(c) || c == '-'
}

/// A character that may stand in the local part, or in the domain before its last dot.
pub open spec fn is_local_char(c: char) -> bool {
    is_label_char(c) || c == '.'
}

/// `s` reads as `local@labels.tld`, with its `@` at `at` and its last dot at `dot`:
/// a non-empty local part of word characters, hyphens and dots; one or more
/// non-empty labels of word characters and hyphens, each followed by a dot; a
/// top-level label of at least two ASCII letters.
pub open spec fn email_parts(s: Seq<char>, at: int, dot: int) -> bool {
    &&& 0 < at
    &&& at + 1 < dot
    &&& dot + 2 < s.len()
    &&& s[at] == '@'
    &&& s[dot] == '.'
    &&& forall|k: int| 0 <= k < at ==> is_local_char(#[trigger] s[k])
    &&& s[at + 1] != '.'
    &&& forall|k: int| at < k <= dot ==> is_local_char(#[trigger] s[k])
    &&& forall|k: int| at < k < dot ==> (#[trigger] s[k] == '.' ==> s[k + 1] != '.')
    &&& forall|k: int| dot < k < s.len() ==> is_ascii_alpha(#[trigger] s[k])
}

pub open spec fn is_valid_email(s: Seq<char>) -> bool {
    exists|at: int, dot: int| email_parts(s, at, dot)
}

/// The length of a password in bytes of its UTF-8 encoding.
pub open spec fn password_byte_len(password: Seq<char>) -> nat {
    encode_utf8(password).len()
}

pub open spec fn has_white_space(s: Seq<char>) -> bool {
    exists|k: int| 0 <= k < s.len() && is_white_space(#[trigger] s[k])
}

/// The rules of a registration form, checked in a fixed order; the first one
/// broken is the result. The username is measured in characters, the password
/// in bytes.
pub open spec fn registration_check(f: RegisterFormView) -> Result<(), FormError> {
    if f.username.len() < MIN_USERNAME_LEN || f.username.len() > MAX_USERNAME_LEN {
        Err(FormError::UsernameLength)
    } else if has_white_space(f.username) {
        Err(FormError::UsernameWhitespace)
    } else if password_byte_len(f.password) < MIN_PASSWORD_LEN {
        Err(FormError::PasswordTooShort)
    } else if f.password != f.password_confirm {
        Err(FormError::PasswordMismatch)
    } else if !is_valid_email(f.email) {
        Err(FormError::InvalidEmail)
    } else {
        Ok(())
    }
}

pub fn white_space(c: char) -> (r: bool)
    ensures
        r == is_white_space(c),
{
    let u = c as u32;
    (0x9 <= u && u <= 0xd) || u == 0x20 || u == 0x85 || u == 0xa0 || u == 0x1680 || (0x2000 <= u
        && u <= 0x200a) || u == 0x2028 || u == 0x2029 || u == 0x202f || u == 0x205f || u == 0x3000
}

pub fn contains_white_space(s: &str) -> (r: bool)
    ensures
        r == has_white_space(s@),
{
    let cs = chars_of(s);
    let mut i: usize = 0;
    while i < cs.len()
        invariant
            cs@ == s@,
            i <= cs@.len(),
            forall|k: int| 0 <= k < i ==> !is_white_space(#[trigger] s@[k]),
        decreases cs.len() - i,
    {
        if white_space(cs[i]) {
            return true;
        }
        i = i + 1;
    }
    false
}

fn local_char(c: char) -> (r: bool)
    ensures
        r == is_local_char(c),
{
    c == '-' || c == '.' || word_character(c)
}

fn ascii_alpha(c: char) -> (r: bool)
    ensures
        r == is_ascii_alpha(c),
{
    ('a' <= c && c <= 'z') || ('A' <= c && c <= 'Z')
}

/// Whether `email` has the shape `local@label.tld` (see `is_valid_email`).
pub fn valid_email(email: &str) -> (r: bool)
    ensures
        r == is_valid_email(email@),
{
    let cs = chars_of(email);
    let n = cs.len();
    let ghost s = email@;
    // the first '@'
    let mut at: usize = 0;
    while at < n && cs[at] != '@'
        invariant
            cs@ == s,
            s == email@,
            n == s.len(),
            at <= n,
            forall|k: int| 0 <= k < at ==> s[k] != '@',
        decreases n - at,
    {
        at = at + 1;
    }
    if at == n {
        assert forall|a: int, d: int| !email_parts(s, a, d) by {
            if email_parts(s, a, d) {
                assert(s[a] == '@');
            }
        }
        return false;
    }
    // the last '.'
    let mut end: usize = n;
    while end > 0 && cs[end - 1] != '.'
        invariant
            cs@ == s,
            s == email@,
            n == s.len(),
            end <= n,
            forall|k: int| end <= k < n ==> s[k] != '.',
        decreases end,
    {
        end = end - 1;
    }
    if end == 0 {
        assert forall|a: int, d: int| !email_parts(s, a, d) by {
            if email_parts(s, a, d) {
                assert(s[d] == '.');
            }
        }
        return false;
    }
    let dot = end - 1;
    // any split has its '@' first and its last dot last
    assert forall|a: int, d: int| email_parts(s, a, d) implies a == at && d == dot by {
        if a < at {
            assert(s[a] != '@');
        }
        if a > at {
            assert(is_local_char(s[at as int]));
        }
        if d < dot {
            assert(is_ascii_alpha(s[dot as int]));
        }
        if d > dot {
            assert(s[d] != '.');
        }
    }
    assert(is_valid_email(s) == email_parts(s, at as int, dot as int)) by {
        if is_valid_email(s) {
            let (a, d) = choose|a: int, d: int| email_parts(s, a, d);
            assert(email_parts(s, a, d));
        }
    }
    if !(0 < at && at + 1 < dot && n - dot > 2) {
        return false;
    }
    if cs[at + 1] == '.' {
        return false;
    }
    let mut k: usize = 0;
    while k < at
        invariant
            cs@ == s,
            s == email@,
            n == s.len(),
            at < n,
            k <= at,
            is_valid_email(s) == email_parts(s, at as int, dot as int),
            forall|j: int| 0 <= j < k ==> is_local_char(#[trigger] s[j]),
        decreases at - k,
    {
        if !local_char(cs[k]) {
            assert(!email_parts(s, at as int, dot as int));
            return false;
        }
        k = k + 1;
    }
    let mut k: usize = at + 1;
    while k <= dot
        invariant
            cs@ == s,
            s == email@,
            n == s.len(),
            at < dot < n,
            at + 1 <= k <= dot + 1,
            is_valid_email(s) == email_parts(s, at as int, dot as int),
            forall|j: int| at < j < k ==> is_local_char(#[trigger] s[j]),
            forall|j: int| at < j < k && j < dot ==> (#[trigger] s[j] == '.' ==> s[j + 1] != '.'),
        decreases dot + 1 - k,
    {
        if !local_char(cs[k]) {
            assert(!email_parts(s, at as int, dot as int));
            return false;
        }
        if k < dot && cs[k] == '.' && cs[k + 1] == '.' {
            assert(!email_parts(s, at as int, dot as int));
            return false;
        }
        k = k + 1;
    }
    let mut k: usize = dot + 1;
    while k < n
        invariant
            cs@ == s,
            s == email@,
            n == s.len(),
            dot < k <= n,
            is_valid_email(s) == email_parts(s, at as int, dot as int),
            forall|j: int| dot < j < k ==> is_ascii_alpha(#[trigger] s[j]),
        decreases n - k,
    {
        if !ascii_alpha(cs[k]) {
            assert(!email_parts(s, at as int, dot as int));
            return false;
        }
        k = k + 1;
    }
    assert(email_parts(s, at as int, dot as int));
    true
}

/// Checks a registration form against its rules in their fixed order and
/// reports the first one broken.
pub fn validate_registration(form: &RegisterFormData) -> (r: Result<(), FormError>)
    ensures
        r == registration_check(form@),
{
    let ulen = form.username.as_str().unicode_len();
    if ulen < MIN_USERNAME_LEN || ulen > MAX_USERNAME_LEN {
        return Err(FormError::UsernameLength);
    }
    if contains_white_space(form.username.as_str()) {
        return Err(FormError::UsernameWhitespace);
    }
    if form.password.as_str().as_bytes().len() < MIN_PASSWORD_LEN {
        return Err(FormError::PasswordTooShort);
    }
    if form.password != form.password_confirm {
        return Err(FormError::PasswordMismatch);
    }
    if !valid_email(form.email.as_str()) {
        return Err(FormError::InvalidEmail);
    }
    Ok(())
}

} // verus!
