//! Field-format validation: pure predicates over usernames, passwords,
//! email addresses, phone numbers and bios, each checked against an exact
//! character-class specification.

use vstd::prelude::*;
use vstd::string::StrSliceExecFns;

verus! {

pub open spec fn is_lower_alpha(c: char) -> bool {
    'a' <= c && c <= 'z'
}

pub open spec fn is_upper_alpha(c: char) -> bool {
    'A' <= c && c <= 'Z'
}

pub open spec fn is_digit_char(c: char) -> bool {
    '0' <= c && c <= '9'
}

pub open spec fn is_alnum_char(c: char) -> bool {
    is_lower_alpha(c) || is_upper_alpha(c) || is_digit_char(c)
}

/// Characters allowed in the local part of an email address.
pub open spec fn is_email_local_char(c: char) -> bool {
    is_alnum_char(c) || c == '.' || c == '_' || c == '%' || c == '+' || c == '-'
}

/// Characters allowed in the domain part of an email address, before the
/// final dot.
pub open spec fn is_email_domain_char(c: char) -> bool {
    is_alnum_char(c) || c == '.' || c == '-'
}

pub open spec fn is_alpha_char(c: char) -> bool {
    is_lower_alpha(c) || is_upper_alpha(c)
}

/// A valid username: 8 to 16 alphanumeric characters.
pub open spec fn spec_valid_username(s: Seq<char>) -> bool {
    &&& 8 <= s.len() <= 16
    &&& forall|i: int| 0 <= i < s.len() ==> is_alnum_char(#[trigger] s[i])
}

/// A valid password: 12 to 64 characters with at least one lowercase letter,
/// one uppercase letter, one digit and one character outside those classes.
pub open spec fn spec_valid_password(s: Seq<char>) -> bool {
    &&& 12 <= s.len() <= 64
    &&& exists|i: int| 0 <= i < s.len() && is_lower_alpha(#[trigger] s[i])
    &&& exists|i: int| 0 <= i < s.len() && is_upper_alpha(#[trigger] s[i])
    &&& exists|i: int| 0 <= i < s.len() && is_digit_char(#[trigger] s[i])
    &&& exists|i: int| 0 <= i < s.len() && !is_alnum_char(#[trigger] s[i])
}

/// A witness for email validity at positions `at` and `dot`: a nonempty
/// local part, an `@`, a nonempty domain part, a dot, and a top-level label
/// of at least two letters.
pub open spec fn email_witness(s: Seq<char>, at: int, dot: int) -> bool {
    &&& 1 <= at
    &&& at + 2 <= dot
    &&& dot + 3 <= s.len()
    &&& s[at] == '@'
    &&& s[dot] == '.'
    &&& (forall|k: int| 0 <= k < at ==> is_email_local_char(#[trigger] s[k]))
    &&& (forall|k: int| at < k < dot ==> is_email_domain_char(#[trigger] s[k]))
    &&& (forall|k: int| dot < k < s.len() ==> is_alpha_char(#[trigger] s[k]))
}

/// A valid email address: some split into local part, domain part and
/// top-level label witnesses the shape.
pub open spec fn spec_valid_email(s: Seq<char>) -> bool {
    exists|at: int, dot: int| #[trigger] email_witness(s, at, dot)
}

/// A valid phone number: an optional leading `+` followed by 7 to 15 digits.
pub open spec fn spec_valid_phone(s: Seq<char>) -> bool {
    ||| {
        &&& 7 <= s.len() <= 15
        &&& forall|i: int| 0 <= i < s.len() ==> is_digit_char(#[trigger] s[i])
    }
    ||| {
        &&& 8 <= s.len() <= 16
        &&& s[0] == '+'
        &&& forall|i: int| 1 <= i < s.len() ==> is_digit_char(#[trigger] s[i])
    }
}

/// A valid bio: 1 to 500 characters.
pub open spec fn spec_valid_bio(s: Seq<char>) -> bool {
    1 <= s.len() <= 500
}

/// ASCII lowercasing of a single character; usernames are compared under
/// this folding.
pub open spec fn lower_char(c: char) -> char {
    if is_upper_alpha(c) {
        ((c as u32) + 32) as char
    } else {
        c
    }
}

pub open spec fn lower_seq(s: Seq<char>) -> Seq<char> {
    s.map_values(|c: char| lower_char(c))
}

/// Case-insensitive equality of two character sequences.
pub open spec fn eq_ignore_case(a: Seq<char>, b: Seq<char>) -> bool {
    lower_seq(a) == lower_seq(b)
}

fn char_is_alnum(c: char) -> (r: bool)
    ensures
        r == is_alnum_char(c),
{
    ('a' <= c && c <= 'z') || ('A' <= c && c <= 'Z') || ('0' <= c && c <= '9')
}

fn char_is_email_local(c: char) -> (r: bool)
    ensures
        r == is_email_local_char(c),
{
    char_is_alnum(c) || c == '.' || c == '_' || c == '%' || c == '+' || c == '-'
}

fn char_is_email_domain(c: char) -> (r: bool)
    ensures
        r == is_email_domain_char(c),
{
    char_is_alnum(c) || c == '.' || c == '-'
}

/// Whether two characters agree under ASCII case folding.
fn chars_eq_ignore_case(a: char, b: char) -> (r: bool)
    ensures
        r == (lower_char(a) == lower_char(b)),
{
    let la: u32 = if 'A' <= a && a <= 'Z' {
        (a as u32) + 32
    } else {
        a as u32
    };
    let lb: u32 = if 'A' <= b && b <= 'Z' {
        (b as u32) + 32
    } else {
        b as u32
    };
    la == lb
}

/// Exact string comparison, character by character.
pub fn str_eq(a: &str, b: &str) -> (r: bool)
    ensures
        r == (a@ == b@),
{
    let alen = a.unicode_len();
    let blen = b.unicode_len();
    if alen != blen {
        return false;
    }
    let mut i: usize = 0;
    while i < alen
        invariant
            i <= alen,
            alen == a@.len(),
            alen == b@.len(),
            forall|j: int| 0 <= j < i ==> a@[j] == b@[j],
        decreases alen - i,
    {
        if a.get_char(i) != b.get_char(i) {
            return false;
        }
        i = i + 1;
    }
    assert(a@ =~= b@);
    true
}

/// Case-insensitive string comparison, folding ASCII letters.
pub fn str_eq_ignore_case(a: &str, b: &str) -> (r: bool)
    ensures
        r == eq_ignore_case(a@, b@),
{
    let alen = a.unicode_len();
    let blen = b.unicode_len();
    if alen != blen {
        assert(lower_seq(a@).len() == a@.len());
        assert(lower_seq(b@).len() == b@.len());
        return false;
    }
    let mut i: usize = 0;
    while i < alen
        invariant
            i <= alen,
            alen == a@.len(),
            alen == b@.len(),
            forall|j: int| 0 <= j < i ==> lower_char(a@[j]) == lower_char(b@[j]),
        decreases alen - i,
    {
        if !chars_eq_ignore_case(a.get_char(i), b.get_char(i)) {
            assert(lower_seq(a@)[i as int] != lower_seq(b@)[i as int]);
            return false;
        }
        i = i + 1;
    }
    assert(lower_seq(a@) =~= lower_seq(b@));
    true
}

/// A username is 8 to 16 alphanumeric characters.
pub fn validate_username(username: String) -> (r: bool)
    ensures
        r == spec_valid_username(username@),
{
    validate_existing_username(username.as_str())
}

/// Shared body of the username checks: length and character class.
pub fn validate_existing_username(username: &str) -> (r: bool)
    ensures
        r == spec_valid_username(username@),
{
    let len = username.unicode_len();
    if len < 8 || len > 16 {
        return false;
    }
    let mut i: usize = 0;
    while i < len
        invariant
            i <= len,
            len == username@.len(),
            forall|j: int| 0 <= j < i ==> is_alnum_char(#[trigger] username@[j]),
        decreases len - i,
    {
        if !char_is_alnum(username.get_char(i)) {
            return false;
        }
        i = i + 1;
    }
    true
}

/// A password is 12 to 64 characters and mixes the four character classes.
pub fn validate_password(password: String) -> (r: bool)
    ensures
        r == spec_valid_password(password@),
{
    let s = password.as_str();
    let len = s.unicode_len();
    if len < 12 || len > 64 {
        return false;
    }
    let mut has_lower = false;
    let mut has_upper = false;
    let mut has_digit = false;
    let mut has_special = false;
    let mut i: usize = 0;
    while i < len
        invariant
            i <= len,
            len == s@.len(),
            has_lower == exists|j: int| 0 <= j < i && is_lower_alpha(#[trigger] s@[j]),
            has_upper == exists|j: int| 0 <= j < i && is_upper_alpha(#[trigger] s@[j]),
            has_digit == exists|j: int| 0 <= j < i && is_digit_char(#[trigger] s@[j]),
            has_special == exists|j: int| 0 <= j < i && !is_alnum_char(#[trigger] s@[j]),
        decreases len - i,
    {
        let c = s.get_char(i);
        if 'a' <= c && c <= 'z' {
            has_lower = true;
        } else if 'A' <= c && c <= 'Z' {
            has_upper = true;
        } else if '0' <= c && c <= '9' {
            has_digit = true;
        } else {
            has_special = true;
        }
        i = i + 1;
    }
    has_lower && has_upper && has_digit && has_special
}

/// An email address matches the local `@` domain `.` top-level shape.
pub fn validate_email(email: String) -> (r: bool)
    ensures
        r == spec_valid_email(email@),
{
    let s = email.as_str();
    let len = s.unicode_len();

    // Find the first '@'; a witness position must be it, because the local
    // class excludes '@'.
    let mut at: usize = 0;
    let mut found_at = false;
    let mut i: usize = 0;
    while i < len
        invariant
            i <= len,
            len == s@.len(),
            !found_at ==> forall|j: int| 0 <= j < i ==> s@[j] != '@',
            found_at ==> {
                &&& at < i
                &&& s@[at as int] == '@'
                &&& forall|j: int| 0 <= j < at ==> s@[j] != '@'
            },
        decreases len - i,
    {
        if !found_at && s.get_char(i) == '@' {
            at = i;
            found_at = true;
        }
        i = i + 1;
    }
    if !found_at {
        assert(!spec_valid_email(s@)) by {
            assert forall|a: int, d: int| !(#[trigger] email_witness(s@, a, d)) by {
                if email_witness(s@, a, d) {
                    assert(0 <= a < s@.len());
                    assert(s@[a] != '@');
                }
            }
        }
        return false;
    }

    // Find the last '.' after the '@'; a witness position must be it,
    // because everything after a witness dot is alphabetic.
    let mut dot: usize = 0;
    let mut found_dot = false;
    let mut k: usize = at + 1;
    while k < len
        invariant
            at < k <= len,
            len == s@.len(),
            !found_dot ==> forall|j: int| at < j < k ==> s@[j] != '.',
            found_dot ==> {
                &&& at < dot < k
                &&& s@[dot as int] == '.'
                &&& forall|j: int| dot < j < k ==> s@[j] != '.'
            },
        decreases len - k,
    {
        if s.get_char(k) == '.' {
            dot = k;
            found_dot = true;
        }
        k = k + 1;
    }

    let ok = {
        if !found_dot {
            false
        } else if at < 1 || dot - at < 2 || len - dot < 3 {
            false
        } else {
            check_email_classes(s, at, dot, len)
        }
    };

    if ok {
        assert(email_witness(s@, at as int, dot as int));
        return true;
    }

    // No witness pair can differ from (at, dot): the local class excludes
    // '@' and the top-level class excludes '.'.
    assert(!spec_valid_email(s@)) by {
        assert forall|a: int, d: int| !(#[trigger] email_witness(s@, a, d)) by {
            if email_witness(s@, a, d) {
                assert(0 <= a < s@.len());
                if a < at {
                    assert(s@[a] != '@');
                } else if a > at {
                    assert(is_email_local_char(s@[at as int]));
                }
                assert(a == at);
                if found_dot {
                    if d < dot {
                        assert(is_alpha_char(s@[dot as int]));
                    } else if d > dot {
                        assert(s@[d] != '.');
                    }
                    assert(d == dot);
                } else {
                    assert(s@[d] != '.');
                }
            }
        }
    }
    false
}

fn check_email_classes(s: &str, at: usize, dot: usize, len: usize) -> (r: bool)
    requires
        len == s@.len(),
        1 <= at,
        at + 2 <= dot,
        dot + 3 <= len,
    ensures
        r == {
            &&& (forall|k: int| 0 <= k < at ==> is_email_local_char(#[trigger] s@[k]))
            &&& (forall|k: int| at < k < dot ==> is_email_domain_char(#[trigger] s@[k]))
            &&& (forall|k: int| dot < k < s@.len() ==> is_alpha_char(#[trigger] s@[k]))
        },
{
    let mut i: usize = 0;
    while i < at
        invariant
            i <= at,
            at < len == s@.len(),
            forall|k: int| 0 <= k < i ==> is_email_local_char(#[trigger] s@[k]),
        decreases at - i,
    {
        if !char_is_email_local(s.get_char(i)) {
            return false;
        }
        i = i + 1;
    }
    let mut j: usize = at + 1;
    while j < dot
        invariant
            at < j <= dot,
            dot < len == s@.len(),
            forall|k: int| at < k < j ==> is_email_domain_char(#[trigger] s@[k]),
        decreases dot - j,
    {
        if !char_is_email_domain(s.get_char(j)) {
            return false;
        }
        j = j + 1;
    }
    let mut m: usize = dot + 1;
    while m < len
        invariant
            dot < m <= len,
            len == s@.len(),
            forall|k: int| dot < k < m ==> is_alpha_char(#[trigger] s@[k]),
        decreases len - m,
    {
        let c = s.get_char(m);
        if !(('a' <= c && c <= 'z') || ('A' <= c && c <= 'Z')) {
            return false;
        }
        m = m + 1;
    }
    true
}

/// A phone number is an optional `+` followed by 7 to 15 digits.
pub fn validate_phone_number(phone_number: String) -> (r: bool)
    ensures
        r == spec_valid_phone(phone_number@),
{
    let s = phone_number.as_str();
    let len = s.unicode_len();
    if len == 0 {
        return false;
    }
    let plus = s.get_char(0) == '+';
    let start: usize = if plus {
        1
    } else {
        0
    };
    let digits = len - start;
    if digits < 7 || digits > 15 {
        return false;
    }
    let mut i: usize = start;
    while i < len
        invariant
            start <= i <= len,
            1 <= len == s@.len(),
            s@ == phone_number@,
            s@[0] == '+' ==> start == 1,
            forall|j: int| start <= j < i ==> is_digit_char(#[trigger] s@[j]),
        decreases len - i,
    {
        let c = s.get_char(i);
        if !('0' <= c && c <= '9') {
            proof {
                let ii = i as int;
                assert(!is_digit_char(s@[ii]));
                assert(!spec_valid_phone(s@)) by {
                    if spec_valid_phone(s@) {
                        if 7 <= s@.len() <= 15 && (forall|j: int|
                            0 <= j < s@.len() ==> is_digit_char(#[trigger] s@[j])) {
                            assert(is_digit_char(s@[ii]));
                        } else {
                            assert(s@[0] == '+');
                            assert(1 <= ii);
                            assert(is_digit_char(s@[ii]));
                        }
                    }
                }
            }
            return false;
        }
        i = i + 1;
    }
    true
}

/// A bio is 1 to 500 characters.
pub fn validate_bio(bio: &str) -> (r: bool)
    ensures
        r == spec_valid_bio(bio@),
{
    let len = bio.unicode_len();
    1 <= len && len <= 500
}

/// What the standard-alphabet base64 decoder returns for a string: bytes,
/// or nothing for an input that is not valid base64. A function of the
/// input alone.
pub uninterp spec fn base64_standard_decoded(s: Seq<char>) -> Option<Seq<u8>>;

/// Whether these bytes decode as an image in a supported format; a
/// function of the bytes alone.
pub uninterp spec fn decodes_as_image(bytes: Seq<u8>) -> bool;

/// Relies on base64's standard-alphabet engine: decoding is a pure
/// function of the input string.
#[verifier::external_body]
fn base64_decode_standard(s: &str) -> (r: Option<Vec<u8>>)
    ensures
        r matches Some(b) ==> base64_standard_decoded(s@) == Some(b@),
        r is None ==> base64_standard_decoded(s@) is None,
{
    base64::Engine::decode(&base64::prelude::BASE64_STANDARD, s).ok()
}

/// Relies on image::load_from_memory: whether a byte buffer parses as an
/// image is a pure function of the bytes.
#[verifier::external_body]
fn loads_as_image(bytes: &Vec<u8>) -> (r: bool)
    ensures
        r == decodes_as_image(bytes@),
{
    image::load_from_memory(bytes.as_slice()).is_ok()
}

/// The base64 payload of a picture value: everything after the first
/// comma (which ends a `data:` prefix), or the whole string without one.
pub open spec fn base64_payload(s: Seq<char>) -> Seq<char> {
    match s.index_of_first(',') {
        Some(k) => s.subrange(k + 1, s.len() as int),
        None => s,
    }
}

/// A valid profile picture: its base64 payload decodes, and the decoded
/// bytes parse as an image.
pub open spec fn spec_valid_profile_pic(s: Seq<char>) -> bool {
    match base64_standard_decoded(base64_payload(s)) {
        Some(b) => decodes_as_image(b),
        None => false,
    }
}

/// A profile picture is a `data:`-prefixed or bare base64 string whose
/// bytes load as an image.
pub fn validate_profile_pic(profile_pic: &str) -> (r: bool)
    ensures
        r == spec_valid_profile_pic(profile_pic@),
{
    let len = profile_pic.unicode_len();
    let mut comma: usize = 0;
    let mut found = false;
    let mut i: usize = 0;
    while i < len
        invariant
            i <= len,
            len == profile_pic@.len(),
            !found ==> forall|j: int| 0 <= j < i ==> profile_pic@[j] != ',',
            found ==> {
                &&& comma < i
                &&& profile_pic@[comma as int] == ','
                &&& forall|j: int| 0 <= j < comma ==> profile_pic@[j] != ','
            },
        decreases len - i,
    {
        if !found && profile_pic.get_char(i) == ',' {
            comma = i;
            found = true;
        }
        i = i + 1;
    }
    proof {
        profile_pic@.index_of_first_ensures(',');
        if found {
            match profile_pic@.index_of_first(',') {
                Some(k) => {
                    assert(profile_pic@[comma as int] == ',');
                    assert(k == comma);
                },
                None => {
                    assert(profile_pic@.contains(','));
                },
            }
        } else {
            if profile_pic@.contains(',') {
                let k = choose|k: int|
                    0 <= k < profile_pic@.len() && profile_pic@[k] == ',';
            }
        }
    }
    let payload: &str = if found {
        profile_pic.substring_char(comma + 1, len)
    } else {
        profile_pic
    };
    proof {
        assert(payload@ == base64_payload(profile_pic@));
    }
    match base64_decode_standard(payload) {
        Some(bytes) => loads_as_image(&bytes),
        None => false,
    }
}

} // verus!
