//! Input validation for registration and login: an email-address grammar,
//! display-name and password length rules, the fixed role set, and the
//! two-valued visibility flag.
use vstd::prelude::*;

use crate::errors::{ApiError, err_bad_request};
use crate::text::{norm_spec, normalize, str_eq, trim_spec, trim_str};

verus! {

pub open spec fn is_digit_char(c: char) -> bool {
    '0' <= c && c <= '9'
}

pub open spec fn is_letter_char(c: char) -> bool {
    ('a' <= c && c <= 'z') || ('A' <= c && c <= 'Z')
}

pub open spec fn is_alnum_char(c: char) -> bool {
    is_letter_char(c) || is_digit_char(c)
}

/// Characters allowed left of the separator in an email address.
pub open spec fn is_local_char(c: char) -> bool {
    is_alnum_char(c) || c == '.' || c == '_' || c == '%' || c == '+' || c == '-'
}

/// Characters allowed in the domain of an email address.
pub open spec fn is_domain_char(c: char) -> bool {
    is_alnum_char(c) || c == '-' || c == '.'
}

/// The address splits at position `k`: a non-empty local part of allowed
/// characters, one '@', and a domain of allowed characters that contains a
/// dot and neither starts nor ends with '.' or '-'.
pub open spec fn valid_email_at(s: Seq<char>, k: int) -> bool {
    &&& 1 <= k < s.len()
    &&& s[k] == '@'
    &&& forall|i: int| 0 <= i < k ==> is_local_char(#[trigger] s[i])
    &&& forall|i: int| k < i < s.len() ==> is_domain_char(#[trigger] s[i])
    &&& s[k + 1] != '.' && s[k + 1] != '-'
    &&& s[s.len() - 1] != '.' && s[s.len() - 1] != '-'
    &&& exists|d: int| k < d < s.len() && s[d] == '.'
}

pub open spec fn valid_email(s: Seq<char>) -> bool {
    exists|k: int| valid_email_at(s, k)
}

fn is_domain_char_exec(c: char) -> (b: bool)
    ensures
        b == is_domain_char(c),
{
    ('a' <= c && c <= 'z') || ('A' <= c && c <= 'Z') || ('0' <= c && c <= '9') || c == '-' || c
        == '.'
}

fn is_local_char_exec(c: char) -> (b: bool)
    ensures
        b == is_local_char(c),
{
    ('a' <= c && c <= 'z') || ('A' <= c && c <= 'Z') || ('0' <= c && c <= '9') || c == '.' || c
        == '_' || c == '%' || c == '+' || c == '-'
}

/// Decides the email grammar above.
pub fn is_valid_email(s: &str) -> (b: bool)
    ensures
        b == valid_email(s@),
{
    let n = s.unicode_len();
    let mut i: usize = 0;
    let mut at: usize = n;
    while i < n
        invariant
            0 <= i <= n,
            at <= n,
            n == s@.len(),
            at == n ==> forall|j: int| 0 <= j < i ==> s@[j] != '@',
            at < n ==> at < i && s@[at as int] == '@' && forall|j: int| 0 <= j < at ==> s@[j]
                != '@',
        decreases n - i,
    {
        if at == n && s.get_char(i) == '@' {
            at = i;
        }
        i = i + 1;
    }
    if at == n {
        proof {
            assert forall|k: int| !valid_email_at(s@, k) by {
                if 1 <= k < s@.len() {
                    assert(s@[k] != '@');
                }
            }
        }
        return false;
    }
    let k = at;
    let mut ok_domain = true;
    let mut has_dot = false;
    i = k + 1;
    while i < n
        invariant
            k < i <= n,
            k < n,
            n == s@.len(),
            ok_domain == forall|j: int| k < j < i ==> is_domain_char(#[trigger] s@[j]),
            has_dot == exists|d: int| k < d < i && s@[d] == '.',
        decreases n - i,
    {
        let c = s.get_char(i);
        let dc = is_domain_char_exec(c);
        let new_ok = ok_domain && dc;
        proof {
            if !new_ok {
                if !dc {
                    assert(!is_domain_char(s@[i as int]));
                }
            }
        }
        ok_domain = new_ok;
        if c == '.' {
            has_dot = true;
        }
        i = i + 1;
    }
    let mut ok_local = true;
    i = 0;
    while i < k
        invariant
            0 <= i <= k,
            k < n,
            n == s@.len(),
            ok_local == forall|j: int| 0 <= j < i ==> is_local_char(#[trigger] s@[j]),
        decreases k - i,
    {
        let c = s.get_char(i);
        let lc = is_local_char_exec(c);
        proof {
            if !lc {
                assert(!is_local_char(s@[i as int]));
            }
        }
        ok_local = ok_local && lc;
        i = i + 1;
    }
    let mut b = ok_local && ok_domain && has_dot && k >= 1 && k + 1 < n;
    if b {
        let c1 = s.get_char(k + 1);
        let cl = s.get_char(n - 1);
        b = c1 != '.' && c1 != '-' && cl != '.' && cl != '-';
    }
    proof {
        if b {
            assert(valid_email_at(s@, k as int));
        } else {
            assert forall|k2: int| !valid_email_at(s@, k2) by {
                if valid_email_at(s@, k2) {
                    if k2 > k as int {
                        assert(is_local_char(s@[k as int]));
                        assert(false);
                    }
                    if k2 < k as int {
                        assert(s@[k2] == '@');
                        assert(false);
                    }
                    assert(k2 == k as int);
                    if k + 1 >= n {
                        let d = choose|d: int| k2 < d < s@.len() && s@[d] == '.';
                        assert(false);
                    }
                }
            }
        }
    }
    b
}

/// The fixed set of account roles.
pub open spec fn valid_role(r: Seq<char>) -> bool {
    r == "cliente"@ || r == "colaborador"@
}

pub fn is_valid_role(r: &str) -> (b: bool)
    ensures
        b == valid_role(r@),
{
    str_eq(r, "cliente") || str_eq(r, "colaborador")
}

/// The two-valued visibility flag of a file object.
pub open spec fn valid_visibility(v: Seq<char>) -> bool {
    v == "public"@ || v == "private"@
}

/// All the rules a registration request must meet, stated over the
/// normalized fields.
pub open spec fn register_input_valid(
    name: Seq<char>,
    email: Seq<char>,
    password: Seq<char>,
    role: Seq<char>,
) -> bool {
    &&& trim_spec(name).len() >= 2
    &&& valid_email(norm_spec(email))
    &&& password.len() >= 6
    &&& valid_role(trim_spec(role))
}

/// All the rules a login request must meet.
pub open spec fn login_input_valid(email: Seq<char>, password: Seq<char>) -> bool {
    &&& valid_email(norm_spec(email))
    &&& password.len() >= 6
}

pub struct RegisterDto {
    pub name: String,
    pub email: String,
    pub password: String,
    pub role: String,
}

pub struct LoginDto {
    pub email: String,
    pub password: String,
}

/// Normalizes a registration request and checks each rule, failing on the
/// first violated one. On success the returned request carries the trimmed
/// name and role and the normalized email.
pub fn validate_register(dto: &RegisterDto) -> (r: Result<RegisterDto, ApiError>)
    ensures
        r.is_ok() == register_input_valid(dto.name@, dto.email@, dto.password@, dto.role@),
        r matches Ok(d) ==> d.name@ == trim_spec(dto.name@) && d.email@ == norm_spec(dto.email@)
            && d.password@ == dto.password@ && d.role@ == trim_spec(dto.role@),
        trim_spec(dto.name@).len() < 2 ==> err_bad_request(r, "name too short"@),
        trim_spec(dto.name@).len() >= 2 && !valid_email(norm_spec(dto.email@)) ==> err_bad_request(
            r,
            "invalid email"@,
        ),
        trim_spec(dto.name@).len() >= 2 && valid_email(norm_spec(dto.email@))
            && dto.password@.len() < 6 ==> err_bad_request(r, "password too short"@),
        trim_spec(dto.name@).len() >= 2 && valid_email(norm_spec(dto.email@))
            && dto.password@.len() >= 6 && !valid_role(trim_spec(dto.role@)) ==> err_bad_request(
            r,
            "role must be 'cliente' or 'colaborador'"@,
        ),
{
    let name = trim_str(dto.name.as_str());
    if name.as_str().unicode_len() < 2 {
        return Err(ApiError::BadRequest(String::from_str("name too short")));
    }
    let email = normalize(dto.email.as_str());
    if !is_valid_email(email.as_str()) {
        return Err(ApiError::BadRequest(String::from_str("invalid email")));
    }
    if dto.password.as_str().unicode_len() < 6 {
        return Err(ApiError::BadRequest(String::from_str("password too short")));
    }
    let role = trim_str(dto.role.as_str());
    if !is_valid_role(role.as_str()) {
        return Err(
            ApiError::BadRequest(String::from_str("role must be 'cliente' or 'colaborador'")),
        );
    }
    Ok(RegisterDto { name, email, password: dto.password.clone(), role })
}

/// Normalizes a login request and checks each rule.
pub fn validate_login(dto: &LoginDto) -> (r: Result<LoginDto, ApiError>)
    ensures
        r.is_ok() == login_input_valid(dto.email@, dto.password@),
        r matches Ok(d) ==> d.email@ == norm_spec(dto.email@) && d.password@ == dto.password@,
        !valid_email(norm_spec(dto.email@)) ==> err_bad_request(r, "invalid email"@),
        valid_email(norm_spec(dto.email@)) && dto.password@.len() < 6 ==> err_bad_request(
            r,
            "password too short"@,
        ),
{
    let email = normalize(dto.email.as_str());
    if !is_valid_email(email.as_str()) {
        return Err(ApiError::BadRequest(String::from_str("invalid email")));
    }
    if dto.password.as_str().unicode_len() < 6 {
        return Err(ApiError::BadRequest(String::from_str("password too short")));
    }
    Ok(LoginDto { email, password: dto.password.clone() })
}

pub struct UpdateVisibilityDto {
    pub visibility: String,
}

/// Normalizes the requested visibility (trim + lowercase) and accepts only
/// the two legal values.
pub fn parse_visibility(v: &str) -> (r: Result<String, ApiError>)
    ensures
        r.is_ok() == valid_visibility(norm_spec(v@)),
        r matches Ok(o) ==> o@ == norm_spec(v@),
        !valid_visibility(norm_spec(v@)) ==> err_bad_request(r, "visibility must be public|private"@),
{
    let n = normalize(v);
    if str_eq(n.as_str(), "public") || str_eq(n.as_str(), "private") {
        Ok(n)
    } else {
        Err(ApiError::BadRequest(String::from_str("visibility must be public|private")))
    }
}

} // verus!
