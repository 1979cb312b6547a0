//! Structural validation of registration and login input: username and
//! password lengths, and a well-formed-email grammar
//! (`local@domain`, with RFC-style character sets and label rules).

use vstd::prelude::*;

use crate::domain::{CreateUser, FindUser};

verus! {

/// An ASCII letter or digit.
pub open spec fn alnum_char(c: char) -> bool {
    ('a' <= c && c <= 'z') || ('A' <= c && c <= 'Z') || ('0' <= c && c <= '9')
}

/// A character allowed in the local part of an email address.
pub open spec fn local_char(c: char) -> bool {
    alnum_char(c) || c == '.' || c == '!' || c == '#' || c == '$' || c == '%' || c == '&'
        || c == '\'' || c == '*' || c == '+' || c == '/' || c == '=' || c == '?' || c == '^'
        || c == '_' || c == '`' || c == '{' || c == '|' || c == '}' || c == '~' || c == '-'
}

/// A character allowed inside a domain label.
pub open spec fn label_char(c: char) -> bool {
    alnum_char(c) || c == '-'
}

/// A character allowed in the domain part: label characters and the dots
/// separating labels.
pub open spec fn domain_char(c: char) -> bool {
    label_char(c) || c == '.'
}

/// A valid local part: non-empty, at most 64 characters, all from the local
/// character set.
pub open spec fn valid_local(s: Seq<char>) -> bool {
    &&& 1 <= s.len() <= 64
    &&& forall|i: int| 0 <= i < s.len() ==> local_char(#[trigger] s[i])
}

/// A valid domain: non-empty, at most 255 characters, made of dot-separated
/// labels; labels are non-empty, use letters, digits and '-', and neither
/// start nor end with '-'.
pub open spec fn valid_domain(d: Seq<char>) -> bool {
    &&& 1 <= d.len() <= 255
    &&& forall|i: int| 0 <= i < d.len() ==> domain_char(#[trigger] d[i])
    &&& d[0] != '.' && d[0] != '-'
    &&& d[d.len() - 1] != '.' && d[d.len() - 1] != '-'
    &&& forall|i: int| 0 < i < d.len() && #[trigger] d[i] == '.' ==> d[i - 1] != '.' && d[i - 1]
        != '-'
    &&& forall|i: int| 0 < i < d.len() && #[trigger] d[i] == '-' ==> d[i - 1] != '.'
}

/// A well-formed email address: a valid local part, an '@', a valid domain.
pub open spec fn valid_email(s: Seq<char>) -> bool {
    exists|k: int|
        0 <= k < s.len() && #[trigger] s[k] == '@' && valid_local(s.take(k)) && valid_domain(
            s.skip(k + 1),
        )
}

/// A valid username: between 6 and 25 characters.
pub open spec fn valid_username(s: Seq<char>) -> bool {
    6 <= s.len() <= 25
}

/// A valid password: at least 6 characters.
pub open spec fn valid_password(s: Seq<char>) -> bool {
    6 <= s.len()
}

/// A registration request whose every field is well-formed.
pub open spec fn valid_create_user(u: CreateUser) -> bool {
    valid_username(u.username@) && valid_email(u.email@) && valid_password(u.password@)
}

/// A login request with both fields present (non-empty).
pub open spec fn login_present(input: FindUser) -> bool {
    input.username@.len() > 0 && input.password@.len() > 0
}

/// A well-formed email is at most 320 characters: 64 for the local part, one
/// for the '@', 255 for the domain.
pub proof fn lemma_email_max_len(s: Seq<char>)
    requires
        valid_email(s),
    ensures
        1 <= s.len() <= 320,
{
    let k = choose|k: int|
        0 <= k < s.len() && #[trigger] s[k] == '@' && valid_local(s.take(k)) && valid_domain(
            s.skip(k + 1),
        );
    assert(s.take(k).len() == k);
    assert(s.skip(k + 1).len() == s.len() - k - 1);
}

/// With the first '@' of `s` at position `at`, well-formedness of the whole
/// address is exactly well-formedness of the two parts around that '@'.
proof fn lemma_email_split_at(s: Seq<char>, at: int)
    requires
        0 <= at < s.len(),
        s[at] == '@',
        forall|k: int| 0 <= k < at ==> #[trigger] s[k] != '@',
    ensures
        valid_email(s) <==> (valid_local(s.take(at)) && valid_domain(s.skip(at + 1))),
{
    if valid_email(s) {
        let k = choose|k: int|
            0 <= k < s.len() && #[trigger] s[k] == '@' && valid_local(s.take(k)) && valid_domain(
                s.skip(k + 1),
            );
        if k > at {
            assert(s.take(k)[at] == '@');
            assert(!local_char('@'));
            assert(false);
        }
        assert(k == at);
    }
    if valid_local(s.take(at)) && valid_domain(s.skip(at + 1)) {
        assert(0 <= at < s.len() && s[at] == '@' && valid_local(s.take(at)) && valid_domain(
            s.skip(at + 1),
        ));
    }
}

/// Whether `c` may appear in the local part of an email address.
fn is_local_char(c: char) -> (r: bool)
    ensures
        r == local_char(c),
{
    ('a' <= c && c <= 'z') || ('A' <= c && c <= 'Z') || ('0' <= c && c <= '9') || c == '.' || c
        == '!' || c == '#' || c == '$' || c == '%' || c == '&' || c == '\'' || c == '*' || c == '+'
        || c == '/' || c == '=' || c == '?' || c == '^' || c == '_' || c == '`' || c == '{' || c
        == '|' || c == '}' || c == '~' || c == '-'
}

/// Whether `c` may appear in the domain part of an email address.
fn is_domain_char(c: char) -> (r: bool)
    ensures
        r == domain_char(c),
{
    ('a' <= c && c <= 'z') || ('A' <= c && c <= 'Z') || ('0' <= c && c <= '9') || c == '-' || c
        == '.'
}

/// Whether `s` is a well-formed email address.
#[verifier::loop_isolation(false)]
pub fn is_valid_email(s: &str) -> (r: bool)
    ensures
        r == valid_email(s@),
{
    let n = s.unicode_len();
    if n == 0 || n > 320 {
        proof {
            if valid_email(s@) {
                lemma_email_max_len(s@);
            }
        }
        return false;
    }
    // Find the first '@'.
    let mut found = false;
    let mut at: usize = 0;
    let mut i: usize = 0;
    while i < n
        invariant
            i <= n,
            n == s@.len(),
            !found ==> forall|k: int| 0 <= k < i ==> #[trigger] s@[k] != '@',
            found ==> at < i && s@[at as int] == '@' && forall|k: int|
                0 <= k < at ==> #[trigger] s@[k] != '@',
        decreases n - i,
    {
        if !found && s.get_char(i) == '@' {
            at = i;
            found = true;
        }
        i += 1;
    }
    if !found {
        return false;
    }
    proof {
        lemma_email_split_at(s@, at as int);
    }
    // Local part: s[0..at].
    if at < 1 || at > 64 {
        return false;
    }
    let mut j: usize = 0;
    while j < at
        invariant
            j <= at <= n,
            n == s@.len(),
            forall|m: int| 0 <= m < j ==> local_char(#[trigger] s@[m]),
        decreases at - j,
    {
        if !is_local_char(s.get_char(j)) {
            assert(s@.take(at as int)[j as int] == s@[j as int]);
            return false;
        }
        j += 1;
    }
    assert(valid_local(s@.take(at as int))) by {
        assert(forall|m: int|
            0 <= m < at ==> #[trigger] s@.take(at as int)[m] == s@[m] && local_char(s@[m]));
    }
    // Domain part: s[at + 1..n].
    let dstart = at + 1;
    if n - dstart < 1 || n - dstart > 255 {
        assert(s@.skip(dstart as int).len() == n - dstart);
        return false;
    }
    let ghost d = s@.skip(dstart as int);
    assert(d.len() == n - dstart);
    assert(forall|m: int| 0 <= m < d.len() ==> #[trigger] d[m] == s@[dstart + m]);
    let mut j: usize = dstart;
    while j < n
        invariant
            dstart <= j <= n,
            1 <= dstart <= n,
            n == s@.len(),
            d == s@.skip(dstart as int),
            d.len() == n - dstart,
            forall|m: int| 0 <= m < d.len() ==> #[trigger] d[m] == s@[dstart + m],
            forall|m: int| dstart <= m < j ==> domain_char(#[trigger] s@[m]),
            j > dstart ==> s@[dstart as int] != '.' && s@[dstart as int] != '-',
            forall|m: int| dstart < m < j && #[trigger] s@[m] == '.' ==> s@[m - 1] != '.' && s@[m
                - 1] != '-',
            forall|m: int| dstart < m < j && #[trigger] s@[m] == '-' ==> s@[m - 1] != '.',
        decreases n - j,
    {
        let c = s.get_char(j);
        if !is_domain_char(c) {
            assert(!domain_char(d[j - dstart]));
            return false;
        }
        if j == dstart && (c == '.' || c == '-') {
            assert(d[0] == c);
            return false;
        }
        if j > dstart {
            let p = s.get_char(j - 1);
            if c == '.' && (p == '.' || p == '-') {
                assert(d[j - dstart] == '.' && d[j - dstart - 1] == p);
                return false;
            }
            if c == '-' && p == '.' {
                assert(d[j - dstart] == '-' && d[j - dstart - 1] == '.');
                return false;
            }
        }
        j += 1;
    }
    let cl = s.get_char(n - 1);
    if cl == '.' || cl == '-' {
        assert(d[d.len() - 1] == cl);
        return false;
    }
    assert(valid_domain(d)) by {
        assert(d[0] == s@[dstart as int]);
        assert(d[d.len() - 1] == s@[n - 1]);
        assert(forall|i_: int|
            0 < i_ < d.len() && #[trigger] d[i_] == '.' ==> s@[dstart + i_] == '.' && d[i_ - 1]
                == s@[dstart + i_ - 1] && s@[dstart + i_ - 1] != '.' && s@[dstart + i_ - 1] != '-');
        assert(forall|i_: int|
            0 < i_ < d.len() && #[trigger] d[i_] == '-' ==> s@[dstart + i_] == '-' && d[i_ - 1]
                == s@[dstart + i_ - 1] && s@[dstart + i_ - 1] != '.');
    }
    true
}

/// Whether `s` has between `lo` and `hi` characters.
fn has_length_between(s: &str, lo: usize, hi: usize) -> (r: bool)
    ensures
        r == (lo <= s@.len() <= hi),
{
    let n = s.unicode_len();
    lo <= n && n <= hi
}

/// The reasons validation rejected each field of a request, reported all
/// together: `None` for a field that passed.
#[derive(Clone, Debug, PartialEq, Eq)]
pub struct FieldErrors {
    pub username: Option<String>,
    pub email: Option<String>,
    pub password: Option<String>,
}

/// `e` reports exactly the fields of `input` that are invalid, each under its
/// reason code.
pub open spec fn field_errors_for(input: CreateUser, e: FieldErrors) -> bool {
    &&& (e.username is Some) <==> !valid_username(input.username@)
    &&& (e.email is Some) <==> !valid_email(input.email@)
    &&& (e.password is Some) <==> !valid_password(input.password@)
    &&& (e.username matches Some(m) ==> m@ == "invalid length"@)
    &&& (e.email matches Some(m) ==> m@ == "invalid email"@)
    &&& (e.password matches Some(m) ==> m@ == "invalid length"@)
}

/// `e` reports exactly the fields of the login request that are empty.
pub open spec fn login_field_errors(input: FindUser, e: FieldErrors) -> bool {
    &&& (e.username is Some) <==> input.username@.len() == 0
    &&& e.email is None
    &&& (e.password is Some) <==> input.password@.len() == 0
    &&& (e.username matches Some(m) ==> m@ == "invalid length"@)
    &&& (e.password matches Some(m) ==> m@ == "invalid length"@)
}

impl CreateUser {
    /// Checks every field and reports all failures together.
    pub fn validate(&self) -> (r: Result<(), FieldErrors>)
        ensures
            r is Ok <==> valid_create_user(*self),
            r matches Err(e) ==> field_errors_for(*self, e),
    {
        let username_ok = has_length_between(self.username.as_str(), 6, 25);
        let email_ok = is_valid_email(self.email.as_str());
        let password_ok = 6 <= self.password.as_str().unicode_len();
        if username_ok && email_ok && password_ok {
            Ok(())
        } else {
            Err(
                FieldErrors {
                    username: if username_ok {
                        None
                    } else {
                        Some("invalid length".to_owned())
                    },
                    email: if email_ok {
                        None
                    } else {
                        Some("invalid email".to_owned())
                    },
                    password: if password_ok {
                        None
                    } else {
                        Some("invalid length".to_owned())
                    },
                },
            )
        }
    }
}

impl FindUser {
    /// The lighter login check: both fields must be present (non-empty).
    pub fn validate(&self) -> (r: Result<(), FieldErrors>)
        ensures
            r is Ok <==> login_present(*self),
            r matches Err(e) ==> login_field_errors(*self, e),
    {
        let username_ok = 1 <= self.username.as_str().unicode_len();
        let password_ok = 1 <= self.password.as_str().unicode_len();
        if username_ok && password_ok {
            Ok(())
        } else {
            Err(
                FieldErrors {
                    username: if username_ok {
                        None
                    } else {
                        Some("invalid length".to_owned())
                    },
                    email: None,
                    password: if password_ok {
                        None
                    } else {
                        Some("invalid length".to_owned())
                    },
                },
            )
        }
    }
}

} // verus!
