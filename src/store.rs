//! Checks and small builders applied to values before they reach the
//! desktop store, and the account helpers (identifiers, password hashes).

use vstd::prelude::*;
use crate::text::{chars_eq, chars_of, push_chars, push_str, string_of};
use crate::wire::{generate_sql_placeholders, placeholders};

verus! {

/// An ASCII decimal digit.
pub open spec fn is_digit(c: char) -> bool {
    '0' <= c <= '9'
}

/// An ASCII hexadecimal digit, either case.
pub open spec fn is_hex(c: char) -> bool {
    is_digit(c) || ('a' <= c <= 'f') || ('A' <= c <= 'F')
}

/// An ASCII letter or digit.
pub open spec fn is_alnum(c: char) -> bool {
    is_digit(c) || ('a' <= c <= 'z') || ('A' <= c <= 'Z')
}

fn digit_at(s: &Vec<char>, i: usize) -> (r: bool)
    requires
        i < s@.len(),
    ensures
        r == is_digit(s@[i as int]),
{
    '0' <= s[i] && s[i] <= '9'
}

/// Where the dashes of a hyphenated UUID stand.
pub open spec fn uuid_dash_at(i: int) -> bool {
    i == 8 || i == 13 || i == 18 || i == 23
}

/// The hyphenated UUID form: 36 characters, 8-4-4-4-12 hexadecimal digits.
pub open spec fn uuid_form(s: Seq<char>) -> bool {
    s.len() == 36 && forall|i: int|
        0 <= i < 36 ==> if uuid_dash_at(i) {
            s[i] == '-'
        } else {
            is_hex(s[i])
        }
}

/// Whether a text is a hyphenated UUID.
pub fn is_valid_uuid(s: &str) -> (r: bool)
    ensures
        r == uuid_form(s@),
{
    let cs = chars_of(s);
    if cs.len() != 36 {
        return false;
    }
    let mut i: usize = 0;
    while i < 36
        invariant
            cs@ == s@,
            cs@.len() == 36,
            i <= 36,
            forall|j: int|
                0 <= j < i ==> if uuid_dash_at(j) {
                    cs@[j] == '-'
                } else {
                    is_hex(cs@[j])
                },
        decreases 36 - i,
    {
        let c = cs[i];
        if i == 8 || i == 13 || i == 18 || i == 23 {
            if c != '-' {
                return false;
            }
        } else if !(('0' <= c && c <= '9') || ('a' <= c && c <= 'f') || ('A' <= c && c <= 'F')) {
            return false;
        }
        i = i + 1;
    }
    true
}

/// A username: 3 to 50 characters, letters, digits, `_` or `-`.
pub open spec fn username_ok(s: Seq<char>) -> bool {
    3 <= s.len() <= 50 && forall|i: int|
        0 <= i < s.len() ==> is_alnum(s[i]) || s[i] == '_' || s[i] == '-'
}

/// Whether a text is an acceptable username.
pub fn is_valid_username(s: &str) -> (r: bool)
    ensures
        r == username_ok(s@),
{
    let cs = chars_of(s);
    if cs.len() < 3 || cs.len() > 50 {
        return false;
    }
    let mut i: usize = 0;
    while i < cs.len()
        invariant
            cs@ == s@,
            i <= cs@.len(),
            forall|j: int| 0 <= j < i ==> is_alnum(cs@[j]) || cs@[j] == '_' || cs@[j] == '-',
        decreases cs@.len() - i,
    {
        let c = cs[i];
        if !(('0' <= c && c <= '9') || ('a' <= c && c <= 'z') || ('A' <= c && c <= 'Z') || c
            == '_' || c == '-') {
            return false;
        }
        i = i + 1;
    }
    true
}

/// The roles an account may hold (case matters).
pub open spec fn role_ok(s: Seq<char>) -> bool {
    s == "admin"@ || s == "user"@ || s == "guest"@ || s == "moderator"@
}

/// Whether a text names a role.
pub fn is_valid_role(s: &str) -> (r: bool)
    ensures
        r == role_ok(s@),
{
    let cs = chars_of(s);
    chars_eq(&cs, "admin") || chars_eq(&cs, "user") || chars_eq(&cs, "guest") || chars_eq(
        &cs,
        "moderator",
    )
}

/// The label shown for a stored event status.
pub open spec fn status_label(s: Seq<char>) -> Seq<char> {
    if s == "actif"@ || s == "active"@ || s == "en_cours"@ {
        "En cours"@
    } else if s == "termine"@ || s == "finished"@ || s == "completed"@ {
        "Terminé"@
    } else if s == "annule"@ || s == "cancelled"@ {
        "Annulé"@
    } else if s == "planifie"@ || s == "planned"@ || s == "scheduled"@ {
        "Planifié"@
    } else {
        "Inconnu"@
    }
}

/// The label shown for an event status.
pub fn format_event_status(status: &str) -> (r: String)
    ensures
        r@ == status_label(status@),
{
    let cs = chars_of(status);
    if chars_eq(&cs, "actif") || chars_eq(&cs, "active") || chars_eq(&cs, "en_cours") {
        String::from_str("En cours")
    } else if chars_eq(&cs, "termine") || chars_eq(&cs, "finished") || chars_eq(&cs, "completed") {
        String::from_str("Terminé")
    } else if chars_eq(&cs, "annule") || chars_eq(&cs, "cancelled") {
        String::from_str("Annulé")
    } else if chars_eq(&cs, "planifie") || chars_eq(&cs, "planned") || chars_eq(&cs, "scheduled") {
        String::from_str("Planifié")
    } else {
        String::from_str("Inconnu")
    }
}

/// The value of two digit characters.
pub open spec fn two_digits(a: char, b: char) -> int {
    (a as int - '0' as int) * 10 + (b as int - '0' as int)
}

/// A date that starts `YYYY-MM-DD` with a month in 1..=12 and a day in 1..=31;
/// anything may follow (a time, for instance).
pub open spec fn date_ok(s: Seq<char>) -> bool {
    &&& s.len() >= 10
    &&& is_digit(s[0]) && is_digit(s[1]) && is_digit(s[2]) && is_digit(s[3])
    &&& s[4] == '-'
    &&& is_digit(s[5]) && is_digit(s[6])
    &&& s[7] == '-'
    &&& is_digit(s[8]) && is_digit(s[9])
    &&& 1 <= two_digits(s[5], s[6]) <= 12
    &&& 1 <= two_digits(s[8], s[9]) <= 31
}

fn two_digit_value(a: char, b: char) -> (r: u32)
    requires
        '0' <= a <= '9',
        '0' <= b <= '9',
    ensures
        r as int == two_digits(a, b),
{
    ((a as u32) - ('0' as u32)) * 10 + ((b as u32) - ('0' as u32))
}

/// Whether a text starts with a calendar date `YYYY-MM-DD`.
pub fn is_valid_date_format(s: &str) -> (r: bool)
    ensures
        r == date_ok(s@),
{
    let cs = chars_of(s);
    if cs.len() < 10 {
        return false;
    }
    if !(digit_at(&cs, 0) && digit_at(&cs, 1) && digit_at(&cs, 2) && digit_at(&cs, 3)
        && cs[4] == '-' && digit_at(&cs, 5) && digit_at(&cs, 6) && cs[7] == '-' && digit_at(
        &cs,
        8,
    ) && digit_at(&cs, 9)) {
        return false;
    }
    let month = two_digit_value(cs[5], cs[6]);
    let day = two_digit_value(cs[8], cs[9]);
    1 <= month && month <= 12 && 1 <= day && day <= 31
}

/// A password of 8 to 128 characters.
pub open spec fn password_length_ok(s: Seq<char>) -> bool {
    8 <= s.len() <= 128
}

/// Whether a password has an acceptable length.
pub fn is_valid_password_length(s: &str) -> (r: bool)
    ensures
        r == password_length_ok(s@),
{
    let n = s.unicode_len();
    8 <= n && n <= 128
}

/// `count` SQL placeholders separated by `", "`.
pub fn build_sql_placeholders(count: usize) -> (r: String)
    ensures
        r@ == placeholders(count as nat),
{
    generate_sql_placeholders(count)
}

/// `<column> IN (?, ..., ?)`.
pub open spec fn where_in_text(column: Seq<char>, n: nat) -> Seq<char> {
    column + " IN ("@ + placeholders(n) + ")"@
}

/// The `IN` clause matching a column against `count` values.
pub fn build_where_in_clause(column: &str, count: usize) -> (r: String)
    ensures
        r@ == where_in_text(column@, count as nat),
{
    let mut out = chars_of(column);
    push_str(&mut out, " IN (");
    let marks = chars_of(generate_sql_placeholders(count).as_str());
    push_chars(&mut out, &marks);
    push_str(&mut out, ")");
    proof {
        assert(out@ =~= where_in_text(column@, count as nat));
    }
    string_of(&out)
}

/// How many times `c` occurs in `s`.
pub open spec fn count_char(s: Seq<char>, c: char) -> nat
    decreases s.len(),
{
    if s.len() == 0 {
        0
    } else {
        count_char(s.drop_last(), c) + if s.last() == c { 1nat } else { 0nat }
    }
}

/// One `@` with text before it, and a domain after it that holds a dot.
pub open spec fn email_ok(s: Seq<char>) -> bool {
    count_char(s, '@') == 1 && exists|i: int|
        0 < i < s.len() - 1 && s[i] == '@' && exists|j: int| i < j < s.len() && s[j] == '.'
}

/// Whether a text looks like an email address.
pub fn is_valid_email(s: &str) -> (r: bool)
    ensures
        r == email_ok(s@),
{
    let cs = chars_of(s);
    let mut at_count: usize = 0;
    let mut at_pos: usize = 0;
    let mut i: usize = 0;
    while i < cs.len()
        invariant
            cs@ == s@,
            i <= cs@.len(),
            at_count as nat == count_char(cs@.subrange(0, i as int), '@'),
            at_count <= i,
            at_count >= 1 ==> at_pos < i && cs@[at_pos as int] == '@',
            at_count == 0 ==> forall|k: int| 0 <= k < i ==> cs@[k] != '@',
            at_count == 1 ==> forall|k: int| 0 <= k < i && cs@[k] == '@' ==> k == at_pos,
        decreases cs@.len() - i,
    {
        assert(cs@.subrange(0, i + 1).drop_last() =~= cs@.subrange(0, i as int));
        if cs[i] == '@' {
            at_count = at_count + 1;
            at_pos = i;
        }
        i = i + 1;
    }
    assert(cs@.subrange(0, cs@.len() as int) =~= cs@);
    if at_count != 1 {
        return false;
    }
    if at_pos == 0 || at_pos + 1 >= cs.len() {
        return false;
    }
    let mut j: usize = at_pos + 1;
    while j < cs.len()
        invariant
            cs@ == s@,
            at_pos < j <= cs@.len(),
            0 < at_pos,
            at_pos + 1 < cs@.len(),
            cs@[at_pos as int] == '@',
            count_char(cs@, '@') == 1,
            forall|k: int| 0 <= k < cs@.len() && cs@[k] == '@' ==> k == at_pos,
            forall|k: int| at_pos < k < j ==> cs@[k] != '.',
        decreases cs@.len() - j,
    {
        if cs[j] == '.' {
            assert(exists|jj: int| at_pos < jj < cs@.len() && cs@[jj] == '.') by {
                assert(at_pos < j < cs@.len() && cs@[j as int] == '.');
            }
            assert(0 < at_pos < cs@.len() - 1 && cs@[at_pos as int] == '@');
            return true;
        }
        j = j + 1;
    }
    false
}

/// Digits, with spaces, dashes, dots or a `+` between them; 10 to 15 digits.
pub open spec fn phone_ok(s: Seq<char>) -> bool {
    &&& forall|i: int|
        0 <= i < s.len() ==> is_digit(s[i]) || s[i] == ' ' || s[i] == '-' || s[i] == '.' || s[i]
            == '+'
    &&& 10 <= digit_count(s) <= 15
}

/// How many digits `s` holds.
pub open spec fn digit_count(s: Seq<char>) -> nat
    decreases s.len(),
{
    if s.len() == 0 {
        0
    } else {
        digit_count(s.drop_last()) + if is_digit(s.last()) { 1nat } else { 0nat }
    }
}

/// Whether a text looks like a phone number.
pub fn is_valid_phone_number(s: &str) -> (r: bool)
    ensures
        r == phone_ok(s@),
{
    let cs = chars_of(s);
    let mut digits: usize = 0;
    let mut i: usize = 0;
    while i < cs.len()
        invariant
            cs@ == s@,
            i <= cs@.len(),
            digits as nat == digit_count(cs@.subrange(0, i as int)),
            digits <= i,
            forall|k: int|
                0 <= k < i ==> is_digit(cs@[k]) || cs@[k] == ' ' || cs@[k] == '-' || cs@[k] == '.'
                    || cs@[k] == '+',
        decreases cs@.len() - i,
    {
        assert(cs@.subrange(0, i + 1).drop_last() =~= cs@.subrange(0, i as int));
        let c = cs[i];
        if '0' <= c && c <= '9' {
            digits = digits + 1;
        } else if !(c == ' ' || c == '-' || c == '.' || c == '+') {
            return false;
        }
        i = i + 1;
    }
    assert(cs@.subrange(0, cs@.len() as int) =~= cs@);
    10 <= digits && digits <= 15
}

/// A text with each `'` doubled and each `\` doubled.
pub open spec fn sanitized(s: Seq<char>) -> Seq<char>
    decreases s.len(),
{
    if s.len() == 0 {
        Seq::empty()
    } else {
        sanitized(s.drop_last()) + if s.last() == '\'' {
            seq!['\'', '\'']
        } else if s.last() == '\\' {
            seq!['\\', '\\']
        } else {
            seq![s.last()]
        }
    }
}

/// Escapes quotes and backslashes for a SQL text literal.
pub fn sanitize_string(s: &str) -> (r: String)
    ensures
        r@ == sanitized(s@),
{
    let cs = chars_of(s);
    let mut out: Vec<char> = Vec::new();
    let mut i: usize = 0;
    while i < cs.len()
        invariant
            cs@ == s@,
            i <= cs@.len(),
            out@ == sanitized(cs@.subrange(0, i as int)),
        decreases cs@.len() - i,
    {
        assert(cs@.subrange(0, i + 1).drop_last() =~= cs@.subrange(0, i as int));
        let c = cs[i];
        if c == '\'' {
            out.push('\'');
            out.push('\'');
        } else if c == '\\' {
            out.push('\\');
            out.push('\\');
        } else {
            out.push(c);
        }
        i = i + 1;
        assert(out@ =~= sanitized(cs@.subrange(0, i as int)));
    }
    assert(cs@.subrange(0, cs@.len() as int) =~= cs@);
    string_of(&out)
}

/// The text itself when it fits in `max` characters; otherwise its first
/// `max - 3` characters (none when `max < 3`) followed by `...`.
pub open spec fn truncated(s: Seq<char>, max: nat) -> Seq<char> {
    if s.len() <= max {
        s
    } else {
        s.subrange(0, if max >= 3 { max - 3 } else { 0 }) + "..."@
    }
}

/// Shortens a text to `max` characters, marking the cut with `...`.
pub fn truncate_string(s: &str, max: usize) -> (r: String)
    ensures
        r@ == truncated(s@, max as nat),
{
    let cs = chars_of(s);
    if cs.len() <= max {
        return string_of(&cs);
    }
    let keep: usize = if max >= 3 { max - 3 } else { 0 };
    let mut out: Vec<char> = Vec::new();
    let mut i: usize = 0;
    while i < keep
        invariant
            cs@ == s@,
            keep < cs@.len(),
            i <= keep,
            out@ == cs@.subrange(0, i as int),
        decreases keep - i,
    {
        out.push(cs[i]);
        i = i + 1;
        assert(out@ =~= cs@.subrange(0, i as int));
    }
    push_str(&mut out, "...");
    string_of(&out)
}

/// Relies on `uuid::Uuid::new_v4` and its `Display` (lower-case hyphenated
/// form): a random identifier, 8-4-4-4-12 hexadecimal digits.
#[verifier::external_body]
pub fn generate_uuid() -> (r: String)
    ensures
        uuid_form(r@),
{
    uuid::Uuid::new_v4().to_string()
}

/// Whether a password matches a bcrypt hash; `None` when the hash cannot be read.
pub uninterp spec fn bcrypt_match_of(password: Seq<char>, hash: Seq<char>) -> Option<bool>;

/// Relies on `bcrypt::hash` with `bcrypt::DEFAULT_COST`: a salted hash of the
/// password in the `$2b$12$<salt><hash>` form (60 characters), or the
/// library's error text. `bcrypt::verify` accepts the password against the
/// hash it produced.
#[verifier::external_body]
fn bcrypt_hash(password: &str) -> (r: Result<String, String>)
    ensures
        r matches Ok(h) ==> h@.len() == 60 && bcrypt_match_of(password@, h@) == Some(true),
{
    bcrypt::hash(password, bcrypt::DEFAULT_COST).map_err(|e| e.to_string())
}


/// Relies on `bcrypt::verify`: whether the password matches the hash, or the
/// library's error text when the hash cannot be read. The answer depends on
/// the two texts alone.
#[verifier::external_body]
fn bcrypt_verify(password: &str, hash: &str) -> (r: Result<bool, String>)
    ensures
        match r {
            Ok(b) => bcrypt_match_of(password@, hash@) == Some(b),
            Err(_) => bcrypt_match_of(password@, hash@) is None,
        },
{
    bcrypt::verify(password, hash).map_err(|e| e.to_string())
}

/// A salted hash of a password.
pub fn hash_password(password: &str) -> (r: Result<String, String>)
    ensures
        r matches Ok(h) ==> h@.len() == 60 && bcrypt_match_of(password@, h@) == Some(true),
{
    bcrypt_hash(password)
}

/// Whether a password matches a stored hash; a hash that cannot be read
/// matches nothing.
pub fn verify_password(password: &str, hash: &str) -> (r: bool)
    ensures
        r == (bcrypt_match_of(password@, hash@) == Some(true)),
{
    match bcrypt_verify(password, hash) {
        Ok(ok) => ok,
        Err(_) => false,
    }
}

} // verus!
