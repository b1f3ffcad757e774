//! Signed tokens: what goes into the tokens that the service hands out, and
//! when a token that comes back is accepted. Signing and checking the
//! signature are left to the `jwt` crate.

use crate::auth::ErrorResponse;
use crate::text::{
    chars_of, concat2, decimal, digit_char, opt_str_text, opt_text, pair_texts, push_decimal,
    push_signed_decimal, same_text, signed_decimal, string_of,
};
use hmac::{Hmac, Mac};
use jwt::{SignWithKey, VerifyWithKey};
use sha2::Sha256;
use std::collections::BTreeMap;
use vstd::prelude::*;

verus! {

/// How long a verification token is valid, in seconds.
pub const VERIFICATION_TOKEN_SECONDS: u64 = 600;

/// How long an access token is valid, in seconds: fifteen minutes.
pub const ACCESS_TOKEN_SECONDS: i64 = 900;

/// How long a refresh token is valid, in seconds: 180 days.
pub const REFRESH_TOKEN_SECONDS: i64 = 15552000;

/// The token that the `jwt` crate makes of `claims` with an HMAC-SHA256 key
/// made of `secret`, or `None` where it makes none. Where a key stands
/// twice in `claims`, the later entry counts.
pub uninterp spec fn hs256_signed(secret: Seq<char>, claims: Seq<(Seq<char>, Seq<char>)>)
    -> Option<Seq<char>>;

/// What the `jwt` crate finds in `token` when it checks it against an
/// HMAC-SHA256 key made of `secret`: the claims, in the order of their
/// keys; or why there are none: `Err(None)` where the key is refused,
/// `Err(Some(..))` with the words of the crate where the token is.
pub uninterp spec fn hs256_verified(secret: Seq<char>, token: Seq<char>) -> Result<
    Seq<(Seq<char>, Seq<char>)>,
    Option<Seq<char>>,
>;

/// `Hmac::<Sha256>::new_from_slice` of the `hmac` crate on the bytes of
/// `secret`, and `SignWithKey::sign_with_key` of the `jwt` crate on the
/// claims as a map. The contract only names the result: the same secret
/// and claims give the same token.
#[verifier::external_body]
fn jwt_sign(secret: &str, claims: &Vec<(String, String)>) -> (r: Option<String>)
    ensures
        opt_text(r) == hs256_signed(secret@, pair_texts(claims@)),
{
    let key: Hmac<Sha256> = Hmac::new_from_slice(secret.as_bytes()).ok()?;
    let map: BTreeMap<String, String> = claims.iter().cloned().collect();
    map.sign_with_key(&key).ok()
}

/// The claims of a checked token, or why there are none, over plain
/// sequences.
pub open spec fn verification_view(r: Result<Vec<(String, String)>, Option<String>>) -> Result<
    Seq<(Seq<char>, Seq<char>)>,
    Option<Seq<char>>,
> {
    match r {
        Ok(claims) => Ok(pair_texts(claims@)),
        Err(reason) => Err(opt_text(reason)),
    }
}

/// `Hmac::<Sha256>::new_from_slice` of the `hmac` crate on the bytes of
/// `secret`, and `VerifyWithKey::verify_with_key` of the `jwt` crate on
/// `token`, with the claims read as a map of strings. The contract only
/// names the result.
#[verifier::external_body]
fn jwt_verify(secret: &str, token: &str) -> (r: Result<Vec<(String, String)>, Option<String>>)
    ensures
        verification_view(r) == hs256_verified(secret@, token@),
{
    let key: Hmac<Sha256> = match Hmac::new_from_slice(secret.as_bytes()) {
        Ok(k) => k,
        Err(_) => return Err(None),
    };
    let claims: Result<BTreeMap<String, String>, jwt::Error> = token.verify_with_key(&key);
    match claims {
        Ok(map) => Ok(map.into_iter().collect()),
        Err(e) => Err(Some(e.to_string())),
    }
}

/// The claims of a verification token for `email` that ends at `expiry`.
pub open spec fn verification_claims(email: Seq<char>, expiry: nat) -> Seq<
    (Seq<char>, Seq<char>),
> {
    seq![("data"@, email), ("exp"@, decimal(expiry))]
}

/// The verification token for `email`, made at `now` seconds since the
/// epoch with `secret`: it carries the address and the time at which it
/// ends, ten minutes later. There is none without a secret, for a time so
/// late that its end cannot be counted, or where signing fails.
pub open spec fn verification_token(email: Seq<char>, secret: Option<Seq<char>>, now: u64)
    -> Option<Seq<char>> {
    match secret {
        Some(s) => if now + 600 <= u64::MAX {
            hs256_signed(s, verification_claims(email, (now + 600) as nat))
        } else {
            None
        },
        None => None,
    }
}

/// Makes the verification token for `email` at the time `now`.
pub fn create_token(email: &str, secret: Option<&str>, now: u64) -> (r: Option<String>)
    ensures
        opt_text(r) == verification_token(email@, opt_str_text(secret), now),
{
    let secret = match secret {
        Some(s) => s,
        None => {
            return None;
        },
    };
    if now > u64::MAX - VERIFICATION_TOKEN_SECONDS {
        return None;
    }
    let expiry: u64 = now + VERIFICATION_TOKEN_SECONDS;
    let mut digits: Vec<char> = Vec::new();
    push_decimal(&mut digits, expiry);
    assert(digits@ =~= decimal(expiry as nat));
    let mut claims: Vec<(String, String)> = Vec::new();
    claims.push(("data".to_owned(), email.to_owned()));
    claims.push(("exp".to_owned(), string_of(&digits)));
    assert(pair_texts(claims@) =~= verification_claims(email@, expiry as nat));
    jwt_sign(secret, &claims)
}

/// The value of the first claim of `claims` under `key`.
pub open spec fn claim(claims: Seq<(Seq<char>, Seq<char>)>, key: Seq<char>) -> Option<Seq<char>>
    decreases claims.len(),
{
    if claims.len() == 0 {
        None
    } else if claims[0].0 == key {
        Some(claims[0].1)
    } else {
        claim(claims.drop_first(), key)
    }
}

/// The value of the first claim under `key`.
pub fn find_claim(claims: &Vec<(String, String)>, key: &str) -> (r: Option<String>)
    ensures
        opt_text(r) == claim(pair_texts(claims@), key@),
{
    let ghost all = pair_texts(claims@);
    let mut i: usize = 0;
    assert(all.skip(0) =~= all);
    while i < claims.len()
        invariant
            i <= claims.len(),
            all == pair_texts(claims@),
            claim(all, key@) == claim(all.skip(i as int), key@),
        decreases claims.len() - i,
    {
        assert(all.skip(i as int)[0] == all[i as int]);
        assert(all.skip(i as int).drop_first() =~= all.skip(i + 1));
        if same_text(claims[i].0.as_str(), key) {
            return Some(claims[i].1.clone());
        }
        i += 1;
    }
    assert(all.skip(i as int).len() == 0);
    None
}

/// Whether `c` is a decimal digit.
pub open spec fn is_digit(c: char) -> bool {
    '0' <= c <= '9'
}

/// The number that the decimal digits `s` stand for.
pub open spec fn digits_value(s: Seq<char>) -> nat
    decreases s.len(),
{
    if s.len() == 0 {
        0
    } else {
        digits_value(s.drop_last()) * 10 + (s.last() as nat - '0' as nat) as nat
    }
}

/// Every character of `s` is a decimal digit.
pub open spec fn all_digits(s: Seq<char>) -> bool {
    forall|i: int| 0 <= i < s.len() ==> is_digit(#[trigger] s[i])
}

/// The number that `s` stands for as a signed decimal of 64 bits: an
/// optional `+` or `-`, then one digit or more and nothing else, and a
/// value that fits. `None` for every other text.
pub open spec fn parsed_i64(s: Seq<char>) -> Option<int> {
    if s.len() == 0 {
        None
    } else {
        let negative = s[0] == '-';
        let body = if s[0] == '-' || s[0] == '+' {
            s.drop_first()
        } else {
            s
        };
        if body.len() == 0 || !all_digits(body) {
            None
        } else {
            let value = if negative {
                -(digits_value(body) as int)
            } else {
                digits_value(body) as int
            };
            if -0x8000_0000_0000_0000 <= value <= 0x7fff_ffff_ffff_ffff {
                Some(value)
            } else {
                None
            }
        }
    }
}

/// A run of digits stands for at least what each of its prefixes stands
/// for.
pub proof fn lemma_digits_value_grows(s: Seq<char>, k: int)
    requires
        0 <= k <= s.len(),
        all_digits(s),
    ensures
        digits_value(s.take(k)) <= digits_value(s),
    decreases s.len() - k,
{
    if k == s.len() {
        assert(s.take(k) =~= s);
    } else {
        lemma_digits_value_grows(s, k + 1);
        assert(s.take(k + 1).drop_last() =~= s.take(k));
        assert(s.take(k + 1).last() == s[k]);
        assert(is_digit(s[k]));
    }
}

/// The number that the characters of `s` from `start` on stand for, where
/// they are digits and the number is at most `limit`.
fn parse_digits(s: &Vec<char>, start: usize, limit: u64) -> (r: Option<u64>)
    requires
        start <= s.len(),
        9 <= limit,
    ensures
        r is Some <==> all_digits(s@.skip(start as int)) && digits_value(s@.skip(start as int))
            <= limit,
        r matches Some(v) ==> v == digits_value(s@.skip(start as int)),
{
    let ghost body = s@.skip(start as int);
    let mut acc: u64 = 0;
    let mut i: usize = start;
    assert(body.take(0) =~= Seq::<char>::empty());
    while i < s.len()
        invariant
            start <= i <= s.len(),
            9 <= limit,
            body == s@.skip(start as int),
            all_digits(body.take(i - start)),
            acc == digits_value(body.take(i - start)),
            acc <= limit,
        decreases s.len() - i,
    {
        let c = s[i];
        let ghost k = i - start;
        assert(body[k] == c);
        if !('0' <= c && c <= '9') {
            assert(!is_digit(body[k]));
            return None;
        }
        let d: u64 = (c as u64) - 48;
        assert(d <= 9);
        proof {
            assert(body.take(k + 1).drop_last() =~= body.take(k));
            assert(body.take(k + 1).last() == c);
            assert(digits_value(body.take(k + 1)) == acc * 10 + d);
            assert forall|j: int| 0 <= j < k + 1 implies is_digit(
                #[trigger] body.take(k + 1)[j],
            ) by {
                if j < k {
                    assert(body.take(k + 1)[j] == body.take(k)[j]);
                }
            }
        }
        if acc > (limit - d) / 10 {
            proof {
                if all_digits(body) {
                    lemma_digits_value_grows(body, k + 1);
                }
            }
            return None;
        }
        acc = acc * 10 + d;
        i += 1;
    }
    proof {
        assert(body.take(body.len() as int) =~= body);
    }
    Some(acc)
}

/// Reads `text` as a signed decimal of 64 bits.
pub fn parse_i64(text: &str) -> (r: Option<i64>)
    ensures
        r is Some <==> parsed_i64(text@) is Some,
        r matches Some(v) ==> parsed_i64(text@) == Some(v as int),
{
    let s = chars_of(text);
    if s.len() == 0 {
        return None;
    }
    let negative = s[0] == '-';
    let start: usize = if s[0] == '-' || s[0] == '+' {
        1
    } else {
        0
    };
    proof {
        if start == 1 {
            assert(s@.drop_first() =~= s@.skip(1));
        } else {
            assert(s@ =~= s@.skip(0));
        }
    }
    if start == s.len() {
        return None;
    }
    if negative {
        match parse_digits(&s, start, 9223372036854775808u64) {
            Some(v) => {
                if v == 9223372036854775808u64 {
                    Some(i64::MIN)
                } else {
                    Some(-(v as i64))
                }
            },
            None => None,
        }
    } else {
        match parse_digits(&s, start, 9223372036854775807u64) {
            Some(v) => Some(v as i64),
            None => None,
        }
    }
}

/// Why the claims of a token are not accepted for `email` at the time
/// `now`, if they are not. The address is looked at first, then the end of
/// the token: it must be there, be a number, and not lie before `now`.
pub open spec fn claims_fault(claims: Seq<(Seq<char>, Seq<char>)>, email: Seq<char>, now: int)
    -> Option<Seq<char>> {
    if claim(claims, "data"@) != Some(email) {
        Some("Token email mismatch"@)
    } else {
        match claim(claims, "exp"@) {
            None => Some("No expiration time in token"@),
            Some(exp) => match parsed_i64(exp) {
                None => Some("Invalid expiration time"@),
                Some(end) => if now > end {
                    Some("Token expired"@)
                } else {
                    None
                },
            },
        }
    }
}

/// Checks the claims of a token whose signature holds: they must name
/// `email`, and the token must not have ended at the time `now`, in seconds
/// since the epoch.
pub fn check_claims(claims: &Vec<(String, String)>, email: &str, now: i64) -> (r: Result<
    (),
    String,
>)
    ensures
        r is Ok <==> claims_fault(pair_texts(claims@), email@, now as int) is None,
        r matches Err(m) ==> Some(m@) == claims_fault(pair_texts(claims@), email@, now as int),
{
    let named = match find_claim(claims, "data") {
        Some(d) => same_text(d.as_str(), email),
        None => false,
    };
    if !named {
        return Err("Token email mismatch".to_owned());
    }
    let exp = match find_claim(claims, "exp") {
        Some(e) => e,
        None => {
            return Err("No expiration time in token".to_owned());
        },
    };
    let end = match parse_i64(exp.as_str()) {
        Some(v) => v,
        None => {
            return Err("Invalid expiration time".to_owned());
        },
    };
    if now > end {
        return Err("Token expired".to_owned());
    }
    Ok(())
}

/// The decimal digits of a number are digits, and they stand for that
/// number.
pub proof fn lemma_decimal_digits(n: nat)
    ensures
        decimal(n).len() > 0,
        all_digits(decimal(n)),
        digits_value(decimal(n)) == n,
    decreases n,
{
    let s = decimal(n);
    if n < 10 {
        assert(s.len() == 1);
        assert(s[0] == digit_char(n as int));
        assert(s.drop_last().len() == 0);
        assert(digits_value(s.drop_last()) == 0);
    } else {
        lemma_decimal_digits(n / 10);
        let head = decimal(n / 10);
        assert(s == head.push(digit_char((n % 10) as int)));
        assert(s.drop_last() =~= head);
        assert forall|i: int| 0 <= i < s.len() implies is_digit(#[trigger] s[i]) by {
            if i < head.len() {
                assert(s[i] == head[i]);
            }
        }
    }
}

/// Reading what was written gives the number back: the decimal form of a
/// number that fits 64 bits with a sign is read as that number.
pub proof fn lemma_parse_written(i: int)
    requires
        -0x8000_0000_0000_0000 <= i <= 0x7fff_ffff_ffff_ffff,
    ensures
        parsed_i64(signed_decimal(i)) == Some(i),
        i >= 0 ==> parsed_i64(decimal(i as nat)) == Some(i),
{
    if i < 0 {
        let digits = decimal((-i) as nat);
        lemma_decimal_digits((-i) as nat);
        let s = signed_decimal(i);
        assert(s[0] == '-');
        assert(s.drop_first() =~= digits);
    } else {
        let s = decimal(i as nat);
        lemma_decimal_digits(i as nat);
        assert(is_digit(s[0]));
    }
}

/// A verification token is accepted for its own address until it ends: the
/// claims that `create_token` writes for `email` pass the check for `email`
/// at every time up to their end, and are refused as expired after it.
pub proof fn lemma_own_claims_accepted(email: Seq<char>, expiry: nat, now: int)
    requires
        expiry <= 0x7fff_ffff_ffff_ffff,
    ensures
        claims_fault(verification_claims(email, expiry), email, now) == (if now > expiry {
            Some("Token expired"@)
        } else {
            None
        }),
{
    reveal_strlit("data");
    reveal_strlit("exp");
    let claims = verification_claims(email, expiry);
    assert(claims[0] == ("data"@, email));
    assert(claims[1] == ("exp"@, decimal(expiry)));
    assert("data"@ != "exp"@) by {
        assert("data"@.len() == 4);
        assert("exp"@.len() == 3);
    }
    assert(claim(claims, "data"@) == Some(email));
    assert(claims.drop_first()[0] == claims[1]);
    assert(claim(claims.drop_first(), "exp"@) == Some(decimal(expiry)));
    assert(claim(claims, "exp"@) == Some(decimal(expiry)));
    lemma_parse_written(expiry as int);
}

/// Why `token` is not accepted for `email` at the time `now`, if it is
/// not.
pub open spec fn token_fault(
    token: Seq<char>,
    email: Seq<char>,
    secret: Option<Seq<char>>,
    now: int,
) -> Option<Seq<char>> {
    match secret {
        None => Some("JWT_SECRET not set"@),
        Some(s) => match hs256_verified(s, token) {
            Err(None) => Some("Invalid JWT secret"@),
            Err(Some(reason)) => Some("Invalid token: "@ + reason),
            Ok(claims) => claims_fault(claims, email, now),
        },
    }
}

/// Checks a verification token: its signature against `secret`, then its
/// claims against `email` and the time `now`.
pub fn verify_token(token: &str, email: &str, secret: Option<&str>, now: i64) -> (r: Result<
    (),
    String,
>)
    ensures
        r is Ok <==> token_fault(token@, email@, opt_str_text(secret), now as int) is None,
        r matches Err(m) ==> Some(m@) == token_fault(
            token@,
            email@,
            opt_str_text(secret),
            now as int,
        ),
{
    let secret = match secret {
        Some(s) => s,
        None => {
            return Err("JWT_SECRET not set".to_owned());
        },
    };
    match jwt_verify(secret, token) {
        Ok(claims) => check_claims(&claims, email, now),
        Err(None) => Err("Invalid JWT secret".to_owned()),
        Err(Some(reason)) => Err(concat2("Invalid token: ", reason.as_str())),
    }
}

/// The claims of a token that carries `payload` and ends at `expiry`: the
/// payload, and behind it the end of the token under `exp`.
pub open spec fn claims_with_expiry(payload: Seq<(Seq<char>, Seq<char>)>, expiry: int) -> Seq<
    (Seq<char>, Seq<char>),
> {
    payload.push(("exp"@, signed_decimal(expiry)))
}

/// Signs `payload` with `secret_key` as a token that ends `expiry_seconds`
/// after `now`.
pub fn sign_jwt_token(
    payload: &Vec<(String, String)>,
    secret_key: &str,
    expiry_seconds: i64,
    now: i64,
) -> (r: Option<String>)
    requires
        i64::MIN <= now + expiry_seconds <= i64::MAX,
    ensures
        opt_text(r) == hs256_signed(
            secret_key@,
            claims_with_expiry(pair_texts(payload@), now + expiry_seconds),
        ),
{
    let expiry: i64 = now + expiry_seconds;
    let mut digits: Vec<char> = Vec::new();
    push_signed_decimal(&mut digits, expiry);
    assert(digits@ =~= signed_decimal(expiry as int));
    let mut claims: Vec<(String, String)> = Vec::new();
    let mut i: usize = 0;
    while i < payload.len()
        invariant
            i <= payload.len(),
            pair_texts(claims@) == pair_texts(payload@).take(i as int),
        decreases payload.len() - i,
    {
        let ghost before = pair_texts(claims@);
        claims.push((payload[i].0.clone(), payload[i].1.clone()));
        assert(pair_texts(claims@) =~= before.push(pair_texts(payload@)[i as int]));
        assert(pair_texts(claims@) =~= pair_texts(payload@).take(i + 1));
        i += 1;
    }
    let ghost copied = pair_texts(claims@);
    assert(copied =~= pair_texts(payload@));
    claims.push(("exp".to_owned(), string_of(&digits)));
    assert(pair_texts(claims@) =~= claims_with_expiry(pair_texts(payload@), expiry as int));
    jwt_sign(secret_key, &claims)
}

/// The token for `payload`, signed with `secret` and valid for `seconds`
/// from `now`; none without a secret, where the end of the token cannot be
/// counted, or where signing fails.
pub open spec fn signed_token(
    payload: Seq<(Seq<char>, Seq<char>)>,
    secret: Option<Seq<char>>,
    seconds: int,
    now: int,
) -> Option<Seq<char>> {
    match secret {
        Some(s) => if now + seconds <= i64::MAX {
            hs256_signed(s, claims_with_expiry(payload, now + seconds))
        } else {
            None
        },
        None => None,
    }
}

/// The token for `payload`, signed with `secret` and valid for `seconds`
/// from `now`.
fn generate_token(payload: &Vec<(String, String)>, secret: Option<&str>, seconds: i64, now: i64)
    -> (r: Option<String>)
    requires
        0 <= seconds,
    ensures
        opt_text(r) == signed_token(
            pair_texts(payload@),
            opt_str_text(secret),
            seconds as int,
            now as int,
        ),
{
    match secret {
        Some(s) => {
            if now > i64::MAX - seconds {
                None
            } else {
                sign_jwt_token(payload, s, seconds, now)
            }
        },
        None => None,
    }
}

/// The access token for `payload`: valid for fifteen minutes from `now`.
pub fn generate_access_token(payload: &Vec<(String, String)>, secret: Option<&str>, now: i64) -> (r:
    Option<String>)
    ensures
        opt_text(r) == signed_token(pair_texts(payload@), opt_str_text(secret), 900, now as int),
{
    generate_token(payload, secret, ACCESS_TOKEN_SECONDS, now)
}

/// The refresh token for `payload`: valid for 180 days from `now`.
pub fn generate_refresh_token(payload: &Vec<(String, String)>, secret: Option<&str>, now: i64)
    -> (r: Option<String>)
    ensures
        opt_text(r) == signed_token(
            pair_texts(payload@),
            opt_str_text(secret),
            15552000,
            now as int,
        ),
{
    generate_token(payload, secret, REFRESH_TOKEN_SECONDS, now)
}

/// The claims of `token` where its signature holds against `secret`; none
/// without a secret.
pub open spec fn verified_claims(token: Seq<char>, secret: Option<Seq<char>>) -> Option<
    Seq<(Seq<char>, Seq<char>)>,
> {
    match secret {
        Some(s) => match hs256_verified(s, token) {
            Ok(claims) => Some(claims),
            Err(_) => None,
        },
        None => None,
    }
}

/// The claims of an optional list of pairs.
pub open spec fn opt_pair_texts(v: Option<Vec<(String, String)>>) -> Option<
    Seq<(Seq<char>, Seq<char>)>,
> {
    match v {
        Some(claims) => Some(pair_texts(claims@)),
        None => None,
    }
}

/// The claims of an access token whose signature holds against `secret`.
pub fn verify_access_token(token: &str, secret: Option<&str>) -> (r: Option<Vec<(String, String)>>)
    ensures
        opt_pair_texts(r) == verified_claims(token@, opt_str_text(secret)),
{
    match secret {
        Some(s) => match jwt_verify(s, token) {
            Ok(claims) => Some(claims),
            Err(_) => None,
        },
        None => None,
    }
}

/// The claims of a refresh token whose signature holds against `secret`.
pub fn verify_refresh_token(token: &str, secret: Option<&str>) -> (r: Option<Vec<(String, String)>>)
    ensures
        opt_pair_texts(r) == verified_claims(token@, opt_str_text(secret)),
{
    match secret {
        Some(s) => match jwt_verify(s, token) {
            Ok(claims) => Some(claims),
            Err(_) => None,
        },
        None => None,
    }
}

/// Decides whether a request may pass, from the claims of its access
/// token: it passes as the user named under `email`; without claims it is
/// refused as unauthorized, and without that claim as a bad request.
pub fn auth_middleware(claims: Option<&Vec<(String, String)>>) -> (r: Result<
    String,
    (u16, ErrorResponse),
>)
    ensures
        match claims {
            None => r matches Err(refusal) && refusal.0 == 401 && !refusal.1.success
                && refusal.1.message@ == "Invalid or expired token"@,
            Some(c) => match claim(pair_texts(c@), "email"@) {
                Some(email) => r matches Ok(e) && e@ == email,
                None => r matches Err(refusal) && refusal.0 == 400 && !refusal.1.success
                    && refusal.1.message@ == "Email not found in token"@,
            },
        },
{
    match claims {
        None => Err(
            (
                crate::auth::UNAUTHORIZED,
                ErrorResponse { success: false, message: "Invalid or expired token".to_owned() },
            ),
        ),
        Some(c) => match find_claim(c, "email") {
            Some(email) => Ok(email),
            None => Err(
                (
                    crate::auth::BAD_REQUEST,
                    ErrorResponse {
                        success: false,
                        message: "Email not found in token".to_owned(),
                    },
                ),
            ),
        },
    }
}

} // verus!
