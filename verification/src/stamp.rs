//! Fresh identifiers and timestamps for fills.
//!
//! Identifiers come from the `nanoid` crate and timestamps from `chrono`.
//! Both depend on the machine (entropy, the clock), so their contracts say
//! only what holds of every outcome.

use vstd::prelude::*;
use vstd::string::*;

verus! {

/// Number of random characters in an identifier, after its prefix.
pub const TOKEN_LEN: usize = 8;

/// Characters that a random token is drawn from: `_`, `-`, the decimal
/// digits and the unaccented Latin letters of either case.
pub open spec fn is_token_char(c: char) -> bool {
    ||| c == '_'
    ||| c == '-'
    ||| ('0' <= c && c <= '9')
    ||| ('a' <= c && c <= 'z')
    ||| ('A' <= c && c <= 'Z')
}

/// A token of `len` characters, each of them a token character.
pub open spec fn is_token(s: Seq<char>, len: nat) -> bool {
    &&& s.len() == len
    &&& forall|i: int| 0 <= i < s.len() ==> is_token_char(#[trigger] s[i])
}

/// `s` is `prefix` followed by a token of `TOKEN_LEN` characters.
pub open spec fn is_prefixed_token(prefix: Seq<char>, s: Seq<char>) -> bool {
    &&& s.len() == prefix.len() + TOKEN_LEN
    &&& s.subrange(0, prefix.len() as int) == prefix
    &&& is_token(s.subrange(prefix.len() as int, s.len() as int), TOKEN_LEN as nat)
}

/// A client order identifier: `clo_` and eight token characters.
pub open spec fn is_order_id(s: Seq<char>) -> bool {
    is_prefixed_token("clo_"@, s)
}

/// An execution identifier: `exe_` and eight token characters.
pub open spec fn is_exec_id(s: Seq<char>) -> bool {
    is_prefixed_token("exe_"@, s)
}

/// The last six characters of `s` are the zero offset `+00:00`.
pub open spec fn ends_in_utc_offset(s: Seq<char>) -> bool {
    &&& s.len() >= 6
    &&& s.subrange(s.len() - 6, s.len() as int) == "+00:00"@
}

/// Calls `nanoid::format` with nanoid's default random source and its
/// URL-safe alphabet of 64 characters.
///
/// Trusted: the result holds exactly `size` characters, all of them from
/// that alphabet. Which characters is left open. With 64 symbols every
/// random byte yields one character, so the call returns after one batch
/// of bytes; for `size` zero it would never return, which `requires`
/// excludes. The random source panics when the operating system gives no
/// entropy.
#[verifier::external_body]
fn random_token(size: usize) -> (token: String)
    requires
        0 < size,
        8 * size <= usize::MAX,
    ensures
        is_token(token@, size as nat),
{
    nanoid::format(nanoid::rngs::default, &nanoid::alphabet::SAFE, size)
}

/// Calls `chrono::Utc::now` and formats the instant with `to_rfc3339`.
///
/// Trusted: the text ends in the offset `+00:00`, as chrono writes every
/// UTC instant. The instant itself is the machine's clock and is left
/// open. A clock set before 1970 makes `Utc::now` panic.
#[verifier::external_body]
fn utc_now_rfc3339() -> (ts: String)
    ensures
        ends_in_utc_offset(ts@),
{
    chrono::Utc::now().to_rfc3339()
}

/// `prefix` followed by a fresh random token.
fn fresh_id(prefix: &str) -> (id: String)
    ensures
        is_prefixed_token(prefix@, id@),
{
    let token = random_token(TOKEN_LEN);
    let id = String::from_str(prefix).concat(token.as_str());
    assert(id@.subrange(0, prefix@.len() as int) =~= prefix@);
    id
}

/// A fresh client order identifier.
pub fn fresh_order_id() -> (id: String)
    ensures
        is_order_id(id@),
{
    fresh_id("clo_")
}

/// A fresh execution identifier.
pub fn fresh_exec_id() -> (id: String)
    ensures
        is_exec_id(id@),
{
    fresh_id("exe_")
}

/// What a fill carries besides the order itself: when it was made and
/// under which identifiers.
#[derive(Debug, PartialEq, Eq)]
pub struct FillStamp {
    pub ts: String,
    pub cl_ord_id: String,
    pub exec_id: String,
}

/// A stamp as a mathematical value.
pub struct FillStampView {
    pub ts: Seq<char>,
    pub cl_ord_id: Seq<char>,
    pub exec_id: Seq<char>,
}

impl View for FillStamp {
    type V = FillStampView;

    open spec fn view(&self) -> FillStampView {
        FillStampView { ts: self.ts@, cl_ord_id: self.cl_ord_id@, exec_id: self.exec_id@ }
    }
}

impl FillStampView {
    /// The shape of a stamp that `FillStamp::now` makes.
    pub open spec fn is_fresh(self) -> bool {
        &&& ends_in_utc_offset(self.ts)
        &&& is_order_id(self.cl_ord_id)
        &&& is_exec_id(self.exec_id)
    }
}

impl FillStamp {
    /// A stamp with the current UTC time and two fresh identifiers.
    pub fn now() -> (stamp: FillStamp)
        ensures
            stamp@.is_fresh(),
    {
        let cl_ord_id = fresh_order_id();
        let exec_id = fresh_exec_id();
        let ts = utc_now_rfc3339();
        FillStamp { ts, cl_ord_id, exec_id }
    }
}

} // verus!
