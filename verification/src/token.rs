//! Token-side data types and the derived identifiers of archived copies.
//!
//! A token's pricing record (`TokenData`) carries its resale generation and
//! current price together; the two are never updated independently. When a
//! superseded generation is archived for its previous owner, it is filed
//! under the derived identifier `"<generation>:<token_id>"`; the functions
//! here build and split such identifiers.
use vstd::prelude::*;
use vstd::string::StrSliceExecFns;
use vstd::string::StringExecFns;

verus! {

/// Count of completed resales of a token.
pub type TokenGeneration = u32;

/// A storage quota, in archived items.
pub type StorageSize = u64;

/// Index of a purchasable storage package.
pub type StoragePackageIndex = u64;

/// An amount of the whitelisted fungible token.
pub type Balance = u128;

/// Nanoseconds since the epoch.
pub type Timestamp = u64;

/// The pricing record of a token: generation, the current price baseline,
/// and when the token last sold. Generation and price are always read and
/// written together.
#[derive(Clone, Copy, PartialEq, Eq, Debug)]
pub struct TokenData {
    pub generation: TokenGeneration,
    pub price: Balance,
    pub last_sale: Option<Timestamp>,
}

impl View for TokenData {
    type V = TokenData;

    open spec fn view(&self) -> TokenData {
        *self
    }
}

impl DeepView for TokenData {
    type V = TokenData;

    open spec fn deep_view(&self) -> TokenData {
        *self
    }
}

/// A historical snapshot `(token, generation)` retained for a previous
/// owner after a resale.
#[derive(PartialEq, Eq, Debug)]
pub struct CollectionItem {
    pub token_id: String,
    pub generation: TokenGeneration,
}

impl View for CollectionItem {
    type V = (Seq<char>, TokenGeneration);

    open spec fn view(&self) -> (Seq<char>, TokenGeneration) {
        (self.token_id@, self.generation)
    }
}

impl DeepView for CollectionItem {
    type V = (Seq<char>, TokenGeneration);

    open spec fn deep_view(&self) -> (Seq<char>, TokenGeneration) {
        (self.token_id@, self.generation)
    }
}

impl Clone for CollectionItem {
    fn clone(&self) -> (r: Self)
        ensures
            r == *self,
    {
        CollectionItem { token_id: self.token_id.clone(), generation: self.generation }
    }
}

/// A token as reported by queries: its identifier and current owner.
#[derive(PartialEq, Eq, Debug)]
pub struct Token {
    pub token_id: String,
    pub owner_id: String,
}

/// A purchasable storage upgrade.
#[derive(Clone, Copy, PartialEq, Eq, Structural, Debug)]
pub struct StoragePackage {
    pub storage_size: StorageSize,
    pub price: Balance,
}

impl View for StoragePackage {
    type V = StoragePackage;

    open spec fn view(&self) -> StoragePackage {
        *self
    }
}

impl DeepView for StoragePackage {
    type V = StoragePackage;

    open spec fn deep_view(&self) -> StoragePackage {
        *self
    }
}

/// Review state of a user-submitted mint request.
#[allow(non_camel_case_types)]
#[derive(Clone, Copy, PartialEq, Eq, Structural, Debug)]
pub enum TokenStatus {
    PENDING,
    APPROVED,
    REJECTED,
}

/// A user-submitted request to mint a token, queued for review.
#[derive(PartialEq, Eq, Debug)]
pub struct UserToken {
    pub token_id: String,
    pub account_id: String,
    pub status: TokenStatus,
    pub created_at: Timestamp,
}

impl Clone for UserToken {
    fn clone(&self) -> (r: Self)
        ensures
            r == *self,
    {
        UserToken {
            token_id: self.token_id.clone(),
            account_id: self.account_id.clone(),
            status: self.status,
            created_at: self.created_at,
        }
    }
}

/// Whether the identifier already carries a generation prefix, which marks
/// it as the identifier of an archived copy.
pub fn contains_colon(s: &String) -> (r: bool)
    ensures
        r == (colon_idx(s@) < s@.len()),
        0 <= colon_idx(s@) <= s@.len(),
{
    let len = s.as_str().unicode_len();
    let ci = find_colon(s.as_str(), 0, len);
    proof {
        assert(s@.subrange(0, len as int) =~= s@);
    }
    ci < len
}

/// The index of the first `':'` in `s`, or `s.len()` if there is none.
pub open spec fn colon_idx(s: Seq<char>) -> int
    decreases s.len(),
{
    if s.len() == 0 {
        0
    } else if s[0] == ':' {
        0
    } else {
        1 + colon_idx(s.drop_first())
    }
}

proof fn lemma_colon_idx_is(s: Seq<char>, i: int)
    requires
        0 <= i <= s.len(),
        forall|j: int| 0 <= j < i ==> s[j] != ':',
        i < s.len() ==> s[i] == ':',
    ensures
        colon_idx(s) == i,
    decreases s.len(),
{
    if s.len() > 0 {
        if s[0] == ':' {
            assert(i == 0);
        } else {
            assert(i >= 1);
            let t = s.drop_first();
            assert(forall|j: int| 0 <= j < i - 1 ==> t[j] != ':');
            lemma_colon_idx_is(t, i - 1);
        }
    }
}

/// Whether `c` is a decimal digit.
pub open spec fn is_dec_digit(c: char) -> bool {
    48 <= c as int <= 57
}

/// The value of a decimal digit.
pub open spec fn dec_digit_val(c: char) -> nat {
    (c as int - 48) as nat
}

/// The number denoted by a sequence of decimal digits, most significant
/// first.
pub open spec fn dec_value(s: Seq<char>) -> nat
    decreases s.len(),
{
    if s.len() == 0 {
        0
    } else {
        dec_value(s.drop_last()) * 10 + dec_digit_val(s.last())
    }
}

/// Whether every character of `s` is a decimal digit.
pub open spec fn all_dec_digits(s: Seq<char>) -> bool {
    forall|i: int| 0 <= i < s.len() ==> is_dec_digit(s[i])
}

/// The digits of `s` after an optional leading `'+'` sign.
pub open spec fn dec_body(s: Seq<char>) -> Seq<char> {
    if s.len() > 0 && s[0] == '+' {
        s.drop_first()
    } else {
        s
    }
}

/// The `u32` denoted by `s`, or `0` when `s` is not the decimal notation of
/// a number that fits.
pub open spec fn parse_u32_or_zero_spec(s: Seq<char>) -> u32 {
    let b = dec_body(s);
    if b.len() > 0 && all_dec_digits(b) && dec_value(b) <= u32::MAX {
        dec_value(b) as u32
    } else {
        0
    }
}

proof fn lemma_dec_value_prefix(s: Seq<char>, k: int)
    requires
        0 <= k <= s.len(),
    ensures
        dec_value(s) >= dec_value(s.subrange(0, k)),
    decreases s.len() - k,
{
    if k < s.len() {
        let t = s.drop_last();
        if k < t.len() || k == t.len() {
            lemma_dec_value_prefix(t, k);
            assert(t.subrange(0, k) =~= s.subrange(0, k));
        }
        assert(dec_value(s) == dec_value(t) * 10 + dec_digit_val(s.last()));
        assert(dec_value(t) * 10 >= dec_value(t));
    } else {
        assert(s.subrange(0, k) =~= s);
    }
}

/// The generation encoded before the first `':'` of a derived identifier,
/// or `0` if the identifier has no `':'` or no readable number.
pub open spec fn parsed_generation(s: Seq<char>) -> u32 {
    if colon_idx(s) == s.len() {
        0
    } else {
        parse_u32_or_zero_spec(s.subrange(0, colon_idx(s)))
    }
}

/// The base token identifier of a derived identifier: the part between its
/// first and second `':'`, or the whole string if it has no `':'`.
pub open spec fn parsed_token(s: Seq<char>) -> Seq<char> {
    if colon_idx(s) == s.len() {
        s
    } else {
        let rest = s.subrange(colon_idx(s) + 1, s.len() as int);
        rest.subrange(0, colon_idx(rest))
    }
}

/// The index of the first `':'` at or after `start`, or the string's length
/// if there is none.
fn find_colon(s: &str, start: usize, len: usize) -> (r: usize)
    requires
        len == s@.len(),
        start <= len,
    ensures
        start <= r <= len,
        r - start == colon_idx(s@.subrange(start as int, len as int)),
        r < len ==> s@[r as int] == ':',
{
    let mut i: usize = start;
    while i < len
        invariant
            start <= i <= len == s@.len(),
            forall|j: int| start <= j < i ==> s@[j] != ':',
        decreases len - i,
    {
        if s.get_char(i) == ':' {
            proof {
                let sub = s@.subrange(start as int, len as int);
                assert(forall|j: int| 0 <= j < i - start ==> sub[j] != ':');
                lemma_colon_idx_is(sub, i - start);
            }
            return i;
        }
        i = i + 1;
    }
    proof {
        let sub = s@.subrange(start as int, len as int);
        assert(forall|j: int| 0 <= j < sub.len() ==> sub[j] != ':');
        lemma_colon_idx_is(sub, sub.len() as int);
    }
    len
}

/// Reads a `u32` from decimal notation with an optional leading `'+'`,
/// yielding `0` for anything unreadable or out of range.
fn parse_u32_or_zero(s: &str) -> (r: u32)
    ensures
        r == parse_u32_or_zero_spec(s@),
{
    let len = s.unicode_len();
    let mut start: usize = 0;
    if len > 0 && s.get_char(0) == '+' {
        start = 1;
    }
    let ghost body = dec_body(s@);
    proof {
        assert(body =~= s@.subrange(start as int, len as int));
    }
    if start == len {
        return 0;
    }
    let mut acc: u32 = 0;
    let mut i: usize = start;
    while i < len
        invariant
            start <= i <= len == s@.len(),
            start <= 1,
            body == dec_body(s@),
            body == s@.subrange(start as int, len as int),
            forall|j: int| start <= j < i ==> is_dec_digit(s@[j]),
            acc == dec_value(s@.subrange(start as int, i as int)),
        decreases len - i,
    {
        let c = s.get_char(i);
        let d = c as u32;
        if d < 48 || d > 57 {
            proof {
                assert(body[i - start] == s@[i as int]);
                assert(!all_dec_digits(body));
            }
            return 0;
        }
        let next = (acc as u64) * 10 + ((d - 48) as u64);
        proof {
            let pre = s@.subrange(start as int, i as int);
            let pre1 = s@.subrange(start as int, i as int + 1);
            assert(pre1.drop_last() =~= pre);
            assert(dec_value(pre1) == dec_value(pre) * 10 + dec_digit_val(s@[i as int]));
        }
        if next > 0xffff_ffff {
            proof {
                let pre1 = s@.subrange(start as int, i as int + 1);
                assert(pre1 =~= body.subrange(0, i - start + 1));
                lemma_dec_value_prefix(body, i - start + 1);
                assert(dec_value(body) > u32::MAX);
            }
            return 0;
        }
        acc = next as u32;
        i = i + 1;
    }
    proof {
        assert(s@.subrange(start as int, len as int) =~= body);
        assert(all_dec_digits(body));
    }
    acc
}

/// Splits a derived identifier `"<generation>:<token>"` into its generation
/// and base token identifier; an identifier without `':'` is its own base
/// at generation `0`.
#[verifier::rlimit(50)]
pub fn parse_token_id(token_id: String) -> (r: (TokenGeneration, String))
    ensures
        r.0 == parsed_generation(token_id@),
        r.1@ == parsed_token(token_id@),
{
    let len = token_id.as_str().unicode_len();
    let ci = find_colon(token_id.as_str(), 0, len);
    proof {
        assert(token_id@.subrange(0, len as int) =~= token_id@);
    }
    if ci == len {
        let generation: u32 = 0;
        (generation, token_id)
    } else {
        let prefix = token_id.as_str().substring_char(0, ci);
        let generation = parse_u32_or_zero(prefix);
        let cj = find_colon(token_id.as_str(), ci + 1, len);
        let part = token_id.as_str().substring_char(ci + 1, cj);
        proof {
            let rest = token_id@.subrange(ci + 1, len as int);
            assert(part@ =~= rest.subrange(0, colon_idx(rest)));
        }
        (generation, String::from_str(part))
    }
}

/// The decimal digit character for a value below ten.
pub open spec fn dec_digit_char(d: nat) -> char {
    if d == 0 {
        '0'
    } else if d == 1 {
        '1'
    } else if d == 2 {
        '2'
    } else if d == 3 {
        '3'
    } else if d == 4 {
        '4'
    } else if d == 5 {
        '5'
    } else if d == 6 {
        '6'
    } else if d == 7 {
        '7'
    } else if d == 8 {
        '8'
    } else {
        '9'
    }
}

/// The decimal notation of `n`, most significant digit first.
pub open spec fn dec_digits_of(n: nat) -> Seq<char>
    decreases n,
{
    if n < 10 {
        seq![dec_digit_char(n)]
    } else {
        dec_digits_of(n / 10).push(dec_digit_char(n % 10))
    }
}

/// Relies on `String::push`: appends one character to the string.
#[verifier::external_body]
fn push_char(s: &mut String, c: char)
    ensures
        final(s)@ == old(s)@.push(c),
{
    s.push(c);
}

fn dec_digit_exec(d: u32) -> (r: char)
    requires
        d < 10,
    ensures
        r == dec_digit_char(d as nat),
{
    match d {
        0 => '0',
        1 => '1',
        2 => '2',
        3 => '3',
        4 => '4',
        5 => '5',
        6 => '6',
        7 => '7',
        8 => '8',
        _ => '9',
    }
}

fn push_u32_dec(s: &mut String, n: u32)
    ensures
        final(s)@ == old(s)@ + dec_digits_of(n as nat),
    decreases n,
{
    let ghost s0 = s@;
    if n < 10 {
        push_char(s, dec_digit_exec(n));
        proof {
            assert(s@ =~= s0 + dec_digits_of(n as nat));
        }
    } else {
        push_u32_dec(s, n / 10);
        push_char(s, dec_digit_exec(n % 10));
        proof {
            assert(s@ =~= s0 + dec_digits_of(n as nat));
        }
    }
}

/// The derived identifier that files generation `generation` of a token:
/// the generation in decimal, a `':'`, and the base identifier.
pub open spec fn derived_token_id(generation: u32, token_id: Seq<char>) -> Seq<char> {
    dec_digits_of(generation as nat) + seq![':'] + token_id
}

/// Builds the derived identifier `"<generation>:<token_id>"` under which an
/// archived copy is filed.
pub fn generate_token_id(generation: &TokenGeneration, token_id: &String) -> (r: String)
    ensures
        r@ == derived_token_id(*generation, token_id@),
{
    let mut s = String::new();
    push_u32_dec(&mut s, *generation);
    push_char(&mut s, ':');
    s.append(token_id.as_str());
    proof {
        assert(s@ =~= derived_token_id(*generation, token_id@));
    }
    s
}

} // verus!
