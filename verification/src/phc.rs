// Stored password hashes are PHC texts: `$family$name=value,...$salt$digest`.
// The hashing crate reads any such text. Where the text holds a digest to
// compare with, it computes a hash with the parameters of the text, and that
// stops the program where they are out of range. This module tells apart the
// texts that are safe to hand on.

use vstd::prelude::*;
use vstd::string::*;
use vstd::utf8::is_ascii_chars;

verus! {

pub open spec fn is_lower(c: char) -> bool {
    'a' <= c <= 'z'
}

pub open spec fn is_upper(c: char) -> bool {
    'A' <= c <= 'Z'
}

pub open spec fn is_digit(c: char) -> bool {
    '0' <= c <= '9'
}

/// The characters of a parameter's name.
pub open spec fn is_name_char(c: char) -> bool {
    is_lower(c) || is_digit(c) || c == '-'
}

/// The characters of a parameter's value.
pub open spec fn is_value_char(c: char) -> bool {
    is_lower(c) || is_upper(c) || is_digit(c) || c == '+' || c == '-' || c == '.' || c == '/'
}

/// The characters of unpadded standard base64.
pub open spec fn is_b64_char(c: char) -> bool {
    is_lower(c) || is_upper(c) || is_digit(c) || c == '+' || c == '/'
}

pub open spec fn all_name(s: Seq<char>) -> bool {
    forall|i: int| 0 <= i < s.len() ==> is_name_char(#[trigger] s[i])
}

pub open spec fn all_value(s: Seq<char>) -> bool {
    forall|i: int| 0 <= i < s.len() ==> is_value_char(#[trigger] s[i])
}

pub open spec fn all_b64(s: Seq<char>) -> bool {
    forall|i: int| 0 <= i < s.len() ==> is_b64_char(#[trigger] s[i])
}

pub open spec fn all_digits(s: Seq<char>) -> bool {
    forall|i: int| 0 <= i < s.len() ==> is_digit(#[trigger] s[i])
}

/// The index of the first `c` in `s`, or the length of `s` where there is
/// none.
pub open spec fn find(s: Seq<char>, c: char) -> int
    decreases s.len(),
{
    if s.len() == 0 {
        0
    } else if s[0] == c {
        0
    } else {
        1 + find(s.drop_first(), c)
    }
}

/// `find` stays within the text.
pub proof fn lemma_find_range(s: Seq<char>, c: char)
    ensures
        0 <= find(s, c) <= s.len(),
    decreases s.len(),
{
    if s.len() > 0 && s[0] != c {
        lemma_find_range(s.drop_first(), c);
    }
}

/// `find` is the one index before which no `c` stands and at which one does,
/// if any does.
pub proof fn lemma_find(s: Seq<char>, c: char, i: int)
    requires
        0 <= i <= s.len(),
        forall|j: int| 0 <= j < i ==> s[j] != c,
        i == s.len() || s[i] == c,
    ensures
        find(s, c) == i,
    decreases s.len(),
{
    if s.len() == 0 || i == 0 {
    } else {
        let t = s.drop_first();
        assert forall|j: int| 0 <= j < i - 1 implies t[j] != c by {
            assert(t[j] == s[j + 1]);
        }
        lemma_find(t, c, i - 1);
    }
}

/// The number that a run of decimal digits writes.
pub open spec fn decimal(s: Seq<char>) -> nat
    decreases s.len(),
{
    if s.len() == 0 {
        0
    } else {
        decimal(s.drop_last()) * 10 + (s.last() as nat - '0' as nat) as nat
    }
}

/// Finds the first `c` in an ASCII text.
fn scan(s: &str, c: char) -> (r: usize)
    requires
        s.is_ascii(),
        c <= '\u{7f}',
    ensures
        r == find(s@, c),
        r <= s@.len(),
{
    let n = s.unicode_len();
    let target = c as u8;
    let mut i: usize = 0;
    while i < n
        invariant
            n == s@.len(),
            s.is_ascii(),
            i <= n,
            c <= '\u{7f}',
            target == c as u8,
            forall|j: int| 0 <= j < i ==> s@[j] != c,
        decreases n - i,
    {
        if s.get_ascii(i) == target {
            proof {
                lemma_find(s@, c, i as int);
            }
            return i;
        }
        i += 1;
    }
    proof {
        lemma_find(s@, c, i as int);
    }
    i
}

fn byte_is_lower(b: u8) -> (r: bool)
    ensures
        r == is_lower(b as char),
{
    97 <= b && b <= 122
}

fn byte_is_upper(b: u8) -> (r: bool)
    ensures
        r == is_upper(b as char),
{
    65 <= b && b <= 90
}

fn byte_is_digit(b: u8) -> (r: bool)
    ensures
        r == is_digit(b as char),
{
    48 <= b && b <= 57
}

fn text_all_name(s: &str) -> (r: bool)
    requires
        s.is_ascii(),
    ensures
        r == all_name(s@),
{
    let n = s.unicode_len();
    let mut i: usize = 0;
    while i < n
        invariant
            n == s@.len(),
            s.is_ascii(),
            i <= n,
            forall|j: int| 0 <= j < i ==> is_name_char(#[trigger] s@[j]),
        decreases n - i,
    {
        let b = s.get_ascii(i);
        assert(b as char == s@[i as int]);
        if !(byte_is_lower(b) || byte_is_digit(b) || b == 45) {
            return false;
        }
        i += 1;
    }
    true
}

fn text_all_value(s: &str) -> (r: bool)
    requires
        s.is_ascii(),
    ensures
        r == all_value(s@),
{
    let n = s.unicode_len();
    let mut i: usize = 0;
    while i < n
        invariant
            n == s@.len(),
            s.is_ascii(),
            i <= n,
            forall|j: int| 0 <= j < i ==> is_value_char(#[trigger] s@[j]),
        decreases n - i,
    {
        let b = s.get_ascii(i);
        assert(b as char == s@[i as int]);
        if !(byte_is_lower(b) || byte_is_upper(b) || byte_is_digit(b) || b == 43 || b == 45 || b
            == 46 || b == 47) {
            return false;
        }
        i += 1;
    }
    true
}

fn text_all_b64(s: &str) -> (r: bool)
    requires
        s.is_ascii(),
    ensures
        r == all_b64(s@),
{
    let n = s.unicode_len();
    let mut i: usize = 0;
    while i < n
        invariant
            n == s@.len(),
            s.is_ascii(),
            i <= n,
            forall|j: int| 0 <= j < i ==> is_b64_char(#[trigger] s@[j]),
        decreases n - i,
    {
        let b = s.get_ascii(i);
        assert(b as char == s@[i as int]);
        if !(byte_is_lower(b) || byte_is_upper(b) || byte_is_digit(b) || b == 43 || b == 47) {
            return false;
        }
        i += 1;
    }
    true
}

/// The digits of a number's text: the text without the `+` that may lead
/// it.
pub open spec fn digits_of(value: Seq<char>) -> Seq<char> {
    if value.len() > 0 && value[0] == '+' {
        value.subrange(1, value.len() as int)
    } else {
        value
    }
}

/// The number that a text writes, for a text that writes one.
pub open spec fn number_of(value: Seq<char>) -> nat {
    decimal(digits_of(value))
}

/// `value` writes a number from `lo` to `hi`: one or more digits, which a `+`
/// may lead and zeros may pad.
pub open spec fn number_in(value: Seq<char>, lo: nat, hi: nat) -> bool {
    let digits = digits_of(value);
    digits.len() >= 1 && all_digits(digits) && lo <= decimal(digits) <= hi
}

/// Above every limit that a parameter has.
pub const NUMBER_CAP: u32 = 1_000_000;

/// One more digit never makes a number smaller.
proof fn lemma_decimal_step(s: Seq<char>)
    requires
        s.len() > 0,
        all_digits(s),
    ensures
        decimal(s) == decimal(s.drop_last()) * 10 + (s.last() as nat - '0' as nat),
        decimal(s) >= decimal(s.drop_last()),
        decimal(s) >= 10 * decimal(s.drop_last()),
{
    assert(is_digit(s[s.len() - 1]));
}

/// Reads a number from `lo` to `hi`; `None` where the text writes none.
fn text_number_in(value: &str, lo: u32, hi: u32) -> (r: Option<u32>)
    requires
        value.is_ascii(),
        hi < NUMBER_CAP,
    ensures
        r is Some == number_in(value@, lo as nat, hi as nat),
        r matches Some(n) ==> n == number_of(value@),
{
    let n = value.unicode_len();
    if n == 0 {
        return None;
    }
    let digits = if value.get_ascii(0) == 43 {
        value.substring_ascii(1, n)
    } else {
        value
    };
    assert(digits@ == digits_of(value@));
    let m = digits.unicode_len();
    if m == 0 {
        return None;
    }
    let mut number: u32 = 0;
    let mut i: usize = 0;
    while i < m
        invariant
            m == digits@.len(),
            digits.is_ascii(),
            digits@ == digits_of(value@),
            hi < NUMBER_CAP,
            i <= m,
            all_digits(digits@.subrange(0, i as int)),
            number <= NUMBER_CAP,
            number < NUMBER_CAP ==> number == decimal(digits@.subrange(0, i as int)),
            number == NUMBER_CAP ==> decimal(digits@.subrange(0, i as int)) >= NUMBER_CAP,
        decreases m - i,
    {
        let b = digits.get_ascii(i);
        assert(b as char == digits@[i as int]);
        if !byte_is_digit(b) {
            return None;
        }
        proof {
            let before = digits@.subrange(0, i as int);
            let after = digits@.subrange(0, i as int + 1);
            assert(after.drop_last() =~= before);
            assert(after.last() == digits@[i as int]);
            assert forall|j: int| 0 <= j < after.len() implies is_digit(#[trigger] after[j]) by {
                if j < i {
                    assert(before[j] == after[j]);
                }
            }
            lemma_decimal_step(after);
        }
        let next: u32 = number * 10 + (b - 48) as u32;
        number = if next >= NUMBER_CAP {
            NUMBER_CAP
        } else {
            next
        };
        i += 1;
    }
    assert(digits@.subrange(0, m as int) =~= digits@);
    if lo <= number && number <= hi {
        Some(number)
    } else {
        None
    }
}

/// Whether two texts are the same.
fn same_text(a: &str, b: &str) -> (r: bool)
    ensures
        r == (a@ == b@),
{
    let x = a.to_owned();
    let y = b.to_owned();
    x == y
}

/// A capital letter as its small letter, any other character as itself.
pub open spec fn lower_char(c: char) -> char {
    if is_upper(c) {
        ((c as u8) + 32) as char
    } else {
        c
    }
}

/// A text with its capital letters made small.
pub open spec fn lower(s: Seq<char>) -> Seq<char> {
    Seq::new(s.len(), |i: int| lower_char(s[i]))
}

/// Whether `value`, with its capital letters made small, is `word`.
fn same_word(value: &str, word: &str) -> (r: bool)
    requires
        value.is_ascii(),
    ensures
        r == (lower(value@) == word@),
{
    let n = value.unicode_len();
    if word.unicode_len() != n {
        return false;
    }
    let mut i: usize = 0;
    while i < n
        invariant
            n == value@.len(),
            n == word@.len(),
            value.is_ascii(),
            i <= n,
            forall|j: int| 0 <= j < i ==> lower_char(value@[j]) == word@[j],
        decreases n - i,
    {
        let b = value.get_ascii(i);
        assert(b as char == value@[i as int]);
        let small: u8 = if byte_is_upper(b) {
            b + 32
        } else {
            b
        };
        let c = word.get_char(i);
        if c as u32 != small as u32 {
            assert(lower(value@)[i as int] != word@[i as int]);
            return false;
        }
        i += 1;
    }
    assert(lower(value@) =~= word@);
    true
}

/// The two families of hashes.
#[derive(Clone, Copy, Debug, PartialEq, Eq, Structural)]
pub enum Family {
    Argon2,
    Pbkdf2,
}

impl Family {
    /// The text that a hash of the family begins with.
    pub open spec fn prefix_spec(self) -> Seq<char> {
        match self {
            Family::Argon2 => "$argon2$"@,
            Family::Pbkdf2 => "$pbkdf2$"@,
        }
    }

    /// The fewest bytes of salt that the family computes with.
    pub open spec fn salt_min_spec(self) -> nat {
        match self {
            Family::Argon2 => 8,
            Family::Pbkdf2 => 4,
        }
    }

    pub fn salt_min(self) -> (n: usize)
        ensures
            n == self.salt_min_spec(),
    {
        match self {
            Family::Argon2 => 8,
            Family::Pbkdf2 => 4,
        }
    }
}

/// The most bytes of salt that either family computes with.
pub const SALT_MAX: usize = 256;

/// The family that a text begins as, if any. Both prefixes are eight
/// characters long.
pub open spec fn family_of(text: Seq<char>) -> Option<Family> {
    if text.len() < 8 {
        None
    } else if text.subrange(0, 8) == Family::Argon2.prefix_spec() {
        Some(Family::Argon2)
    } else if text.subrange(0, 8) == Family::Pbkdf2.prefix_spec() {
        Some(Family::Pbkdf2)
    } else {
        None
    }
}

/// The parameters that say how a password is prepared and which scheme
/// version wrote the hash. They are read when the text is, and a value that
/// is not known makes the hashing crate refuse the text.
pub open spec fn is_general_name(name: Seq<char>) -> bool {
    name == "len-calc"@ || name == "norm"@ || name == "pmax"@ || name == "pmin"@ || name == "ver"@
        || name == "xhmac"@ || name == "xhmac-alg"@
}

/// The parameters that a family computes with.
pub open spec fn is_cost_name(family: Family, name: Seq<char>) -> bool {
    match family {
        Family::Argon2 => name == "passes"@ || name == "mem"@ || name == "lanes"@ || name == "len"@,
        Family::Pbkdf2 => name == "iter"@ || name == "hash"@ || name == "hmac"@,
    }
}

/// The name of a parameter: what stands before its `=`.
pub open spec fn name_of(item: Seq<char>) -> Seq<char> {
    item.subrange(0, find(item, '='))
}

/// The value of a parameter: what stands after its `=`.
pub open spec fn value_of(item: Seq<char>) -> Seq<char> {
    item.subrange(find(item, '=') + 1, item.len() as int)
}

/// One parameter as it is written: a name, `=`, and a value.
pub open spec fn item_ok(item: Seq<char>) -> bool {
    &&& find(item, '=') < item.len()
    &&& name_of(item).len() >= 1
    &&& all_name(name_of(item))
    &&& value_of(item).len() >= 1
    &&& all_value(value_of(item))
}

/// The first parameter of a list that is not empty.
pub open spec fn first_item(list: Seq<char>) -> Seq<char> {
    list.subrange(0, find(list, ','))
}

/// What follows the first parameter of a list and its comma; nothing where
/// no comma follows.
pub open spec fn later_items(list: Seq<char>) -> Seq<char> {
    if find(list, ',') < list.len() {
        list.subrange(find(list, ',') + 1, list.len() as int)
    } else {
        seq![]
    }
}

/// A list of parameters as it is written: none at all, or parameters with a
/// comma after each, which the last may lack.
pub open spec fn list_ok(list: Seq<char>) -> bool
    decreases list.len(),
{
    if list.len() == 0 {
        true
    } else {
        proof {
            lemma_find_range(list, ',');
        }
        item_ok(first_item(list)) && list_ok(later_items(list))
    }
}

/// The value that a list gives a name: that of the last parameter of the
/// name, since a later one replaces an earlier one.
pub open spec fn last_value(list: Seq<char>, name: Seq<char>) -> Option<Seq<char>>
    decreases list.len(),
{
    if list.len() == 0 {
        None
    } else {
        proof {
            lemma_find_range(list, ',');
        }
        match last_value(later_items(list), name) {
            Some(value) => Some(value),
            None => if name_of(first_item(list)) == name {
                Some(value_of(first_item(list)))
            } else {
                None
            },
        }
    }
}

/// Every parameter of the list is a general one or one that the family
/// computes with.
pub open spec fn names_known(family: Family, list: Seq<char>) -> bool
    decreases list.len(),
{
    if list.len() == 0 {
        true
    } else {
        proof {
            lemma_find_range(list, ',');
        }
        let name = name_of(first_item(list));
        (is_general_name(name) || is_cost_name(family, name)) && names_known(
            family,
            later_items(list),
        )
    }
}

/// The list gives `name` no value, or one from `lo` to `hi`.
pub open spec fn cost_in(list: Seq<char>, name: Seq<char>, lo: nat, hi: nat) -> bool {
    last_value(list, name) matches Some(value) ==> number_in(value, lo, hi)
}

/// The number that the list gives `name`, or `default` where it gives none.
pub open spec fn cost_of(list: Seq<char>, name: Seq<char>, default: nat) -> nat {
    match last_value(list, name) {
        Some(value) => number_of(value),
        None => default,
    }
}

/// The most lanes that a memory of 2^`mem` KiB serves, each lane taking
/// 8 KiB, and never more than 128.
pub open spec fn lanes_limit(mem: nat) -> nat {
    if mem <= 7 {
        16
    } else if mem == 8 {
        32
    } else if mem == 9 {
        64
    } else {
        128
    }
}

/// The hash functions that PBKDF2 is keyed with, numbered, by the names they
/// are written under in small or capital letters; `None` for any other text.
pub open spec fn digest_of(value: Seq<char>) -> Option<nat> {
    let word = lower(value);
    if word == "sha1"@ {
        Some(1)
    } else if word == "sha224"@ {
        Some(2)
    } else if word == "sha256"@ {
        Some(3)
    } else if word == "sha384"@ {
        Some(4)
    } else if word == "sha512"@ {
        Some(5)
    } else if word == "sha512-224"@ || word == "sha512t224"@ {
        Some(6)
    } else if word == "sha512-256"@ || word == "sha512t256"@ {
        Some(7)
    } else if word == "sha3-224"@ {
        Some(8)
    } else if word == "sha3-256"@ {
        Some(9)
    } else if word == "sha3-384"@ {
        Some(10)
    } else if word == "sha3-512"@ {
        Some(11)
    } else if word == "keccak224"@ {
        Some(12)
    } else if word == "keccak256"@ {
        Some(13)
    } else if word == "keccak384"@ {
        Some(14)
    } else if word == "keccak512"@ {
        Some(15)
    } else {
        None
    }
}

/// The list gives `name` no value, or the name of a hash function.
pub open spec fn digest_in(list: Seq<char>, name: Seq<char>) -> bool {
    last_value(list, name) matches Some(value) ==> digest_of(value) is Some
}

/// The hash function of PBKDF2 is written under two names, and which of the
/// two is read last is left to chance. A list settles the function where it
/// uses at most one of the names, or gives both the same function.
pub open spec fn digest_settled(list: Seq<char>) -> bool {
    last_value(list, "hash"@) matches Some(a) ==> (last_value(list, "hmac"@) matches Some(b)
        ==> digest_of(a) == digest_of(b))
}

/// The hashing crate can compute a hash with the parameters of the list, and
/// the list leaves nothing to chance. Each cost is the last value of its name
/// and lies in the range of the family; Argon2 must also have memory for its
/// lanes, with 2^12 KiB and 4 lanes where the list names none.
pub open spec fn computable(family: Family, list: Seq<char>) -> bool {
    &&& names_known(family, list)
    &&& match family {
        Family::Argon2 => {
            &&& cost_in(list, "passes"@, 1, 1024)
            &&& cost_in(list, "mem"@, 7, 18)
            &&& cost_in(list, "lanes"@, 1, 128)
            &&& cost_in(list, "len"@, 32, 256)
            &&& cost_of(list, "lanes"@, 4) <= lanes_limit(cost_of(list, "mem"@, 12))
        },
        Family::Pbkdf2 => {
            &&& cost_in(list, "iter"@, 10_000, 200_000)
            &&& digest_in(list, "hash"@)
            &&& digest_in(list, "hmac"@)
            &&& digest_settled(list)
        },
    }
}

/// The bytes that unpadded base64 of `length` characters holds.
pub open spec fn bytes_of(length: nat) -> nat {
    3 * length / 4
}

/// The salt of a text of `length` characters is one that the family computes
/// with.
pub open spec fn salt_fits(family: Family, length: nat) -> bool {
    family.salt_min_spec() <= bytes_of(length) <= SALT_MAX
}

/// The six bits that a character of base64 stands for.
pub open spec fn sextet(c: char) -> int {
    if is_upper(c) {
        c as int - 'A' as int
    } else if is_lower(c) {
        c as int - 'a' as int + 26
    } else if is_digit(c) {
        c as int - '0' as int + 52
    } else if c == '+' {
        62
    } else {
        63
    }
}

/// Unpadded base64 can be decoded: its length is not one over a multiple of
/// four, and the bits of the last character that belong to no byte are zero.
pub open spec fn decodes(text: Seq<char>) -> bool {
    &&& all_b64(text)
    &&& text.len() % 4 != 1
    &&& text.len() % 4 == 2 ==> sextet(text.last()) % 16 == 0
    &&& text.len() % 4 == 3 ==> sextet(text.last()) % 4 == 0
}

/// What follows the eight characters of the family.
pub open spec fn body_of(text: Seq<char>) -> Seq<char> {
    text.subrange(8, text.len() as int)
}

/// The list of parameters of a text: what stands between the family and the
/// next `$`.
pub open spec fn list_of(text: Seq<char>) -> Seq<char> {
    body_of(text).subrange(0, find(body_of(text), '$'))
}

/// What follows the list of parameters and its `$`.
pub open spec fn tail_of(text: Seq<char>) -> Seq<char> {
    body_of(text).subrange(find(body_of(text), '$') + 1, body_of(text).len() as int)
}

/// The salt of a text, as it is written.
pub open spec fn salt_of(text: Seq<char>) -> Seq<char> {
    tail_of(text).subrange(0, find(tail_of(text), '$'))
}

/// The digest of a text, as it is written.
pub open spec fn digest_text_of(text: Seq<char>) -> Seq<char> {
    tail_of(text).subrange(find(tail_of(text), '$') + 1, tail_of(text).len() as int)
}

/// The texts on which the hashing crate computes a hash: those of a family,
/// with a list of parameters, a salt and a digest that can be decoded. On
/// every other text it refuses the text or finds nothing to compare with,
/// and computes nothing.
pub open spec fn is_computed(text: Seq<char>) -> bool {
    &&& is_ascii_chars(text)
    &&& family_of(text) is Some
    &&& find(body_of(text), '$') < body_of(text).len()
    &&& list_ok(list_of(text))
    &&& find(tail_of(text), '$') < tail_of(text).len()
    &&& salt_of(text).len() >= 1
    &&& all_b64(salt_of(text))
    &&& digest_text_of(text).len() >= 1
    &&& decodes(digest_text_of(text))
}

/// The stored hashes that this library hands to the hashing crate: every
/// text but those on which the crate would compute a hash and cannot, or
/// would compute one that depends on chance.
pub open spec fn supported(text: Seq<char>) -> bool {
    is_computed(text) ==> computable(family_of(text)->0, list_of(text)) && salt_fits(
        family_of(text)->0,
        salt_of(text).len(),
    )
}

fn text_is_general_name(name: &str) -> (r: bool)
    ensures
        r == is_general_name(name@),
{
    same_text(name, "len-calc") || same_text(name, "norm") || same_text(name, "pmax") || same_text(
        name,
        "pmin",
    ) || same_text(name, "ver") || same_text(name, "xhmac") || same_text(name, "xhmac-alg")
}

fn text_is_cost_name(family: Family, name: &str) -> (r: bool)
    ensures
        r == is_cost_name(family, name@),
{
    match family {
        Family::Argon2 => same_text(name, "passes") || same_text(name, "mem") || same_text(
            name,
            "lanes",
        ) || same_text(name, "len"),
        Family::Pbkdf2 => same_text(name, "iter") || same_text(name, "hash") || same_text(
            name,
            "hmac",
        ),
    }
}

fn text_item_ok(item: &str) -> (r: bool)
    requires
        item.is_ascii(),
    ensures
        r == item_ok(item@),
{
    let n = item.unicode_len();
    let eq = scan(item, '=');
    if eq >= n {
        return false;
    }
    let name = item.substring_ascii(0, eq);
    let value = item.substring_ascii(eq + 1, n);
    name.unicode_len() >= 1 && text_all_name(name) && value.unicode_len() >= 1 && text_all_value(
        value,
    )
}

/// Splits a list that is not empty into its first parameter and the rest.
fn split_list(list: &str) -> (r: (&str, &str))
    requires
        list.is_ascii(),
        list@.len() > 0,
    ensures
        r.0@ == first_item(list@),
        r.1@ == later_items(list@),
        r.0.is_ascii(),
        r.1.is_ascii(),
        r.1@.len() < list@.len(),
{
    let n = list.unicode_len();
    let comma = scan(list, ',');
    let first = list.substring_ascii(0, comma);
    if comma < n {
        (first, list.substring_ascii(comma + 1, n))
    } else {
        let rest = list.substring_ascii(n, n);
        assert(rest@ =~= Seq::<char>::empty());
        (first, rest)
    }
}

/// Splits a parameter that is written as one into its name and its value.
fn split_item(item: &str) -> (r: (&str, &str))
    requires
        item.is_ascii(),
        item_ok(item@),
    ensures
        r.0@ == name_of(item@),
        r.1@ == value_of(item@),
        r.0.is_ascii(),
        r.1.is_ascii(),
{
    let n = item.unicode_len();
    let eq = scan(item, '=');
    (item.substring_ascii(0, eq), item.substring_ascii(eq + 1, n))
}

fn text_list_ok(list: &str) -> (r: bool)
    requires
        list.is_ascii(),
    ensures
        r == list_ok(list@),
{
    let mut rest = list;
    while rest.unicode_len() > 0
        invariant
            rest.is_ascii(),
            list_ok(list@) == list_ok(rest@),
        decreases rest@.len(),
    {
        let (first, later) = split_list(rest);
        if !text_item_ok(first) {
            return false;
        }
        rest = later;
    }
    true
}

fn text_names_known(family: Family, list: &str) -> (r: bool)
    requires
        list.is_ascii(),
        list_ok(list@),
    ensures
        r == names_known(family, list@),
{
    let mut rest = list;
    while rest.unicode_len() > 0
        invariant
            rest.is_ascii(),
            list_ok(rest@),
            names_known(family, list@) == names_known(family, rest@),
        decreases rest@.len(),
    {
        let (first, later) = split_list(rest);
        let (name, _) = split_item(first);
        if !(text_is_general_name(name) || text_is_cost_name(family, name)) {
            return false;
        }
        rest = later;
    }
    true
}

/// The view of an optional text.
pub open spec fn text_of(text: Option<&str>) -> Option<Seq<char>> {
    match text {
        Some(s) => Some(s@),
        None => None,
    }
}

/// What `later` and `earlier` give together: the value of `later` where it
/// has one.
pub open spec fn or_earlier(later: Option<Seq<char>>, earlier: Option<Seq<char>>) -> Option<
    Seq<char>,
> {
    match later {
        Some(value) => Some(value),
        None => earlier,
    }
}

fn text_last_value<'a>(list: &'a str, name: &str) -> (r: Option<&'a str>)
    requires
        list.is_ascii(),
        list_ok(list@),
    ensures
        text_of(r) == last_value(list@, name@),
        r matches Some(value) ==> value.is_ascii(),
{
    let mut rest = list;
    let mut found: Option<&'a str> = None;
    while rest.unicode_len() > 0
        invariant
            rest.is_ascii(),
            list_ok(rest@),
            found matches Some(value) ==> value.is_ascii(),
            last_value(list@, name@) == or_earlier(last_value(rest@, name@), text_of(found)),
        decreases rest@.len(),
    {
        let (first, later) = split_list(rest);
        let (key, value) = split_item(first);
        if same_text(key, name) {
            found = Some(value);
        }
        rest = later;
    }
    found
}

/// Reads the cost that a list gives a name: `None` where the value is out of
/// range, else the number, or `default` where the list gives none.
fn text_cost(list: &str, name: &str, lo: u32, hi: u32, default: u32) -> (r: Option<u32>)
    requires
        list.is_ascii(),
        list_ok(list@),
        hi < NUMBER_CAP,
    ensures
        r is Some == cost_in(list@, name@, lo as nat, hi as nat),
        r matches Some(n) ==> n == cost_of(list@, name@, default as nat),
{
    match text_last_value(list, name) {
        None => Some(default),
        Some(value) => text_number_in(value, lo, hi),
    }
}

fn text_digest_of(value: &str) -> (r: Option<u8>)
    requires
        value.is_ascii(),
    ensures
        r is Some == digest_of(value@) is Some,
        r matches Some(n) ==> digest_of(value@) == Some(n as nat),
{
    if same_word(value, "sha1") {
        Some(1)
    } else if same_word(value, "sha224") {
        Some(2)
    } else if same_word(value, "sha256") {
        Some(3)
    } else if same_word(value, "sha384") {
        Some(4)
    } else if same_word(value, "sha512") {
        Some(5)
    } else if same_word(value, "sha512-224") || same_word(value, "sha512t224") {
        Some(6)
    } else if same_word(value, "sha512-256") || same_word(value, "sha512t256") {
        Some(7)
    } else if same_word(value, "sha3-224") {
        Some(8)
    } else if same_word(value, "sha3-256") {
        Some(9)
    } else if same_word(value, "sha3-384") {
        Some(10)
    } else if same_word(value, "sha3-512") {
        Some(11)
    } else if same_word(value, "keccak224") {
        Some(12)
    } else if same_word(value, "keccak256") {
        Some(13)
    } else if same_word(value, "keccak384") {
        Some(14)
    } else if same_word(value, "keccak512") {
        Some(15)
    } else {
        None
    }
}

fn lanes_limit_of(mem: u32) -> (r: u32)
    ensures
        r == lanes_limit(mem as nat),
{
    if mem <= 7 {
        16
    } else if mem == 8 {
        32
    } else if mem == 9 {
        64
    } else {
        128
    }
}

fn text_argon2_computable(list: &str) -> (r: bool)
    requires
        list.is_ascii(),
        list_ok(list@),
        names_known(Family::Argon2, list@),
    ensures
        r == computable(Family::Argon2, list@),
{
    let passes = text_cost(list, "passes", 1, 1024, 3);
    let mem = text_cost(list, "mem", 7, 18, 12);
    let lanes = text_cost(list, "lanes", 1, 128, 4);
    let len = text_cost(list, "len", 32, 256, 128);
    match (passes, mem, lanes, len) {
        (Some(_), Some(m), Some(l), Some(_)) => l <= lanes_limit_of(m),
        _ => false,
    }
}

fn text_pbkdf2_computable(list: &str) -> (r: bool)
    requires
        list.is_ascii(),
        list_ok(list@),
        names_known(Family::Pbkdf2, list@),
    ensures
        r == computable(Family::Pbkdf2, list@),
{
    if text_cost(list, "iter", 10_000, 200_000, 45_000).is_none() {
        return false;
    }
    let by_hash = match text_last_value(list, "hash") {
        None => None,
        Some(value) => match text_digest_of(value) {
            None => { return false; },
            Some(n) => Some(n),
        },
    };
    let by_hmac = match text_last_value(list, "hmac") {
        None => None,
        Some(value) => match text_digest_of(value) {
            None => { return false; },
            Some(n) => Some(n),
        },
    };
    match (by_hash, by_hmac) {
        (Some(a), Some(b)) => a == b,
        _ => true,
    }
}

fn text_computable(family: Family, list: &str) -> (r: bool)
    requires
        list.is_ascii(),
        list_ok(list@),
    ensures
        r == computable(family, list@),
{
    if !text_names_known(family, list) {
        return false;
    }
    match family {
        Family::Argon2 => text_argon2_computable(list),
        Family::Pbkdf2 => text_pbkdf2_computable(list),
    }
}

fn salt_length_fits(family: Family, length: usize) -> (r: bool)
    ensures
        r == salt_fits(family, length as nat),
{
    if length > 342 {
        false
    } else {
        let bytes = 3 * length / 4;
        family.salt_min() <= bytes && bytes <= SALT_MAX
    }
}

fn sextet_of(b: u8) -> (r: u8)
    requires
        is_b64_char(b as char),
    ensures
        r == sextet(b as char),
{
    if byte_is_upper(b) {
        b - 65
    } else if byte_is_lower(b) {
        b - 97 + 26
    } else if byte_is_digit(b) {
        b - 48 + 52
    } else if b == 43 {
        62
    } else {
        63
    }
}

fn text_decodes(text: &str) -> (r: bool)
    requires
        text.is_ascii(),
        text@.len() >= 1,
    ensures
        r == decodes(text@),
{
    if !text_all_b64(text) {
        return false;
    }
    let n = text.unicode_len();
    let b = text.get_ascii(n - 1);
    assert(b as char == text@.last());
    let last = sextet_of(b);
    let over = n % 4;
    if over == 1 {
        false
    } else if over == 2 {
        last % 16 == 0
    } else if over == 3 {
        last % 4 == 0
    } else {
        true
    }
}

fn text_family(text: &str) -> (r: Option<Family>)
    requires
        text.is_ascii(),
    ensures
        r == family_of(text@),
{
    if text.unicode_len() < 8 {
        return None;
    }
    let head = text.substring_ascii(0, 8);
    if same_text(head, "$argon2$") {
        Some(Family::Argon2)
    } else if same_text(head, "$pbkdf2$") {
        Some(Family::Pbkdf2)
    } else {
        None
    }
}

/// Tells whether a stored hash is one that this library hands to the hashing
/// crate.
pub fn is_supported(text: &str) -> (r: bool)
    ensures
        r == supported(text@),
{
    if !text.is_ascii() {
        return true;
    }
    let family = match text_family(text) {
        Some(family) => family,
        None => { return true; },
    };
    let body = text.substring_ascii(8, text.unicode_len());
    let m = body.unicode_len();
    let cut = scan(body, '$');
    if cut >= m {
        return true;
    }
    let list = body.substring_ascii(0, cut);
    if !text_list_ok(list) {
        return true;
    }
    let tail = body.substring_ascii(cut + 1, m);
    let t = tail.unicode_len();
    let cut2 = scan(tail, '$');
    if cut2 >= t {
        return true;
    }
    let salt = tail.substring_ascii(0, cut2);
    let digest = tail.substring_ascii(cut2 + 1, t);
    if cut2 < 1 || !text_all_b64(salt) || digest.unicode_len() < 1 || !text_decodes(digest) {
        return true;
    }
    text_computable(family, list) && salt_length_fits(family, cut2)
}

} // verus!
