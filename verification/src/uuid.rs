//! 128-bit identifiers, their hyphenated text and their 16-byte form.
use vstd::prelude::*;

use crate::text::push_char;

verus! {

/// A 128-bit identifier, as the `uuid` crate's `Uuid` holds it.
#[derive(Clone, Copy, PartialEq, Eq, Structural, Debug, Hash)]
pub struct Uuid(pub u128);

/// 16 to the power of `w`.
pub open spec fn pow16(w: nat) -> nat
    decreases w,
{
    if w == 0 {
        1
    } else {
        16 * pow16((w - 1) as nat)
    }
}

/// The lower-case hexadecimal digit for `d` (0 to 15).
pub open spec fn hex_digit_char(d: int) -> char {
    if d < 10 {
        (48 + d) as char
    } else {
        (87 + d) as char
    }
}

/// The value of a hexadecimal digit, upper or lower case.
pub open spec fn char_hex_value(c: char) -> Option<int> {
    if '0' <= c <= '9' {
        Some(c as int - 48)
    } else if 'a' <= c <= 'f' {
        Some(c as int - 87)
    } else if 'A' <= c <= 'F' {
        Some(c as int - 55)
    } else {
        None
    }
}

/// The number written by hexadecimal digits (0 for none).
pub open spec fn chars_hex_number(s: Seq<char>) -> Option<int>
    decreases s.len(),
{
    if s.len() == 0 {
        Some(0)
    } else {
        match (chars_hex_number(s.drop_last()), char_hex_value(s.last())) {
            (Some(high), Some(low)) => Some(high * 16 + low),
            _ => None,
        }
    }
}

/// The last `width` lower-case hexadecimal digits of `n`.
pub open spec fn hex_fixed(n: nat, width: nat) -> Seq<char>
    decreases width,
{
    if width == 0 {
        seq![]
    } else {
        hex_fixed(n / 16, (width - 1) as nat).push(hex_digit_char((n % 16) as int))
    }
}

/// Whether `i` is the position of a hyphen in hyphenated text.
pub open spec fn is_hyphen_position(i: int) -> bool {
    i == 8 || i == 13 || i == 18 || i == 23
}

/// The hyphenated text of an identifier: 32 lower-case hexadecimal digits
/// grouped 8-4-4-4-12, as `Uuid`'s `Display` writes it.
pub open spec fn uuid_text(u: u128) -> Seq<char> {
    let d = hex_fixed(u as nat, 32);
    d.subrange(0, 8) + seq!['-'] + d.subrange(8, 12) + seq!['-'] + d.subrange(12, 16) + seq!['-']
        + d.subrange(16, 20) + seq!['-'] + d.subrange(20, 32)
}

/// The digits of hyphenated text, hyphens left out.
pub open spec fn hyphenated_digits(s: Seq<char>) -> Seq<char> {
    s.subrange(0, 8) + s.subrange(9, 13) + s.subrange(14, 18) + s.subrange(19, 23) + s.subrange(
        24,
        36,
    )
}

/// Whether `s` is 32 hexadecimal digits (either case) grouped 8-4-4-4-12 by
/// hyphens.
pub open spec fn is_hyphenated_uuid(s: Seq<char>) -> bool {
    &&& s.len() == 36
    &&& forall|i: int| 0 <= i < 36 && is_hyphen_position(i) ==> s[i] == '-'
    &&& forall|i: int| 0 <= i < 36 && !is_hyphen_position(i) ==> #[trigger] char_hex_value(s[i]) is Some
}

/// The identifier written by hyphenated text.
pub open spec fn hyphenated_value(s: Seq<char>) -> int {
    match chars_hex_number(hyphenated_digits(s)) {
        Some(n) => n,
        None => 0,
    }
}

/// What `Uuid::parse_str` gives for a text.
pub uninterp spec fn uuid_parsed(s: Seq<char>) -> Option<u128>;

/// Parses an identifier with `uuid::Uuid::parse_str`. Its documentation
/// promises that hyphenated text in either case is accepted and read as the
/// number its digits write; which other forms it accepts (simple, braced,
/// URN) is left to the name `uuid_parsed`.
#[verifier::external_body]
fn parse_uuid_text(s: &str) -> (r: Option<u128>)
    ensures
        r == uuid_parsed(s@),
        is_hyphenated_uuid(s@) ==> r == Some(hyphenated_value(s@) as u128),
{
    uuid::Uuid::parse_str(s).ok().map(|u| u.as_u128())
}

/// Whether `u` is a version-4 identifier of the RFC 4122 variant: its
/// version nibble (bits 76 to 79) is 4 and its two variant bits (62 and 63)
/// are `10`.
pub open spec fn is_random_uuid(u: u128) -> bool {
    (u >> 76u128) & 0xfu128 == 4 && (u >> 62u128) & 3u128 == 2
}

/// Draws a random identifier with `uuid::Uuid::new_v4`, which sets the
/// version nibble to 4 and the variant bits to those of RFC 4122 and draws
/// the other bits at random.
#[verifier::external_body]
fn random_uuid_value() -> (r: u128)
    ensures
        is_random_uuid(r),
{
    uuid::Uuid::new_v4().as_u128()
}

impl Uuid {
    /// A random version-4 identifier.
    pub fn new_v4() -> (r: Uuid)
        ensures
            is_random_uuid(r.0),
    {
        Uuid(random_uuid_value())
    }

    /// Reads an identifier from its text.
    pub fn parse_str(s: &str) -> (r: Option<Uuid>)
        ensures
            r == (match uuid_parsed(s@) {
                Some(v) => Some(Uuid(v)),
                None => None,
            }),
            is_hyphenated_uuid(s@) ==> r == Some(Uuid(hyphenated_value(s@) as u128)),
            forall|u: u128| s@ == uuid_text(u) ==> r == Some(Uuid(u)),
    {
        proof {
            assert forall|u: u128| s@ == uuid_text(u) implies is_hyphenated_uuid(s@)
                && hyphenated_value(s@) == u as int by {
                lemma_uuid_text_round_trip(u);
            }
        }
        Uuid::from_parsed(parse_uuid_text(s))
    }

    /// The identifier a parsed number stands for, if the text held one.
    pub fn from_parsed(v: Option<u128>) -> (r: Option<Uuid>)
        ensures
            r == (match v {
                Some(v) => Some(Uuid(v)),
                None => None,
            }),
    {
        match v {
            Some(v) => Some(Uuid(v)),
            None => None,
        }
    }

    /// The hyphenated lower-case text of the identifier.
    pub fn to_string(&self) -> (r: String)
        ensures
            r@ == uuid_text(self.0),
    {
        let mut digits: Vec<char> = Vec::new();
        push_hex_fixed(&mut digits, self.0, 32);
        let ghost d = digits@;
        assert(d.len() == 32) by {
            lemma_pow16_32();
            lemma_hex_fixed_reads_back(self.0 as nat, 32);
        }
        let mut r = String::new();
        push_chars(&mut r, &digits, 0, 8);
        push_char(&mut r, '-');
        push_chars(&mut r, &digits, 8, 12);
        push_char(&mut r, '-');
        push_chars(&mut r, &digits, 12, 16);
        push_char(&mut r, '-');
        push_chars(&mut r, &digits, 16, 20);
        push_char(&mut r, '-');
        push_chars(&mut r, &digits, 20, 32);
        assert(r@ =~= uuid_text(self.0));
        r
    }

    /// The identifier as 16 bytes, most significant first.
    pub fn to_bytes(&self) -> (r: Vec<u8>)
        ensures
            r@ == be_bytes(self.0 as nat, 16),
    {
        let mut r: Vec<u8> = Vec::new();
        push_be_bytes(&mut r, self.0, 16);
        assert(r@ =~= be_bytes(self.0 as nat, 16));
        r
    }

    /// Reads an identifier from 16 bytes, most significant first, as
    /// `Uuid::from_slice` does; other lengths are refused.
    pub fn from_slice(bytes: &[u8]) -> (r: Option<Uuid>)
        ensures
            bytes@.len() == 16 ==> r == Some(Uuid(be_value(bytes@) as u128)),
            bytes@.len() != 16 ==> r is None,
    {
        if bytes.len() != 16 {
            return None;
        }
        let mut value: u128 = 0;
        let mut i: usize = 0;
        while i < 16
            invariant
                bytes@.len() == 16,
                0 <= i <= 16,
                value == be_value(bytes@.take(i as int)),
                be_value(bytes@.take(i as int)) < pow256(i as nat),
            decreases 16 - i,
        {
            assert(bytes@.take(i + 1).drop_last() =~= bytes@.take(i as int));
            proof {
                lemma_be_value_step(bytes@.take(i + 1), i as nat);
                lemma_pow256_monotone((i + 1) as nat, 16);
                lemma_pow256_16();
            }
            value = value * 256 + bytes[i] as u128;
            i = i + 1;
        }
        assert(bytes@.take(16) =~= bytes@);
        Some(Uuid(value))
    }
}

/// Appends `chars[from..to]` to `s`.
fn push_chars(s: &mut String, chars: &Vec<char>, from: usize, to: usize)
    requires
        from <= to <= chars@.len(),
    ensures
        final(s)@ == old(s)@ + chars@.subrange(from as int, to as int),
{
    let ghost start = s@;
    let mut i = from;
    while i < to
        invariant
            from <= i <= to <= chars@.len(),
            s@ == start + chars@.subrange(from as int, i as int),
        decreases to - i,
    {
        push_char(s, chars[i]);
        assert(chars@.subrange(from as int, i + 1) =~= chars@.subrange(from as int, i as int).push(
            chars@[i as int],
        ));
        i = i + 1;
    }
}

/// 256 to the power of `n`.
pub open spec fn pow256(n: nat) -> nat
    decreases n,
{
    if n == 0 {
        1
    } else {
        256 * pow256((n - 1) as nat)
    }
}

/// The number written by bytes, most significant first.
pub open spec fn be_value(bytes: Seq<u8>) -> nat
    decreases bytes.len(),
{
    if bytes.len() == 0 {
        0
    } else {
        be_value(bytes.drop_last()) * 256 + bytes.last() as nat
    }
}

/// The last `count` bytes of `n`, most significant first.
pub open spec fn be_bytes(n: nat, count: nat) -> Seq<u8>
    decreases count,
{
    if count == 0 {
        seq![]
    } else {
        be_bytes(n / 256, (count - 1) as nat).push((n % 256) as u8)
    }
}

proof fn lemma_be_value_step(bytes: Seq<u8>, i: nat)
    requires
        bytes.len() == i + 1,
        be_value(bytes.drop_last()) < pow256(i),
    ensures
        be_value(bytes) == be_value(bytes.drop_last()) * 256 + bytes.last(),
        be_value(bytes) < pow256(i + 1),
{
    let high = be_value(bytes.drop_last());
    let low = bytes.last();
    assert(high * 256 + low < pow256(i + 1)) by (nonlinear_arith)
        requires
            high < pow256(i),
            low < 256,
            pow256(i + 1) == 256 * pow256(i),
    ;
}

fn push_be_bytes(r: &mut Vec<u8>, n: u128, count: usize)
    ensures
        final(r)@ == old(r)@ + be_bytes(n as nat, count as nat),
    decreases count,
{
    if count > 0 {
        push_be_bytes(r, n / 256, count - 1);
        r.push((n % 256) as u8);
    }
}

/// The lower-case hexadecimal digit for `d`.
fn hex_digit_of(d: u128) -> (c: char)
    requires
        d < 16,
    ensures
        c == hex_digit_char(d as int),
{
    if d < 10 {
        ((48 + d) as u8) as char
    } else {
        ((87 + d) as u8) as char
    }
}

fn push_hex_fixed(s: &mut Vec<char>, n: u128, width: usize)
    ensures
        final(s)@ == old(s)@ + hex_fixed(n as nat, width as nat),
    decreases width,
{
    if width > 0 {
        push_hex_fixed(s, n / 16, width - 1);
        s.push(hex_digit_of(n % 16));
    }
}

/// 16 to the power of 32 is 2 to the power of 128.
proof fn lemma_pow16_32()
    ensures
        pow16(32) == 0x1_0000_0000_0000_0000_0000_0000_0000_0000,
{
    reveal_with_fuel(pow16, 33);
}

/// 256 to the power of 16 is 2 to the power of 128.
proof fn lemma_pow256_16()
    ensures
        pow256(16) == 0x1_0000_0000_0000_0000_0000_0000_0000_0000,
{
    reveal_with_fuel(pow256, 17);
}

/// Powers of 256 grow with the exponent.
proof fn lemma_pow256_monotone(a: nat, b: nat)
    requires
        a <= b,
    ensures
        pow256(a) <= pow256(b),
    decreases b,
{
    if a < b {
        lemma_pow256_monotone(a, (b - 1) as nat);
    }
}

/// A digit written for a value reads back as that value.
proof fn lemma_hex_digit_char_value(d: int)
    requires
        0 <= d < 16,
    ensures
        char_hex_value(hex_digit_char(d)) == Some(d),
        hex_digit_char(d) != '-',
{
}

/// The digits of `n` below 16 to the power of `width` read back as `n`.
proof fn lemma_hex_fixed_reads_back(n: nat, width: nat)
    requires
        n < pow16(width),
    ensures
        hex_fixed(n, width).len() == width,
        chars_hex_number(hex_fixed(n, width)) == Some(n as int),
        forall|i: int| 0 <= i < width ==> #[trigger] char_hex_value(hex_fixed(n, width)[i]) is Some,
    decreases width,
{
    if width == 0 {
    } else {
        let w = (width - 1) as nat;
        assert(n / 16 < pow16(w)) by (nonlinear_arith)
            requires
                n < pow16(width),
                pow16(width) == 16 * pow16(w),
        ;
        lemma_hex_fixed_reads_back(n / 16, w);
        lemma_hex_digit_char_value((n % 16) as int);
        let s = hex_fixed(n, width);
        assert(s.drop_last() =~= hex_fixed(n / 16, w));
        assert(n == (n / 16) * 16 + n % 16) by (nonlinear_arith);
        assert forall|i: int| 0 <= i < width implies #[trigger] char_hex_value(s[i]) is Some by {
            if i < w {
                assert(s[i] == hex_fixed(n / 16, w)[i]);
            }
        }
    }
}

/// An identifier's hyphenated text is hyphenated text that reads back as
/// the identifier.
pub proof fn lemma_uuid_text_round_trip(u: u128)
    ensures
        is_hyphenated_uuid(uuid_text(u)),
        hyphenated_value(uuid_text(u)) == u as int,
{
    lemma_pow16_32();
    lemma_hex_fixed_reads_back(u as nat, 32);
    let d = hex_fixed(u as nat, 32);
    let s = uuid_text(u);
    assert(hyphenated_digits(s) =~= d);
    assert forall|i: int| 0 <= i < 36 && !is_hyphen_position(i) implies #[trigger] char_hex_value(
        s[i],
    ) is Some by {
        if i < 8 {
            assert(s[i] == d[i]);
        } else if i < 13 {
            assert(s[i] == d[i - 1]);
        } else if i < 18 {
            assert(s[i] == d[i - 2]);
        } else if i < 23 {
            assert(s[i] == d[i - 3]);
        } else {
            assert(s[i] == d[i - 4]);
        }
    }
}

/// The bytes of an identifier read back as the identifier.
pub proof fn lemma_bytes_round_trip(u: u128)
    ensures
        be_bytes(u as nat, 16).len() == 16,
        be_value(be_bytes(u as nat, 16)) == u as nat,
{
    lemma_pow256_16();
    lemma_be_bytes_read_back(u as nat, 16);
}

proof fn lemma_be_bytes_read_back(n: nat, count: nat)
    requires
        n < pow256(count),
    ensures
        be_bytes(n, count).len() == count,
        be_value(be_bytes(n, count)) == n,
    decreases count,
{
    if count > 0 {
        let c = (count - 1) as nat;
        assert(n / 256 < pow256(c)) by (nonlinear_arith)
            requires
                n < pow256(count),
                pow256(count) == 256 * pow256(c),
        ;
        lemma_be_bytes_read_back(n / 256, c);
        let b = be_bytes(n, count);
        assert(b.drop_last() =~= be_bytes(n / 256, c));
        assert(n == (n / 256) * 256 + n % 256) by (nonlinear_arith);
    }
}

/// A database column value holding a 128-bit identifier.
#[derive(Clone, Copy, PartialEq, Eq, Structural, Debug, Hash)]
pub struct SqlUuid(pub Uuid);

impl SqlUuid {
    /// A random version-4 identifier.
    pub fn random() -> (r: SqlUuid)
        ensures
            is_random_uuid(r.0.0),
    {
        SqlUuid(Uuid::new_v4())
    }

    /// The identifier it holds.
    pub fn into_uuid(self) -> (r: Uuid)
        ensures
            r == self.0,
    {
        self.0
    }

    /// The hyphenated text of the identifier.
    pub fn to_string(&self) -> (r: String)
        ensures
            r@ == uuid_text(self.0.0),
    {
        self.0.to_string()
    }

    /// The 16 bytes stored in the database column.
    pub fn to_sql(&self) -> (r: Vec<u8>)
        ensures
            r@ == be_bytes(self.0.0 as nat, 16),
    {
        self.0.to_bytes()
    }

    /// Reads the 16 bytes of a database column; other lengths are refused.
    pub fn from_sql(bytes: &[u8]) -> (r: Option<SqlUuid>)
        ensures
            bytes@.len() == 16 ==> r == Some(SqlUuid(Uuid(be_value(bytes@) as u128))),
            bytes@.len() != 16 ==> r is None,
    {
        match Uuid::from_slice(bytes) {
            Some(u) => Some(SqlUuid(u)),
            None => None,
        }
    }
}

} // verus!
