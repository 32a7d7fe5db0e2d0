//! Row keys of the `blocks` and `tx-by-addr` tables.
//!
//! A slot is written as sixteen lower-case hexadecimal digits, so that row keys
//! sort as slots do. The `tx-by-addr` table stores the complement of the slot,
//! so that a forward scan meets the newest slot first. The salted form of a
//! `blocks` key puts a prefix of the MD5 digest of the plain key in front of it.

use vstd::prelude::*;
use vstd::string::*;

verus! {

/// A position in the ledger.
pub type Slot = u64;

/// Number of hexadecimal digits in the key of a slot.
pub const SLOT_KEY_LEN: usize = 16;

/// Number of digest bytes that a salted key starts with, two digits each.
pub const SALT_BYTES: usize = 5;

/// The lower-case hexadecimal digit of a value below sixteen.
pub open spec fn hex_digit(d: int) -> char {
    if d < 10 {
        (48 + d) as char
    } else {
        (87 + d) as char
    }
}

/// `n` modulo `16^width`, written with exactly `width` lower-case hexadecimal
/// digits, most significant first.
pub open spec fn hex_digits(n: nat, width: nat) -> Seq<char>
    decreases width,
{
    if width == 0 {
        Seq::empty()
    } else {
        hex_digits(n / 16, (width - 1) as nat).push(hex_digit((n % 16) as int))
    }
}

/// Two digits for each byte, in order.
pub open spec fn hex_of_bytes(bytes: Seq<u8>) -> Seq<char>
    decreases bytes.len(),
{
    if bytes.len() == 0 {
        Seq::empty()
    } else {
        hex_of_bytes(bytes.drop_last()) + hex_digits(bytes.last() as nat, 2)
    }
}

/// The key of a slot: its sixteen hexadecimal digits.
pub open spec fn slot_key(slot: Slot) -> Seq<char> {
    hex_digits(slot as nat, 16)
}

/// The key of a slot in the `tx-by-addr` table: the key of its complement.
pub open spec fn tx_by_addr_slot_key(slot: Slot) -> Seq<char> {
    slot_key(!slot)
}

/// The value of a hexadecimal digit of either case; `None` for any other character.
pub open spec fn hex_value(c: char) -> Option<int> {
    let v = c as int;
    if 48 <= v <= 57 {
        Some(v - 48)
    } else if 97 <= v <= 102 {
        Some(v - 87)
    } else if 65 <= v <= 70 {
        Some(v - 55)
    } else {
        None
    }
}

/// Every character is a hexadecimal digit.
pub open spec fn all_hex(s: Seq<char>) -> bool {
    forall|i: int| 0 <= i < s.len() ==> (#[trigger] hex_value(s[i])) is Some
}

/// The number that a sequence of hexadecimal digits denotes.
pub open spec fn hex_number(s: Seq<char>) -> nat
    decreases s.len(),
{
    if s.len() == 0 {
        0
    } else {
        match hex_value(s.last()) {
            Some(v) => hex_number(s.drop_last()) * 16 + v as nat,
            None => hex_number(s.drop_last()) * 16,
        }
    }
}

/// The slot that a key denotes: the key is one or more hexadecimal digits,
/// without sign or blank, and their number fits in 64 bits.
pub open spec fn key_slot(key: Seq<char>) -> Option<Slot> {
    if key.len() > 0 && all_hex(key) && hex_number(key) <= u64::MAX {
        Some(hex_number(key) as u64)
    } else {
        None
    }
}

/// `a` comes before `b` in the order of strings: at the first place where they
/// differ `a` has the smaller character, or `a` is a proper prefix of `b`.
pub open spec fn lex_lt(a: Seq<char>, b: Seq<char>) -> bool {
    exists|k: int| #[trigger] lex_lt_at(a, b, k)
}

/// `a` and `b` agree before position `k`, and `a` is smaller there.
pub open spec fn lex_lt_at(a: Seq<char>, b: Seq<char>, k: int) -> bool {
    &&& 0 <= k <= a.len()
    &&& k < b.len()
    &&& a.subrange(0, k) == b.subrange(0, k)
    &&& (k < a.len() ==> (a[k] as int) < (b[k] as int))
}

/// `16^width`.
pub open spec fn pow16(width: nat) -> nat
    decreases width,
{
    if width == 0 {
        1
    } else {
        16 * pow16((width - 1) as nat)
    }
}

/// The MD5 digest of a byte string, as the `md5` crate computes it.
pub uninterp spec fn md5_digest(data: Seq<u8>) -> Seq<u8>;

/// The key of a slot in the `blocks` table. The salted key starts with the
/// first ten hexadecimal digits of the MD5 digest of the plain key.
pub open spec fn blocks_key(slot: Slot, salted: bool) -> Seq<char> {
    if salted {
        salted_key(md5_digest(vstd::utf8::encode_utf8(slot_key(slot))), slot_key(slot))
    } else {
        slot_key(slot)
    }
}

/// A plain key behind the salt that a digest gives.
pub open spec fn salted_key(digest: Seq<u8>, plain: Seq<char>) -> Seq<char> {
    hex_of_bytes(digest.subrange(0, SALT_BYTES as int)) + plain
}

/// Bytes are written with two digits each.
pub proof fn lemma_hex_of_bytes_len(bytes: Seq<u8>)
    ensures
        hex_of_bytes(bytes).len() == 2 * bytes.len(),
    decreases bytes.len(),
{
    if bytes.len() > 0 {
        lemma_hex_of_bytes_len(bytes.drop_last());
        lemma_hex_digits_len(bytes.last() as nat, 2);
    }
}

/// A salted key has 26 characters: the ten digits of the salt, then the
/// sixteen of the plain key.
pub proof fn lemma_salted_key_parts(digest: Seq<u8>, slot: Slot)
    requires
        digest.len() >= SALT_BYTES,
    ensures
        salted_key(digest, slot_key(slot)).len() == 26,
        salted_key(digest, slot_key(slot)).subrange(0, 10) == hex_of_bytes(
            digest.subrange(0, SALT_BYTES as int),
        ),
        salted_key(digest, slot_key(slot)).subrange(10, 26) == slot_key(slot),
{
    let salt = hex_of_bytes(digest.subrange(0, SALT_BYTES as int));
    lemma_hex_of_bytes_len(digest.subrange(0, SALT_BYTES as int));
    lemma_hex_digits_len(slot as nat, 16);
    assert((salt + slot_key(slot)).subrange(0, 10) =~= salt);
    assert((salt + slot_key(slot)).subrange(10, 26) =~= slot_key(slot));
}

/// A number is written with as many digits as were asked for.
pub proof fn lemma_hex_digits_len(n: nat, width: nat)
    ensures
        hex_digits(n, width).len() == width,
    decreases width,
{
    if width > 0 {
        lemma_hex_digits_len(n / 16, (width - 1) as nat);
    }
}

/// A digit has the value that it was written for.
proof fn lemma_hex_digit_value(d: int)
    requires
        0 <= d < 16,
    ensures
        hex_value(hex_digit(d)) == Some(d),
        48 <= hex_digit(d) as int <= 102,
{
}

/// Nothing but digits is written.
proof fn lemma_hex_digits_all_hex(n: nat, width: nat)
    ensures
        all_hex(hex_digits(n, width)),
    decreases width,
{
    if width > 0 {
        let shorter = hex_digits(n / 16, (width - 1) as nat);
        lemma_hex_digits_all_hex(n / 16, (width - 1) as nat);
        lemma_hex_digit_value((n % 16) as int);
        let s = hex_digits(n, width);
        assert forall|i: int| 0 <= i < s.len() implies (#[trigger] hex_value(s[i])) is Some by {
            if i < shorter.len() {
                assert(s[i] == shorter[i]);
            }
        }
    }
}

/// A number that fits in its digits is the number that they denote.
proof fn lemma_hex_digits_number(n: nat, width: nat)
    requires
        n < pow16(width),
    ensures
        hex_number(hex_digits(n, width)) == n,
    decreases width,
{
    if width > 0 {
        let shorter = hex_digits(n / 16, (width - 1) as nat);
        let s = hex_digits(n, width);
        lemma_hex_digits_number(n / 16, (width - 1) as nat);
        lemma_hex_digit_value((n % 16) as int);
        assert(s.drop_last() == shorter);
        assert(s.last() == hex_digit((n % 16) as int));
    }
}

/// Sixteen digits hold 64 bits, two digits hold a byte.
proof fn lemma_pow16_of_16()
    ensures
        pow16(16) == 0x1_0000_0000_0000_0000,
        pow16(2) == 256,
{
    reveal_with_fuel(pow16, 17);
}

/// Of two numbers that fit in their digits the smaller is written first
/// in the order of strings.
proof fn lemma_hex_digits_order(a: nat, b: nat, width: nat)
    requires
        a < b,
        b < pow16(width),
    ensures
        lex_lt(hex_digits(a, width), hex_digits(b, width)),
    decreases width,
{
    let da = hex_digits(a, width);
    let db = hex_digits(b, width);
    lemma_hex_digits_len(a, width);
    lemma_hex_digits_len(b, width);
    if width > 0 {
        let w = (width - 1) as nat;
        let pa = hex_digits(a / 16, w);
        let pb = hex_digits(b / 16, w);
        lemma_hex_digits_len(a / 16, w);
        lemma_hex_digits_len(b / 16, w);
        if a / 16 < b / 16 {
            lemma_hex_digits_order(a / 16, b / 16, w);
            let k = choose|k: int| #[trigger] lex_lt_at(pa, pb, k);
            assert(da.subrange(0, k) == pa.subrange(0, k));
            assert(db.subrange(0, k) == pb.subrange(0, k));
            assert(da[k] == pa[k]);
            assert(db[k] == pb[k]);
            assert(lex_lt_at(da, db, k));
        } else {
            assert(a / 16 == b / 16);
            assert(da.subrange(0, w as int) == pa);
            assert(db.subrange(0, w as int) == pb);
            assert(lex_lt_at(da, db, w as int));
        }
    }
}

/// Keys read back as the slots they were made from.
pub proof fn lemma_key_round_trip(slot: Slot)
    ensures
        key_slot(slot_key(slot)) == Some(slot),
        slot_key(slot).len() == 16,
{
    lemma_pow16_of_16();
    lemma_hex_digits_len(slot as nat, 16);
    lemma_hex_digits_all_hex(slot as nat, 16);
    lemma_hex_digits_number(slot as nat, 16);
}

/// The key of the complement reads back as the complement, so that a row key
/// of the `tx-by-addr` table gives its slot back.
pub proof fn lemma_tx_by_addr_key_round_trip(slot: Slot)
    ensures
        key_slot(tx_by_addr_slot_key(slot)) == Some(!slot),
        !(!slot) == slot,
{
    lemma_key_round_trip(!slot);
    assert(!(!slot) == slot) by (bit_vector);
}

/// The order of keys is the order of slots: of two slots the smaller has the
/// key that sorts first, and in the `tx-by-addr` table the key that sorts last.
pub proof fn lemma_key_order(s1: Slot, s2: Slot)
    requires
        s1 < s2,
    ensures
        lex_lt(slot_key(s1), slot_key(s2)),
        lex_lt(tx_by_addr_slot_key(s2), tx_by_addr_slot_key(s1)),
{
    lemma_pow16_of_16();
    lemma_hex_digits_order(s1 as nat, s2 as nat, 16);
    assert(!s2 < !s1) by (bit_vector)
        requires
            s1 < s2,
    ;
    lemma_hex_digits_order((!s2) as nat, (!s1) as nat, 16);
}

/// The digit of a value below sixteen, as a string of one character.
fn hex_digit_str(d: u8) -> (s: &'static str)
    requires
        d < 16,
    ensures
        s@ == seq![hex_digit(d as int)],
{
    proof {
        reveal_strlit("0");
        reveal_strlit("1");
        reveal_strlit("2");
        reveal_strlit("3");
        reveal_strlit("4");
        reveal_strlit("5");
        reveal_strlit("6");
        reveal_strlit("7");
        reveal_strlit("8");
        reveal_strlit("9");
        reveal_strlit("a");
        reveal_strlit("b");
        reveal_strlit("c");
        reveal_strlit("d");
        reveal_strlit("e");
        reveal_strlit("f");
    }
    let s = match d {
        0 => "0",
        1 => "1",
        2 => "2",
        3 => "3",
        4 => "4",
        5 => "5",
        6 => "6",
        7 => "7",
        8 => "8",
        9 => "9",
        10 => "a",
        11 => "b",
        12 => "c",
        13 => "d",
        14 => "e",
        _ => "f",
    };
    assert(s@ =~= seq![hex_digit(d as int)]);
    s
}

/// Appends the `width` low hexadecimal digits of `n` to `out`.
pub fn push_hex(out: &mut String, n: u64, width: usize)
    ensures
        final(out)@ == old(out)@ + hex_digits(n as nat, width as nat),
{
    let mut low: Vec<u8> = Vec::new();
    let mut rest: u64 = n;
    let mut i: usize = 0;
    while i < width
        invariant
            i <= width,
            low.len() == i,
            forall|k: int| 0 <= k < i ==> (#[trigger] low[k]) < 16,
            hex_digits(n as nat, width as nat) == hex_digits(rest as nat, (width - i) as nat)
                + Seq::new(i as nat, |k: int| hex_digit(low[i - 1 - k] as int)),
        decreases width - i,
    {
        let ghost tail = Seq::new(i as nat, |k: int| hex_digit(low[i - 1 - k] as int));
        let d: u8 = (rest % 16) as u8;
        low.push(d);
        let ghost longer = Seq::new((i + 1) as nat, |k: int| hex_digit(low[i - k] as int));
        assert(longer =~= seq![hex_digit(d as int)] + tail);
        assert(hex_digits(rest as nat, (width - i) as nat) + tail =~= hex_digits(
            (rest / 16) as nat,
            (width - i - 1) as nat,
        ) + longer);
        rest = rest / 16;
        i = i + 1;
    }
    let ghost digits = Seq::new(width as nat, |k: int| hex_digit(low[width - 1 - k] as int));
    assert(hex_digits(n as nat, width as nat) =~= digits);
    let mut j: usize = 0;
    while j < width
        invariant
            j <= width,
            low.len() == width,
            forall|k: int| 0 <= k < width ==> (#[trigger] low[k]) < 16,
            digits == Seq::new(width as nat, |k: int| hex_digit(low[width - 1 - k] as int)),
            out@ == old(out)@ + digits.subrange(0, j as int),
        decreases width - j,
    {
        let d = low[width - 1 - j];
        out.append(hex_digit_str(d));
        assert(digits.subrange(0, j + 1) =~= digits.subrange(0, j as int) + seq![
            hex_digit(d as int),
        ]);
        j = j + 1;
    }
    assert(digits.subrange(0, width as int) =~= digits);
}

/// The row key of a slot: sixteen lower-case hexadecimal digits, so that lower
/// slots sort before higher ones.
pub fn slot_to_key(slot: Slot) -> (key: String)
    ensures
        key@ == slot_key(slot),
{
    let mut key = String::new();
    push_hex(&mut key, slot, SLOT_KEY_LEN);
    assert(key@ =~= slot_key(slot));
    key
}

/// The row key of a slot in the `tx-by-addr` table.
pub fn slot_to_tx_by_addr_key(slot: Slot) -> (key: String)
    ensures
        key@ == tx_by_addr_slot_key(slot),
{
    slot_to_key(!slot)
}

/// Calls `md5::compute` and hands out the sixteen bytes of the digest.
#[verifier::external_body]
fn md5_of(data: &[u8]) -> (digest: [u8; 16])
    ensures
        digest@ == md5_digest(data@),
{
    md5::compute(data).0
}

/// Puts the salt that `digest` gives in front of a plain key.
pub fn salt_key(digest: &[u8; 16], plain: &str) -> (key: String)
    ensures
        key@ == salted_key(digest@, plain@),
{
    let mut key = String::new();
    let mut i: usize = 0;
    while i < SALT_BYTES
        invariant
            i <= SALT_BYTES,
            key@ == hex_of_bytes(digest@.subrange(0, i as int)),
        decreases SALT_BYTES - i,
    {
        push_hex(&mut key, digest[i] as u64, 2);
        assert(digest@.subrange(0, i + 1).drop_last() =~= digest@.subrange(0, i as int));
        i = i + 1;
    }
    key.append(plain);
    key
}

/// The row key of a slot in the `blocks` table, salted or plain. The plain
/// key is the key of the slot. The salted key has 26 characters: the first
/// ten hexadecimal digits of the MD5 digest of the plain key, then the
/// plain key.
pub fn slot_to_blocks_key(slot: Slot, use_md5: bool) -> (key: String)
    ensures
        key@ == blocks_key(slot, use_md5),
        !use_md5 ==> key@ == slot_key(slot),
        use_md5 ==> key@.len() == 26 && key@.subrange(10, 26) == slot_key(slot) && key@.subrange(
            0,
            10,
        ) == hex_of_bytes(
            md5_digest(vstd::utf8::encode_utf8(slot_key(slot))).subrange(0, SALT_BYTES as int),
        ),
{
    let slot_hex = slot_to_key(slot);
    if use_md5 {
        let digest = md5_of(slot_hex.as_str().as_bytes());
        proof {
            lemma_salted_key_parts(digest@, slot);
        }
        salt_key(&digest, slot_hex.as_str())
    } else {
        slot_hex
    }
}

/// The value of an ASCII hexadecimal digit.
fn hex_value_of(b: u8) -> (v: Option<u8>)
    requires
        b < 128,
    ensures
        v matches Some(d) ==> hex_value(b as char) == Some(d as int),
        v is None ==> hex_value(b as char) is None,
{
    if 48 <= b && b <= 57 {
        Some(b - 48)
    } else if 97 <= b && b <= 102 {
        Some(b - 87)
    } else if 65 <= b && b <= 70 {
        Some(b - 55)
    } else {
        None
    }
}

/// Digits never denote less than their start does.
proof fn lemma_hex_number_grows(s: Seq<char>, k: int)
    requires
        0 <= k <= s.len(),
    ensures
        hex_number(s.subrange(0, k)) <= hex_number(s),
    decreases s.len() - k,
{
    if k < s.len() {
        lemma_hex_number_grows(s.drop_last(), k);
        assert(s.drop_last().subrange(0, k) == s.subrange(0, k));
    } else {
        assert(s.subrange(0, k) == s);
    }
}

/// Reads a row key back as a slot. A key that is not the hexadecimal form of a
/// 64-bit number gives `None`, so that one bad row does not stop a scan.
pub fn key_to_slot(key: &str) -> (slot: Option<Slot>)
    ensures
        slot == key_slot(key@),
{
    broadcast use is_ascii_spec_bytes;

    if !key.is_ascii() {
        proof {
            let i = choose|i: int|
                0 <= i < key@.len() && !('\0' <= #[trigger] key@[i] <= '\u{7f}');
            assert(hex_value(key@[i]) is None);
        }
        return None;
    }
    let n = key.as_bytes().len();
    proof {
        is_ascii_spec_bytes(key);
        assert(key.spec_bytes().len() == key@.len());
    }
    if n == 0 {
        return None;
    }
    let mut acc: u64 = 0;
    let mut i: usize = 0;
    while i < n
        invariant
            i <= n,
            n == key@.len(),
            key.is_ascii(),
            all_hex(key@.subrange(0, i as int)),
            acc == hex_number(key@.subrange(0, i as int)),
        decreases n - i,
    {
        let b = key.get_ascii(i);
        let ghost prefix = key@.subrange(0, i as int);
        let ghost longer = key@.subrange(0, i + 1);
        assert(longer.drop_last() == prefix);
        assert(longer.last() == key@[i as int]);
        assert(b as char == key@[i as int]);
        match hex_value_of(b) {
            None => {
                assert(!all_hex(key@));
                return None;
            },
            Some(d) => {
                if acc > (u64::MAX - d as u64) / 16 {
                    proof {
                        lemma_hex_number_grows(key@, i + 1);
                    }
                    return None;
                }
                acc = acc * 16 + d as u64;
                assert forall|k: int| 0 <= k < longer.len() implies (#[trigger] hex_value(
                    longer[k],
                )) is Some by {
                    if k < i {
                        assert(longer[k] == prefix[k]);
                    }
                }
            },
        }
        i = i + 1;
    }
    assert(key@.subrange(0, n as int) == key@);
    Some(acc)
}

} // verus!
