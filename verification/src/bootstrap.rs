//! The engine installer's decision logic: whether an installed engine
//! build needs updating, and whether a downloaded archive matches its
//! published digest.  The downloading and unpacking themselves are
//! platform work; this module holds the decisions they rely on.

use sha2::Digest;

use vstd::prelude::*;

use crate::utils::is_dec_digit;

verus! {

/// Errors of the installer's decision logic.
#[derive(Clone, Debug, PartialEq)]
pub enum ObsBootstrapError {
    /// A catch-all failure with its description.
    GeneralError(String),
    /// Downloaded material had an unexpected shape.
    InvalidFormatError(String),
    /// A version string could not be read as `major.minor.patch`.
    VersionError(String),
    /// The downloaded archive's digest did not match the published one.
    HashMismatchError,
}

/// The numeric value of a decimal digit character.
pub open spec fn digit_val(c: char) -> int {
    if c == '0' {
        0
    } else if c == '1' {
        1
    } else if c == '2' {
        2
    } else if c == '3' {
        3
    } else if c == '4' {
        4
    } else if c == '5' {
        5
    } else if c == '6' {
        6
    } else if c == '7' {
        7
    } else if c == '8' {
        8
    } else {
        9
    }
}

/// Nonempty and all decimal digits.
pub open spec fn is_digit_seq(s: Seq<char>) -> bool {
    s.len() > 0 && forall|i: int| 0 <= i < s.len() ==> is_dec_digit(#[trigger] s[i])
}

/// The number a digit sequence denotes.
pub open spec fn dec_value(s: Seq<char>) -> int
    decreases s.len(),
{
    if s.len() == 0 {
        0
    } else {
        dec_value(s.drop_last()) * 10 + digit_val(s.last())
    }
}

/// The text has the shape `major.minor.patch` with nonempty decimal
/// segments.
pub open spec fn version_wf(s: Seq<char>) -> bool {
    exists|i: int, j: int| #![auto] version_split_at(s, i, j)
}

/// Positions `i < j` split the text into three digit segments around two
/// dots.
pub open spec fn version_split_at(s: Seq<char>, i: int, j: int) -> bool {
    &&& 0 < i
    &&& i + 1 < j
    &&& j + 1 < s.len()
    &&& s[i] == '.'
    &&& s[j] == '.'
    &&& is_digit_seq(s.subrange(0, i))
    &&& is_digit_seq(s.subrange(i + 1, j))
    &&& is_digit_seq(s.subrange(j + 1, s.len() as int))
}

/// An installed engine needs updating when its major or minor version
/// differs from the library's, or its patch level is older.
pub open spec fn needs_update(major: int, minor: int, patch: int, cur_major: u64, cur_minor: u64, cur_patch: u64) -> bool {
    major != cur_major || minor != cur_minor || patch < cur_patch
}

/// Decides from an installed engine's version text whether it must be
/// replaced, against the version this library was built for.  The text
/// must read `major.minor.patch` in decimal with every segment fitting an
/// unsigned 64-bit number; anything else is a `VersionError`.
pub fn should_update(version_str: &str, cur_major: u64, cur_minor: u64, cur_patch: u64) -> (r:
    Result<bool, ObsBootstrapError>)
    ensures
        !version_wf(version_str@) ==> (r matches Err(e) && e is VersionError),
        forall|i: int, j: int|
            version_split_at(version_str@, i, j) ==> ({
                let s = version_str@;
                let major = dec_value(s.subrange(0, i));
                let minor = dec_value(s.subrange(i + 1, j));
                let patch = dec_value(s.subrange(j + 1, s.len() as int));
                if major <= u64::MAX && minor <= u64::MAX && patch <= u64::MAX {
                    r == Ok::<bool, ObsBootstrapError>(
                        needs_update(major, minor, patch, cur_major, cur_minor, cur_patch),
                    )
                } else {
                    r matches Err(e) && e is VersionError
                }
            }),
{
    let len = version_str.unicode_len();
    let mut first_dot: usize = 0;
    let mut second_dot: usize = 0;
    let mut dots: usize = 0;
    let mut k: usize = 0;
    while k < len
        invariant
            len == version_str@.len(),
            k <= len,
            dots <= 2,
            dots >= 1 ==> first_dot < k && version_str@[first_dot as int] == '.',
            dots >= 2 ==> second_dot < k && first_dot < second_dot && version_str@[second_dot as int]
                == '.',
            forall|t: int|
                0 <= t < k && #[trigger] version_str@[t] == '.' ==> (dots >= 1 && t == first_dot) || (
                dots >= 2 && t == second_dot),
            dots == 0 ==> forall|t: int| 0 <= t < k ==> #[trigger] version_str@[t] != '.',
        decreases len - k,
    {
        let c = version_str.get_char(k);
        if c == '.' {
            if dots == 0 {
                first_dot = k;
                dots = 1;
            } else if dots == 1 {
                second_dot = k;
                dots = 2;
            } else {
                proof {
                    lemma_three_dots_not_wf(version_str@, first_dot as int, second_dot as int, k as int);
                }
                return Err(ObsBootstrapError::VersionError(
                    "a version must read major.minor.patch".to_owned(),
                ));
            }
        }
        k = k + 1;
    }
    if dots != 2 {
        proof {
            assert forall|i: int, j: int| !version_split_at(version_str@, i, j) by {
                if version_split_at(version_str@, i, j) {
                    assert(version_str@[i] == '.' && version_str@[j] == '.');
                }
            }
        }
        return Err(ObsBootstrapError::VersionError(
            "a version must read major.minor.patch".to_owned(),
        ));
    }
    let major = parse_decimal(version_str, 0, first_dot);
    let minor = parse_decimal(version_str, first_dot + 1, second_dot);
    let patch = parse_decimal(version_str, second_dot + 1, len);
    proof {
        lemma_unique_split(version_str@, first_dot as int, second_dot as int);
    }
    match (major, minor, patch) {
        (Some(ma), Some(mi), Some(pa)) => {
            proof {
                let sv = version_str@;
                assert(version_split_at(sv, first_dot as int, second_dot as int));
                assert(version_wf(sv));
                lemma_value_nonneg(sv, 0, first_dot as int);
                lemma_value_nonneg(sv, first_dot as int + 1, second_dot as int);
                lemma_value_nonneg(sv, second_dot as int + 1, sv.len() as int);
                assert(ma == dec_value(sv.subrange(0, first_dot as int)));
                assert(mi == dec_value(sv.subrange(first_dot as int + 1, second_dot as int)));
                assert(pa == dec_value(sv.subrange(second_dot as int + 1, sv.len() as int)));
                assert forall|i: int, j: int| version_split_at(sv, i, j) implies i == first_dot
                    && j == second_dot by {}
            }
            Ok(ma != cur_major || mi != cur_minor || pa < cur_patch)
        },
        _ => {
            proof {
                let sv = version_str@;
                assert forall|i: int, j: int| version_split_at(sv, i, j) implies !(dec_value(
                    sv.subrange(0, i),
                ) <= u64::MAX && dec_value(sv.subrange(i + 1, j)) <= u64::MAX && dec_value(
                    sv.subrange(j + 1, sv.len() as int),
                ) <= u64::MAX) by {
                    assert(i == first_dot && j == second_dot);
                    assert(is_digit_seq(sv.subrange(0, i)));
                    assert(is_digit_seq(sv.subrange(i + 1, j)));
                    assert(is_digit_seq(sv.subrange(j + 1, sv.len() as int)));
                }
            }
            Err(ObsBootstrapError::VersionError(
                "a version segment is not an unsigned decimal number".to_owned(),
            ))
        },
    }
}

/// Three dots leave no valid split.
proof fn lemma_three_dots_not_wf(s: Seq<char>, a: int, b: int, c: int)
    requires
        0 <= a < b < c < s.len(),
        s[a] == '.',
        s[b] == '.',
        s[c] == '.',
    ensures
        !version_wf(s),
{
    assert forall|i: int, j: int| !version_split_at(s, i, j) by {
        if version_split_at(s, i, j) {
            assert(is_digit_seq(s.subrange(0, i)));
            assert(is_digit_seq(s.subrange(i + 1, j)));
            assert(is_digit_seq(s.subrange(j + 1, s.len() as int)));
            if a != i && a != j {
                lemma_dot_in_segment(s, i, j, a);
            } else if b != i && b != j {
                lemma_dot_in_segment(s, i, j, b);
            } else {
                lemma_dot_in_segment(s, i, j, c);
            }
        }
    }
}

/// A dot at any position other than the two split points rules the split
/// out: every segment holds digits only.
proof fn lemma_dot_in_segment(s: Seq<char>, i: int, j: int, d: int)
    requires
        0 <= d < s.len(),
        s[d] == '.',
        d != i,
        d != j,
    ensures
        !version_split_at(s, i, j),
{
    if version_split_at(s, i, j) {
        if d < i {
            assert(s.subrange(0, i)[d] == '.');
            assert(is_dec_digit(s.subrange(0, i)[d]));
        } else if d < j {
            assert(s.subrange(i + 1, j)[d - (i + 1)] == '.');
            assert(is_dec_digit(s.subrange(i + 1, j)[d - (i + 1)]));
        } else {
            assert(s.subrange(j + 1, s.len() as int)[d - (j + 1)] == '.');
            assert(is_dec_digit(s.subrange(j + 1, s.len() as int)[d - (j + 1)]));
        }
    }
}

/// When the only dots sit at the found positions, any valid split uses
/// exactly them.
proof fn lemma_unique_split(s: Seq<char>, a: int, b: int)
    requires
        0 <= a < b < s.len(),
        s[a] == '.',
        s[b] == '.',
        forall|t: int| 0 <= t < s.len() && #[trigger] s[t] == '.' ==> t == a || t == b,
    ensures
        forall|i: int, j: int| version_split_at(s, i, j) ==> i == a && j == b,
{
    assert forall|i: int, j: int| version_split_at(s, i, j) implies i == a && j == b by {
        assert(s[i] == '.' && s[j] == '.');
        if i == b {
            assert(a < i);
            lemma_dot_in_segment(s, i, j, a);
        } else if j == a {
            assert(b > j);
            lemma_dot_in_segment(s, i, j, b);
        }
    }
}

/// Parses the decimal number in `s[from..to]`; `None` when the range is
/// empty, holds a non-digit, or does not fit an unsigned 64-bit number.
fn parse_decimal(s: &str, from: usize, to: usize) -> (r: Option<u64>)
    requires
        from <= to <= s@.len(),
    ensures
        ({
            let seg = s@.subrange(from as int, to as int);
            if is_digit_seq(seg) && dec_value(seg) <= u64::MAX {
                r == Some((dec_value(seg)) as u64)
            } else {
                r is None
            }
        }),
{
    if from == to {
        proof {
            assert(!is_digit_seq(s@.subrange(from as int, to as int)));
        }
        return None;
    }
    let mut value: u64 = 0;
    let mut k = from;
    proof {
        assert(s@.subrange(from as int, from as int) =~= Seq::<char>::empty());
    }
    while k < to
        invariant
            from <= k <= to <= s@.len(),
            forall|t: int|
                from <= t < k ==> is_dec_digit(#[trigger] s@[t]),
            value == dec_value(s@.subrange(from as int, k as int)),
        decreases to - k,
    {
        let c = s.get_char(k);
        let d: u64 = if c == '0' {
            0
        } else if c == '1' {
            1
        } else if c == '2' {
            2
        } else if c == '3' {
            3
        } else if c == '4' {
            4
        } else if c == '5' {
            5
        } else if c == '6' {
            6
        } else if c == '7' {
            7
        } else if c == '8' {
            8
        } else if c == '9' {
            9
        } else {
            proof {
                assert(!is_dec_digit(s@[k as int]));
                assert(s@.subrange(from as int, to as int)[k - from] == s@[k as int]);
            }
            return None;
        };
        if value > (u64::MAX - d) / 10 {
            proof {
                lemma_prefix_value_grows(s@, from as int, k as int, to as int);
            }
            return None;
        }
        proof {
            assert(s@.subrange(from as int, k + 1).drop_last() =~= s@.subrange(
                from as int,
                k as int,
            ));
            assert(s@.subrange(from as int, k + 1).last() == s@[k as int]);
            assert(d == digit_val(s@[k as int]));
        }
        value = value * 10 + d;
        k = k + 1;
    }
    proof {
        assert(s@.subrange(from as int, to as int) =~= s@.subrange(from as int, k as int));
    }
    Some(value)
}

/// A digit sequence's value only grows as it gets longer.
proof fn lemma_prefix_value_grows(s: Seq<char>, from: int, k: int, to: int)
    requires
        0 <= from <= k < to <= s.len(),
        forall|t: int| from <= t < k ==> is_dec_digit(#[trigger] s[t]),
        dec_value(s.subrange(from, k)) * 10 + digit_val(s[k]) > u64::MAX,
    ensures
        is_digit_seq(s.subrange(from, to)) ==> dec_value(s.subrange(from, to)) > u64::MAX,
{
    if is_digit_seq(s.subrange(from, to)) {
        assert forall|t: int| from <= t < to implies is_dec_digit(#[trigger] s[t]) by {
            assert(s.subrange(from, to)[t - from] == s[t]);
        }
        lemma_value_monotone(s, from, k + 1, to);
        assert(s.subrange(from, k + 1).drop_last() =~= s.subrange(from, k));
        assert(s.subrange(from, k + 1).last() == s[k]);
    }
}

/// The value of a longer digit prefix is at least the shorter one's.
proof fn lemma_value_monotone(s: Seq<char>, from: int, mid: int, to: int)
    requires
        0 <= from <= mid <= to <= s.len(),
        forall|t: int| from <= t < to ==> is_dec_digit(#[trigger] s[t]),
    ensures
        dec_value(s.subrange(from, to)) >= dec_value(s.subrange(from, mid)),
        dec_value(s.subrange(from, mid)) >= 0,
    decreases to - mid,
{
    if mid == to {
        lemma_value_nonneg(s, from, mid);
    } else {
        lemma_value_monotone(s, from, mid + 1, to);
        assert(s.subrange(from, mid + 1).drop_last() =~= s.subrange(from, mid));
        assert(s.subrange(from, mid + 1).last() == s[mid]);
        lemma_value_nonneg(s, from, mid);
    }
}

/// Digit values are never negative.
proof fn lemma_value_nonneg(s: Seq<char>, from: int, to: int)
    requires
        0 <= from <= to <= s.len(),
    ensures
        dec_value(s.subrange(from, to)) >= 0,
    decreases to - from,
{
    if to > from {
        lemma_value_nonneg(s, from, to - 1);
        assert(s.subrange(from, to).drop_last() =~= s.subrange(from, to - 1));
        assert(digit_val(s.subrange(from, to).last()) >= 0);
    } else {
        assert(s.subrange(from, to) =~= Seq::<char>::empty());
    }
}

/// The digest SHA-256 assigns to a byte sequence.  The algorithm itself is
/// the sha2 crate's; only its determinism and output length are relied on
/// here.
pub uninterp spec fn sha256_of(data: Seq<u8>) -> Seq<u8>;

/// Relies on sha2's `Sha256::digest`: the digest is a function of the
/// input bytes alone and is 32 bytes long.
#[verifier::external_body]
fn sha256_digest(data: &Vec<u8>) -> (r: Vec<u8>)
    ensures
        r@ == sha256_of(data@),
        r@.len() == 32,
{
    sha2::Sha256::digest(data.as_slice()).to_vec()
}

/// The character is a hexadecimal digit.
pub open spec fn is_hex_digit(c: char) -> bool {
    is_dec_digit(c) || c == 'a' || c == 'b' || c == 'c' || c == 'd' || c == 'e' || c == 'f' || c
        == 'A' || c == 'B' || c == 'C' || c == 'D' || c == 'E' || c == 'F'
}

/// The numeric value of a hexadecimal digit character.
pub open spec fn hex_val(c: char) -> int {
    if is_dec_digit(c) {
        digit_val(c)
    } else if c == 'a' || c == 'A' {
        10
    } else if c == 'b' || c == 'B' {
        11
    } else if c == 'c' || c == 'C' {
        12
    } else if c == 'd' || c == 'D' {
        13
    } else if c == 'e' || c == 'E' {
        14
    } else {
        15
    }
}

/// An even number of hexadecimal digits.
pub open spec fn valid_hex(s: Seq<char>) -> bool {
    s.len() % 2 == 0 && forall|i: int| 0 <= i < s.len() ==> is_hex_digit(#[trigger] s[i])
}

/// The bytes a hexadecimal text denotes, one byte per digit pair.
pub open spec fn hex_decoded(s: Seq<char>) -> Seq<u8>
    decreases s.len(),
{
    if s.len() < 2 {
        Seq::empty()
    } else {
        seq![(hex_val(s[0]) * 16 + hex_val(s[1])) as u8] + hex_decoded(s.skip(2))
    }
}

/// Relies on hex::decode: it accepts exactly an even number of hex digits,
/// upper or lower case, and decodes each pair into one byte, high digit
/// first.
#[verifier::external_body]
fn hex_decode(s: &str) -> (r: Option<Vec<u8>>)
    ensures
        r is Some <==> valid_hex(s@),
        r matches Some(b) ==> b@ == hex_decoded(s@),
{
    hex::decode(s).ok()
}

/// Compares two byte vectors.
fn bytes_eq(a: &Vec<u8>, b: &Vec<u8>) -> (r: bool)
    ensures
        r == (a@ == b@),
{
    if a.len() != b.len() {
        return false;
    }
    let mut i: usize = 0;
    while i < a.len()
        invariant
            a@.len() == b@.len(),
            i <= a@.len(),
            forall|k: int| 0 <= k < i ==> a@[k] == b@[k],
        decreases a@.len() - i,
    {
        if a[i] != b[i] {
            return false;
        }
        i = i + 1;
    }
    proof {
        assert(a@ =~= b@);
    }
    true
}

/// Whether a downloaded archive matches its published digest: the SHA-256
/// of the bytes must equal the bytes the hexadecimal digest text denotes.
/// A digest text that is not valid hexadecimal matches nothing.
pub fn verify_archive_digest(data: &Vec<u8>, expected_hex: &str) -> (r: bool)
    ensures
        r == (valid_hex(expected_hex@) && sha256_of(data@) == hex_decoded(expected_hex@)),
{
    let digest = sha256_digest(data);
    match hex_decode(expected_hex) {
        None => false,
        Some(expected) => bytes_eq(&digest, &expected),
    }
}

} // verus!
