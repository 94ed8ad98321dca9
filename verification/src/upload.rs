//! Naming of the temporary file that holds one request's upload.
//!
//! Every request stores its upload under a name of its own, derived from the
//! request's identifier, so that no two requests in flight share a file.

use vstd::prelude::*;
use vstd::string::*;

verus! {

/// Number of hexadecimal digits in a file name.
pub const ID_DIGITS: u64 = 16;

/// What every temporary file name starts with.
pub open spec fn temp_prefix() -> Seq<char> {
    "blur_upload_"@
}

/// The `k`-th group of four bits of an identifier, counted from the lowest.
pub open spec fn nibble(id: u64, k: u64) -> u64 {
    (id >> (4 * k) as u64) & 0xf
}

/// The lower-case hexadecimal digit for a value below sixteen.
pub open spec fn hex_char(n: u64) -> char {
    if n == 0 {
        '0'
    } else if n == 1 {
        '1'
    } else if n == 2 {
        '2'
    } else if n == 3 {
        '3'
    } else if n == 4 {
        '4'
    } else if n == 5 {
        '5'
    } else if n == 6 {
        '6'
    } else if n == 7 {
        '7'
    } else if n == 8 {
        '8'
    } else if n == 9 {
        '9'
    } else if n == 10 {
        'a'
    } else if n == 11 {
        'b'
    } else if n == 12 {
        'c'
    } else if n == 13 {
        'd'
    } else if n == 14 {
        'e'
    } else {
        'f'
    }
}

/// All sixteen hexadecimal digits of an identifier, highest first.
pub open spec fn hex_digits(id: u64) -> Seq<char> {
    Seq::new(ID_DIGITS as nat, |i: int| hex_char(nibble(id, (ID_DIGITS - 1 - i) as u64)))
}

/// The name of the temporary file of the request with the given identifier.
pub open spec fn temp_name(request_id: u64) -> Seq<char> {
    temp_prefix() + hex_digits(request_id)
}

fn hex_digit_str(n: u64) -> (digit: &'static str)
    requires
        n < 16,
    ensures
        digit@ == seq![hex_char(n)],
{
    proof {
        reveal_strlit("0");
        reveal_strlit("1");
        reveal_strlit("2");
        reveal_strlit("3");
        reveal_strlit("4");
        reveal_strlit("5");
        reveal_strlit("6");
        reveal_strlit("7");
        reveal_strlit("8");
        reveal_strlit("9");
        reveal_strlit("a");
        reveal_strlit("b");
        reveal_strlit("c");
        reveal_strlit("d");
        reveal_strlit("e");
        reveal_strlit("f");
    }
    let digit = if n == 0 {
        "0"
    } else if n == 1 {
        "1"
    } else if n == 2 {
        "2"
    } else if n == 3 {
        "3"
    } else if n == 4 {
        "4"
    } else if n == 5 {
        "5"
    } else if n == 6 {
        "6"
    } else if n == 7 {
        "7"
    } else if n == 8 {
        "8"
    } else if n == 9 {
        "9"
    } else if n == 10 {
        "a"
    } else if n == 11 {
        "b"
    } else if n == 12 {
        "c"
    } else if n == 13 {
        "d"
    } else if n == 14 {
        "e"
    } else {
        "f"
    };
    assert(digit@ =~= seq![hex_char(n)]);
    digit
}

/// Builds the name of the temporary file of a request.
pub fn temp_file_name(request_id: u64) -> (name: String)
    ensures
        name@ == temp_name(request_id),
{
    let mut name = String::from_str("blur_upload_");
    let mut done: u64 = 0;
    while done < ID_DIGITS
        invariant
            done <= ID_DIGITS,
            name@ == temp_prefix() + hex_digits(request_id).subrange(0, done as int),
        decreases ID_DIGITS - done,
    {
        let k: u64 = ID_DIGITS - 1 - done;
        let shift: u64 = 4 * k;
        let n: u64 = (request_id >> shift) & 0xf;
        assert(n < 16) by (bit_vector)
            requires
                n == (request_id >> shift) & 0xf,
        ;
        let ghost before = name@;
        name.append(hex_digit_str(n));
        proof {
            let digits = hex_digits(request_id);
            assert(digits[done as int] == hex_char(n));
            assert(digits.subrange(0, done + 1) =~= digits.subrange(0, done as int).push(
                hex_char(n),
            ));
            assert(name@ =~= temp_prefix() + digits.subrange(0, done + 1));
        }
        done = done + 1;
    }
    assert(hex_digits(request_id).subrange(0, ID_DIGITS as int) =~= hex_digits(request_id));
    name
}

/// An identifier is determined by its sixteen groups of four bits.
proof fn lemma_nibbles_determine(a: u64, b: u64)
    requires
        forall|k: u64| k < 16 ==> nibble(a, k) == nibble(b, k),
    ensures
        a == b,
{
    assert(nibble(a, 0) == nibble(b, 0));
    assert(nibble(a, 1) == nibble(b, 1));
    assert(nibble(a, 2) == nibble(b, 2));
    assert(nibble(a, 3) == nibble(b, 3));
    assert(nibble(a, 4) == nibble(b, 4));
    assert(nibble(a, 5) == nibble(b, 5));
    assert(nibble(a, 6) == nibble(b, 6));
    assert(nibble(a, 7) == nibble(b, 7));
    assert(nibble(a, 8) == nibble(b, 8));
    assert(nibble(a, 9) == nibble(b, 9));
    assert(nibble(a, 10) == nibble(b, 10));
    assert(nibble(a, 11) == nibble(b, 11));
    assert(nibble(a, 12) == nibble(b, 12));
    assert(nibble(a, 13) == nibble(b, 13));
    assert(nibble(a, 14) == nibble(b, 14));
    assert(nibble(a, 15) == nibble(b, 15));
    assert(a == b) by (bit_vector)
        requires
            (a >> 0u64) & 0xf == (b >> 0u64) & 0xf,
            (a >> 4u64) & 0xf == (b >> 4u64) & 0xf,
            (a >> 8u64) & 0xf == (b >> 8u64) & 0xf,
            (a >> 12u64) & 0xf == (b >> 12u64) & 0xf,
            (a >> 16u64) & 0xf == (b >> 16u64) & 0xf,
            (a >> 20u64) & 0xf == (b >> 20u64) & 0xf,
            (a >> 24u64) & 0xf == (b >> 24u64) & 0xf,
            (a >> 28u64) & 0xf == (b >> 28u64) & 0xf,
            (a >> 32u64) & 0xf == (b >> 32u64) & 0xf,
            (a >> 36u64) & 0xf == (b >> 36u64) & 0xf,
            (a >> 40u64) & 0xf == (b >> 40u64) & 0xf,
            (a >> 44u64) & 0xf == (b >> 44u64) & 0xf,
            (a >> 48u64) & 0xf == (b >> 48u64) & 0xf,
            (a >> 52u64) & 0xf == (b >> 52u64) & 0xf,
            (a >> 56u64) & 0xf == (b >> 56u64) & 0xf,
            (a >> 60u64) & 0xf == (b >> 60u64) & 0xf,
    ;
}

/// Every group of four bits is a value below sixteen.
proof fn lemma_nibble_range(id: u64, k: u64)
    ensures
        nibble(id, k) < 16,
{
    let shift = (4 * k) as u64;
    assert((id >> shift) & 0xf < 16) by (bit_vector);
}

/// True of the characters that a temporary file name is made of: lower-case
/// letters, digits and the underscore.
pub open spec fn plain_char(c: char) -> bool {
    ('a' <= c && c <= 'z') || ('0' <= c && c <= '9') || c == '_'
}

/// A temporary file name is a plain name of twenty-eight characters: it
/// holds no separator and no dot, so it names a file directly inside the
/// directory it is joined to.
pub proof fn lemma_temp_name_is_plain(request_id: u64)
    ensures
        temp_name(request_id).len() == 28,
        forall|i: int| 0 <= i < 28 ==> plain_char(#[trigger] temp_name(request_id)[i]),
{
    reveal_strlit("blur_upload_");
    let prefix = temp_prefix();
    let digits = hex_digits(request_id);
    assert forall|i: int| 0 <= i < 28 implies plain_char(#[trigger] temp_name(request_id)[i]) by {
        if i >= 12 {
            assert(temp_name(request_id)[i] == digits[i - 12]);
        } else {
            assert(temp_name(request_id)[i] == prefix[i]);
        }
    }
}

/// Distinct requests never share a temporary file: two identifiers with the
/// same file name are the same identifier.
pub proof fn lemma_temp_name_injective(a: u64, b: u64)
    requires
        temp_name(a) == temp_name(b),
    ensures
        a == b,
{
    let prefix = temp_prefix();
    assert forall|k: u64| k < 16 implies nibble(a, k) == nibble(b, k) by {
        let i = ID_DIGITS - 1 - k;
        assert(temp_name(a)[prefix.len() + i] == hex_digits(a)[i]);
        assert(temp_name(b)[prefix.len() + i] == hex_digits(b)[i]);
        assert(hex_char(nibble(a, k)) == hex_char(nibble(b, k)));
        lemma_nibble_range(a, k);
        lemma_nibble_range(b, k);
    }
    lemma_nibbles_determine(a, b);
}

} // verus!
