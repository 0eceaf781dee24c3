//! The keys under which the metadata bucket holds claims and link
//! definitions.

use vstd::prelude::*;
use vstd::string::*;
use vstd::utf8::encode_utf8;

verus! {

/// The SHA-256 digest of `data`.
pub uninterp spec fn sha256_of(data: Seq<u8>) -> Seq<u8>;

/// `sha2::Sha256::digest`, from the trait `sha2::Digest`: the SHA-256
/// digest of the bytes, which depends on the bytes alone.
#[verifier::external_body]
fn sha256(data: &[u8]) -> (r: Vec<u8>)
    ensures
        r@ == sha256_of(data@),
{
    <sha2::Sha256 as sha2::Digest>::digest(data).to_vec()
}

/// The upper-case hexadecimal digit of a number below sixteen.
pub open spec fn hex_digit(n: int) -> char {
    if n == 0 {
        '0'
    } else if n == 1 {
        '1'
    } else if n == 2 {
        '2'
    } else if n == 3 {
        '3'
    } else if n == 4 {
        '4'
    } else if n == 5 {
        '5'
    } else if n == 6 {
        '6'
    } else if n == 7 {
        '7'
    } else if n == 8 {
        '8'
    } else if n == 9 {
        '9'
    } else if n == 10 {
        'A'
    } else if n == 11 {
        'B'
    } else if n == 12 {
        'C'
    } else if n == 13 {
        'D'
    } else if n == 14 {
        'E'
    } else {
        'F'
    }
}

/// The bytes written in upper-case hexadecimal, two digits for each.
pub open spec fn upper_hex(bytes: Seq<u8>) -> Seq<char> {
    Seq::new(
        2 * bytes.len(),
        |i: int|
            if i % 2 == 0 {
                hex_digit(bytes[i / 2] as int / 16)
            } else {
                hex_digit(bytes[i / 2] as int % 16)
            },
    )
}

/// The key of the link definition of an actor under a contract and a link
/// name: `LINKDEF_`, then the digest of the three, one after the other, in
/// upper-case hexadecimal.
pub open spec fn link_key_of(actor_id: Seq<char>, contract_id: Seq<char>, link_name: Seq<char>) -> Seq<
    char,
> {
    "LINKDEF_"@ + upper_hex(sha256_of(encode_utf8(actor_id + contract_id + link_name)))
}

fn digit(n: u8) -> (r: &'static str)
    requires
        n < 16,
    ensures
        r@ == seq![hex_digit(n as int)],
{
    proof {
        reveal_strlit("0");
        reveal_strlit("1");
        reveal_strlit("2");
        reveal_strlit("3");
        reveal_strlit("4");
        reveal_strlit("5");
        reveal_strlit("6");
        reveal_strlit("7");
        reveal_strlit("8");
        reveal_strlit("9");
        reveal_strlit("A");
        reveal_strlit("B");
        reveal_strlit("C");
        reveal_strlit("D");
        reveal_strlit("E");
        reveal_strlit("F");
    }
    let r = match n {
        0 => "0",
        1 => "1",
        2 => "2",
        3 => "3",
        4 => "4",
        5 => "5",
        6 => "6",
        7 => "7",
        8 => "8",
        9 => "9",
        10 => "A",
        11 => "B",
        12 => "C",
        13 => "D",
        14 => "E",
        _ => "F",
    };
    assert(r@ =~= seq![hex_digit(n as int)]);
    r
}

/// Appends `bytes` in upper-case hexadecimal.
fn push_hex(s: &mut String, bytes: &Vec<u8>)
    ensures
        final(s)@ == old(s)@ + upper_hex(bytes@),
{
    let mut i: usize = 0;
    assert(s@ =~= old(s)@ + upper_hex(bytes@.take(0)));
    while i < bytes.len()
        invariant
            i <= bytes.len(),
            s@ == old(s)@ + upper_hex(bytes@.take(i as int)),
        decreases bytes.len() - i,
    {
        let b = bytes[i];
        let ghost before = s@;
        s.append(digit(b / 16));
        s.append(digit(b % 16));
        proof {
            let done = bytes@.take(i as int);
            let more = bytes@.take(i + 1);
            assert(upper_hex(more) =~= upper_hex(done) + seq![hex_digit(b as int / 16)]
                + seq![hex_digit(b as int % 16)]) by {
                assert forall|k: int| 0 <= k < 2 * i implies upper_hex(more)[k] == upper_hex(
                    done,
                )[k] by {
                    assert(more[k / 2] == done[k / 2]);
                }
                assert(more[i as int] == b);
            }
            assert(s@ =~= old(s)@ + upper_hex(more));
        }
        i = i + 1;
    }
    assert(bytes@.take(i as int) =~= bytes@);
}

/// Builds the key of a link definition.
pub fn link_key(actor_id: &str, contract_id: &str, link_name: &str) -> (r: String)
    ensures
        r@ == link_key_of(actor_id@, contract_id@, link_name@),
{
    let mut named = String::from_str(actor_id);
    named.append(contract_id);
    named.append(link_name);
    let digest = sha256(named.as_str().as_bytes());
    let mut key = String::from_str("LINKDEF_");
    push_hex(&mut key, &digest);
    key
}

} // verus!
