use vstd::prelude::*;
use vstd::string::*;

use crate::text::byte_len;

verus! {

/// Everything the service is configured with, built once at startup and
/// handed to whatever needs it.
#[derive(Debug)]
pub struct Config {
    pub database: DatabaseConfig,
    pub auth: AuthConfig,
    pub file: FileConfig,
    pub bucket: BucketConfig,
}

#[derive(Debug)]
pub struct DatabaseConfig {
    pub url: String,
}

#[derive(Debug)]
pub struct AuthConfig {
    pub secret: Vec<u8>,
}

#[derive(Debug)]
pub struct FileConfig {
    pub temp_upload_dir: String,
    pub max_size: u64,
    pub max_uncompressed_size: u64,
}

#[derive(Debug)]
pub struct BucketConfig {
    pub host: String,
    pub access_key: String,
    pub secret_key: String,
    pub payroll_base_bucket_name: String,
}

impl Config {
    pub fn new(database: DatabaseConfig, auth: AuthConfig, file: FileConfig, bucket: BucketConfig) -> (r: Config)
        ensures
            r == (Config { database, auth, file, bucket }),
    {
        Config { database, auth, file, bucket }
    }
}

/// The value of a hexadecimal digit, in either case.
pub open spec fn hex_value(c: char) -> Option<u8> {
    let v = c as u32;
    if 48 <= v <= 57 {
        Some((v - 48) as u8)
    } else if 97 <= v <= 102 {
        Some((v - 87) as u8)
    } else if 65 <= v <= 70 {
        Some((v - 55) as u8)
    } else {
        None
    }
}

/// The characters that are read as pairs: all of them, but a last one left alone.
pub open spec fn paired_len(s: Seq<char>) -> int {
    2 * (s.len() / 2) as int
}

/// Every character that is read is a hexadecimal digit.
pub open spec fn hex_decodes(s: Seq<char>) -> bool {
    forall|i: int| 0 <= i < paired_len(s) ==> (#[trigger] hex_value(s[i])) is Some
}

/// The byte that the pair of digits at `2 * k` stands for.
pub open spec fn hex_byte(s: Seq<char>, k: int) -> u8 {
    (hex_value(s[2 * k])->0 * 16 + hex_value(s[2 * k + 1])->0) as u8
}

pub const HEX_CHARACTER_MESSAGE: &'static str = "Invalid hex character: ";

/// The first character, among those read as pairs, that is not a hexadecimal
/// digit is at `i`.
pub open spec fn first_bad_digit_at(s: Seq<char>, i: int) -> bool {
    &&& 0 <= i < paired_len(s)
    &&& hex_value(s[i]) is None
    &&& forall|j: int| 0 <= j < i ==> (#[trigger] hex_value(s[j])) is Some
}

/// Relies on `String::push`: appends one character.
#[verifier::external_body]
fn push_char(s: &mut String, c: char)
    ensures
        final(s)@ == old(s)@.push(c),
{
    s.push(c);
}

fn bad_digit_message(c: char) -> (r: String)
    ensures
        r@ == HEX_CHARACTER_MESSAGE@.push(c),
{
    let mut m = String::from_str(HEX_CHARACTER_MESSAGE);
    push_char(&mut m, c);
    m
}

fn hex_digit(c: char) -> (r: Option<u8>)
    ensures
        r == hex_value(c),
{
    let v = c as u32;
    if 48 <= v && v <= 57 {
        Some((v - 48) as u8)
    } else if 97 <= v && v <= 102 {
        Some((v - 87) as u8)
    } else if 65 <= v && v <= 70 {
        Some((v - 55) as u8)
    } else {
        None
    }
}

impl AuthConfig {
    /// Decodes a secret written as hexadecimal digits, two per byte.
    pub fn secret_from_hex_string(hex: &str) -> (r: Result<Vec<u8>, String>)
        requires
            byte_len(hex@) % 2 == 0,
            byte_len(hex@) >= 2,
        ensures
            r is Ok <==> hex_decodes(hex@),
            r matches Ok(bytes) ==> bytes@.len() == hex@.len() / 2 && forall|k: int|
                0 <= k < bytes@.len() ==> #[trigger] bytes@[k] == hex_byte(hex@, k),
            r matches Err(m) ==> exists|i: int|
                first_bad_digit_at(hex@, i) && m@ == HEX_CHARACTER_MESSAGE@.push(#[trigger] hex@[i]),
    {
        let n = hex.unicode_len();
        let pairs = n / 2;
        let mut result: Vec<u8> = Vec::new();
        let mut k: usize = 0;
        while k < pairs
            invariant
                n == hex@.len(),
                pairs == n / 2,
                k <= pairs,
                result@.len() == k,
                forall|i: int| 0 <= i < 2 * k ==> (#[trigger] hex_value(hex@[i])) is Some,
                forall|j: int| 0 <= j < k ==> #[trigger] result@[j] == hex_byte(hex@, j),
            decreases pairs - k,
        {
            let high = hex.get_char(2 * k);
            let low = hex.get_char(2 * k + 1);
            let h = match hex_digit(high) {
                Some(d) => d,
                None => {
                    proof {
                        assert(first_bad_digit_at(hex@, 2 * k as int));
                    }
                    return Err(bad_digit_message(high));
                },
            };
            let l = match hex_digit(low) {
                Some(d) => d,
                None => {
                    proof {
                        assert forall|j: int| 0 <= j < 2 * k + 1 implies (#[trigger] hex_value(hex@[j])) is Some by {
                            if j == 2 * k {
                                assert(hex_value(hex@[j]) == Some(h));
                            }
                        }
                        assert(first_bad_digit_at(hex@, 2 * k + 1));
                    }
                    return Err(bad_digit_message(low));
                },
            };
            result.push(h * 16 + l);
            k = k + 1;
        }
        Ok(result)
    }
}

} // verus!
