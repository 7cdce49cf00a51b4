use vstd::prelude::*;
use crate::err::CleoErr;
use rand::seq::IndexedRandom;
use sha2::Digest;

verus! {

/// What `hash_string` returns for a text: the SHA-256 digest of its UTF-8
/// bytes, written as 64 upper-case hexadecimal digits.
pub uninterp spec fn sha256_upper_hex(s: Seq<char>) -> Seq<char>;

/// Whether bcrypt accepts `password` against the stored `hash`: the hash is
/// well formed and the password, hashed with its cost and salt, reproduces it.
pub uninterp spec fn bcrypt_accepts(password: Seq<char>, hash: Seq<char>) -> bool;

/// Relies on sha2's `Sha256::digest` and the upper-hex formatting of its output:
/// the digest depends on the text alone and has 32 bytes, so 64 digits.
#[verifier::external_body]
pub fn hash_string(subject: &String) -> (r: String)
    ensures
        r@ == sha256_upper_hex(subject@),
        r@.len() == 64,
{
    format!("{:X}", sha2::Sha256::digest(subject.as_bytes()))
}

/// Relies on `bcrypt::hash`: with a fresh random salt it hashes `plain` at
/// the given cost; what it returns is a hash that `bcrypt::verify` accepts for
/// `plain`. It fails on a cost outside 4..=31 or when no salt can be drawn.
#[verifier::external_body]
pub(crate) fn hash_password(plain: &String, cost: u32) -> (r: Option<String>)
    ensures
        r matches Some(h) ==> bcrypt_accepts(plain@, h@),
{
    bcrypt::hash(plain.as_str(), cost).ok()
}

/// Relies on `bcrypt::verify`. A malformed hash is an error there; here it
/// counts as a mismatch, so a bad stored hash never lets anyone in.
#[verifier::external_body]
pub(crate) fn verify_password(plain: &String, hash: &String) -> (r: bool)
    ensures
        r == bcrypt_accepts(plain@, hash@),
{
    bcrypt::verify(plain.as_str(), hash.as_str()).unwrap_or(false)
}

/// Relies on rand's `IndexedRandom::choose` with the thread-local generator:
/// `None` on an empty slice, else one of its elements.
#[verifier::external_body]
fn choose_char(alphabet: &Vec<char>) -> (r: Option<char>)
    ensures
        alphabet@.len() == 0 <==> r is None,
        r matches Some(c) ==> alphabet@.contains(c),
{
    alphabet.choose(&mut rand::rng()).copied()
}

/// Relies on `String::push`: appends one character.
#[verifier::external_body]
fn push_char(s: &mut String, c: char)
    ensures
        final(s)@ == old(s)@.push(c),
{
    s.push(c)
}

/// The concatenation of two texts.
pub fn concat(a: &str, b: &str) -> (r: String)
    ensures
        r@ == a@ + b@,
{
    let mut r = a.to_owned();
    r.append(b);
    r
}

/// The last four characters of a digest, used as a short identifier.
pub fn generate_id(shasum: &String) -> (r: String)
    requires
        shasum@.len() >= 4,
    ensures
        r@ == shasum@.subrange(shasum@.len() - 4, shasum@.len() as int),
{
    let n = shasum.as_str().unicode_len();
    shasum.as_str().substring_char(n - 4, n).to_owned()
}

/// The characters that a signup key is drawn from.
pub open spec fn key_alphabet() -> Seq<char> {
    seq![
        'A', 'B', 'C', 'D', 'E', 'F', 'G', 'H', 'I', 'J', 'K', 'L', 'M', 'N', 'O', 'P', 'Q',
        'R', 'S', 'T', 'U', 'V', 'W', 'X', 'Y', 'Z', '1', '2', '3', '4', '5', '6', '7', '8',
        '9', '0',
    ]
}

/// Whether every character of `k` is one of the key alphabet.
pub open spec fn is_key_text(k: Seq<char>) -> bool {
    forall|i: int| 0 <= i < k.len() ==> key_alphabet().contains(#[trigger] k[i])
}

/// A random signup key of `size` characters drawn from the key alphabet.
pub fn generate_key(size: &usize) -> (r: Result<String, CleoErr>)
    ensures
        r matches Ok(k) && k@.len() == *size && is_key_text(k@),
{
    let alpha: Vec<char> = vec![
        'A', 'B', 'C', 'D', 'E', 'F', 'G', 'H', 'I', 'J', 'K', 'L', 'M', 'N', 'O', 'P', 'Q',
        'R', 'S', 'T', 'U', 'V', 'W', 'X', 'Y', 'Z', '1', '2', '3', '4', '5', '6', '7', '8',
        '9', '0',
    ];
    assert(alpha@ == key_alphabet());
    let mut key = String::new();
    let mut i: usize = 0;
    while i < *size
        invariant
            i <= *size,
            alpha@ == key_alphabet(),
            key@.len() == i,
            is_key_text(key@),
        decreases *size - i,
    {
        let c = match choose_char(&alpha) {
            Some(c) => c,
            None => {
                return Err(CleoErr::new("Could not pick random character."));
            },
        };
        push_char(&mut key, c);
        i += 1;
    }
    Ok(key)
}

/// The parts of a moment in local time, each as its decimal digits.
pub struct TimeNow {
    pub year: String,
    pub month: String,
    pub day: String,
    pub hours: String,
    pub minutes: String,
    pub seconds: String,
    pub millis: String,
}

impl TimeNow {
    /// Relies on chrono's `Local::now` and its `%Y %m %d %H %M %S %f`
    /// formatting; all but the year and the fraction are two zero-padded digits.
    #[verifier::external_body]
    pub fn new() -> (r: TimeNow)
        ensures
            r.month@.len() == 2,
            r.day@.len() == 2,
            r.hours@.len() == 2,
            r.minutes@.len() == 2,
            r.seconds@.len() == 2,
    {
        let t = chrono::Local::now();
        TimeNow {
            year: t.format("%Y").to_string(),
            month: t.format("%m").to_string(),
            day: t.format("%d").to_string(),
            hours: t.format("%H").to_string(),
            minutes: t.format("%M").to_string(),
            seconds: t.format("%S").to_string(),
            millis: t.format("%f").to_string(),
        }
    }

    /// The parts of the moment written one after the other.
    pub fn to_string(&self) -> (r: String)
        ensures
            r@ == self.year@ + self.month@ + self.day@ + self.hours@ + self.minutes@
                + self.seconds@ + self.millis@,
    {
        let mut r = self.year.clone();
        r.append(self.month.as_str());
        r.append(self.day.as_str());
        r.append(self.hours.as_str());
        r.append(self.minutes.as_str());
        r.append(self.seconds.as_str());
        r.append(self.millis.as_str());
        r
    }
}

} // verus!
