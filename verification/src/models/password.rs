use vstd::prelude::*;
use vstd::std_specs::cmp::PartialEqSpecImpl;
use vstd::string::*;
use vstd::utf8::encode_utf8;

use crate::utils::text::same_text;

verus! {

/// Why a secret or a stored hash was refused.
#[derive(Debug, PartialEq, Eq, Structural)]
pub enum PasswordError {
    /// The raw secret is shorter than [`PASSWORD_MIN_LEN`] bytes.
    InvalidPassword,
    /// The stored value is not a hash that can be checked against.
    MalformedHash,
    /// The hasher gave up before it produced a hash.
    HashingFailed,
}

impl PasswordError {
    pub open spec fn message(&self) -> Seq<char> {
        match self {
            PasswordError::InvalidPassword => "Senha inválida"@,
            PasswordError::MalformedHash => "Hash de senha malformado"@,
            PasswordError::HashingFailed => "Falha ao computar hash da senha"@,
        }
    }

    pub fn to_string(&self) -> (r: String)
        ensures
            r@ == self.message(),
    {
        self.to_str().to_string()
    }

    pub fn to_str(&self) -> (r: &str)
        ensures
            r@ == self.message(),
    {
        match self {
            PasswordError::InvalidPassword => "Senha inválida",
            PasswordError::MalformedHash => "Hash de senha malformado",
            PasswordError::HashingFailed => "Falha ao computar hash da senha",
        }
    }
}

impl AsRef<str> for PasswordError {
    fn as_ref(&self) -> (r: &str)
        ensures
            r@ == self.message(),
    {
        self.to_str()
    }
}

/// Fewest bytes a raw secret may have.
pub const PASSWORD_MIN_LEN: usize = 8;

/// Memory that one hash computation fills, in KiB.
pub const HASH_MEMORY_KIB: u32 = 15000;

/// Passes that one hash computation makes over that memory.
pub const HASH_PASSES: u32 = 2;

/// Lanes that one hash computation runs side by side.
pub const HASH_LANES: u32 = 1;

/// Most lanes that the hasher takes. A hash that asks for more is not taken
/// in, and is never checked against.
pub const MAX_HASH_LANES: u32 = 0xFF_FFFF;

/// Most bytes of a raw secret that the hasher takes.
pub const MAX_PASSWORD_BYTES: u64 = 0xFFFF_FFFF;

/// A raw secret is acceptable when its UTF-8 encoding has at least 8 bytes.
pub open spec fn is_valid_password(password: Seq<char>) -> bool {
    encode_utf8(password).len() >= PASSWORD_MIN_LEN
}

/// What Argon2 answers when `candidate` is held against the encoded hash
/// `encoded`: `Some(true)` when the digest recomputed under the salt and cost
/// parameters embedded in `encoded` equals the embedded digest, `Some(false)`
/// when it differs, `None` when `encoded` cannot be read as a hash.
pub uninterp spec fn argon2_check(encoded: Seq<char>, candidate: Seq<u8>) -> Option<bool>;

/// One parameter of a PHC hash string, as contracts speak of it: its name,
/// and its value where that reads as a decimal number.
pub struct PhcParameter {
    pub name: Seq<char>,
    pub value: Option<u32>,
}

/// The parameters that the PHC hash string `encoded` carries, in the order
/// in which they stand in it. `None` where `encoded` does not parse as a PHC
/// string. A name may stand in it more than once.
pub uninterp spec fn phc_parameters(encoded: Seq<char>) -> Option<Seq<PhcParameter>>;

/// How many of the first `upto` parameters are named `name`.
pub open spec fn occurrences(parameters: Seq<PhcParameter>, name: Seq<char>, upto: int) -> nat
    decreases upto,
{
    if upto <= 0 {
        0
    } else if parameters[upto - 1].name == name {
        occurrences(parameters, name, upto - 1) + 1
    } else {
        occurrences(parameters, name, upto - 1)
    }
}

/// The value of the last of the first `upto` parameters that is named
/// `name`, if there is one and its value is a number.
pub open spec fn last_value(parameters: Seq<PhcParameter>, name: Seq<char>, upto: int) -> Option<
    u32,
>
    decreases upto,
{
    if upto <= 0 {
        None
    } else if parameters[upto - 1].name == name {
        parameters[upto - 1].value
    } else {
        last_value(parameters, name, upto - 1)
    }
}

/// The number that the parameter `name` carries, where it stands among
/// `parameters` exactly once.
pub open spec fn single_value(parameters: Seq<PhcParameter>, name: Seq<char>) -> Option<u32> {
    if occurrences(parameters, name, parameters.len() as int) == 1 {
        last_value(parameters, name, parameters.len() as int)
    } else {
        None
    }
}

/// The costs among `parameters`: memory in KiB under `m`, passes under `t`
/// and lanes under `p`, where each of the three stands there exactly once
/// and is a number.
pub open spec fn costs_among(parameters: Seq<PhcParameter>) -> Option<(u32, u32, u32)> {
    match (
        single_value(parameters, "m"@),
        single_value(parameters, "t"@),
        single_value(parameters, "p"@),
    ) {
        (Some(memory_kib), Some(passes), Some(lanes)) => Some((memory_kib, passes, lanes)),
        _ => None,
    }
}

/// The costs that the PHC hash string `encoded` carries: memory in KiB,
/// passes and lanes, in this order. `None` where `encoded` does not parse as
/// a PHC string, or does not carry each of the three exactly once as a
/// decimal number.
pub open spec fn phc_costs(encoded: Seq<char>) -> Option<(u32, u32, u32)> {
    match phc_parameters(encoded) {
        Some(parameters) => costs_among(parameters),
        None => None,
    }
}

/// Whether `encoded` is a hash that the library takes in: a PHC string that
/// carries each of its three costs exactly once, with no more lanes than the
/// hasher takes. A hash that leaves a cost to the hasher's default, or names
/// one twice, is not taken in.
pub open spec fn is_usable_hash(encoded: Seq<char>) -> bool {
    phc_costs(encoded) matches Some(costs) && costs.2 <= MAX_HASH_LANES
}

/// The parameters in what the parser handed out, as contracts speak of them.
pub open spec fn parameters_view(read: Option<Vec<(String, Option<u32>)>>) -> Option<
    Seq<PhcParameter>,
> {
    match read {
        Some(pairs) => Some(
            Seq::new(
                pairs@.len(),
                |i: int| PhcParameter { name: pairs@[i].0@, value: pairs@[i].1 },
            ),
        ),
        None => None,
    }
}

/// Whether `encoded` begins as every hash of Argon2id in version 0x13 does.
pub open spec fn is_argon2id_hash(encoded: Seq<char>) -> bool {
    &&& encoded.len() >= "$argon2id$v=19$"@.len()
    &&& encoded.subrange(0, "$argon2id$v=19$"@.len() as int) == "$argon2id$v=19$"@
}

/// Calls `argon2::PasswordHash::new` and walks the parameters of what parsed
/// with `ParamsString::iter`, as the verifier does: each name as it stands,
/// each value through `Value::decimal`. Trusted: the answer depends on
/// `encoded` alone and is named [`phc_parameters`]. No parameter set is built
/// from the numbers here.
#[verifier::external_body]
fn phc_read_parameters(encoded: &str) -> (r: Option<Vec<(String, Option<u32>)>>)
    ensures
        parameters_view(r) == phc_parameters(encoded@),
{
    let parsed = argon2::PasswordHash::new(encoded).ok()?;
    let pairs = parsed.params.iter();
    Some(pairs.map(|(name, value)| (name.as_str().to_owned(), value.decimal().ok())).collect())
}

/// Reads the number that the parameter `name` carries, where it stands among
/// the parameters exactly once.
fn read_single_value(pairs: &Vec<(String, Option<u32>)>, name: &str) -> (r: Option<u32>)
    ensures
        parameters_view(Some(*pairs)) matches Some(parameters) && r == single_value(
            parameters,
            name@,
        ),
{
    let ghost parameters = parameters_view(Some(*pairs))->0;
    let mut found: usize = 0;
    let mut value: Option<u32> = None;
    let mut i: usize = 0;
    while i < pairs.len()
        invariant
            i <= pairs.len(),
            parameters == parameters_view(Some(*pairs))->0,
            parameters.len() == pairs.len(),
            found <= i,
            found == occurrences(parameters, name@, i as int),
            value == last_value(parameters, name@, i as int),
        decreases pairs.len() - i,
    {
        if same_text(pairs[i].0.as_str(), name) {
            found += 1;
            value = pairs[i].1;
        }
        i += 1;
    }
    if found == 1 {
        value
    } else {
        None
    }
}

/// Reads the costs that a PHC hash string carries.
fn read_costs(encoded: &str) -> (r: Option<(u32, u32, u32)>)
    ensures
        r == phc_costs(encoded@),
{
    let pairs = match phc_read_parameters(encoded) {
        Some(pairs) => pairs,
        None => { return None; },
    };
    let memory_kib = read_single_value(&pairs, "m");
    let passes = read_single_value(&pairs, "t");
    let lanes = read_single_value(&pairs, "p");
    match (memory_kib, passes, lanes) {
        (Some(memory_kib), Some(passes), Some(lanes)) => Some((memory_kib, passes, lanes)),
        _ => None,
    }
}

/// Calls `argon2::PasswordHash::new` on `encoded` and, where that parses,
/// `Argon2::default().verify_password` on `candidate` and the parsed hash.
/// Trusted: the answer depends on the two arguments alone, so it is given the
/// name [`argon2_check`]; a mismatch is told apart from every other error,
/// which means the hash could not be used. The check rebuilds the parameter
/// set by walking all parameters of the string, so that the last lanes it
/// meets count, and multiplies them by eight before it bounds them. A string
/// is left out unless it names its lanes once, with no more than the hasher
/// takes.
#[verifier::external_body]
fn argon2_verify(encoded: &str, candidate: &[u8]) -> (r: Option<bool>)
    requires
        is_usable_hash(encoded@),
    ensures
        r == argon2_check(encoded@, candidate@),
{
    let checked = argon2::PasswordHash::new(encoded).and_then(
        |parsed| argon2::PasswordVerifier::verify_password(&argon2::Argon2::default(), candidate, &parsed),
    );
    match checked {
        Ok(()) => Some(true),
        Err(argon2::password_hash::Error::Password) => Some(false),
        Err(_) => None,
    }
}

/// Hashes `password` with Argon2id, version 0x13, under a salt drawn by
/// `SaltString::generate` from the operating system's generator, and returns
/// the PHC string. Trusted: the salt is random, so nothing is said of which
/// string comes back, only what holds of every one. Checking the same bytes
/// against it succeeds, because the check recomputes the digest under the
/// salt and parameters that the string carries; the string begins with the
/// algorithm and the version; and it carries the three costs that were handed
/// in, each once. `Params::new` multiplies the lanes by eight before it
/// bounds them, so lanes beyond what the hasher takes are left out. A hash is
/// owed where the costs are ones that `Params::new` accepts and the secret is
/// no longer than the hasher takes: with a salt of sixteen bytes and an
/// output of thirty-two, nothing else is refused on the way.
#[verifier::external_body]
fn argon2id_hash(password: &[u8], memory_kib: u32, passes: u32, lanes: u32) -> (r: Option<String>)
    requires
        lanes <= MAX_HASH_LANES,
    ensures
        password@.len() <= MAX_PASSWORD_BYTES && passes >= 1 && lanes >= 1 && memory_kib >= 8
            * lanes ==> r is Some,
        r matches Some(encoded) ==> argon2_check(encoded@, password@) == Some(true),
        r matches Some(encoded) ==> is_argon2id_hash(encoded@),
        r matches Some(encoded) ==> phc_costs(encoded@) == Some((memory_kib, passes, lanes)),
{
    let salt = argon2::password_hash::SaltString::generate(&mut argon2::password_hash::rand_core::OsRng);
    let params = argon2::Params::new(memory_kib, passes, lanes, None).ok()?;
    let hasher = argon2::Argon2::new(argon2::Algorithm::Argon2id, argon2::Version::V0x13, params);
    argon2::PasswordHasher::hash_password(&hasher, password, &salt).ok().map(|hash| hash.to_string())
}

/// The encoded output of the password hasher: algorithm, version, cost
/// parameters, salt and digest in one string. It stands in storage in place of
/// the raw secret. Every one is a hash that the library takes in.
pub struct HashedPassword(String);

impl View for HashedPassword {
    type V = Seq<char>;

    closed spec fn view(&self) -> Seq<char> {
        self.0@
    }
}

impl Clone for HashedPassword {
    fn clone(&self) -> (r: Self)
        ensures
            r == *self,
    {
        proof {
            use_type_invariant(self);
        }
        HashedPassword(self.0.clone())
    }
}

impl PartialEq for HashedPassword {
    fn eq(&self, other: &Self) -> (r: bool) {
        self.0 == other.0
    }
}

impl PartialEqSpecImpl for HashedPassword {
    open spec fn obeys_eq_spec() -> bool {
        true
    }

    open spec fn eq_spec(&self, other: &Self) -> bool {
        self@ == other@
    }
}

/// Whether the raw secret `password` is one that the hasher takes: its
/// UTF-8 encoding has no more than [`MAX_PASSWORD_BYTES`] bytes.
pub open spec fn is_hashable(password: Seq<char>) -> bool {
    encode_utf8(password).len() <= MAX_PASSWORD_BYTES
}

/// What hashing the raw secret `password` guarantees of the string that
/// comes out: it is an Argon2id hash under the fixed costs of the library,
/// and it accepts the secret.
pub open spec fn is_hash_of(encoded: Seq<char>, password: Seq<char>) -> bool {
    &&& is_argon2id_hash(encoded)
    &&& phc_costs(encoded) == Some((HASH_MEMORY_KIB, HASH_PASSES, HASH_LANES))
    &&& argon2_check(encoded, encode_utf8(password)) == Some(true)
}

impl HashedPassword {
    #[verifier::type_invariant]
    spec fn well_formed(&self) -> bool {
        is_usable_hash(self.0@)
    }

    /// Validates the raw secret and hashes it. A hash comes out for every
    /// acceptable secret that is no longer than the hasher takes.
    pub fn new(password: String) -> (r: Result<HashedPassword, PasswordError>)
        ensures
            !is_valid_password(password@) ==> r == Err::<HashedPassword, PasswordError>(
                PasswordError::InvalidPassword,
            ),
            is_valid_password(password@) ==> match r {
                Ok(hash) => is_hash_of(hash@, password@),
                Err(e) => e == PasswordError::HashingFailed && !is_hashable(password@),
            },
    {
        match HashedPassword::validate(password.as_str()) {
            Ok(_) => match HashedPassword::compute_password_hash(password.as_str()) {
                Ok(encoded) => Ok(HashedPassword(encoded)),
                Err(e) => Err(e),
            },
            Err(e) => Err(e),
        }
    }

    pub fn validate(password: &str) -> (r: Result<bool, PasswordError>)
        ensures
            r == (if is_valid_password(password@) {
                Ok::<bool, PasswordError>(true)
            } else {
                Err::<bool, PasswordError>(PasswordError::InvalidPassword)
            }),
    {
        if password.as_bytes().len() < PASSWORD_MIN_LEN {
            return Err(PasswordError::InvalidPassword);
        }
        Ok(true)
    }

    /// Hands an acceptable raw secret back, and refuses any other.
    pub fn parse(password: String) -> (r: Result<String, PasswordError>)
        ensures
            match r {
                Ok(same) => is_valid_password(password@) && same@ == password@,
                Err(e) => !is_valid_password(password@) && e == PasswordError::InvalidPassword,
            },
    {
        match HashedPassword::validate(password.as_str()) {
            Ok(_) => Ok(password),
            Err(e) => Err(e),
        }
    }

    /// Takes a stored hash back in, provided it reads as a PHC string that
    /// carries its costs, with no more lanes than the hasher takes.
    pub fn parse_password_hash(password_hash: String) -> (r: Result<HashedPassword, PasswordError>)
        ensures
            match r {
                Ok(hash) => is_usable_hash(password_hash@) && hash@ == password_hash@,
                Err(e) => !is_usable_hash(password_hash@) && e == PasswordError::MalformedHash,
            },
    {
        match read_costs(password_hash.as_str()) {
            Some((_, _, lanes)) => if lanes <= MAX_HASH_LANES {
                Ok(HashedPassword(password_hash))
            } else {
                Err(PasswordError::MalformedHash)
            },
            None => Err(PasswordError::MalformedHash),
        }
    }

    /// Holds a candidate secret against this hash.
    pub fn verify_raw_password(&self, password: &str) -> (r: Result<bool, PasswordError>)
        ensures
            r == password_verdict(argon2_check(self@, encode_utf8(password@))),
    {
        proof {
            use_type_invariant(self);
        }
        password_verdict_of(argon2_verify(self.0.as_str(), password.as_bytes()))
    }

    /// Hashes a raw secret under a fresh random salt, with Argon2id at the
    /// fixed costs [`HASH_MEMORY_KIB`], [`HASH_PASSES`] and [`HASH_LANES`].
    /// A hash comes out for every secret that is no longer than the hasher
    /// takes.
    pub fn compute_password_hash(password: &str) -> (r: Result<String, PasswordError>)
        ensures
            match r {
                Ok(encoded) => is_hash_of(encoded@, password@),
                Err(e) => e == PasswordError::HashingFailed && !is_hashable(password@),
            },
    {
        match argon2id_hash(password.as_bytes(), HASH_MEMORY_KIB, HASH_PASSES, HASH_LANES) {
            Some(encoded) => Ok(encoded),
            None => Err(PasswordError::HashingFailed),
        }
    }

    /// The encoded hash. Whoever holds a `HashedPassword` learns here that
    /// it is one that the library takes in.
    pub fn as_str(&self) -> (r: &str)
        ensures
            r@ == self@,
            is_usable_hash(self@),
    {
        proof {
            use_type_invariant(self);
        }
        self.0.as_str()
    }
}

impl AsRef<str> for HashedPassword {
    fn as_ref(&self) -> (r: &str)
        ensures
            r@ == self@,
    {
        self.as_str()
    }
}

/// What a check of a candidate secret comes to, given the hasher's answer.
pub open spec fn password_verdict(answer: Option<bool>) -> Result<bool, PasswordError> {
    match answer {
        Some(matches) => Ok(matches),
        None => Err(PasswordError::MalformedHash),
    }
}

/// Turns the hasher's answer into the result of a check: a mismatch is a
/// plain `false`, an unreadable hash is an error.
pub fn password_verdict_of(answer: Option<bool>) -> (r: Result<bool, PasswordError>)
    ensures
        r == password_verdict(answer),
{
    match answer {
        Some(matches) => Ok(matches),
        None => Err(PasswordError::MalformedHash),
    }
}

} // verus!
