use crate::models::hasing_password::Error;
use crate::views::result_view;
use argon2::password_hash::rand_core::OsRng;
use argon2::password_hash::{PasswordHasher, SaltString};
use argon2::Argon2;
use vstd::prelude::*;

verus! {

/// The Argon2id tag of a password under a salt, in the unpadded Base64 of
/// the PHC string format, as `Argon2::default()` computes it: version 19,
/// 19456 KiB of memory, 2 passes, 1 lane, 32 bytes of output. `None` where
/// argon2 refuses the salt or the password.
pub uninterp spec fn argon2id_tag(password: Seq<char>, salt: Seq<char>) -> Option<Seq<char>>;

/// What stands in a digest before the salt: the algorithm, its version and
/// its cost parameters.
pub open spec fn phc_prefix() -> Seq<char> {
    "$argon2id$v=19$m=19456,t=2,p=1$"@
}

/// The PHC string of a tag under a salt:
/// `$argon2id$v=19$m=19456,t=2,p=1$<salt>$<tag>`.
pub open spec fn phc_string(salt: Seq<char>, tag: Seq<char>) -> Seq<char> {
    phc_prefix() + salt + "$"@ + tag
}

/// `digest` is what hashing `password` under `salt` gives.
pub open spec fn is_digest(digest: Seq<char>, password: Seq<char>, salt: Seq<char>) -> bool {
    argon2id_tag(password, salt) matches Some(tag) && digest == phc_string(salt, tag)
}

/// No character of `salt` is the `$` that parts the fields of a PHC string.
pub open spec fn has_no_separator(salt: Seq<char>) -> bool {
    forall|i: int| 0 <= i < salt.len() ==> salt[i] != '$'
}

/// `c` is a character of the Base64 that the PHC string format writes:
/// a letter, a digit, `+` or `/`.
pub open spec fn is_b64_char(c: char) -> bool {
    ||| 'A' <= c <= 'Z'
    ||| 'a' <= c <= 'z'
    ||| '0' <= c <= '9'
    ||| c == '+'
    ||| c == '/'
}

/// `salt` has the form of a salt made for one call: 16 bytes in unpadded
/// Base64. These are 22 characters, and the last of them writes the two bits
/// that are left over, so that it is one of `A`, `Q`, `g` and `w`.
pub open spec fn is_generated_salt(salt: Seq<char>) -> bool {
    &&& salt.len() == 22
    &&& forall|i: int| 0 <= i < salt.len() ==> is_b64_char(#[trigger] salt[i])
    &&& salt[21] == 'A' || salt[21] == 'Q' || salt[21] == 'g' || salt[21] == 'w'
}

/// What hashing `password` under `salt` comes to: the digest where argon2
/// gives a tag, and `PasswordHashing` where it gives none.
pub open spec fn is_hashed(r: Result<Seq<char>, Error>, password: Seq<char>, salt: Seq<char>)
    -> bool {
    match r {
        Ok(digest) => is_digest(digest, password, salt),
        Err(e) => e == Error::PasswordHashing && argon2id_tag(password, salt) is None,
    }
}

/// A salt made for one call holds no `$`.
pub proof fn lemma_generated_salt_has_no_separator(salt: Seq<char>)
    requires
        is_generated_salt(salt),
    ensures
        has_no_separator(salt),
{
    assert forall|i: int| 0 <= i < salt.len() implies salt[i] != '$' by {
        assert(is_b64_char(salt[i]));
    }
}

/// A digest is not its password: the digest of a password differs from the
/// password, unless the password itself begins as every digest does, with
/// the algorithm, the version and the parameters.
pub proof fn lemma_digest_is_not_password(digest: Seq<char>, password: Seq<char>, salt: Seq<char>)
    requires
        is_digest(digest, password, salt),
        !phc_prefix().is_prefix_of(password),
    ensures
        digest != password,
{
    assert(digest.subrange(0, phc_prefix().len() as int) =~= phc_prefix());
}

/// A fresh salt gives a fresh digest: the digests of two passwords, the same
/// or not, under two different salts are different.
pub proof fn lemma_salts_tell_digests_apart(
    digest1: Seq<char>,
    password1: Seq<char>,
    salt1: Seq<char>,
    digest2: Seq<char>,
    password2: Seq<char>,
    salt2: Seq<char>,
)
    requires
        is_digest(digest1, password1, salt1),
        is_digest(digest2, password2, salt2),
        has_no_separator(salt1),
        has_no_separator(salt2),
        salt1 != salt2,
    ensures
        digest1 != digest2,
{
    reveal_strlit("$");
    let p = phc_prefix().len() as int;
    let n1 = salt1.len() as int;
    let n2 = salt2.len() as int;
    if digest1 == digest2 {
        if n1 < n2 {
            assert(digest1[p + n1] == '$');
            assert(digest2[p + n1] == salt2[n1]);
        } else if n2 < n1 {
            assert(digest2[p + n2] == '$');
            assert(digest1[p + n2] == salt1[n2]);
        } else {
            assert forall|i: int| 0 <= i < n1 implies salt1[i] == salt2[i] by {
                assert(digest1[p + i] == salt1[i]);
                assert(digest2[p + i] == salt2[i]);
            }
            assert(salt1 =~= salt2);
        }
    }
}

/// Calls `SaltString::generate` with the operating system's random number
/// generator, and hands the salt out as text.
///
/// Trusted: that the salt has the form of 16 bytes in unpadded Base64, as
/// `generate` fills 16 bytes and writes them with `Encoding::B64`. Which
/// salt it is, is chance. `OsRng` panics where the operating system gives it
/// no random bytes.
#[verifier::external_body]
fn generate_salt() -> (salt: String)
    ensures
        is_generated_salt(salt@),
{
    SaltString::generate(&mut OsRng).as_str().to_string()
}

/// Calls `PasswordHasher::hash_password` on `Argon2::default()`, with the
/// password's bytes and the salt read by `SaltString::from_b64`, and writes
/// the hash out with its `Display`. An error of either call gives `None`.
///
/// Trusted: that success and the tag depend on the password and the salt
/// alone; that the text written is the PHC string of that salt and tag with
/// the prefix of argon2's default algorithm, version and parameters; and
/// that a salt with a `$` in it is refused, as `Salt::from_b64` refuses
/// every character but letters, digits, `/`, `+`, `.` and `-`.
#[verifier::external_body]
fn argon2_hash_password(password: &str, salt: &str) -> (r: Option<String>)
    ensures
        match r {
            Some(digest) => is_digest(digest@, password@, salt@) && has_no_separator(salt@),
            None => argon2id_tag(password@, salt@) is None,
        },
{
    let salt = SaltString::from_b64(salt).ok()?;
    let hash = Argon2::default().hash_password(password.as_bytes(), &salt).ok()?;
    Some(hash.to_string())
}

/// The hashing provider: Argon2id with a fresh random salt for every
/// password.
pub struct HashingPasswordImpl;

impl HashingPasswordImpl {
    /// The hashing provider. It holds nothing: every call stands alone.
    pub fn creation() -> HashingPasswordImpl {
        HashingPasswordImpl
    }

    /// The digest of `password` under `salt`, or `PasswordHashing` where
    /// argon2 refuses one of them. The digest is not the password, unless
    /// the password itself begins as every digest does.
    pub fn hasing_with_salt(&self, password: &str, salt: &str) -> (r: Result<String, Error>)
        ensures
            is_hashed(result_view(r), password@, salt@),
            r is Ok ==> has_no_separator(salt@),
            !phc_prefix().is_prefix_of(password@) ==> (r matches Ok(digest) ==> digest@
                != password@),
    {
        match argon2_hash_password(password, salt) {
            Some(digest) => {
                proof {
                    if !phc_prefix().is_prefix_of(password@) {
                        lemma_digest_is_not_password(digest@, password@, salt@);
                    }
                }
                Ok(digest)
            },
            None => Err(Error::PasswordHashing),
        }
    }

    /// The digest of `password` under a salt made for this call, or
    /// `PasswordHashing` where argon2 refuses the password under that salt.
    /// The salt is one of the form that the generator gives, and the same
    /// salt stands behind either outcome. The digest is not the password,
    /// unless the password itself begins as every digest does.
    pub fn hasing(&self, password: String) -> (r: Result<String, Error>)
        ensures
            exists|salt: Seq<char>|
                is_generated_salt(salt) && has_no_separator(salt) && #[trigger] is_hashed(
                    result_view(r),
                    password@,
                    salt,
                ),
            !phc_prefix().is_prefix_of(password@) ==> (r matches Ok(digest) ==> digest@
                != password@),
    {
        let salt = generate_salt();
        let r = self.hasing_with_salt(password.as_str(), salt.as_str());
        proof {
            lemma_generated_salt_has_no_separator(salt@);
            assert(is_hashed(result_view(r), password@, salt@));
        }
        r
    }
}

} // verus!
