//! Package-version reporting and operator key validation.

use vstd::prelude::*;
use vstd::string::StringExecFns;

use crate::crypto::derived_address;
use crate::crypto::derived_address_of;
use crate::crypto::public_key_of;
use crate::crypto::public_key_of_secret;
use crate::hex::encode_hex;
use crate::hex::decode_hex_32;
use crate::hex::hex_decodes_to;
use crate::hex::lemma_hex_decode_unique;
use crate::hex::hex_of;
use crate::hex::strip_hex_prefix;

verus! {

/// Version information of the running package: its own version, and the
/// version of the native dependency when the manifest names one.
#[derive(Clone, Debug)]
pub struct PackageVersion {
    pub version: String,
    pub dependencies: Vec<(String, String)>,
}

/// Builds the version report from the values read out of the package
/// manifest: the package's own version, and the version of the
/// "indexer-native" dependency when the manifest has that entry.
pub fn package_version(version: String, indexer_native_version: Option<String>) -> (r:
    PackageVersion)
    ensures
        r.version@ == version@,
        match indexer_native_version {
            Some(v) => r.dependencies@.len() == 1 && r.dependencies@[0].0@
                == "indexer-native"@ && r.dependencies@[0].1@ == v@,
            Option::None => r.dependencies@.len() == 0,
        },
{
    let mut dependencies: Vec<(String, String)> = Vec::new();
    match indexer_native_version {
        Some(v) => {
            dependencies.push((String::from_str("indexer-native"), v));
        },
        Option::None => {},
    }
    PackageVersion { version, dependencies }
}

/// Why a private key string was rejected.
#[derive(Clone, Copy, PartialEq, Eq, Structural, Debug)]
pub enum WalletError {
    /// Not an optional "0x" prefix followed by 64 hexadecimal digits.
    InvalidHex,
    /// The bytes are not a valid secp256k1 secret key.
    InvalidKey,
}

/// Validates a private key string and resolves the wallet address it
/// controls: the key's derived address as a "0x"-prefixed lowercase
/// hexadecimal string.
///
/// Succeeds exactly when the text is an optional "0x" prefix followed by
/// the 64 hexadecimal digits of a valid secret key; a well-formed text
/// whose 32 bytes are not a valid key is rejected as `InvalidKey`, any
/// other text as `InvalidHex`.
pub fn public_key(value: &str) -> (r: Result<String, WalletError>)
    ensures
        (r is Ok <==> exists|bs: Seq<u8>|
            #[trigger] hex_decodes_to(strip_hex_prefix(value@), bs) && bs.len() == 32
                && public_key_of_secret(bs) is Some),
        (r == Err::<String, WalletError>(WalletError::InvalidHex) <==> forall|bs: Seq<u8>|
            bs.len() == 32 ==> !hex_decodes_to(strip_hex_prefix(value@), bs)),
        (r == Err::<String, WalletError>(WalletError::InvalidKey) <==> exists|bs: Seq<u8>|
            #[trigger] hex_decodes_to(strip_hex_prefix(value@), bs) && bs.len() == 32
                && public_key_of_secret(bs) is None),
        r matches Ok(addr) ==> exists|bs: Seq<u8>, key: Seq<u8>|
            #![trigger hex_decodes_to(strip_hex_prefix(value@), bs), derived_address_of(key)]
            {
                &&& hex_decodes_to(strip_hex_prefix(value@), bs)
                &&& bs.len() == 32
                &&& public_key_of_secret(bs) == Some(key)
                &&& addr@ == "0x"@ + hex_of(derived_address_of(key))
            },
{
    let ghost body = strip_hex_prefix(value@);
    let secret = match decode_hex_32(value) {
        Some(bs) => bs,
        Option::None => {
            proof {
                assert forall|bs: Seq<u8>|
                    !(hex_decodes_to(body, bs) && bs.len() == 32 && public_key_of_secret(bs)
                        is Some) by {
                    if hex_decodes_to(body, bs) && bs.len() == 32 {
                        assert(!hex_decodes_to(body, bs));
                    }
                }
                assert forall|bs: Seq<u8>|
                    !(hex_decodes_to(body, bs) && bs.len() == 32 && public_key_of_secret(bs)
                        is None) by {
                    if hex_decodes_to(body, bs) && bs.len() == 32 {
                        assert(!hex_decodes_to(body, bs));
                    }
                }
            }
            return Err(WalletError::InvalidHex);
        },
    };
    proof {
        assert(hex_decodes_to(body, secret@));
        // The text has exactly one 32-byte decoding, the one just computed.
        assert forall|bs: Seq<u8>|
            hex_decodes_to(body, bs) && bs.len() == 32 implies bs == secret@ by {
            lemma_hex_decode_unique(body, bs, secret@);
        }
    }
    let key = match public_key_of(&secret) {
        Some(k) => k,
        Option::None => {
            proof {
                assert(public_key_of_secret(secret@) is None);
            }
            return Err(WalletError::InvalidKey);
        },
    };
    let addr = derived_address(&key);
    let mut out = String::from_str("0x");
    let hex = encode_hex(addr.as_slice());
    out.append(hex.as_str());
    proof {
        assert(public_key_of_secret(secret@) == Some(key@));
        assert(out@ == "0x"@ + hex_of(derived_address_of(key@)));
    }
    Ok(out)
}

} // verus!
