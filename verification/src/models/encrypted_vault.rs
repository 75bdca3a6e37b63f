//! The parameters an encrypted blob was sealed with: IV, tag, version and algorithm.
use vstd::prelude::*;

use crate::text::{base64_decodes, base64_standard_decodable, fits_tiny_ascii, parse_tiny_ascii};

verus! {

/// The text of a valid IV: 16 characters of base64.
pub open spec fn valid_iv_text(s: Seq<char>) -> bool {
    &&& fits_tiny_ascii(s, 16)
    &&& s.len() == 16
    &&& base64_standard_decodable(s)
}

/// The text of a valid tag: 24 characters of base64.
pub open spec fn valid_tag_text(s: Seq<char>) -> bool {
    &&& fits_tiny_ascii(s, 24)
    &&& s.len() == 24
    &&& base64_standard_decodable(s)
}

/// A base64-encoded initialisation vector of exactly 16 characters.
pub struct IV {
    text: String,
}

impl View for IV {
    type V = Seq<char>;

    closed spec fn view(&self) -> Seq<char> {
        self.text@
    }
}

impl IV {
    #[verifier::type_invariant]
    closed spec fn inv(self) -> bool {
        valid_iv_text(self.text@)
    }

    /// Parses an IV from text: it must be short non-NUL ASCII (the inner string),
    /// exactly 16 characters long and decodable base64.
    pub fn parse(s: &str) -> (r: Option<IV>)
        ensures
            r is Some <==> valid_iv_text(s@),
            r matches Some(iv) ==> iv@ == s@,
    {
        match parse_tiny_ascii::<16>(s) {
            None => None,
            Some(t) => {
                if t.as_str().unicode_len() == 16 && base64_decodes(t.as_str()) {
                    Some(IV { text: t })
                } else {
                    None
                }
            },
        }
    }

    pub fn as_str(&self) -> (r: &str)
        ensures
            r@ == self@,
            valid_iv_text(r@),
    {
        proof { use_type_invariant(self); }
        self.text.as_str()
    }
}

/// A base64-encoded authentication tag of exactly 24 characters.
pub struct Tag {
    text: String,
}

impl View for Tag {
    type V = Seq<char>;

    closed spec fn view(&self) -> Seq<char> {
        self.text@
    }
}

impl Tag {
    #[verifier::type_invariant]
    closed spec fn inv(self) -> bool {
        valid_tag_text(self.text@)
    }

    /// Parses a tag from text: short non-NUL ASCII, exactly 24 characters, decodable base64.
    pub fn parse(s: &str) -> (r: Option<Tag>)
        ensures
            r is Some <==> valid_tag_text(s@),
            r matches Some(tag) ==> tag@ == s@,
    {
        match parse_tiny_ascii::<24>(s) {
            None => None,
            Some(t) => {
                if t.as_str().unicode_len() == 24 && base64_decodes(t.as_str()) {
                    Some(Tag { text: t })
                } else {
                    None
                }
            },
        }
    }

    pub fn as_str(&self) -> (r: &str)
        ensures
            r@ == self@,
            valid_tag_text(r@),
    {
        proof { use_type_invariant(self); }
        self.text.as_str()
    }
}

/// The encryption algorithms a vault can use.
#[derive(Debug, Clone, Copy, PartialEq, Eq, Structural)]
pub enum EncryptionAlgo {
    Aes256Gcm,
}

/// The name of an algorithm, as it is written on the wire.
pub open spec fn algo_name(algo: EncryptionAlgo) -> Seq<char> {
    match algo {
        EncryptionAlgo::Aes256Gcm => seq!['A', 'e', 's', '2', '5', '6', 'G', 'c', 'm'],
    }
}

impl EncryptionAlgo {
    /// The name of the algorithm.
    pub fn name(&self) -> (r: &'static str)
        ensures
            r@ == algo_name(*self),
    {
        proof {
            reveal_strlit("Aes256Gcm");
            assert("Aes256Gcm"@ =~= algo_name(EncryptionAlgo::Aes256Gcm));
        }
        match self {
            EncryptionAlgo::Aes256Gcm => "Aes256Gcm",
        }
    }

    /// The algorithm with the given name, if there is one.
    pub fn from_name(s: &str) -> (r: Option<EncryptionAlgo>)
        ensures
            r matches Some(a) ==> algo_name(a) == s@,
            r is None ==> algo_name(EncryptionAlgo::Aes256Gcm) != s@,
    {
        proof {
            reveal_strlit("Aes256Gcm");
            assert("Aes256Gcm"@ =~= algo_name(EncryptionAlgo::Aes256Gcm));
        }
        if crate::text::str_eq(s, "Aes256Gcm") {
            Some(EncryptionAlgo::Aes256Gcm)
        } else {
            None
        }
    }
}

/// The identifier of a vault.
#[derive(Debug, Clone, Copy, PartialEq, Eq, Structural)]
pub struct Id(pub i32);

/// The format version of a vault.
#[derive(Debug, Clone, Copy, PartialEq, Eq, Structural)]
pub struct Version(pub i16);

/// The parameters an encrypted blob was sealed with.
pub struct Model {
    pub id: Id,
    pub iv: IV,
    pub tag: Tag,
    pub ver: Version,
    pub algo: EncryptionAlgo,
}

} // verus!
