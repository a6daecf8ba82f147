//! Content token metadata.

use crate::addresses::pda_of;
use crate::addresses::try_find_record_address;
use crate::enums::ShihonAccountType;
use vstd::prelude::*;
use vstd::string::StringSliceAdditionalSpecFns;
use vstd::slice::slice_to_vec;

verus! {

/// The content type of a content token.
#[derive(Clone, Copy, Debug, PartialEq, Eq, Structural)]
pub enum ContentType {
    /// Order content mix type.
    Ordinary,
    /// Partial content mix type.
    Partially,
    /// Other content mix type.
    Other,
}

/// Metadata attached to a content token when it is published: the oracle's
/// fingerprint of the content, the content type and the visibility flag that
/// decides whether publishing lands on private or public ground.
#[derive(Debug)]
pub struct BcTokenMetadata {
    /// Account type discriminator.
    pub account_type: ShihonAccountType,
    /// What content type.
    pub content_type: ContentType,
    /// Fingerprint certifying the content has been stored securely.
    pub content_fingerprint: u64,
    /// The slot when the metadata was captured.
    pub updated_at: u64,
    /// The version of the content token.
    pub version: String,
    /// True when the token is published onto public ground.
    pub is_public: bool,
}

impl BcTokenMetadata {
    /// A metadata record is initialized once it carries its own discriminator.
    pub fn is_initialized(&self) -> (r: bool)
        ensures
            r == (self.account_type == ShihonAccountType::BcTokenMetadata),
    {
        self.account_type == ShihonAccountType::BcTokenMetadata
    }
}

/// The seed list of a token's metadata: the metadata marker and the owning
/// token's name bytes, so each token's metadata derives its own location.
pub open spec fn spec_bc_token_metadata_seeds(name: Seq<char>) -> Seq<Seq<u8>> {
    seq![
        seq![109u8, 101u8, 116u8, 97u8, 100u8, 97u8, 116u8, 97u8],
        vstd::utf8::encode_utf8(name),
    ]
}

/// Returns the metadata seeds of the named content token.
pub fn get_bc_token_metadata_seeds(name: &str) -> (r: Vec<Vec<u8>>)
    ensures
        r.deep_view() == spec_bc_token_metadata_seeds(name@),
{
    let tag: Vec<u8> = vec![109u8, 101u8, 116u8, 97u8, 100u8, 97u8, 116u8, 97u8];
    let name_bytes: Vec<u8> = slice_to_vec(name.as_bytes());
    let r: Vec<Vec<u8>> = vec![tag, name_bytes];
    assert(r.deep_view() =~~= spec_bc_token_metadata_seeds(name@));
    r
}

/// Returns the metadata address of the named content token.
pub fn get_bc_token_metadata_address(program_id: &[u8; 32], name: &str) -> (r: Option<Vec<u8>>)
    ensures
        match r {
            Some(a) => Some(a@) == pda_of(program_id@, spec_bc_token_metadata_seeds(name@)),
            None => pda_of(program_id@, spec_bc_token_metadata_seeds(name@)) is None,
        },
{
    let seeds = get_bc_token_metadata_seeds(name);
    try_find_record_address(program_id, &seeds)
}

/// Law: distinct token names build distinct metadata seed lists, so no two
/// tokens' metadata can collide at one location.
pub proof fn lemma_bc_token_metadata_seeds_injective(n1: Seq<char>, n2: Seq<char>)
    requires
        n1 != n2,
    ensures
        spec_bc_token_metadata_seeds(n1) != spec_bc_token_metadata_seeds(n2),
{
    if spec_bc_token_metadata_seeds(n1) == spec_bc_token_metadata_seeds(n2) {
        assert(spec_bc_token_metadata_seeds(n1)[1] == vstd::utf8::encode_utf8(n1));
        assert(spec_bc_token_metadata_seeds(n2)[1] == vstd::utf8::encode_utf8(n2));
        vstd::utf8::encode_utf8_decode_utf8(n1);
        vstd::utf8::encode_utf8_decode_utf8(n2);
    }
}

} // verus!
