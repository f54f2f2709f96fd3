use vstd::prelude::*;

use spl_token_2022::extension::ExtensionType;
use spl_token_2022::state::Mint;

verus! {

/// Token-program extensions a mint account can be created with.
#[derive(Clone, Copy, Debug, PartialEq, Eq, Structural)]
pub enum MintExtension {
    NonTransferable,
    PermanentDelegate,
    MetadataPointer,
}

/// The length of a mint account carrying `extensions`, as the token program
/// computes it, or `None` when it cannot be computed.
pub uninterp spec fn mint_account_len(extensions: Seq<MintExtension>) -> Option<usize>;

/// Relies on `ExtensionType::try_calculate_account_len::<Mint>`: the account
/// length for a mint with these extensions, which depends on the extensions
/// alone.
#[verifier::external_body]
fn calculate_mint_len(extensions: &Vec<MintExtension>) -> (r: Option<usize>)
    ensures
        r == mint_account_len(extensions@),
{
    let types: Vec<ExtensionType> = extensions
        .iter()
        .map(|e| match e {
            MintExtension::NonTransferable => ExtensionType::NonTransferable,
            MintExtension::PermanentDelegate => ExtensionType::PermanentDelegate,
            MintExtension::MetadataPointer => ExtensionType::MetadataPointer,
        })
        .collect();
    ExtensionType::try_calculate_account_len::<Mint>(&types).ok()
}

/// The reward token cannot be transferred by its holders, the configuration
/// record is its permanent delegate, and its metadata lives in the mint.
pub open spec fn reward_mint_extensions() -> Seq<MintExtension> {
    seq![
        MintExtension::NonTransferable,
        MintExtension::PermanentDelegate,
        MintExtension::MetadataPointer,
    ]
}

/// The space to allocate for the reward token's mint account.
pub fn reward_mint_space() -> (r: Option<usize>)
    ensures
        r == mint_account_len(reward_mint_extensions()),
{
    let extensions: Vec<MintExtension> = vec![
        MintExtension::NonTransferable,
        MintExtension::PermanentDelegate,
        MintExtension::MetadataPointer,
    ];
    assert(extensions@ =~= reward_mint_extensions());
    calculate_mint_len(&extensions)
}

} // verus!
