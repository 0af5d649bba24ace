use vstd::prelude::*;

use crate::addr::Address;

verus! {

pub const ROLE_MASTER_AUTHORITY: u8 = 0x01;

pub const ROLE_MINTER: u8 = 0x02;

pub const ROLE_BURNER: u8 = 0x04;

pub const ROLE_FREEZER: u8 = 0x08;

pub const ROLE_PAUSER: u8 = 0x10;

pub const ROLE_BLACKLISTER: u8 = 0x20;

pub const ROLE_SEIZER: u8 = 0x40;

/// Union of the seven defined role bits; any bit outside it is invalid.
pub const VALID_ROLE_MASK: u8 = 0x7F;

pub const MAX_NAME_LEN: usize = 32;

pub const MAX_SYMBOL_LEN: usize = 10;

pub const MAX_URI_LEN: usize = 200;

pub const MAX_REASON_LEN: usize = 128;

/// Length of one fixed minting-quota window, in the time unit of the
/// timestamps handed to the issuance engine.
pub const MINT_QUOTA_WINDOW_SECONDS: i64 = 86_400;

/// Identifier of the core policy program, the owner of every configuration,
/// role and blacklist record.
pub open spec fn spec_stablecoin_core_id() -> Address {
    Address {
        bytes: [
            144u8, 198u8, 175u8, 49u8, 149u8, 30u8, 14u8, 102u8, 244u8, 51u8, 150u8, 43u8, 113u8,
            43u8, 14u8, 104u8, 121u8, 145u8, 197u8, 127u8, 115u8, 134u8, 78u8, 239u8, 143u8,
            200u8, 1u8, 152u8, 198u8, 172u8, 7u8, 5u8,
        ],
    }
}

pub fn stablecoin_core_id() -> (a: Address)
    ensures
        a == spec_stablecoin_core_id(),
{
    Address {
        bytes: [
            144u8, 198u8, 175u8, 49u8, 149u8, 30u8, 14u8, 102u8, 244u8, 51u8, 150u8, 43u8, 113u8,
            43u8, 14u8, 104u8, 121u8, 145u8, 197u8, 127u8, 115u8, 134u8, 78u8, 239u8, 143u8,
            200u8, 1u8, 152u8, 198u8, 172u8, 7u8, 5u8,
        ],
    }
}

/// Identifier of the transfer-validation module.
pub open spec fn spec_transfer_hook_id() -> Address {
    Address {
        bytes: [
            69u8, 140u8, 91u8, 149u8, 110u8, 175u8, 82u8, 105u8, 31u8, 85u8, 206u8, 94u8, 206u8,
            226u8, 195u8, 134u8, 231u8, 230u8, 184u8, 28u8, 30u8, 174u8, 134u8, 199u8, 143u8,
            12u8, 192u8, 215u8, 120u8, 190u8, 85u8, 188u8,
        ],
    }
}

pub fn transfer_hook_id() -> (a: Address)
    ensures
        a == spec_transfer_hook_id(),
{
    Address {
        bytes: [
            69u8, 140u8, 91u8, 149u8, 110u8, 175u8, 82u8, 105u8, 31u8, 85u8, 206u8, 94u8, 206u8,
            226u8, 195u8, 134u8, 231u8, 230u8, 184u8, 28u8, 30u8, 174u8, 134u8, 199u8, 143u8,
            12u8, 192u8, 215u8, 120u8, 190u8, 85u8, 188u8,
        ],
    }
}

/// The fixed core-program identifier that the transfer-validation module
/// insists on when it checks the claimed core program of a transfer.
pub open spec fn spec_expected_core_program_id() -> Address {
    Address {
        bytes: [
            66u8, 32u8, 182u8, 208u8, 174u8, 141u8, 130u8, 185u8, 70u8, 171u8, 210u8, 91u8, 102u8,
            70u8, 54u8, 71u8, 9u8, 66u8, 98u8, 156u8, 195u8, 200u8, 35u8, 106u8, 17u8, 215u8,
            230u8, 170u8, 254u8, 108u8, 99u8, 22u8,
        ],
    }
}

pub fn expected_core_program_id() -> (a: Address)
    ensures
        a == spec_expected_core_program_id(),
{
    Address {
        bytes: [
            66u8, 32u8, 182u8, 208u8, 174u8, 141u8, 130u8, 185u8, 70u8, 171u8, 210u8, 91u8, 102u8,
            70u8, 54u8, 71u8, 9u8, 66u8, 98u8, 156u8, 195u8, 200u8, 35u8, 106u8, 17u8, 215u8,
            230u8, 170u8, 254u8, 108u8, 99u8, 22u8,
        ],
    }
}

/// Identifier of the external token ledger program.
pub open spec fn spec_token_program_id() -> Address {
    Address {
        bytes: [
            6u8, 221u8, 246u8, 225u8, 238u8, 117u8, 143u8, 222u8, 24u8, 66u8, 93u8, 188u8, 228u8,
            108u8, 205u8, 218u8, 182u8, 26u8, 252u8, 77u8, 131u8, 185u8, 13u8, 39u8, 254u8, 189u8,
            249u8, 40u8, 216u8, 161u8, 139u8, 252u8,
        ],
    }
}

pub fn token_program_id() -> (a: Address)
    ensures
        a == spec_token_program_id(),
{
    Address {
        bytes: [
            6u8, 221u8, 246u8, 225u8, 238u8, 117u8, 143u8, 222u8, 24u8, 66u8, 93u8, 188u8, 228u8,
            108u8, 205u8, 218u8, 182u8, 26u8, 252u8, 77u8, 131u8, 185u8, 13u8, 39u8, 254u8, 189u8,
            249u8, 40u8, 216u8, 161u8, 139u8, 252u8,
        ],
    }
}

/// Identifier of the associated-token-account program.
pub open spec fn spec_associated_token_program_id() -> Address {
    Address {
        bytes: [
            140u8, 151u8, 37u8, 143u8, 78u8, 36u8, 137u8, 241u8, 187u8, 61u8, 16u8, 41u8, 20u8,
            142u8, 13u8, 131u8, 11u8, 90u8, 19u8, 153u8, 218u8, 255u8, 16u8, 132u8, 4u8, 142u8,
            123u8, 216u8, 219u8, 233u8, 248u8, 89u8,
        ],
    }
}

pub fn associated_token_program_id() -> (a: Address)
    ensures
        a == spec_associated_token_program_id(),
{
    Address {
        bytes: [
            140u8, 151u8, 37u8, 143u8, 78u8, 36u8, 137u8, 241u8, 187u8, 61u8, 16u8, 41u8, 20u8,
            142u8, 13u8, 131u8, 11u8, 90u8, 19u8, 153u8, 218u8, 255u8, 16u8, 132u8, 4u8, 142u8,
            123u8, 216u8, 219u8, 233u8, 248u8, 89u8,
        ],
    }
}

/// Identifier of the system program (all zero bytes).
pub open spec fn spec_system_program_id() -> Address {
    Address::spec_zeroed()
}

pub fn system_program_id() -> (a: Address)
    ensures
        a == spec_system_program_id(),
{
    Address::zeroed()
}

/// Identifier of the rent sysvar account.
pub open spec fn spec_sysvar_rent_id() -> Address {
    Address {
        bytes: [
            6u8, 167u8, 213u8, 23u8, 25u8, 44u8, 92u8, 81u8, 33u8, 140u8, 201u8, 76u8, 61u8, 74u8,
            241u8, 127u8, 88u8, 218u8, 238u8, 8u8, 155u8, 161u8, 253u8, 68u8, 227u8, 219u8, 217u8,
            138u8, 0u8, 0u8, 0u8, 0u8,
        ],
    }
}

pub fn sysvar_rent_id() -> (a: Address)
    ensures
        a == spec_sysvar_rent_id(),
{
    Address {
        bytes: [
            6u8, 167u8, 213u8, 23u8, 25u8, 44u8, 92u8, 81u8, 33u8, 140u8, 201u8, 76u8, 61u8, 74u8,
            241u8, 127u8, 88u8, 218u8, 238u8, 8u8, 155u8, 161u8, 253u8, 68u8, 227u8, 219u8, 217u8,
            138u8, 0u8, 0u8, 0u8, 0u8,
        ],
    }
}

} // verus!
