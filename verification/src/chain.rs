//! Chain classification: the static mapping from numeric chain ids to the
//! chain family whose signing conventions apply.

use vstd::prelude::*;

verus! {

// Chain ids, mainnets and testnets alike.  The ids of chains without a
// native numeric id are the first four bytes of the SHA-256 digest of the
// chain name.
pub const ETHEREUM_MAINNET: u32 = 1;
pub const OPTIMISM_MAINNET: u32 = 10;
pub const POLYGON_MAINNET: u32 = 137;
pub const BINANCE_MAINNET: u32 = 56;
pub const FILECOIN_EVM_MAINNET: u32 = 314;
pub const ARBITRUM_MAINNET: u32 = 42161;
pub const ZKSYNC_ERA_MAINNET: u32 = 324;
pub const AVALANCHE_C_MAINNET: u32 = 43114;
pub const BASE_MAINNET: u32 = 8453;
pub const LINEA_MAINNET: u32 = 59144;
pub const PEGO_MAINNET: u32 = 20201022;
pub const QSZL_MAINNET: u32 = 7181;
pub const BEVM_MAINNET: u32 = 1501;
pub const OPBNB_MAINNET: u32 = 204;
pub const NAUTILUS_MAINNET: u32 = 22222;
pub const HECO_MAINNET: u32 = 128;
pub const METER_MAINNET: u32 = 82;
pub const SCROLL_MAINNET: u32 = 534352;
pub const TRON_MAINNET: u32 = 0x2b6653dc;
pub const COREDAO_MAINNET: u32 = 1116;
pub const X1_MAINNET: u32 = 196;
pub const SATOSHIVM_MAINNET: u32 = 3109;
pub const OLD_AINN_MAINNET: u32 = 2639;
pub const AINN_MAINNET: u32 = 2649;
pub const B2_MAINNET: u32 = 223;
pub const BITLAYER_MAINNET: u32 = 200901;
pub const ZKLINK_MAINNET: u32 = 810180;
pub const MERLIN_MAINNET: u32 = 4200;
pub const BITURBO_MAINNET: u32 = 725021;
pub const MANTA_MAINNET: u32 = 169;
pub const BEVM2_MAINNET: u32 = 11501;
pub const SLINKY_MAINNET: u32 = 88335;
pub const BOOL_EVM_BETA_MAINNET: u32 = 11100;
pub const ULTRA_LIQUID_MAINNET: u32 = 11101;
pub const DEEPSAFE_BETA_MAINNET: u32 = 10011;
pub const ETHEREUM_GOERLI: u32 = 5;
pub const OPTIMISM_GOERLI: u32 = 420;
pub const POLYGON_MUMBAI: u32 = 80001;
pub const BINANCE_TESTNET: u32 = 97;
pub const FILECOIN_EVM_TESTNET: u32 = 3141;
pub const FILECOIN_EVM_CALIBRATION: u32 = 314159;
pub const ARBITRUM_GOERLI: u32 = 421613;
pub const ETHEREUM_SEPOLIA: u32 = 11155111;
pub const ZKSYNC_GOERLI: u32 = 280;
pub const AVALANCHE_FUJI: u32 = 43113;
pub const BASE_GOERLI: u32 = 84531;
pub const LINEA_TESTNET: u32 = 59140;
pub const PEGO_TESTNET: u32 = 123456;
pub const BEVM_TESTNET: u32 = 1502;
pub const OPBNB_TESTNET: u32 = 5611;
pub const SCROLL_SEPOLIA: u32 = 534351;
pub const NAUTILUS_PROTEUS: u32 = 88002;
pub const METER_TESTNET: u32 = 83;
pub const TRON_SHASTA: u32 = 0x94a9059e;
pub const TRON_LOCAL: u32 = 0xc845df2f;
pub const COREDAO_TESTNET: u32 = 1115;
pub const X1_TESTNET: u32 = 195;
pub const SATOSHIVM_TESTNET: u32 = 3110;
pub const SATOSHIVM_DEVNET: u32 = 42420;
pub const OPTIMISM_SEPOLIA: u32 = 11155420;
pub const BASE_SEPOLIA: u32 = 84532;
pub const ENDURANCE_DEVNET: u32 = 6482;
pub const OLD_AINN_TESTNET: u32 = 2638;
pub const AINN_TESTNET: u32 = 2648;
pub const AINN_DEVNET: u32 = 2647;
pub const B2_HABITAT_TESTNET: u32 = 1123;
pub const TAKER_TESTNET: u32 = 2748;
pub const BITLAYER_TESTNET: u32 = 200810;
pub const ZKLINK_TESTNET: u32 = 810181;
pub const BOOL_EVM_BETA_TESTNET: u32 = 481;
pub const BOOL_EVM_BETA_DEVNET: u32 = 482;
pub const ULTRA_LIQUID_TESTNET: u32 = 483;
pub const MERLIN_TESTNET: u32 = 686868;
pub const BITURBO_TESTNET: u32 = 725019;
pub const MANTA_SEPOLIA: u32 = 3441006;
pub const BISON_TESTNET: u32 = 24768;
pub const SLINKY_TESTNET: u32 = 88338;
pub const DUCK_TESTNET: u32 = 202105;
pub const DEEPDEX_TESTNET: u32 = 4833;
pub const SAFEX_TESTNET: u32 = 110010;
pub const LOCAL_CHAIN: u32 = 31337;
pub const BITCOIN_MAINNET: u32 = 0xa0898816;
pub const SOLANA_MAINNET: u32 = 0xfb99f4e7;
pub const APTOS_MAINNET: u32 = 0x1fcb566a;
pub const FILECOIN_MAINNET: u32 = 0x4d25d7c9;
pub const DOGECOIN_MAINNET: u32 = 0xad6c4d97;
pub const STARKNET_MAINNET: u32 = 0x1cdfd9d0;
pub const SUI_MAINNET: u32 = 0x098e30e0;
pub const BOOL_ALPHA_MAINNET: u32 = 0x678f3716;
pub const BIFROST_POLKADOT: u32 = 0xaa9f7ce3;
pub const BIFROST_KUSAMA: u32 = 0x013f3768;
pub const CRUST_MAINNET: u32 = 0x39003bef;
pub const TON_MAINNET: u32 = 0xfbaee342;
pub const NEAR_MAINNET: u32 = 0x175c9227;
pub const CKB_MAINNET: u32 = 0xb8ff37c0;
pub const FRACTAL_MAINNET: u32 = 0xd7a1a715;
pub const BITCOIN_TESTNET: u32 = 0x10340fc0;
pub const SOLANA_TESTNET: u32 = 0x43997816;
pub const SOLANA_DEVNET: u32 = 0x93cde8db;
pub const APTOS_TESTNET: u32 = 0xf2b44907;
pub const FILECOIN_TESTNET: u32 = 0xc529e6ea;
pub const DOGECOIN_TESTNET: u32 = 0x343b2383;
pub const STARKNET_TESTNET: u32 = 0x6bac76ab;
pub const STARKNET_TESTNET2: u32 = 0xe86205aa;
pub const SUI_TESTNET: u32 = 0x7257a51b;
pub const SUI_DEVNET: u32 = 0x8ae3775b;
pub const BOOL_LOCAL: u32 = 0xe070ccdf;
pub const BOOL_DEVNET: u32 = 0x50ab69e2;
pub const BOOL_TESTNET: u32 = 0x87a87a5e;
pub const BIFROST_TESTNET: u32 = 0x1a046484;
pub const CRUST_TESTNET: u32 = 0x3a0476d5;
pub const TON_TESTNET: u32 = 0x9a7e9bdc;
pub const NEAR_TESTNET: u32 = 0x15497ae7;
pub const CKB_TESTNET: u32 = 0xe43cbf03;
pub const FRACTAL_TESTNET: u32 = 0xd315bbb0;

/// Every chain id of the table, in declaration order.
pub open spec fn chain_id_table() -> Seq<u32> {
    seq![
                ETHEREUM_MAINNET, OPTIMISM_MAINNET, POLYGON_MAINNET, BINANCE_MAINNET,
                ETHEREUM_GOERLI, OPTIMISM_GOERLI, POLYGON_MUMBAI, BINANCE_TESTNET,
                FILECOIN_MAINNET, BITCOIN_MAINNET, BITCOIN_TESTNET, SOLANA_MAINNET,
                SOLANA_TESTNET, SOLANA_DEVNET, APTOS_MAINNET, APTOS_TESTNET, FILECOIN_TESTNET,
                FILECOIN_EVM_MAINNET, FILECOIN_EVM_TESTNET, ARBITRUM_GOERLI, ARBITRUM_MAINNET,
                ETHEREUM_SEPOLIA, DOGECOIN_MAINNET, DOGECOIN_TESTNET, ZKSYNC_ERA_MAINNET,
                ZKSYNC_GOERLI, LOCAL_CHAIN, STARKNET_MAINNET, STARKNET_TESTNET, STARKNET_TESTNET2,
                SUI_MAINNET, SUI_DEVNET, SUI_TESTNET, BOOL_LOCAL, BOOL_DEVNET, BOOL_TESTNET,
                BOOL_ALPHA_MAINNET, AVALANCHE_C_MAINNET, AVALANCHE_FUJI, BASE_MAINNET,
                BASE_GOERLI, LINEA_MAINNET, LINEA_TESTNET, PEGO_MAINNET, PEGO_TESTNET,
                QSZL_MAINNET, BEVM_MAINNET, BEVM2_MAINNET, ULTRA_LIQUID_MAINNET,
                DEEPSAFE_BETA_MAINNET, BEVM_TESTNET, FILECOIN_EVM_CALIBRATION, BIFROST_POLKADOT,
                BIFROST_KUSAMA, BIFROST_TESTNET, CRUST_MAINNET, CRUST_TESTNET, OPBNB_MAINNET,
                OPBNB_TESTNET, SCROLL_SEPOLIA, SCROLL_MAINNET, NAUTILUS_MAINNET, NAUTILUS_PROTEUS,
                HECO_MAINNET, TON_MAINNET, TON_TESTNET, METER_MAINNET, METER_TESTNET,
                NEAR_MAINNET, NEAR_TESTNET, TRON_MAINNET, TRON_SHASTA, TRON_LOCAL,
                COREDAO_MAINNET, COREDAO_TESTNET, X1_MAINNET, X1_TESTNET, SATOSHIVM_MAINNET,
                SATOSHIVM_TESTNET, SATOSHIVM_DEVNET, OPTIMISM_SEPOLIA, BASE_SEPOLIA,
                ENDURANCE_DEVNET, OLD_AINN_MAINNET, OLD_AINN_TESTNET, AINN_MAINNET, AINN_TESTNET,
                AINN_DEVNET, B2_HABITAT_TESTNET, TAKER_TESTNET, B2_MAINNET, BITLAYER_MAINNET,
                BITLAYER_TESTNET, ZKLINK_MAINNET, ZKLINK_TESTNET, CKB_MAINNET, CKB_TESTNET,
                BOOL_EVM_BETA_DEVNET, BOOL_EVM_BETA_TESTNET, BOOL_EVM_BETA_MAINNET,
                MERLIN_MAINNET, MERLIN_TESTNET, BITURBO_MAINNET, BITURBO_TESTNET, MANTA_MAINNET,
                MANTA_SEPOLIA, BISON_TESTNET, SLINKY_MAINNET, SLINKY_TESTNET, FRACTAL_TESTNET,
                FRACTAL_MAINNET, DUCK_TESTNET, ULTRA_LIQUID_TESTNET, DEEPDEX_TESTNET,
                SAFEX_TESTNET,
    ]
}

/// The full list of known chain ids, as ordinary data.
pub fn chain_ids() -> (r: Vec<u32>)
    ensures
        r@ == chain_id_table(),
{
    let v: Vec<u32> = vec![
                ETHEREUM_MAINNET, OPTIMISM_MAINNET, POLYGON_MAINNET, BINANCE_MAINNET,
                ETHEREUM_GOERLI, OPTIMISM_GOERLI, POLYGON_MUMBAI, BINANCE_TESTNET,
                FILECOIN_MAINNET, BITCOIN_MAINNET, BITCOIN_TESTNET, SOLANA_MAINNET,
                SOLANA_TESTNET, SOLANA_DEVNET, APTOS_MAINNET, APTOS_TESTNET, FILECOIN_TESTNET,
                FILECOIN_EVM_MAINNET, FILECOIN_EVM_TESTNET, ARBITRUM_GOERLI, ARBITRUM_MAINNET,
                ETHEREUM_SEPOLIA, DOGECOIN_MAINNET, DOGECOIN_TESTNET, ZKSYNC_ERA_MAINNET,
                ZKSYNC_GOERLI, LOCAL_CHAIN, STARKNET_MAINNET, STARKNET_TESTNET, STARKNET_TESTNET2,
                SUI_MAINNET, SUI_DEVNET, SUI_TESTNET, BOOL_LOCAL, BOOL_DEVNET, BOOL_TESTNET,
                BOOL_ALPHA_MAINNET, AVALANCHE_C_MAINNET, AVALANCHE_FUJI, BASE_MAINNET,
                BASE_GOERLI, LINEA_MAINNET, LINEA_TESTNET, PEGO_MAINNET, PEGO_TESTNET,
                QSZL_MAINNET, BEVM_MAINNET, BEVM2_MAINNET, ULTRA_LIQUID_MAINNET,
                DEEPSAFE_BETA_MAINNET, BEVM_TESTNET, FILECOIN_EVM_CALIBRATION, BIFROST_POLKADOT,
                BIFROST_KUSAMA, BIFROST_TESTNET, CRUST_MAINNET, CRUST_TESTNET, OPBNB_MAINNET,
                OPBNB_TESTNET, SCROLL_SEPOLIA, SCROLL_MAINNET, NAUTILUS_MAINNET, NAUTILUS_PROTEUS,
                HECO_MAINNET, TON_MAINNET, TON_TESTNET, METER_MAINNET, METER_TESTNET,
                NEAR_MAINNET, NEAR_TESTNET, TRON_MAINNET, TRON_SHASTA, TRON_LOCAL,
                COREDAO_MAINNET, COREDAO_TESTNET, X1_MAINNET, X1_TESTNET, SATOSHIVM_MAINNET,
                SATOSHIVM_TESTNET, SATOSHIVM_DEVNET, OPTIMISM_SEPOLIA, BASE_SEPOLIA,
                ENDURANCE_DEVNET, OLD_AINN_MAINNET, OLD_AINN_TESTNET, AINN_MAINNET, AINN_TESTNET,
                AINN_DEVNET, B2_HABITAT_TESTNET, TAKER_TESTNET, B2_MAINNET, BITLAYER_MAINNET,
                BITLAYER_TESTNET, ZKLINK_MAINNET, ZKLINK_TESTNET, CKB_MAINNET, CKB_TESTNET,
                BOOL_EVM_BETA_DEVNET, BOOL_EVM_BETA_TESTNET, BOOL_EVM_BETA_MAINNET,
                MERLIN_MAINNET, MERLIN_TESTNET, BITURBO_MAINNET, BITURBO_TESTNET, MANTA_MAINNET,
                MANTA_SEPOLIA, BISON_TESTNET, SLINKY_MAINNET, SLINKY_TESTNET, FRACTAL_TESTNET,
                FRACTAL_MAINNET, DUCK_TESTNET, ULTRA_LIQUID_TESTNET, DEEPDEX_TESTNET,
                SAFEX_TESTNET,
    ];
    proof {
        assert(v@ =~= chain_id_table());
    }
    v
}

/// The chain families, each with its own signing conventions.
#[derive(Clone, Copy, PartialEq, Eq, Structural, Debug)]
pub enum ChainType {
    Raw,
    Fil,
    Bsc,
    Btc,
    Eth,
    Solana,
    Aptos,
    Starknet,
    Sui,
    Substrate,
    Ton,
    Near,
    Tron,
    Ckb,
}

impl Default for ChainType {
    /// The default chain family is the raw one.
    fn default() -> (r: Self)
        ensures
            r == ChainType::Raw,
    {
        ChainType::Raw
    }
}

/// The chain family that a chain id belongs to; ids outside the table fall
/// back to `Raw`.
pub open spec fn chain_type_of(num: u32) -> ChainType {
    if num == ETHEREUM_MAINNET
        || num == OPTIMISM_MAINNET
        || num == POLYGON_MAINNET
        || num == BINANCE_MAINNET
        || num == ETHEREUM_GOERLI
        || num == OPTIMISM_GOERLI
        || num == POLYGON_MUMBAI
        || num == BINANCE_TESTNET
        || num == LOCAL_CHAIN
        || num == FILECOIN_EVM_MAINNET
        || num == FILECOIN_EVM_TESTNET
        || num == ARBITRUM_MAINNET
        || num == ARBITRUM_GOERLI
        || num == ETHEREUM_SEPOLIA
        || num == ZKSYNC_GOERLI
        || num == ZKSYNC_ERA_MAINNET
        || num == AVALANCHE_FUJI
        || num == AVALANCHE_C_MAINNET
        || num == BASE_MAINNET
        || num == BASE_GOERLI
        || num == LINEA_MAINNET
        || num == LINEA_TESTNET
        || num == PEGO_MAINNET
        || num == PEGO_TESTNET
        || num == QSZL_MAINNET
        || num == FILECOIN_EVM_CALIBRATION
        || num == BEVM_MAINNET
        || num == BEVM2_MAINNET
        || num == BEVM_TESTNET
        || num == OPBNB_MAINNET
        || num == OPBNB_TESTNET
        || num == SCROLL_SEPOLIA
        || num == SCROLL_MAINNET
        || num == NAUTILUS_MAINNET
        || num == NAUTILUS_PROTEUS
        || num == HECO_MAINNET
        || num == METER_MAINNET
        || num == METER_TESTNET
        || num == COREDAO_MAINNET
        || num == COREDAO_TESTNET
        || num == X1_MAINNET
        || num == X1_TESTNET
        || num == SATOSHIVM_DEVNET
        || num == SATOSHIVM_MAINNET
        || num == SATOSHIVM_TESTNET
        || num == OPTIMISM_SEPOLIA
        || num == BASE_SEPOLIA
        || num == ENDURANCE_DEVNET
        || num == OLD_AINN_MAINNET
        || num == OLD_AINN_TESTNET
        || num == AINN_MAINNET
        || num == AINN_TESTNET
        || num == AINN_DEVNET
        || num == B2_HABITAT_TESTNET
        || num == TAKER_TESTNET
        || num == B2_MAINNET
        || num == BITLAYER_MAINNET
        || num == BITLAYER_TESTNET
        || num == ZKLINK_MAINNET
        || num == ZKLINK_TESTNET
        || num == BOOL_EVM_BETA_TESTNET
        || num == BOOL_EVM_BETA_DEVNET
        || num == MERLIN_MAINNET
        || num == MERLIN_TESTNET
        || num == BITURBO_MAINNET
        || num == BITURBO_TESTNET
        || num == MANTA_MAINNET
        || num == MANTA_SEPOLIA
        || num == BISON_TESTNET
        || num == SLINKY_MAINNET
        || num == SLINKY_TESTNET
        || num == DUCK_TESTNET
        || num == BOOL_EVM_BETA_MAINNET
        || num == DEEPSAFE_BETA_MAINNET
        || num == ULTRA_LIQUID_MAINNET
        || num == ULTRA_LIQUID_TESTNET
        || num == SAFEX_TESTNET
        || num == DEEPDEX_TESTNET {
        ChainType::Eth
    } else if num == BITCOIN_MAINNET
        || num == BITCOIN_TESTNET
        || num == DOGECOIN_MAINNET
        || num == DOGECOIN_TESTNET {
        ChainType::Btc
    } else if num == SOLANA_MAINNET
        || num == SOLANA_TESTNET
        || num == SOLANA_DEVNET {
        ChainType::Solana
    } else if num == FILECOIN_TESTNET
        || num == FILECOIN_MAINNET {
        ChainType::Fil
    } else if num == APTOS_MAINNET
        || num == APTOS_TESTNET {
        ChainType::Aptos
    } else if num == STARKNET_MAINNET
        || num == STARKNET_TESTNET
        || num == STARKNET_TESTNET2 {
        ChainType::Starknet
    } else if num == SUI_MAINNET
        || num == SUI_DEVNET
        || num == SUI_TESTNET {
        ChainType::Sui
    } else if num == BOOL_LOCAL
        || num == BOOL_DEVNET
        || num == BOOL_TESTNET
        || num == BOOL_ALPHA_MAINNET
        || num == BIFROST_POLKADOT
        || num == BIFROST_TESTNET
        || num == BIFROST_KUSAMA
        || num == CRUST_MAINNET
        || num == CRUST_TESTNET {
        ChainType::Substrate
    } else if num == TON_MAINNET
        || num == TON_TESTNET {
        ChainType::Ton
    } else if num == NEAR_MAINNET
        || num == NEAR_TESTNET {
        ChainType::Near
    } else if num == TRON_MAINNET
        || num == TRON_SHASTA
        || num == TRON_LOCAL {
        ChainType::Tron
    } else if num == CKB_MAINNET
        || num == CKB_TESTNET {
        ChainType::Ckb
    } else {
        ChainType::Raw
    }
}

impl ChainType {
    /// Classify a chain id.
    pub fn from_chain_id(num: u32) -> (r: Self)
        ensures
            r == chain_type_of(num),
    {
        if num == ETHEREUM_MAINNET
            || num == OPTIMISM_MAINNET
            || num == POLYGON_MAINNET
            || num == BINANCE_MAINNET
            || num == ETHEREUM_GOERLI
            || num == OPTIMISM_GOERLI
            || num == POLYGON_MUMBAI
            || num == BINANCE_TESTNET
            || num == LOCAL_CHAIN
            || num == FILECOIN_EVM_MAINNET
            || num == FILECOIN_EVM_TESTNET
            || num == ARBITRUM_MAINNET
            || num == ARBITRUM_GOERLI
            || num == ETHEREUM_SEPOLIA
            || num == ZKSYNC_GOERLI
            || num == ZKSYNC_ERA_MAINNET
            || num == AVALANCHE_FUJI
            || num == AVALANCHE_C_MAINNET
            || num == BASE_MAINNET
            || num == BASE_GOERLI
            || num == LINEA_MAINNET
            || num == LINEA_TESTNET
            || num == PEGO_MAINNET
            || num == PEGO_TESTNET
            || num == QSZL_MAINNET
            || num == FILECOIN_EVM_CALIBRATION
            || num == BEVM_MAINNET
            || num == BEVM2_MAINNET
            || num == BEVM_TESTNET
            || num == OPBNB_MAINNET
            || num == OPBNB_TESTNET
            || num == SCROLL_SEPOLIA
            || num == SCROLL_MAINNET
            || num == NAUTILUS_MAINNET
            || num == NAUTILUS_PROTEUS
            || num == HECO_MAINNET
            || num == METER_MAINNET
            || num == METER_TESTNET
            || num == COREDAO_MAINNET
            || num == COREDAO_TESTNET
            || num == X1_MAINNET
            || num == X1_TESTNET
            || num == SATOSHIVM_DEVNET
            || num == SATOSHIVM_MAINNET
            || num == SATOSHIVM_TESTNET
            || num == OPTIMISM_SEPOLIA
            || num == BASE_SEPOLIA
            || num == ENDURANCE_DEVNET
            || num == OLD_AINN_MAINNET
            || num == OLD_AINN_TESTNET
            || num == AINN_MAINNET
            || num == AINN_TESTNET
            || num == AINN_DEVNET
            || num == B2_HABITAT_TESTNET
            || num == TAKER_TESTNET
            || num == B2_MAINNET
            || num == BITLAYER_MAINNET
            || num == BITLAYER_TESTNET
            || num == ZKLINK_MAINNET
            || num == ZKLINK_TESTNET
            || num == BOOL_EVM_BETA_TESTNET
            || num == BOOL_EVM_BETA_DEVNET
            || num == MERLIN_MAINNET
            || num == MERLIN_TESTNET
            || num == BITURBO_MAINNET
            || num == BITURBO_TESTNET
            || num == MANTA_MAINNET
            || num == MANTA_SEPOLIA
            || num == BISON_TESTNET
            || num == SLINKY_MAINNET
            || num == SLINKY_TESTNET
            || num == DUCK_TESTNET
            || num == BOOL_EVM_BETA_MAINNET
            || num == DEEPSAFE_BETA_MAINNET
            || num == ULTRA_LIQUID_MAINNET
            || num == ULTRA_LIQUID_TESTNET
            || num == SAFEX_TESTNET
            || num == DEEPDEX_TESTNET {
            ChainType::Eth
        } else if num == BITCOIN_MAINNET
            || num == BITCOIN_TESTNET
            || num == DOGECOIN_MAINNET
            || num == DOGECOIN_TESTNET {
            ChainType::Btc
        } else if num == SOLANA_MAINNET
            || num == SOLANA_TESTNET
            || num == SOLANA_DEVNET {
            ChainType::Solana
        } else if num == FILECOIN_TESTNET
            || num == FILECOIN_MAINNET {
            ChainType::Fil
        } else if num == APTOS_MAINNET
            || num == APTOS_TESTNET {
            ChainType::Aptos
        } else if num == STARKNET_MAINNET
            || num == STARKNET_TESTNET
            || num == STARKNET_TESTNET2 {
            ChainType::Starknet
        } else if num == SUI_MAINNET
            || num == SUI_DEVNET
            || num == SUI_TESTNET {
            ChainType::Sui
        } else if num == BOOL_LOCAL
            || num == BOOL_DEVNET
            || num == BOOL_TESTNET
            || num == BOOL_ALPHA_MAINNET
            || num == BIFROST_POLKADOT
            || num == BIFROST_TESTNET
            || num == BIFROST_KUSAMA
            || num == CRUST_MAINNET
            || num == CRUST_TESTNET {
            ChainType::Substrate
        } else if num == TON_MAINNET
            || num == TON_TESTNET {
            ChainType::Ton
        } else if num == NEAR_MAINNET
            || num == NEAR_TESTNET {
            ChainType::Near
        } else if num == TRON_MAINNET
            || num == TRON_SHASTA
            || num == TRON_LOCAL {
            ChainType::Tron
        } else if num == CKB_MAINNET
            || num == CKB_TESTNET {
            ChainType::Ckb
        } else {
            ChainType::Raw
        }
    }
}

/// The chain family encoded by a compact numeric tag; unknown tags fall
/// back to `Raw`.
pub open spec fn chain_type_from_u16(num: u16) -> ChainType {
    if num == 0 {
        ChainType::Raw
    } else if num == 1 {
        ChainType::Fil
    } else if num == 2 {
        ChainType::Bsc
    } else if num == 3 {
        ChainType::Btc
    } else if num == 4 {
        ChainType::Eth
    } else if num == 5 {
        ChainType::Solana
    } else if num == 6 {
        ChainType::Aptos
    } else if num == 7 {
        ChainType::Starknet
    } else if num == 8 {
        ChainType::Sui
    } else if num == 9 {
        ChainType::Substrate
    } else if num == 10 {
        ChainType::Ton
    } else if num == 11 {
        ChainType::Near
    } else if num == 12 {
        ChainType::Tron
    } else if num == 13 {
        ChainType::Ckb
    } else {
        ChainType::Raw
    }
}

/// The compact numeric tag of a chain family.
pub open spec fn chain_type_to_u16(c: ChainType) -> u16 {
    match c {
        ChainType::Raw => 0,
        ChainType::Fil => 1,
        ChainType::Bsc => 2,
        ChainType::Btc => 3,
        ChainType::Eth => 4,
        ChainType::Solana => 5,
        ChainType::Aptos => 6,
        ChainType::Starknet => 7,
        ChainType::Sui => 8,
        ChainType::Substrate => 9,
        ChainType::Ton => 10,
        ChainType::Near => 11,
        ChainType::Tron => 12,
        ChainType::Ckb => 13,
    }
}

impl From<u16> for ChainType {
    /// Decode a chain family from its compact numeric tag.
    fn from(num: u16) -> (r: ChainType) {
        
        if num == 0 {
            ChainType::Raw
        } else if num == 1 {
            ChainType::Fil
        } else if num == 2 {
            ChainType::Bsc
        } else if num == 3 {
            ChainType::Btc
        } else if num == 4 {
            ChainType::Eth
        } else if num == 5 {
            ChainType::Solana
        } else if num == 6 {
            ChainType::Aptos
        } else if num == 7 {
            ChainType::Starknet
        } else if num == 8 {
            ChainType::Sui
        } else if num == 9 {
            ChainType::Substrate
        } else if num == 10 {
            ChainType::Ton
        } else if num == 11 {
            ChainType::Near
        } else if num == 12 {
            ChainType::Tron
        } else if num == 13 {
            ChainType::Ckb
        } else {
            ChainType::Raw
        }
    }
}

impl vstd::std_specs::convert::FromSpecImpl<u16> for ChainType {
    open spec fn obeys_from_spec() -> bool {
        true
    }

    open spec fn from_spec(num: u16) -> ChainType {
        chain_type_from_u16(num)
    }
}

impl From<ChainType> for u16 {
    /// The compact numeric tag of a chain family.
    fn from(val: ChainType) -> (r: u16) {
        match val {
            ChainType::Raw => 0,
            ChainType::Fil => 1,
            ChainType::Bsc => 2,
            ChainType::Btc => 3,
            ChainType::Eth => 4,
            ChainType::Solana => 5,
            ChainType::Aptos => 6,
            ChainType::Starknet => 7,
            ChainType::Sui => 8,
            ChainType::Substrate => 9,
            ChainType::Ton => 10,
            ChainType::Near => 11,
            ChainType::Tron => 12,
            ChainType::Ckb => 13,
        }
    }
}

impl vstd::std_specs::convert::FromSpecImpl<ChainType> for u16 {
    open spec fn obeys_from_spec() -> bool {
        true
    }

    open spec fn from_spec(val: ChainType) -> u16 {
        chain_type_to_u16(val)
    }
}

} // verus!
