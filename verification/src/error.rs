//! Error taxonomy of the verification engine, and the error types surfaced
//! over RPC.

use vstd::prelude::*;

verus! {

/// Why a batch, a signature blob or a single signature was rejected.
#[derive(Clone, Copy, PartialEq, Eq, Structural, Debug)]
pub enum VerifyError {
    /// Malformed hex, malformed binary layout, or unconsumed trailing bytes.
    DecodeError,
    /// Wrong transaction count for the asset type, or an empty or
    /// length-mismatched hash/value sequence.
    SchemaViolation,
    /// Malformed public key or signature encoding or length.
    ParseError,
    /// Well-formed input whose cryptographic check failed.
    SignatureInvalid,
    /// Unrecognized engine selector: a configuration error, not a
    /// verification outcome.
    UnsupportedEngine,
}

/// Where a batch verification stopped.
#[derive(Clone, Copy, PartialEq, Eq, Structural, Debug)]
pub enum BatchError {
    /// Decoding, flattening, splitting or pairing the batch itself failed:
    /// no pair was ever checked.
    Disintegrate,
    /// The pair at `index` (in input order) was rejected; every earlier pair
    /// passed.
    Pair { index: usize, cause: VerifyError },
}


/// The error kinds surfaced over RPC, each identified by a stable numeric
/// code.
#[derive(Clone, Copy, PartialEq, Eq, Structural, Debug)]
pub enum CustomError {
    InvalidSession,
    HeartbeatExist,
    ImOnlineInvalidSignature,
    InvalidForkId,
    InvalidRvrfDuration,
    InvalidRvrfProof,
    CandidatesExist,
    CandidatesEnough,
    InvalidTxSender,
    InvalidTxSenderSignature,
    InvalidEpoch,
    InvalidCmtPubkey,
    InvalidTxStatus,
    InvalidCmtSignature,
    NotCmtMember,
    TxTimeout,
    IncorrectEnclaveHash,
    InvalidDidVersion,
    PrecompileParseUnsignedTxParamsFailed,
    PrecompileSelectorParseFailed,
    InvalidVersion,
    InvalidReport,
    InvalidRegisterSignature,
    ParseOnChainProofErr,
    NoDeviceInfo,
    InCorrectDeviceState,
    InvalidStandbySignature,
    NoNeedToUpdateAssets,
    AlreadyUpdate,
    DuplicateExpose,
    InvalidPartySignature,
    InvalidReportChangeDuration,
    DuplicateCall,
    InvalidDuration,
    InvalidSignature,
    InvalidDevice,
    UidConsensusNotInit,
    UidConsensusAlreadyFinished,
    InvalidSignedMessage,
    BlockNumberOverOffset,
    DuplicateEpochChange,
    ConsensusNotStart,
    Unknown,
}

/// The error kind that a numeric code names; unknown codes collapse to
/// `Unknown`.
pub open spec fn custom_error_of(num: u8) -> CustomError {
    if num == 0 {
        CustomError::InvalidSession
    } else if num == 2 {
        CustomError::HeartbeatExist
    } else if num == 3 {
        CustomError::ImOnlineInvalidSignature
    } else if num == 4 {
        CustomError::InvalidForkId
    } else if num == 7 {
        CustomError::InvalidRvrfDuration
    } else if num == 8 {
        CustomError::InvalidRvrfProof
    } else if num == 9 {
        CustomError::CandidatesExist
    } else if num == 10 {
        CustomError::CandidatesEnough
    } else if num == 11 {
        CustomError::InvalidTxSender
    } else if num == 12 {
        CustomError::InvalidTxSenderSignature
    } else if num == 13 {
        CustomError::InvalidEpoch
    } else if num == 14 {
        CustomError::InvalidCmtPubkey
    } else if num == 17 {
        CustomError::InvalidTxStatus
    } else if num == 18 {
        CustomError::InvalidCmtSignature
    } else if num == 19 {
        CustomError::NotCmtMember
    } else if num == 20 {
        CustomError::TxTimeout
    } else if num == 24 {
        CustomError::IncorrectEnclaveHash
    } else if num == 25 {
        CustomError::InvalidDidVersion
    } else if num == 26 {
        CustomError::PrecompileParseUnsignedTxParamsFailed
    } else if num == 27 {
        CustomError::PrecompileSelectorParseFailed
    } else if num == 28 {
        CustomError::InvalidVersion
    } else if num == 29 {
        CustomError::InvalidReport
    } else if num == 30 {
        CustomError::InvalidRegisterSignature
    } else if num == 31 {
        CustomError::ParseOnChainProofErr
    } else if num == 33 {
        CustomError::NoDeviceInfo
    } else if num == 34 {
        CustomError::InCorrectDeviceState
    } else if num == 35 {
        CustomError::InvalidStandbySignature
    } else if num == 36 {
        CustomError::NoNeedToUpdateAssets
    } else if num == 37 {
        CustomError::AlreadyUpdate
    } else if num == 38 {
        CustomError::DuplicateExpose
    } else if num == 39 {
        CustomError::InvalidPartySignature
    } else if num == 42 {
        CustomError::InvalidReportChangeDuration
    } else if num == 43 {
        CustomError::DuplicateCall
    } else if num == 44 {
        CustomError::InvalidDuration
    } else if num == 45 {
        CustomError::InvalidSignature
    } else if num == 46 {
        CustomError::InvalidDevice
    } else if num == 48 {
        CustomError::UidConsensusNotInit
    } else if num == 49 {
        CustomError::UidConsensusAlreadyFinished
    } else if num == 52 {
        CustomError::InvalidSignedMessage
    } else if num == 53 {
        CustomError::BlockNumberOverOffset
    } else if num == 55 {
        CustomError::DuplicateEpochChange
    } else if num == 56 {
        CustomError::ConsensusNotStart
    } else {
        CustomError::Unknown
    }
}

/// The human-readable description of an error kind.
pub open spec fn custom_error_message(e: CustomError) -> Seq<char> {
    match e {
        CustomError::InvalidSession => "Invalid heartbeat session"@,
        CustomError::HeartbeatExist => "Heartbeat exist"@,
        CustomError::ImOnlineInvalidSignature => "Verify im_online signature failed"@,
        CustomError::InvalidForkId => "Invalid fork id for committee"@,
        CustomError::InvalidRvrfDuration => "Invalid time to submit Rvrf for committee"@,
        CustomError::InvalidRvrfProof => "Rvrf proof verify failed"@,
        CustomError::CandidatesExist => "Sender has been candidate before"@,
        CustomError::CandidatesEnough => "There are enough candidates"@,
        CustomError::InvalidTxSender => "Not expect sender about the tx"@,
        CustomError::InvalidTxSenderSignature => "Invalid sender's signature"@,
        CustomError::InvalidEpoch => "Invalid committee's epoch"@,
        CustomError::InvalidCmtPubkey => "Invalid committee's pubkey"@,
        CustomError::InvalidTxStatus => "Invalid status for target tx"@,
        CustomError::InvalidCmtSignature => "Verify committee's signature failed"@,
        CustomError::NotCmtMember => "Not committee's member"@,
        CustomError::TxTimeout => "Tx has been time-out"@,
        CustomError::IncorrectEnclaveHash => "Invalid Enclave Hash"@,
        CustomError::InvalidDidVersion => "Invalid device version to report im online"@,
        CustomError::PrecompileParseUnsignedTxParamsFailed => "Invalid params for report result precompile"@,
        CustomError::PrecompileSelectorParseFailed => "Invalid selector for precompile"@,
        CustomError::InvalidVersion => "invalid device version"@,
        CustomError::InvalidReport => "invalid device register report"@,
        CustomError::InvalidRegisterSignature => "invalid signature for register report"@,
        CustomError::ParseOnChainProofErr => "invalid on chain proof data for register report"@,
        CustomError::NoDeviceInfo => "No Device info stored"@,
        CustomError::InCorrectDeviceState => "Incorrect Device state"@,
        CustomError::InvalidStandbySignature => "Invalid report standby signature"@,
        CustomError::NoNeedToUpdateAssets => "cid not at update assets list"@,
        CustomError::AlreadyUpdate => "cid assets already update"@,
        CustomError::DuplicateExpose => "duplicate expose"@,
        CustomError::InvalidPartySignature => "Invalid party's signature"@,
        CustomError::InvalidReportChangeDuration => "Invalid report change duration"@,
        CustomError::DuplicateCall => "Duplicate call"@,
        CustomError::InvalidDuration => "Invalid duration"@,
        CustomError::InvalidSignature => "Invalid signature"@,
        CustomError::InvalidDevice => "Invalid device"@,
        CustomError::UidConsensusNotInit => "Uid consensus mission not init"@,
        CustomError::UidConsensusAlreadyFinished => "Uid consensus mission already finished"@,
        CustomError::InvalidSignedMessage => "Decode signed message failed"@,
        CustomError::BlockNumberOverOffset => "Block number over-offset the limit"@,
        CustomError::DuplicateEpochChange => "Duplicate epoch change"@,
        CustomError::ConsensusNotStart => "Consensus not start"@,
        CustomError::Unknown => "unknown error"@,
    }
}

impl CustomError {
    /// Decode an error kind from its numeric code.
    pub fn from_num(num: u8) -> (r: Self)
        ensures
            r == custom_error_of(num),
    {
        if num == 0 {
            Self::InvalidSession
        } else if num == 2 {
            Self::HeartbeatExist
        } else if num == 3 {
            Self::ImOnlineInvalidSignature
        } else if num == 4 {
            Self::InvalidForkId
        } else if num == 7 {
            Self::InvalidRvrfDuration
        } else if num == 8 {
            Self::InvalidRvrfProof
        } else if num == 9 {
            Self::CandidatesExist
        } else if num == 10 {
            Self::CandidatesEnough
        } else if num == 11 {
            Self::InvalidTxSender
        } else if num == 12 {
            Self::InvalidTxSenderSignature
        } else if num == 13 {
            Self::InvalidEpoch
        } else if num == 14 {
            Self::InvalidCmtPubkey
        } else if num == 17 {
            Self::InvalidTxStatus
        } else if num == 18 {
            Self::InvalidCmtSignature
        } else if num == 19 {
            Self::NotCmtMember
        } else if num == 20 {
            Self::TxTimeout
        } else if num == 24 {
            Self::IncorrectEnclaveHash
        } else if num == 25 {
            Self::InvalidDidVersion
        } else if num == 26 {
            Self::PrecompileParseUnsignedTxParamsFailed
        } else if num == 27 {
            Self::PrecompileSelectorParseFailed
        } else if num == 28 {
            Self::InvalidVersion
        } else if num == 29 {
            Self::InvalidReport
        } else if num == 30 {
            Self::InvalidRegisterSignature
        } else if num == 31 {
            Self::ParseOnChainProofErr
        } else if num == 33 {
            Self::NoDeviceInfo
        } else if num == 34 {
            Self::InCorrectDeviceState
        } else if num == 35 {
            Self::InvalidStandbySignature
        } else if num == 36 {
            Self::NoNeedToUpdateAssets
        } else if num == 37 {
            Self::AlreadyUpdate
        } else if num == 38 {
            Self::DuplicateExpose
        } else if num == 39 {
            Self::InvalidPartySignature
        } else if num == 42 {
            Self::InvalidReportChangeDuration
        } else if num == 43 {
            Self::DuplicateCall
        } else if num == 44 {
            Self::InvalidDuration
        } else if num == 45 {
            Self::InvalidSignature
        } else if num == 46 {
            Self::InvalidDevice
        } else if num == 48 {
            Self::UidConsensusNotInit
        } else if num == 49 {
            Self::UidConsensusAlreadyFinished
        } else if num == 52 {
            Self::InvalidSignedMessage
        } else if num == 53 {
            Self::BlockNumberOverOffset
        } else if num == 55 {
            Self::DuplicateEpochChange
        } else if num == 56 {
            Self::ConsensusNotStart
        } else {
            Self::Unknown
        }
    }

    /// The human-readable description of this error kind.
    pub fn message(&self) -> (r: String)
        ensures
            r@ == custom_error_message(*self),
    {
        match self {
            CustomError::InvalidSession => "Invalid heartbeat session".to_owned(),
            CustomError::HeartbeatExist => "Heartbeat exist".to_owned(),
            CustomError::ImOnlineInvalidSignature => "Verify im_online signature failed".to_owned(),
            CustomError::InvalidForkId => "Invalid fork id for committee".to_owned(),
            CustomError::InvalidRvrfDuration => "Invalid time to submit Rvrf for committee".to_owned(),
            CustomError::InvalidRvrfProof => "Rvrf proof verify failed".to_owned(),
            CustomError::CandidatesExist => "Sender has been candidate before".to_owned(),
            CustomError::CandidatesEnough => "There are enough candidates".to_owned(),
            CustomError::InvalidTxSender => "Not expect sender about the tx".to_owned(),
            CustomError::InvalidTxSenderSignature => "Invalid sender's signature".to_owned(),
            CustomError::InvalidEpoch => "Invalid committee's epoch".to_owned(),
            CustomError::InvalidCmtPubkey => "Invalid committee's pubkey".to_owned(),
            CustomError::InvalidTxStatus => "Invalid status for target tx".to_owned(),
            CustomError::InvalidCmtSignature => "Verify committee's signature failed".to_owned(),
            CustomError::NotCmtMember => "Not committee's member".to_owned(),
            CustomError::TxTimeout => "Tx has been time-out".to_owned(),
            CustomError::IncorrectEnclaveHash => "Invalid Enclave Hash".to_owned(),
            CustomError::InvalidDidVersion => "Invalid device version to report im online".to_owned(),
            CustomError::PrecompileParseUnsignedTxParamsFailed => "Invalid params for report result precompile".to_owned(),
            CustomError::PrecompileSelectorParseFailed => "Invalid selector for precompile".to_owned(),
            CustomError::InvalidVersion => "invalid device version".to_owned(),
            CustomError::InvalidReport => "invalid device register report".to_owned(),
            CustomError::InvalidRegisterSignature => "invalid signature for register report".to_owned(),
            CustomError::ParseOnChainProofErr => "invalid on chain proof data for register report".to_owned(),
            CustomError::NoDeviceInfo => "No Device info stored".to_owned(),
            CustomError::InCorrectDeviceState => "Incorrect Device state".to_owned(),
            CustomError::InvalidStandbySignature => "Invalid report standby signature".to_owned(),
            CustomError::NoNeedToUpdateAssets => "cid not at update assets list".to_owned(),
            CustomError::AlreadyUpdate => "cid assets already update".to_owned(),
            CustomError::DuplicateExpose => "duplicate expose".to_owned(),
            CustomError::InvalidPartySignature => "Invalid party's signature".to_owned(),
            CustomError::InvalidReportChangeDuration => "Invalid report change duration".to_owned(),
            CustomError::DuplicateCall => "Duplicate call".to_owned(),
            CustomError::InvalidDuration => "Invalid duration".to_owned(),
            CustomError::InvalidSignature => "Invalid signature".to_owned(),
            CustomError::InvalidDevice => "Invalid device".to_owned(),
            CustomError::UidConsensusNotInit => "Uid consensus mission not init".to_owned(),
            CustomError::UidConsensusAlreadyFinished => "Uid consensus mission already finished".to_owned(),
            CustomError::InvalidSignedMessage => "Decode signed message failed".to_owned(),
            CustomError::BlockNumberOverOffset => "Block number over-offset the limit".to_owned(),
            CustomError::DuplicateEpochChange => "Duplicate epoch change".to_owned(),
            CustomError::ConsensusNotStart => "Consensus not start".to_owned(),
            CustomError::Unknown => "unknown error".to_owned(),
        }
    }
}

/// The error payload of an RPC error response.
#[derive(Clone, Debug)]
pub struct ErrorData {
    pub code: u32,
    pub message: String,
    pub data: String,
}

/// An RPC error response envelope.
#[derive(Clone, Debug)]
pub struct RpcError {
    pub jsonrpc: String,
    pub error: ErrorData,
    pub id: u32,
}


} // verus!
