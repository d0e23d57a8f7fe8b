//! The status-code vocabulary: one symbolic outcome per variant, each bound
//! to a fixed wire discriminant that is never reused or renumbered, and the
//! total conversions between the two.
//!
//! Discriminants are partitioned into reserved bands, one per owning
//! subsystem, so that subsystems extend their own portion of the vocabulary
//! without colliding: 0-99 generic, 100-199 controller, 200-299 consensus,
//! 300-399 crypto, 400-499 network, 500-599 executor, 600-699 storage.

use vstd::prelude::*;

verus! {

/// The response status code shared by every subsystem of the platform.
///
/// `Success` is the only value that is not an error; `ConvertIntError` is the
/// fallback sentinel that every unrecognized wire integer decodes to, so that
/// a version-skewed peer degrades to "unknown error" instead of breaking the
/// channel.
#[derive(Debug, Clone, Copy, PartialEq, Eq, Structural)]
pub enum StatusCode {
    Success,
    ConvertIntError,
    NoneStatusCode,
    FatalError,

    MisbehaveNode,
    BannedNode,
    AddressOriginCheckError,
    ProvideAddressError,
    NoProvideAddress,
    NoBlock,
    NoProof,
    NoTxHeight,
    NoTxIndex,
    NoTransaction,
    NoBlockHeight,
    NoBlockHash,
    NoneProposal,
    NoneBlockBody,
    NoneBlockHeader,
    NoneChainStatus,
    NoneWitness,
    NoneTransaction,
    NoneUtxo,
    NoneRawTx,
    EarlyStatus,
    ExecuteError,
    EncodeError,
    DecodeError,
    NoCandidate,
    NoEarlyStatus,
    NoForkTree,
    DupTransaction,
    ProposalTooHigh,
    ProposalTooLow,
    ProposalCheckError,
    ConsensusProposalCheckError,
    BlockCheckError,
    CSISigCheckError,
    VersionOrIdCheckError,
    HashCheckError,
    HashLenError,
    SigLenError,
    SigCheckError,
    NodeInSyncMode,
    HistoryDupTx,
    EmergencyBrake,
    InvalidVersion,
    InvalidTo,
    InvalidNonce,
    InvalidValidUntilBlock,
    InvalidValue,
    InvalidChainId,
    InvalidWitness,
    InvalidLockId,
    InvalidPreHash,
    AdminCheckError,
    ModuleNotController,
    QuotaUsedExceed,

    ConsensusServerNotReady,
    ProposalProofError,

    CryptoServerNotReady,
    NoneHashResult,
    ConstructSigError,
    ConstructKeyPairError,
    SignError,

    NetworkServerNotReady,
    SendMsgError,
    BroadcastMsgError,
    MultiAddrParseError,
    DialNodeFail,
    AddExistedPeer,

    ExecuteServerNotReady,
    InternalChannelDisconnected,
    ReenterBlock,
    ReenterInvalidBlock,

    StorageServerNotReady,
    NotFound,
    InvalidRegion,
    InvalidKey,
    BadRegion,
    StoreError,
    LoadError,
    DeleteError,
}

impl StatusCode {
    /// The fixed wire discriminant of this value.
    pub open spec fn code_spec(self) -> int {
        match self {
            StatusCode::Success => 0,
            StatusCode::ConvertIntError => 1,
            StatusCode::NoneStatusCode => 2,
            StatusCode::FatalError => 3,
            StatusCode::MisbehaveNode => 100,
            StatusCode::BannedNode => 101,
            StatusCode::AddressOriginCheckError => 102,
            StatusCode::ProvideAddressError => 103,
            StatusCode::NoProvideAddress => 104,
            StatusCode::NoBlock => 105,
            StatusCode::NoProof => 106,
            StatusCode::NoTxHeight => 107,
            StatusCode::NoTxIndex => 108,
            StatusCode::NoTransaction => 109,
            StatusCode::NoBlockHeight => 110,
            StatusCode::NoBlockHash => 111,
            StatusCode::NoneProposal => 112,
            StatusCode::NoneBlockBody => 113,
            StatusCode::NoneBlockHeader => 114,
            StatusCode::NoneChainStatus => 115,
            StatusCode::NoneWitness => 116,
            StatusCode::NoneTransaction => 117,
            StatusCode::NoneUtxo => 118,
            StatusCode::NoneRawTx => 119,
            StatusCode::EarlyStatus => 120,
            StatusCode::ExecuteError => 121,
            StatusCode::EncodeError => 122,
            StatusCode::DecodeError => 123,
            StatusCode::NoCandidate => 124,
            StatusCode::NoEarlyStatus => 125,
            StatusCode::NoForkTree => 126,
            StatusCode::DupTransaction => 127,
            StatusCode::ProposalTooHigh => 128,
            StatusCode::ProposalTooLow => 129,
            StatusCode::ProposalCheckError => 130,
            StatusCode::ConsensusProposalCheckError => 131,
            StatusCode::BlockCheckError => 132,
            StatusCode::CSISigCheckError => 133,
            StatusCode::VersionOrIdCheckError => 134,
            StatusCode::HashCheckError => 135,
            StatusCode::HashLenError => 136,
            StatusCode::SigLenError => 137,
            StatusCode::SigCheckError => 138,
            StatusCode::NodeInSyncMode => 139,
            StatusCode::HistoryDupTx => 140,
            StatusCode::EmergencyBrake => 141,
            StatusCode::InvalidVersion => 142,
            StatusCode::InvalidTo => 143,
            StatusCode::InvalidNonce => 144,
            StatusCode::InvalidValidUntilBlock => 145,
            StatusCode::InvalidValue => 146,
            StatusCode::InvalidChainId => 147,
            StatusCode::InvalidWitness => 148,
            StatusCode::InvalidLockId => 149,
            StatusCode::InvalidPreHash => 150,
            StatusCode::AdminCheckError => 151,
            StatusCode::ModuleNotController => 152,
            StatusCode::QuotaUsedExceed => 153,
            StatusCode::ConsensusServerNotReady => 200,
            StatusCode::ProposalProofError => 201,
            StatusCode::CryptoServerNotReady => 300,
            StatusCode::NoneHashResult => 301,
            StatusCode::ConstructSigError => 302,
            StatusCode::ConstructKeyPairError => 303,
            StatusCode::SignError => 304,
            StatusCode::NetworkServerNotReady => 400,
            StatusCode::SendMsgError => 401,
            StatusCode::BroadcastMsgError => 402,
            StatusCode::MultiAddrParseError => 403,
            StatusCode::DialNodeFail => 404,
            StatusCode::AddExistedPeer => 405,
            StatusCode::ExecuteServerNotReady => 500,
            StatusCode::InternalChannelDisconnected => 501,
            StatusCode::ReenterBlock => 502,
            StatusCode::ReenterInvalidBlock => 503,
            StatusCode::StorageServerNotReady => 600,
            StatusCode::NotFound => 601,
            StatusCode::InvalidRegion => 602,
            StatusCode::InvalidKey => 603,
            StatusCode::BadRegion => 604,
            StatusCode::StoreError => 605,
            StatusCode::LoadError => 606,
            StatusCode::DeleteError => 607,
        }
    }

    /// Whether `v` is a discriminant the vocabulary has assigned: the
    /// populated stretch of each subsystem's reserved band.
    pub open spec fn is_defined_code(v: int) -> bool {
        ||| 0 <= v < 4
        ||| 100 <= v < 154
        ||| 200 <= v < 202
        ||| 300 <= v < 305
        ||| 400 <= v < 406
        ||| 500 <= v < 504
        ||| 600 <= v < 608
    }

    /// The variant assigned to discriminant `v`, or the fallback sentinel
    /// where no variant has it.
    pub open spec fn status_spec(v: int) -> StatusCode {
        if v == 0 {
            StatusCode::Success
        } else if v == 1 {
            StatusCode::ConvertIntError
        } else if v == 2 {
            StatusCode::NoneStatusCode
        } else if v == 3 {
            StatusCode::FatalError
        } else if v == 100 {
            StatusCode::MisbehaveNode
        } else if v == 101 {
            StatusCode::BannedNode
        } else if v == 102 {
            StatusCode::AddressOriginCheckError
        } else if v == 103 {
            StatusCode::ProvideAddressError
        } else if v == 104 {
            StatusCode::NoProvideAddress
        } else if v == 105 {
            StatusCode::NoBlock
        } else if v == 106 {
            StatusCode::NoProof
        } else if v == 107 {
            StatusCode::NoTxHeight
        } else if v == 108 {
            StatusCode::NoTxIndex
        } else if v == 109 {
            StatusCode::NoTransaction
        } else if v == 110 {
            StatusCode::NoBlockHeight
        } else if v == 111 {
            StatusCode::NoBlockHash
        } else if v == 112 {
            StatusCode::NoneProposal
        } else if v == 113 {
            StatusCode::NoneBlockBody
        } else if v == 114 {
            StatusCode::NoneBlockHeader
        } else if v == 115 {
            StatusCode::NoneChainStatus
        } else if v == 116 {
            StatusCode::NoneWitness
        } else if v == 117 {
            StatusCode::NoneTransaction
        } else if v == 118 {
            StatusCode::NoneUtxo
        } else if v == 119 {
            StatusCode::NoneRawTx
        } else if v == 120 {
            StatusCode::EarlyStatus
        } else if v == 121 {
            StatusCode::ExecuteError
        } else if v == 122 {
            StatusCode::EncodeError
        } else if v == 123 {
            StatusCode::DecodeError
        } else if v == 124 {
            StatusCode::NoCandidate
        } else if v == 125 {
            StatusCode::NoEarlyStatus
        } else if v == 126 {
            StatusCode::NoForkTree
        } else if v == 127 {
            StatusCode::DupTransaction
        } else if v == 128 {
            StatusCode::ProposalTooHigh
        } else if v == 129 {
            StatusCode::ProposalTooLow
        } else if v == 130 {
            StatusCode::ProposalCheckError
        } else if v == 131 {
            StatusCode::ConsensusProposalCheckError
        } else if v == 132 {
            StatusCode::BlockCheckError
        } else if v == 133 {
            StatusCode::CSISigCheckError
        } else if v == 134 {
            StatusCode::VersionOrIdCheckError
        } else if v == 135 {
            StatusCode::HashCheckError
        } else if v == 136 {
            StatusCode::HashLenError
        } else if v == 137 {
            StatusCode::SigLenError
        } else if v == 138 {
            StatusCode::SigCheckError
        } else if v == 139 {
            StatusCode::NodeInSyncMode
        } else if v == 140 {
            StatusCode::HistoryDupTx
        } else if v == 141 {
            StatusCode::EmergencyBrake
        } else if v == 142 {
            StatusCode::InvalidVersion
        } else if v == 143 {
            StatusCode::InvalidTo
        } else if v == 144 {
            StatusCode::InvalidNonce
        } else if v == 145 {
            StatusCode::InvalidValidUntilBlock
        } else if v == 146 {
            StatusCode::InvalidValue
        } else if v == 147 {
            StatusCode::InvalidChainId
        } else if v == 148 {
            StatusCode::InvalidWitness
        } else if v == 149 {
            StatusCode::InvalidLockId
        } else if v == 150 {
            StatusCode::InvalidPreHash
        } else if v == 151 {
            StatusCode::AdminCheckError
        } else if v == 152 {
            StatusCode::ModuleNotController
        } else if v == 153 {
            StatusCode::QuotaUsedExceed
        } else if v == 200 {
            StatusCode::ConsensusServerNotReady
        } else if v == 201 {
            StatusCode::ProposalProofError
        } else if v == 300 {
            StatusCode::CryptoServerNotReady
        } else if v == 301 {
            StatusCode::NoneHashResult
        } else if v == 302 {
            StatusCode::ConstructSigError
        } else if v == 303 {
            StatusCode::ConstructKeyPairError
        } else if v == 304 {
            StatusCode::SignError
        } else if v == 400 {
            StatusCode::NetworkServerNotReady
        } else if v == 401 {
            StatusCode::SendMsgError
        } else if v == 402 {
            StatusCode::BroadcastMsgError
        } else if v == 403 {
            StatusCode::MultiAddrParseError
        } else if v == 404 {
            StatusCode::DialNodeFail
        } else if v == 405 {
            StatusCode::AddExistedPeer
        } else if v == 500 {
            StatusCode::ExecuteServerNotReady
        } else if v == 501 {
            StatusCode::InternalChannelDisconnected
        } else if v == 502 {
            StatusCode::ReenterBlock
        } else if v == 503 {
            StatusCode::ReenterInvalidBlock
        } else if v == 600 {
            StatusCode::StorageServerNotReady
        } else if v == 601 {
            StatusCode::NotFound
        } else if v == 602 {
            StatusCode::InvalidRegion
        } else if v == 603 {
            StatusCode::InvalidKey
        } else if v == 604 {
            StatusCode::BadRegion
        } else if v == 605 {
            StatusCode::StoreError
        } else if v == 606 {
            StatusCode::LoadError
        } else if v == 607 {
            StatusCode::DeleteError
        } else {
            StatusCode::ConvertIntError
        }
    }

    /// The fixed wire discriminant of this value, as the narrowest wire
    /// width; wider representations widen this one.
    pub fn code(self) -> (r: u16)
        ensures
            r == self.code_spec(),
    {
        match self {
            StatusCode::Success => 0,
            StatusCode::ConvertIntError => 1,
            StatusCode::NoneStatusCode => 2,
            StatusCode::FatalError => 3,
            StatusCode::MisbehaveNode => 100,
            StatusCode::BannedNode => 101,
            StatusCode::AddressOriginCheckError => 102,
            StatusCode::ProvideAddressError => 103,
            StatusCode::NoProvideAddress => 104,
            StatusCode::NoBlock => 105,
            StatusCode::NoProof => 106,
            StatusCode::NoTxHeight => 107,
            StatusCode::NoTxIndex => 108,
            StatusCode::NoTransaction => 109,
            StatusCode::NoBlockHeight => 110,
            StatusCode::NoBlockHash => 111,
            StatusCode::NoneProposal => 112,
            StatusCode::NoneBlockBody => 113,
            StatusCode::NoneBlockHeader => 114,
            StatusCode::NoneChainStatus => 115,
            StatusCode::NoneWitness => 116,
            StatusCode::NoneTransaction => 117,
            StatusCode::NoneUtxo => 118,
            StatusCode::NoneRawTx => 119,
            StatusCode::EarlyStatus => 120,
            StatusCode::ExecuteError => 121,
            StatusCode::EncodeError => 122,
            StatusCode::DecodeError => 123,
            StatusCode::NoCandidate => 124,
            StatusCode::NoEarlyStatus => 125,
            StatusCode::NoForkTree => 126,
            StatusCode::DupTransaction => 127,
            StatusCode::ProposalTooHigh => 128,
            StatusCode::ProposalTooLow => 129,
            StatusCode::ProposalCheckError => 130,
            StatusCode::ConsensusProposalCheckError => 131,
            StatusCode::BlockCheckError => 132,
            StatusCode::CSISigCheckError => 133,
            StatusCode::VersionOrIdCheckError => 134,
            StatusCode::HashCheckError => 135,
            StatusCode::HashLenError => 136,
            StatusCode::SigLenError => 137,
            StatusCode::SigCheckError => 138,
            StatusCode::NodeInSyncMode => 139,
            StatusCode::HistoryDupTx => 140,
            StatusCode::EmergencyBrake => 141,
            StatusCode::InvalidVersion => 142,
            StatusCode::InvalidTo => 143,
            StatusCode::InvalidNonce => 144,
            StatusCode::InvalidValidUntilBlock => 145,
            StatusCode::InvalidValue => 146,
            StatusCode::InvalidChainId => 147,
            StatusCode::InvalidWitness => 148,
            StatusCode::InvalidLockId => 149,
            StatusCode::InvalidPreHash => 150,
            StatusCode::AdminCheckError => 151,
            StatusCode::ModuleNotController => 152,
            StatusCode::QuotaUsedExceed => 153,
            StatusCode::ConsensusServerNotReady => 200,
            StatusCode::ProposalProofError => 201,
            StatusCode::CryptoServerNotReady => 300,
            StatusCode::NoneHashResult => 301,
            StatusCode::ConstructSigError => 302,
            StatusCode::ConstructKeyPairError => 303,
            StatusCode::SignError => 304,
            StatusCode::NetworkServerNotReady => 400,
            StatusCode::SendMsgError => 401,
            StatusCode::BroadcastMsgError => 402,
            StatusCode::MultiAddrParseError => 403,
            StatusCode::DialNodeFail => 404,
            StatusCode::AddExistedPeer => 405,
            StatusCode::ExecuteServerNotReady => 500,
            StatusCode::InternalChannelDisconnected => 501,
            StatusCode::ReenterBlock => 502,
            StatusCode::ReenterInvalidBlock => 503,
            StatusCode::StorageServerNotReady => 600,
            StatusCode::NotFound => 601,
            StatusCode::InvalidRegion => 602,
            StatusCode::InvalidKey => 603,
            StatusCode::BadRegion => 604,
            StatusCode::StoreError => 605,
            StatusCode::LoadError => 606,
            StatusCode::DeleteError => 607,
        }
    }

    /// Decode a wire integer: a known discriminant yields its variant, and
    /// any other value degrades to the `ConvertIntError` sentinel, never to a
    /// decode failure.
    pub fn from_code(v: u64) -> (r: StatusCode)
        ensures
            r == StatusCode::status_spec(v as int),
    {
        match v {
            0 => StatusCode::Success,
            1 => StatusCode::ConvertIntError,
            2 => StatusCode::NoneStatusCode,
            3 => StatusCode::FatalError,
            100 => StatusCode::MisbehaveNode,
            101 => StatusCode::BannedNode,
            102 => StatusCode::AddressOriginCheckError,
            103 => StatusCode::ProvideAddressError,
            104 => StatusCode::NoProvideAddress,
            105 => StatusCode::NoBlock,
            106 => StatusCode::NoProof,
            107 => StatusCode::NoTxHeight,
            108 => StatusCode::NoTxIndex,
            109 => StatusCode::NoTransaction,
            110 => StatusCode::NoBlockHeight,
            111 => StatusCode::NoBlockHash,
            112 => StatusCode::NoneProposal,
            113 => StatusCode::NoneBlockBody,
            114 => StatusCode::NoneBlockHeader,
            115 => StatusCode::NoneChainStatus,
            116 => StatusCode::NoneWitness,
            117 => StatusCode::NoneTransaction,
            118 => StatusCode::NoneUtxo,
            119 => StatusCode::NoneRawTx,
            120 => StatusCode::EarlyStatus,
            121 => StatusCode::ExecuteError,
            122 => StatusCode::EncodeError,
            123 => StatusCode::DecodeError,
            124 => StatusCode::NoCandidate,
            125 => StatusCode::NoEarlyStatus,
            126 => StatusCode::NoForkTree,
            127 => StatusCode::DupTransaction,
            128 => StatusCode::ProposalTooHigh,
            129 => StatusCode::ProposalTooLow,
            130 => StatusCode::ProposalCheckError,
            131 => StatusCode::ConsensusProposalCheckError,
            132 => StatusCode::BlockCheckError,
            133 => StatusCode::CSISigCheckError,
            134 => StatusCode::VersionOrIdCheckError,
            135 => StatusCode::HashCheckError,
            136 => StatusCode::HashLenError,
            137 => StatusCode::SigLenError,
            138 => StatusCode::SigCheckError,
            139 => StatusCode::NodeInSyncMode,
            140 => StatusCode::HistoryDupTx,
            141 => StatusCode::EmergencyBrake,
            142 => StatusCode::InvalidVersion,
            143 => StatusCode::InvalidTo,
            144 => StatusCode::InvalidNonce,
            145 => StatusCode::InvalidValidUntilBlock,
            146 => StatusCode::InvalidValue,
            147 => StatusCode::InvalidChainId,
            148 => StatusCode::InvalidWitness,
            149 => StatusCode::InvalidLockId,
            150 => StatusCode::InvalidPreHash,
            151 => StatusCode::AdminCheckError,
            152 => StatusCode::ModuleNotController,
            153 => StatusCode::QuotaUsedExceed,
            200 => StatusCode::ConsensusServerNotReady,
            201 => StatusCode::ProposalProofError,
            300 => StatusCode::CryptoServerNotReady,
            301 => StatusCode::NoneHashResult,
            302 => StatusCode::ConstructSigError,
            303 => StatusCode::ConstructKeyPairError,
            304 => StatusCode::SignError,
            400 => StatusCode::NetworkServerNotReady,
            401 => StatusCode::SendMsgError,
            402 => StatusCode::BroadcastMsgError,
            403 => StatusCode::MultiAddrParseError,
            404 => StatusCode::DialNodeFail,
            405 => StatusCode::AddExistedPeer,
            500 => StatusCode::ExecuteServerNotReady,
            501 => StatusCode::InternalChannelDisconnected,
            502 => StatusCode::ReenterBlock,
            503 => StatusCode::ReenterInvalidBlock,
            600 => StatusCode::StorageServerNotReady,
            601 => StatusCode::NotFound,
            602 => StatusCode::InvalidRegion,
            603 => StatusCode::InvalidKey,
            604 => StatusCode::BadRegion,
            605 => StatusCode::StoreError,
            606 => StatusCode::LoadError,
            607 => StatusCode::DeleteError,
            _ => StatusCode::ConvertIntError,
        }
    }

    /// `Ok(())` exactly on `Success`; any other value is handed back as the
    /// self-describing error payload.
    pub fn is_success(&self) -> (r: Result<(), StatusCode>)
        ensures
            *self == StatusCode::Success ==> r == Ok::<(), StatusCode>(()),
            *self != StatusCode::Success ==> r == Err::<(), StatusCode>(*self),
    {
        if self != &StatusCode::Success {
            Err(*self)
        } else {
            Ok(())
        }
    }
}

} // verus!
