//! The human-readable rendering of a status code: a stable label derived
//! mechanically from the symbolic name. Every variant renders as a non-empty
//! label; no variant is left blank.

use crate::codes::StatusCode;
use vstd::prelude::*;

verus! {

impl StatusCode {
    /// The stable label of this value.
    pub open spec fn name_spec(self) -> Seq<char> {
        match self {
            StatusCode::Success => "Success"@,
            StatusCode::ConvertIntError => "ConvertIntError"@,
            StatusCode::NoneStatusCode => "NoneStatusCode"@,
            StatusCode::FatalError => "FatalError"@,
            StatusCode::MisbehaveNode => "MisbehaveNode"@,
            StatusCode::BannedNode => "BannedNode"@,
            StatusCode::AddressOriginCheckError => "AddressOriginCheckError"@,
            StatusCode::ProvideAddressError => "ProvideAddressError"@,
            StatusCode::NoProvideAddress => "NoProvideAddress"@,
            StatusCode::NoBlock => "NoBlock"@,
            StatusCode::NoProof => "NoProof"@,
            StatusCode::NoTxHeight => "NoTxHeight"@,
            StatusCode::NoTxIndex => "NoTxIndex"@,
            StatusCode::NoTransaction => "NoTransaction"@,
            StatusCode::NoBlockHeight => "NoBlockHeight"@,
            StatusCode::NoBlockHash => "NoBlockHash"@,
            StatusCode::NoneProposal => "NoneProposal"@,
            StatusCode::NoneBlockBody => "NoneBlockBody"@,
            StatusCode::NoneBlockHeader => "NoneBlockHeader"@,
            StatusCode::NoneChainStatus => "NoneChainStatus"@,
            StatusCode::NoneWitness => "NoneWitness"@,
            StatusCode::NoneTransaction => "NoneTransaction"@,
            StatusCode::NoneUtxo => "NoneUtxo"@,
            StatusCode::NoneRawTx => "NoneRawTx"@,
            StatusCode::EarlyStatus => "EarlyStatus"@,
            StatusCode::ExecuteError => "ExecuteError"@,
            StatusCode::EncodeError => "EncodeError"@,
            StatusCode::DecodeError => "DecodeError"@,
            StatusCode::NoCandidate => "NoCandidate"@,
            StatusCode::NoEarlyStatus => "NoEarlyStatus"@,
            StatusCode::NoForkTree => "NoForkTree"@,
            StatusCode::DupTransaction => "DupTransaction"@,
            StatusCode::ProposalTooHigh => "ProposalTooHigh"@,
            StatusCode::ProposalTooLow => "ProposalTooLow"@,
            StatusCode::ProposalCheckError => "ProposalCheckError"@,
            StatusCode::ConsensusProposalCheckError => "ConsensusProposalCheckError"@,
            StatusCode::BlockCheckError => "BlockCheckError"@,
            StatusCode::CSISigCheckError => "CSISigCheckError"@,
            StatusCode::VersionOrIdCheckError => "VersionOrIdCheckError"@,
            StatusCode::HashCheckError => "HashCheckError"@,
            StatusCode::HashLenError => "HashLenError"@,
            StatusCode::SigLenError => "SigLenError"@,
            StatusCode::SigCheckError => "SigCheckError"@,
            StatusCode::NodeInSyncMode => "NodeInSyncMode"@,
            StatusCode::HistoryDupTx => "HistoryDupTx"@,
            StatusCode::EmergencyBrake => "EmergencyBrake"@,
            StatusCode::InvalidVersion => "InvalidVersion"@,
            StatusCode::InvalidTo => "InvalidTo"@,
            StatusCode::InvalidNonce => "InvalidNonce"@,
            StatusCode::InvalidValidUntilBlock => "InvalidValidUntilBlock"@,
            StatusCode::InvalidValue => "InvalidValue"@,
            StatusCode::InvalidChainId => "InvalidChainId"@,
            StatusCode::InvalidWitness => "InvalidWitness"@,
            StatusCode::InvalidLockId => "InvalidLockId"@,
            StatusCode::InvalidPreHash => "InvalidPreHash"@,
            StatusCode::AdminCheckError => "AdminCheckError"@,
            StatusCode::ModuleNotController => "ModuleNotController"@,
            StatusCode::QuotaUsedExceed => "QuotaUsedExceed"@,
            StatusCode::ConsensusServerNotReady => "ConsensusServerNotReady"@,
            StatusCode::ProposalProofError => "ProposalProofError"@,
            StatusCode::CryptoServerNotReady => "CryptoServerNotReady"@,
            StatusCode::NoneHashResult => "NoneHashResult"@,
            StatusCode::ConstructSigError => "ConstructSigError"@,
            StatusCode::ConstructKeyPairError => "ConstructKeyPairError"@,
            StatusCode::SignError => "SignError"@,
            StatusCode::NetworkServerNotReady => "NetworkServerNotReady"@,
            StatusCode::SendMsgError => "SendMsgError"@,
            StatusCode::BroadcastMsgError => "BroadcastMsgError"@,
            StatusCode::MultiAddrParseError => "MultiAddrParseError"@,
            StatusCode::DialNodeFail => "DialNodeFail"@,
            StatusCode::AddExistedPeer => "AddExistedPeer"@,
            StatusCode::ExecuteServerNotReady => "ExecuteServerNotReady"@,
            StatusCode::InternalChannelDisconnected => "InternalChannelDisconnected"@,
            StatusCode::ReenterBlock => "ReenterBlock"@,
            StatusCode::ReenterInvalidBlock => "ReenterInvalidBlock"@,
            StatusCode::StorageServerNotReady => "StorageServerNotReady"@,
            StatusCode::NotFound => "NotFound"@,
            StatusCode::InvalidRegion => "InvalidRegion"@,
            StatusCode::InvalidKey => "InvalidKey"@,
            StatusCode::BadRegion => "BadRegion"@,
            StatusCode::StoreError => "StoreError"@,
            StatusCode::LoadError => "LoadError"@,
            StatusCode::DeleteError => "DeleteError"@,
        }
    }

    /// Render the stable, human-readable label of this value.
    pub fn display(&self) -> (r: String)
        ensures
            r@ == self.name_spec(),
    {
        let label: &str = match self {
            StatusCode::Success => "Success",
            StatusCode::ConvertIntError => "ConvertIntError",
            StatusCode::NoneStatusCode => "NoneStatusCode",
            StatusCode::FatalError => "FatalError",
            StatusCode::MisbehaveNode => "MisbehaveNode",
            StatusCode::BannedNode => "BannedNode",
            StatusCode::AddressOriginCheckError => "AddressOriginCheckError",
            StatusCode::ProvideAddressError => "ProvideAddressError",
            StatusCode::NoProvideAddress => "NoProvideAddress",
            StatusCode::NoBlock => "NoBlock",
            StatusCode::NoProof => "NoProof",
            StatusCode::NoTxHeight => "NoTxHeight",
            StatusCode::NoTxIndex => "NoTxIndex",
            StatusCode::NoTransaction => "NoTransaction",
            StatusCode::NoBlockHeight => "NoBlockHeight",
            StatusCode::NoBlockHash => "NoBlockHash",
            StatusCode::NoneProposal => "NoneProposal",
            StatusCode::NoneBlockBody => "NoneBlockBody",
            StatusCode::NoneBlockHeader => "NoneBlockHeader",
            StatusCode::NoneChainStatus => "NoneChainStatus",
            StatusCode::NoneWitness => "NoneWitness",
            StatusCode::NoneTransaction => "NoneTransaction",
            StatusCode::NoneUtxo => "NoneUtxo",
            StatusCode::NoneRawTx => "NoneRawTx",
            StatusCode::EarlyStatus => "EarlyStatus",
            StatusCode::ExecuteError => "ExecuteError",
            StatusCode::EncodeError => "EncodeError",
            StatusCode::DecodeError => "DecodeError",
            StatusCode::NoCandidate => "NoCandidate",
            StatusCode::NoEarlyStatus => "NoEarlyStatus",
            StatusCode::NoForkTree => "NoForkTree",
            StatusCode::DupTransaction => "DupTransaction",
            StatusCode::ProposalTooHigh => "ProposalTooHigh",
            StatusCode::ProposalTooLow => "ProposalTooLow",
            StatusCode::ProposalCheckError => "ProposalCheckError",
            StatusCode::ConsensusProposalCheckError => "ConsensusProposalCheckError",
            StatusCode::BlockCheckError => "BlockCheckError",
            StatusCode::CSISigCheckError => "CSISigCheckError",
            StatusCode::VersionOrIdCheckError => "VersionOrIdCheckError",
            StatusCode::HashCheckError => "HashCheckError",
            StatusCode::HashLenError => "HashLenError",
            StatusCode::SigLenError => "SigLenError",
            StatusCode::SigCheckError => "SigCheckError",
            StatusCode::NodeInSyncMode => "NodeInSyncMode",
            StatusCode::HistoryDupTx => "HistoryDupTx",
            StatusCode::EmergencyBrake => "EmergencyBrake",
            StatusCode::InvalidVersion => "InvalidVersion",
            StatusCode::InvalidTo => "InvalidTo",
            StatusCode::InvalidNonce => "InvalidNonce",
            StatusCode::InvalidValidUntilBlock => "InvalidValidUntilBlock",
            StatusCode::InvalidValue => "InvalidValue",
            StatusCode::InvalidChainId => "InvalidChainId",
            StatusCode::InvalidWitness => "InvalidWitness",
            StatusCode::InvalidLockId => "InvalidLockId",
            StatusCode::InvalidPreHash => "InvalidPreHash",
            StatusCode::AdminCheckError => "AdminCheckError",
            StatusCode::ModuleNotController => "ModuleNotController",
            StatusCode::QuotaUsedExceed => "QuotaUsedExceed",
            StatusCode::ConsensusServerNotReady => "ConsensusServerNotReady",
            StatusCode::ProposalProofError => "ProposalProofError",
            StatusCode::CryptoServerNotReady => "CryptoServerNotReady",
            StatusCode::NoneHashResult => "NoneHashResult",
            StatusCode::ConstructSigError => "ConstructSigError",
            StatusCode::ConstructKeyPairError => "ConstructKeyPairError",
            StatusCode::SignError => "SignError",
            StatusCode::NetworkServerNotReady => "NetworkServerNotReady",
            StatusCode::SendMsgError => "SendMsgError",
            StatusCode::BroadcastMsgError => "BroadcastMsgError",
            StatusCode::MultiAddrParseError => "MultiAddrParseError",
            StatusCode::DialNodeFail => "DialNodeFail",
            StatusCode::AddExistedPeer => "AddExistedPeer",
            StatusCode::ExecuteServerNotReady => "ExecuteServerNotReady",
            StatusCode::InternalChannelDisconnected => "InternalChannelDisconnected",
            StatusCode::ReenterBlock => "ReenterBlock",
            StatusCode::ReenterInvalidBlock => "ReenterInvalidBlock",
            StatusCode::StorageServerNotReady => "StorageServerNotReady",
            StatusCode::NotFound => "NotFound",
            StatusCode::InvalidRegion => "InvalidRegion",
            StatusCode::InvalidKey => "InvalidKey",
            StatusCode::BadRegion => "BadRegion",
            StatusCode::StoreError => "StoreError",
            StatusCode::LoadError => "LoadError",
            StatusCode::DeleteError => "DeleteError",
        };
        label.to_owned()
    }
}

} // verus!
