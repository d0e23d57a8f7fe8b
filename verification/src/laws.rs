//! The laws of the vocabulary, stated and proved once for every variant and
//! every wire integer: conversion round trips, the unknown-value fallback,
//! uniqueness of discriminants, and exhaustive non-empty display labels.

use crate::codes::StatusCode;
use vstd::prelude::*;

verus! {

/// Round trip: every variant survives encoding to its wire discriminant and
/// decoding back, so a status crosses the wire losslessly at every width.
pub proof fn lemma_round_trip(s: StatusCode)
    ensures
        StatusCode::status_spec(s.code_spec()) == s,
{
}

/// Unknown-value fallback: an integer that no variant has been assigned
/// decodes to the `ConvertIntError` sentinel, never to a decode failure.
pub proof fn lemma_unknown_fallback(v: int)
    requires
        !StatusCode::is_defined_code(v),
    ensures
        StatusCode::status_spec(v) == StatusCode::ConvertIntError,
{
}

/// Every variant's discriminant is a defined code, inside the populated
/// stretch of its owning subsystem's reserved band.
pub proof fn lemma_code_defined(s: StatusCode)
    ensures
        StatusCode::is_defined_code(s.code_spec()),
        0 <= s.code_spec() < 700,
{
}

/// Decoding a defined discriminant yields the variant that owns it: encoding
/// the decoded value gives the integer back.
pub proof fn lemma_code_round_trip(v: int)
    requires
        StatusCode::is_defined_code(v),
    ensures
        StatusCode::status_spec(v).code_spec() == v,
{
}

/// No two variants share a discriminant: within one vocabulary a shipped
/// wire value stands for exactly one symbolic meaning.
pub proof fn lemma_code_unique(a: StatusCode, b: StatusCode)
    requires
        a.code_spec() == b.code_spec(),
    ensures
        a == b,
{
    lemma_round_trip(a);
    lemma_round_trip(b);
}

/// Exhaustive display: no variant renders as an empty label.
pub proof fn lemma_display_nonempty(s: StatusCode)
    ensures
        s.name_spec().len() > 0,
{
    assert(StatusCode::Success.name_spec().len() > 0) by {
        reveal_strlit("Success");
    }
    assert(StatusCode::ConvertIntError.name_spec().len() > 0) by {
        reveal_strlit("ConvertIntError");
    }
    assert(StatusCode::NoneStatusCode.name_spec().len() > 0) by {
        reveal_strlit("NoneStatusCode");
    }
    assert(StatusCode::FatalError.name_spec().len() > 0) by {
        reveal_strlit("FatalError");
    }
    assert(StatusCode::MisbehaveNode.name_spec().len() > 0) by {
        reveal_strlit("MisbehaveNode");
    }
    assert(StatusCode::BannedNode.name_spec().len() > 0) by {
        reveal_strlit("BannedNode");
    }
    assert(StatusCode::AddressOriginCheckError.name_spec().len() > 0) by {
        reveal_strlit("AddressOriginCheckError");
    }
    assert(StatusCode::ProvideAddressError.name_spec().len() > 0) by {
        reveal_strlit("ProvideAddressError");
    }
    assert(StatusCode::NoProvideAddress.name_spec().len() > 0) by {
        reveal_strlit("NoProvideAddress");
    }
    assert(StatusCode::NoBlock.name_spec().len() > 0) by {
        reveal_strlit("NoBlock");
    }
    assert(StatusCode::NoProof.name_spec().len() > 0) by {
        reveal_strlit("NoProof");
    }
    assert(StatusCode::NoTxHeight.name_spec().len() > 0) by {
        reveal_strlit("NoTxHeight");
    }
    assert(StatusCode::NoTxIndex.name_spec().len() > 0) by {
        reveal_strlit("NoTxIndex");
    }
    assert(StatusCode::NoTransaction.name_spec().len() > 0) by {
        reveal_strlit("NoTransaction");
    }
    assert(StatusCode::NoBlockHeight.name_spec().len() > 0) by {
        reveal_strlit("NoBlockHeight");
    }
    assert(StatusCode::NoBlockHash.name_spec().len() > 0) by {
        reveal_strlit("NoBlockHash");
    }
    assert(StatusCode::NoneProposal.name_spec().len() > 0) by {
        reveal_strlit("NoneProposal");
    }
    assert(StatusCode::NoneBlockBody.name_spec().len() > 0) by {
        reveal_strlit("NoneBlockBody");
    }
    assert(StatusCode::NoneBlockHeader.name_spec().len() > 0) by {
        reveal_strlit("NoneBlockHeader");
    }
    assert(StatusCode::NoneChainStatus.name_spec().len() > 0) by {
        reveal_strlit("NoneChainStatus");
    }
    assert(StatusCode::NoneWitness.name_spec().len() > 0) by {
        reveal_strlit("NoneWitness");
    }
    assert(StatusCode::NoneTransaction.name_spec().len() > 0) by {
        reveal_strlit("NoneTransaction");
    }
    assert(StatusCode::NoneUtxo.name_spec().len() > 0) by {
        reveal_strlit("NoneUtxo");
    }
    assert(StatusCode::NoneRawTx.name_spec().len() > 0) by {
        reveal_strlit("NoneRawTx");
    }
    assert(StatusCode::EarlyStatus.name_spec().len() > 0) by {
        reveal_strlit("EarlyStatus");
    }
    assert(StatusCode::ExecuteError.name_spec().len() > 0) by {
        reveal_strlit("ExecuteError");
    }
    assert(StatusCode::EncodeError.name_spec().len() > 0) by {
        reveal_strlit("EncodeError");
    }
    assert(StatusCode::DecodeError.name_spec().len() > 0) by {
        reveal_strlit("DecodeError");
    }
    assert(StatusCode::NoCandidate.name_spec().len() > 0) by {
        reveal_strlit("NoCandidate");
    }
    assert(StatusCode::NoEarlyStatus.name_spec().len() > 0) by {
        reveal_strlit("NoEarlyStatus");
    }
    assert(StatusCode::NoForkTree.name_spec().len() > 0) by {
        reveal_strlit("NoForkTree");
    }
    assert(StatusCode::DupTransaction.name_spec().len() > 0) by {
        reveal_strlit("DupTransaction");
    }
    assert(StatusCode::ProposalTooHigh.name_spec().len() > 0) by {
        reveal_strlit("ProposalTooHigh");
    }
    assert(StatusCode::ProposalTooLow.name_spec().len() > 0) by {
        reveal_strlit("ProposalTooLow");
    }
    assert(StatusCode::ProposalCheckError.name_spec().len() > 0) by {
        reveal_strlit("ProposalCheckError");
    }
    assert(StatusCode::ConsensusProposalCheckError.name_spec().len() > 0) by {
        reveal_strlit("ConsensusProposalCheckError");
    }
    assert(StatusCode::BlockCheckError.name_spec().len() > 0) by {
        reveal_strlit("BlockCheckError");
    }
    assert(StatusCode::CSISigCheckError.name_spec().len() > 0) by {
        reveal_strlit("CSISigCheckError");
    }
    assert(StatusCode::VersionOrIdCheckError.name_spec().len() > 0) by {
        reveal_strlit("VersionOrIdCheckError");
    }
    assert(StatusCode::HashCheckError.name_spec().len() > 0) by {
        reveal_strlit("HashCheckError");
    }
    assert(StatusCode::HashLenError.name_spec().len() > 0) by {
        reveal_strlit("HashLenError");
    }
    assert(StatusCode::SigLenError.name_spec().len() > 0) by {
        reveal_strlit("SigLenError");
    }
    assert(StatusCode::SigCheckError.name_spec().len() > 0) by {
        reveal_strlit("SigCheckError");
    }
    assert(StatusCode::NodeInSyncMode.name_spec().len() > 0) by {
        reveal_strlit("NodeInSyncMode");
    }
    assert(StatusCode::HistoryDupTx.name_spec().len() > 0) by {
        reveal_strlit("HistoryDupTx");
    }
    assert(StatusCode::EmergencyBrake.name_spec().len() > 0) by {
        reveal_strlit("EmergencyBrake");
    }
    assert(StatusCode::InvalidVersion.name_spec().len() > 0) by {
        reveal_strlit("InvalidVersion");
    }
    assert(StatusCode::InvalidTo.name_spec().len() > 0) by {
        reveal_strlit("InvalidTo");
    }
    assert(StatusCode::InvalidNonce.name_spec().len() > 0) by {
        reveal_strlit("InvalidNonce");
    }
    assert(StatusCode::InvalidValidUntilBlock.name_spec().len() > 0) by {
        reveal_strlit("InvalidValidUntilBlock");
    }
    assert(StatusCode::InvalidValue.name_spec().len() > 0) by {
        reveal_strlit("InvalidValue");
    }
    assert(StatusCode::InvalidChainId.name_spec().len() > 0) by {
        reveal_strlit("InvalidChainId");
    }
    assert(StatusCode::InvalidWitness.name_spec().len() > 0) by {
        reveal_strlit("InvalidWitness");
    }
    assert(StatusCode::InvalidLockId.name_spec().len() > 0) by {
        reveal_strlit("InvalidLockId");
    }
    assert(StatusCode::InvalidPreHash.name_spec().len() > 0) by {
        reveal_strlit("InvalidPreHash");
    }
    assert(StatusCode::AdminCheckError.name_spec().len() > 0) by {
        reveal_strlit("AdminCheckError");
    }
    assert(StatusCode::ModuleNotController.name_spec().len() > 0) by {
        reveal_strlit("ModuleNotController");
    }
    assert(StatusCode::QuotaUsedExceed.name_spec().len() > 0) by {
        reveal_strlit("QuotaUsedExceed");
    }
    assert(StatusCode::ConsensusServerNotReady.name_spec().len() > 0) by {
        reveal_strlit("ConsensusServerNotReady");
    }
    assert(StatusCode::ProposalProofError.name_spec().len() > 0) by {
        reveal_strlit("ProposalProofError");
    }
    assert(StatusCode::CryptoServerNotReady.name_spec().len() > 0) by {
        reveal_strlit("CryptoServerNotReady");
    }
    assert(StatusCode::NoneHashResult.name_spec().len() > 0) by {
        reveal_strlit("NoneHashResult");
    }
    assert(StatusCode::ConstructSigError.name_spec().len() > 0) by {
        reveal_strlit("ConstructSigError");
    }
    assert(StatusCode::ConstructKeyPairError.name_spec().len() > 0) by {
        reveal_strlit("ConstructKeyPairError");
    }
    assert(StatusCode::SignError.name_spec().len() > 0) by {
        reveal_strlit("SignError");
    }
    assert(StatusCode::NetworkServerNotReady.name_spec().len() > 0) by {
        reveal_strlit("NetworkServerNotReady");
    }
    assert(StatusCode::SendMsgError.name_spec().len() > 0) by {
        reveal_strlit("SendMsgError");
    }
    assert(StatusCode::BroadcastMsgError.name_spec().len() > 0) by {
        reveal_strlit("BroadcastMsgError");
    }
    assert(StatusCode::MultiAddrParseError.name_spec().len() > 0) by {
        reveal_strlit("MultiAddrParseError");
    }
    assert(StatusCode::DialNodeFail.name_spec().len() > 0) by {
        reveal_strlit("DialNodeFail");
    }
    assert(StatusCode::AddExistedPeer.name_spec().len() > 0) by {
        reveal_strlit("AddExistedPeer");
    }
    assert(StatusCode::ExecuteServerNotReady.name_spec().len() > 0) by {
        reveal_strlit("ExecuteServerNotReady");
    }
    assert(StatusCode::InternalChannelDisconnected.name_spec().len() > 0) by {
        reveal_strlit("InternalChannelDisconnected");
    }
    assert(StatusCode::ReenterBlock.name_spec().len() > 0) by {
        reveal_strlit("ReenterBlock");
    }
    assert(StatusCode::ReenterInvalidBlock.name_spec().len() > 0) by {
        reveal_strlit("ReenterInvalidBlock");
    }
    assert(StatusCode::StorageServerNotReady.name_spec().len() > 0) by {
        reveal_strlit("StorageServerNotReady");
    }
    assert(StatusCode::NotFound.name_spec().len() > 0) by {
        reveal_strlit("NotFound");
    }
    assert(StatusCode::InvalidRegion.name_spec().len() > 0) by {
        reveal_strlit("InvalidRegion");
    }
    assert(StatusCode::InvalidKey.name_spec().len() > 0) by {
        reveal_strlit("InvalidKey");
    }
    assert(StatusCode::BadRegion.name_spec().len() > 0) by {
        reveal_strlit("BadRegion");
    }
    assert(StatusCode::StoreError.name_spec().len() > 0) by {
        reveal_strlit("StoreError");
    }
    assert(StatusCode::LoadError.name_spec().len() > 0) by {
        reveal_strlit("LoadError");
    }
    assert(StatusCode::DeleteError.name_spec().len() > 0) by {
        reveal_strlit("DeleteError");
    }
}

} // verus!
