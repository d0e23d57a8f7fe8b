use cita_cloud_proto::common::StatusCode as ProtoStatusCode;
use status_code::StatusCode;

fn all_variants() -> Vec<StatusCode> {
    vec![
        StatusCode::Success,
        StatusCode::ConvertIntError,
        StatusCode::NoneStatusCode,
        StatusCode::FatalError,
        StatusCode::MisbehaveNode,
        StatusCode::BannedNode,
        StatusCode::AddressOriginCheckError,
        StatusCode::ProvideAddressError,
        StatusCode::NoProvideAddress,
        StatusCode::NoBlock,
        StatusCode::NoProof,
        StatusCode::NoTxHeight,
        StatusCode::NoTxIndex,
        StatusCode::NoTransaction,
        StatusCode::NoBlockHeight,
        StatusCode::NoBlockHash,
        StatusCode::NoneProposal,
        StatusCode::NoneBlockBody,
        StatusCode::NoneBlockHeader,
        StatusCode::NoneChainStatus,
        StatusCode::NoneWitness,
        StatusCode::NoneTransaction,
        StatusCode::NoneUtxo,
        StatusCode::NoneRawTx,
        StatusCode::EarlyStatus,
        StatusCode::ExecuteError,
        StatusCode::EncodeError,
        StatusCode::DecodeError,
        StatusCode::NoCandidate,
        StatusCode::NoEarlyStatus,
        StatusCode::NoForkTree,
        StatusCode::DupTransaction,
        StatusCode::ProposalTooHigh,
        StatusCode::ProposalTooLow,
        StatusCode::ProposalCheckError,
        StatusCode::ConsensusProposalCheckError,
        StatusCode::BlockCheckError,
        StatusCode::CSISigCheckError,
        StatusCode::VersionOrIdCheckError,
        StatusCode::HashCheckError,
        StatusCode::HashLenError,
        StatusCode::SigLenError,
        StatusCode::SigCheckError,
        StatusCode::NodeInSyncMode,
        StatusCode::HistoryDupTx,
        StatusCode::EmergencyBrake,
        StatusCode::InvalidVersion,
        StatusCode::InvalidTo,
        StatusCode::InvalidNonce,
        StatusCode::InvalidValidUntilBlock,
        StatusCode::InvalidValue,
        StatusCode::InvalidChainId,
        StatusCode::InvalidWitness,
        StatusCode::InvalidLockId,
        StatusCode::InvalidPreHash,
        StatusCode::AdminCheckError,
        StatusCode::ModuleNotController,
        StatusCode::QuotaUsedExceed,
        StatusCode::ConsensusServerNotReady,
        StatusCode::ProposalProofError,
        StatusCode::CryptoServerNotReady,
        StatusCode::NoneHashResult,
        StatusCode::ConstructSigError,
        StatusCode::ConstructKeyPairError,
        StatusCode::SignError,
        StatusCode::NetworkServerNotReady,
        StatusCode::SendMsgError,
        StatusCode::BroadcastMsgError,
        StatusCode::MultiAddrParseError,
        StatusCode::DialNodeFail,
        StatusCode::AddExistedPeer,
        StatusCode::ExecuteServerNotReady,
        StatusCode::InternalChannelDisconnected,
        StatusCode::ReenterBlock,
        StatusCode::ReenterInvalidBlock,
        StatusCode::StorageServerNotReady,
        StatusCode::NotFound,
        StatusCode::InvalidRegion,
        StatusCode::InvalidKey,
        StatusCode::BadRegion,
        StatusCode::StoreError,
        StatusCode::LoadError,
        StatusCode::DeleteError,
    ]
}

fn all_codes() -> Vec<(StatusCode, u64)> {
    vec![
        (StatusCode::Success, 0),
        (StatusCode::ConvertIntError, 1),
        (StatusCode::NoneStatusCode, 2),
        (StatusCode::FatalError, 3),
        (StatusCode::MisbehaveNode, 100),
        (StatusCode::BannedNode, 101),
        (StatusCode::AddressOriginCheckError, 102),
        (StatusCode::ProvideAddressError, 103),
        (StatusCode::NoProvideAddress, 104),
        (StatusCode::NoBlock, 105),
        (StatusCode::NoProof, 106),
        (StatusCode::NoTxHeight, 107),
        (StatusCode::NoTxIndex, 108),
        (StatusCode::NoTransaction, 109),
        (StatusCode::NoBlockHeight, 110),
        (StatusCode::NoBlockHash, 111),
        (StatusCode::NoneProposal, 112),
        (StatusCode::NoneBlockBody, 113),
        (StatusCode::NoneBlockHeader, 114),
        (StatusCode::NoneChainStatus, 115),
        (StatusCode::NoneWitness, 116),
        (StatusCode::NoneTransaction, 117),
        (StatusCode::NoneUtxo, 118),
        (StatusCode::NoneRawTx, 119),
        (StatusCode::EarlyStatus, 120),
        (StatusCode::ExecuteError, 121),
        (StatusCode::EncodeError, 122),
        (StatusCode::DecodeError, 123),
        (StatusCode::NoCandidate, 124),
        (StatusCode::NoEarlyStatus, 125),
        (StatusCode::NoForkTree, 126),
        (StatusCode::DupTransaction, 127),
        (StatusCode::ProposalTooHigh, 128),
        (StatusCode::ProposalTooLow, 129),
        (StatusCode::ProposalCheckError, 130),
        (StatusCode::ConsensusProposalCheckError, 131),
        (StatusCode::BlockCheckError, 132),
        (StatusCode::CSISigCheckError, 133),
        (StatusCode::VersionOrIdCheckError, 134),
        (StatusCode::HashCheckError, 135),
        (StatusCode::HashLenError, 136),
        (StatusCode::SigLenError, 137),
        (StatusCode::SigCheckError, 138),
        (StatusCode::NodeInSyncMode, 139),
        (StatusCode::HistoryDupTx, 140),
        (StatusCode::EmergencyBrake, 141),
        (StatusCode::InvalidVersion, 142),
        (StatusCode::InvalidTo, 143),
        (StatusCode::InvalidNonce, 144),
        (StatusCode::InvalidValidUntilBlock, 145),
        (StatusCode::InvalidValue, 146),
        (StatusCode::InvalidChainId, 147),
        (StatusCode::InvalidWitness, 148),
        (StatusCode::InvalidLockId, 149),
        (StatusCode::InvalidPreHash, 150),
        (StatusCode::AdminCheckError, 151),
        (StatusCode::ModuleNotController, 152),
        (StatusCode::QuotaUsedExceed, 153),
        (StatusCode::ConsensusServerNotReady, 200),
        (StatusCode::ProposalProofError, 201),
        (StatusCode::CryptoServerNotReady, 300),
        (StatusCode::NoneHashResult, 301),
        (StatusCode::ConstructSigError, 302),
        (StatusCode::ConstructKeyPairError, 303),
        (StatusCode::SignError, 304),
        (StatusCode::NetworkServerNotReady, 400),
        (StatusCode::SendMsgError, 401),
        (StatusCode::BroadcastMsgError, 402),
        (StatusCode::MultiAddrParseError, 403),
        (StatusCode::DialNodeFail, 404),
        (StatusCode::AddExistedPeer, 405),
        (StatusCode::ExecuteServerNotReady, 500),
        (StatusCode::InternalChannelDisconnected, 501),
        (StatusCode::ReenterBlock, 502),
        (StatusCode::ReenterInvalidBlock, 503),
        (StatusCode::StorageServerNotReady, 600),
        (StatusCode::NotFound, 601),
        (StatusCode::InvalidRegion, 602),
        (StatusCode::InvalidKey, 603),
        (StatusCode::BadRegion, 604),
        (StatusCode::StoreError, 605),
        (StatusCode::LoadError, 606),
        (StatusCode::DeleteError, 607),
    ]
}

#[test]
fn it_works() {
    let num: u32 = StatusCode::BannedNode.into();
    assert_eq!(num, 101);

    let s = StatusCode::from(104 as u64);
    assert_eq!(StatusCode::NoProvideAddress, s);

    let s = StatusCode::from(65535 as u16);
    assert_eq!(StatusCode::ConvertIntError, s);

    let status = ProtoStatusCode { code: 0 };
    let s = StatusCode::from(status);
    assert_eq!(StatusCode::Success, s);
}

#[test]
fn round_trip_every_variant_every_width() {
    for v in all_variants() {
        let w16: u16 = v.into();
        assert_eq!(StatusCode::from(w16), v);
        let w32: u32 = v.into();
        assert_eq!(StatusCode::from(w32), v);
        let w64: u64 = v.into();
        assert_eq!(StatusCode::from(w64), v);
        let w128: u128 = v.into();
        assert_eq!(StatusCode::from(w128), v);
    }
}

#[test]
fn every_discriminant_is_stable() {
    for (v, code) in all_codes() {
        let w: u64 = v.into();
        assert_eq!(w, code);
        assert_eq!(StatusCode::from(code), v);
    }
}

#[test]
fn band_anchors() {
    assert_eq!(u64::from(StatusCode::Success), 0);
    assert_eq!(u64::from(StatusCode::ConvertIntError), 1);
    assert_eq!(u64::from(StatusCode::MisbehaveNode), 100);
    assert_eq!(u64::from(StatusCode::BannedNode), 101);
    assert_eq!(u64::from(StatusCode::NoProvideAddress), 104);
    assert_eq!(u64::from(StatusCode::ConsensusServerNotReady), 200);
    assert_eq!(u64::from(StatusCode::CryptoServerNotReady), 300);
    assert_eq!(u64::from(StatusCode::NetworkServerNotReady), 400);
    assert_eq!(u64::from(StatusCode::ExecuteServerNotReady), 500);
    assert_eq!(u64::from(StatusCode::StorageServerNotReady), 600);
    assert_eq!(u64::from(StatusCode::DeleteError), 607);
}

#[test]
fn unknown_values_fall_back() {
    let gaps: Vec<u64> = vec![
        4, 50, 99, 154, 180, 199, 202, 250, 299, 305, 350, 399, 406, 450, 499, 504, 550, 599,
        608, 650, 699, 700, 1000, 65534, 1 << 32, u64::MAX,
    ];
    for g in gaps {
        assert_eq!(StatusCode::from(g), StatusCode::ConvertIntError);
    }
    assert_eq!(StatusCode::from(u16::MAX), StatusCode::ConvertIntError);
    assert_eq!(StatusCode::from(u32::MAX), StatusCode::ConvertIntError);
    assert_eq!(StatusCode::from(u128::MAX), StatusCode::ConvertIntError);
    assert_eq!(
        StatusCode::from((u64::MAX as u128) + 101),
        StatusCode::ConvertIntError
    );
}

#[test]
fn success_predicate() {
    assert_eq!(StatusCode::Success.is_success(), Ok(()));
    for v in all_variants() {
        if v != StatusCode::Success {
            assert_eq!(v.is_success(), Err(v));
        }
    }
}

#[test]
fn wrapper_interop() {
    let outbound: ProtoStatusCode = StatusCode::Success.into();
    assert_eq!(outbound.code, 0);

    let inbound = StatusCode::from(ProtoStatusCode { code: 101 });
    assert_eq!(inbound, StatusCode::BannedNode);
    let back: ProtoStatusCode = inbound.into();
    assert_eq!(back.code, 101);

    let unknown = StatusCode::from(ProtoStatusCode { code: 9999 });
    assert_eq!(unknown, StatusCode::ConvertIntError);

    for (v, code) in all_codes() {
        let wrapped: ProtoStatusCode = v.into();
        assert_eq!(wrapped.code as u64, code);
        assert_eq!(StatusCode::from(wrapped), v);
    }
}
