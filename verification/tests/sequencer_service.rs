use astria_conductor::sequencer_service::{route, service_name, SequencerServiceMethod};

const ALL: [SequencerServiceMethod; 6] = [
    SequencerServiceMethod::GetSequencerBlock,
    SequencerServiceMethod::GetFilteredSequencerBlock,
    SequencerServiceMethod::GetChainId,
    SequencerServiceMethod::GetCommit,
    SequencerServiceMethod::GetValidators,
    SequencerServiceMethod::GetAbciInfo,
];

#[test]
fn paths_are_the_service_paths() {
    assert_eq!(
        SequencerServiceMethod::GetSequencerBlock.path(),
        "/astria.sequencerblock.v1alpha1.SequencerService/GetSequencerBlock"
    );
    assert_eq!(
        SequencerServiceMethod::GetFilteredSequencerBlock.path(),
        "/astria.sequencerblock.v1alpha1.SequencerService/GetFilteredSequencerBlock"
    );
    assert_eq!(
        SequencerServiceMethod::GetChainId.path(),
        "/astria.sequencerblock.v1alpha1.SequencerService/GetChainId"
    );
    assert_eq!(
        SequencerServiceMethod::GetCommit.path(),
        "/astria.sequencerblock.v1alpha1.SequencerService/GetCommit"
    );
    assert_eq!(
        SequencerServiceMethod::GetValidators.path(),
        "/astria.sequencerblock.v1alpha1.SequencerService/GetValidators"
    );
    assert_eq!(
        SequencerServiceMethod::GetAbciInfo.path(),
        "/astria.sequencerblock.v1alpha1.SequencerService/GetAbciInfo"
    );
}

#[test]
fn path_is_service_and_method_name() {
    for m in ALL {
        assert_eq!(m.path(), format!("/{}/{}", service_name(), m.method_name()));
    }
}

#[test]
fn route_finds_the_method_of_each_path() {
    for m in ALL {
        assert_eq!(route(m.path()), Some(m));
    }
}

#[test]
fn route_rejects_other_paths() {
    assert_eq!(route(""), None);
    assert_eq!(route("/astria.sequencerblock.v1alpha1.SequencerService/"), None);
    assert_eq!(route("/astria.sequencerblock.v1alpha1.SequencerService/GetBlock"), None);
    assert_eq!(route("astria.sequencerblock.v1alpha1.SequencerService/GetCommit"), None);
    assert_eq!(
        route("/astria.sequencerblock.v1alpha1.SequencerService/GetCommit/"),
        None
    );
    assert_eq!(route("/astria.sequencerblock.v1alpha2.SequencerService/GetChainId"), None);
}

#[test]
fn service_name_is_fully_qualified() {
    assert_eq!(service_name(), "astria.sequencerblock.v1alpha1.SequencerService");
    assert_eq!(SequencerServiceMethod::GetAbciInfo.method_name(), "GetAbciInfo");
}
