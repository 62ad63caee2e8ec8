use farmer_piece_getter::batch_fetch::{
    answers_without_getter, BatchAction, BatchEvent, BatchFailure, BatchFetch, BatchStage,
};
use farmer_piece_getter::cluster_lookup::CacheLocation;

fn loc(cache_id: u128, offset: u32) -> CacheLocation {
    CacheLocation { cache_id, offset }
}

#[test]
fn batch_fetch_full_round() {
    let (mut fetch, action) = BatchFetch::new::<&str>(vec![1, 2, 3, 4, 2]);
    assert!(matches!(action, BatchAction::AskFarmerCache(ref v) if *v == vec![1, 2, 3, 4, 2]));
    let a = fetch.step(BatchEvent::FarmerCacheAnswered(1, Some("p1")));
    assert!(matches!(a, BatchAction::DeliverFromFarmerCache(1, "p1")));
    assert!(matches!(fetch.step::<&str>(BatchEvent::FarmerCacheAnswered(2, None)), BatchAction::Nothing));
    assert!(matches!(fetch.step::<&str>(BatchEvent::FarmerCacheAnswered(3, None)), BatchAction::Nothing));
    assert!(matches!(fetch.step::<&str>(BatchEvent::FarmerCacheAnswered(4, None)), BatchAction::Nothing));
    assert!(matches!(fetch.step::<&str>(BatchEvent::FarmerCacheAnswered(2, None)), BatchAction::Nothing));
    let a = fetch.step::<&str>(BatchEvent::FarmerCacheDone);
    assert!(matches!(a, BatchAction::Locate(ref v) if *v == vec![2, 3, 4, 2]));
    assert_eq!(fetch.stage(), BatchStage::Locating);

    fetch.step::<&str>(BatchEvent::Located(2, loc(7, 10)));
    fetch.step::<&str>(BatchEvent::Located(3, loc(8, 11)));
    fetch.step::<&str>(BatchEvent::Located(4, loc(7, 12)));
    let a = fetch.step::<&str>(BatchEvent::LocatingDone);
    match a {
        BatchAction::ReadCaches(groups) => {
            assert_eq!(groups.len(), 2);
            assert_eq!(groups[0].cache_id, 7);
            assert_eq!(groups[0].offsets, vec![10, 12]);
            assert_eq!(groups[1].cache_id, 8);
            assert_eq!(groups[1].offsets, vec![11]);
        }
        other => panic!("unexpected action {:?}", other),
    }

    let a = fetch.step(BatchEvent::CachePiece(2, "p2"));
    assert!(matches!(a, BatchAction::StoreThenDeliver(2, "p2")));
    assert!(matches!(fetch.step::<&str>(BatchEvent::CacheMiss), BatchAction::Nothing));
    let a = fetch.step::<&str>(BatchEvent::CachesDone);
    assert!(matches!(a, BatchAction::AskController(ref v) if *v == vec![3, 4]));
    let a = fetch.step(BatchEvent::ControllerPiece(4, "p4"));
    assert!(matches!(a, BatchAction::Deliver(4, "p4")));
    let a = fetch.step::<&str>(BatchEvent::ControllerDone);
    assert!(matches!(a, BatchAction::Fail(ref v, BatchFailure::NotFound) if *v == vec![3]));
    assert_eq!(fetch.stage(), BatchStage::Finished);
    assert!(matches!(fetch.step(BatchEvent::ControllerPiece(3, "late")), BatchAction::Nothing));
}

#[test]
fn batch_fetch_everything_in_farmer_cache() {
    let (mut fetch, _) = BatchFetch::new::<u8>(vec![1]);
    fetch.step(BatchEvent::FarmerCacheAnswered(1, Some(9u8)));
    let a = fetch.step::<u8>(BatchEvent::FarmerCacheDone);
    assert!(matches!(a, BatchAction::Locate(ref v) if v.is_empty()));
    let a = fetch.step::<u8>(BatchEvent::LocatingDone);
    assert!(matches!(a, BatchAction::ReadCaches(ref g) if g.is_empty()));
    let a = fetch.step::<u8>(BatchEvent::CachesDone);
    assert!(matches!(a, BatchAction::Finish));
    assert_eq!(fetch.stage(), BatchStage::Finished);
}

#[test]
fn batch_fetch_locate_failure_aborts() {
    let (mut fetch, _) = BatchFetch::new::<u8>(vec![1]);
    fetch.step::<u8>(BatchEvent::FarmerCacheAnswered(1, None));
    fetch.step::<u8>(BatchEvent::FarmerCacheDone);
    let a = fetch.step::<u8>(BatchEvent::RequestFailed);
    assert!(matches!(a, BatchAction::Abort));
    assert_eq!(fetch.stage(), BatchStage::Aborted);
}

#[test]
fn batch_fetch_controller_failure_fails_outstanding() {
    let (mut fetch, _) = BatchFetch::new::<u8>(vec![5, 6]);
    fetch.step::<u8>(BatchEvent::FarmerCacheAnswered(5, None));
    fetch.step::<u8>(BatchEvent::FarmerCacheAnswered(6, None));
    fetch.step::<u8>(BatchEvent::FarmerCacheDone);
    fetch.step::<u8>(BatchEvent::LocatingDone);
    fetch.step::<u8>(BatchEvent::CachePiece(6, 1));
    let a = fetch.step::<u8>(BatchEvent::CachesDone);
    assert!(matches!(a, BatchAction::AskController(ref v) if *v == vec![5]));
    let a = fetch.step::<u8>(BatchEvent::RequestFailed);
    assert!(matches!(a, BatchAction::Fail(ref v, BatchFailure::ControllerUnreachable) if *v == vec![5]));
}

#[test]
fn dropped_getter_answers_every_index_without_piece() {
    let answers = answers_without_getter::<u8>(&vec![3, 1, 3]);
    assert_eq!(answers, vec![(3, None), (1, None), (3, None)]);
    assert!(answers_without_getter::<u8>(&vec![]).is_empty());
}

#[test]
fn batch_fetch_cache_piece_not_outstanding_is_still_delivered() {
    let (mut fetch, _) = BatchFetch::new::<u8>(vec![1, 2]);
    fetch.step::<u8>(BatchEvent::FarmerCacheAnswered(1, None));
    fetch.step::<u8>(BatchEvent::FarmerCacheAnswered(2, None));
    fetch.step::<u8>(BatchEvent::FarmerCacheDone);
    fetch.step::<u8>(BatchEvent::Located(1, loc(3, 0)));
    fetch.step::<u8>(BatchEvent::Located(2, loc(3, 1)));
    fetch.step::<u8>(BatchEvent::LocatingDone);
    assert!(matches!(fetch.step(BatchEvent::CachePiece(1, 10u8)), BatchAction::StoreThenDeliver(1, 10)));
    assert!(matches!(fetch.step(BatchEvent::CachePiece(1, 11u8)), BatchAction::StoreThenDeliver(1, 11)));
    assert!(matches!(fetch.step(BatchEvent::CachePiece(2, 12u8)), BatchAction::StoreThenDeliver(2, 12)));
    assert!(matches!(fetch.step::<u8>(BatchEvent::CachesDone), BatchAction::Finish));
}

#[test]
fn batch_fetch_ignores_answers_out_of_stage() {
    let (mut fetch, _) = BatchFetch::new::<u8>(vec![1]);
    assert!(matches!(fetch.step(BatchEvent::CachePiece(1, 1u8)), BatchAction::Nothing));
    assert!(matches!(fetch.step::<u8>(BatchEvent::CachesDone), BatchAction::Nothing));
    assert_eq!(fetch.stage(), BatchStage::FarmerCache);
}
