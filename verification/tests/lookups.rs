use farmer_piece_getter::cluster_lookup::{
    cluster_start, cluster_step, CacheLocation, ClusterAction, ClusterEvent, ClusterStage,
};
use farmer_piece_getter::fast_lookup::{fast_start, fast_step, FastAction, FastStage};
use farmer_piece_getter::slow_lookup::{
    slow_start, slow_step, SlowAction, SlowStage, MAX_RANDOM_WALK_ROUNDS,
};
use farmer_piece_getter::source::SourceAnswer;

#[test]
fn fast_lookup_farmer_cache_hit_is_returned_without_storing() {
    let (stage, action) = fast_start::<&str>();
    assert!(matches!(action, FastAction::AskFarmerCache));
    let (stage, action) = fast_step(stage, SourceAnswer::Found("piece"));
    assert_eq!(stage, FastStage::Finished);
    assert!(matches!(action, FastAction::Return(Some("piece"))));
    let (stage, action) = fast_step(stage, SourceAnswer::Found("other"));
    assert_eq!(stage, FastStage::Finished);
    assert!(matches!(action, FastAction::Nothing));
}

#[test]
fn fast_lookup_dsn_hit_is_stored() {
    let (stage, _) = fast_start::<&str>();
    let (stage, action) = fast_step(stage, SourceAnswer::<&str>::Missing);
    assert!(matches!(action, FastAction::AskDsnCache));
    let (stage, action) = fast_step(stage, SourceAnswer::Found("piece"));
    assert_eq!(stage, FastStage::Finished);
    assert!(matches!(action, FastAction::StoreThenReturn("piece")));
}

#[test]
fn fast_lookup_node_failure_gives_nothing() {
    let (stage, _) = fast_start::<&str>();
    let (stage, _) = fast_step(stage, SourceAnswer::<&str>::Missing);
    let (stage, action) = fast_step(stage, SourceAnswer::<&str>::Missing);
    assert!(matches!(action, FastAction::AskNode));
    let (stage, action) = fast_step(stage, SourceAnswer::<&str>::Failed);
    assert_eq!(stage, FastStage::Finished);
    assert!(matches!(action, FastAction::Return(None)));
}

#[test]
fn fast_lookup_node_hit_is_stored() {
    let (stage, _) = fast_start::<u32>();
    let (stage, _) = fast_step(stage, SourceAnswer::<u32>::Missing);
    let (stage, _) = fast_step(stage, SourceAnswer::<u32>::Failed);
    let (_, action) = fast_step(stage, SourceAnswer::Found(7));
    assert!(matches!(action, FastAction::StoreThenReturn(7)));
}

#[test]
fn slow_lookup_asks_archival_with_fifteen_rounds() {
    assert_eq!(MAX_RANDOM_WALK_ROUNDS, 15);
    let (stage, action) = slow_start::<u32>();
    assert!(matches!(action, SlowAction::AskLocalPlot));
    let (stage, action) = slow_step(stage, SourceAnswer::<u32>::Missing);
    assert_eq!(stage, SlowStage::Archival);
    assert!(matches!(action, SlowAction::AskArchival { max_rounds: 15 }));
    let (stage, action) = slow_step(stage, SourceAnswer::<u32>::Missing);
    assert_eq!(stage, SlowStage::Finished);
    assert!(matches!(action, SlowAction::Return(None)));
}

#[test]
fn slow_lookup_stores_plot_and_archival_pieces() {
    let (stage, _) = slow_start::<u32>();
    let (_, action) = slow_step(stage, SourceAnswer::Found(1));
    assert!(matches!(action, SlowAction::StoreThenReturn(1)));
    let (stage, _) = slow_start::<u32>();
    let (stage, _) = slow_step(stage, SourceAnswer::<u32>::Failed);
    let (_, action) = slow_step(stage, SourceAnswer::Found(2));
    assert!(matches!(action, SlowAction::StoreThenReturn(2)));
}

#[test]
fn cluster_lookup_returns_matching_cache_piece() {
    let (lookup, action) = cluster_start::<&str>(42);
    assert!(matches!(action, ClusterAction::FindInCache(42)));
    let location = CacheLocation { cache_id: 9, offset: 3 };
    let (lookup, action) = cluster_step(lookup, ClusterEvent::<&str>::Located(Some(location)));
    assert_eq!(lookup.stage, ClusterStage::ReadingCache);
    assert!(matches!(action, ClusterAction::ReadFromCache(l) if l == location));
    let (lookup, action) = cluster_step(lookup, ClusterEvent::CacheRead(Some((42, "piece"))));
    assert_eq!(lookup.stage, ClusterStage::Finished);
    assert!(matches!(action, ClusterAction::StoreThenReturn("piece")));
}

#[test]
fn cluster_lookup_rejects_replaced_cache_piece() {
    let (lookup, _) = cluster_start::<&str>(42);
    let location = CacheLocation { cache_id: 9, offset: 3 };
    let (lookup, _) = cluster_step(lookup, ClusterEvent::<&str>::Located(Some(location)));
    let (lookup, action) = cluster_step(lookup, ClusterEvent::CacheRead(Some((43, "other"))));
    assert_eq!(lookup.stage, ClusterStage::AskingController);
    assert!(matches!(action, ClusterAction::AskController(42)));
    let (lookup, action) = cluster_step(lookup, ClusterEvent::ControllerAnswered(Some("piece")));
    assert_eq!(lookup.stage, ClusterStage::Finished);
    assert!(matches!(action, ClusterAction::Return(Some("piece"))));
}

#[test]
fn cluster_lookup_cache_failure_falls_back_to_controller() {
    let (lookup, _) = cluster_start::<&str>(1);
    let (lookup, _) = cluster_step(lookup, ClusterEvent::<&str>::Located(Some(CacheLocation { cache_id: 1, offset: 0 })));
    let (lookup, action) = cluster_step(lookup, ClusterEvent::<&str>::RequestFailed);
    assert!(matches!(action, ClusterAction::AskController(1)));
    let (_, action) = cluster_step(lookup, ClusterEvent::<&str>::ControllerAnswered(None));
    assert!(matches!(action, ClusterAction::Return(None)));
}

#[test]
fn cluster_lookup_not_located_asks_controller() {
    let (lookup, _) = cluster_start::<&str>(5);
    let (lookup, action) = cluster_step(lookup, ClusterEvent::<&str>::Located(None));
    assert!(matches!(action, ClusterAction::AskController(5)));
    let (lookup, action) = cluster_step(lookup, ClusterEvent::<&str>::RequestFailed);
    assert_eq!(lookup.stage, ClusterStage::Finished);
    assert!(matches!(action, ClusterAction::Abort));
}

#[test]
fn cluster_lookup_locate_failure_aborts() {
    let (lookup, _) = cluster_start::<&str>(5);
    let (lookup, action) = cluster_step(lookup, ClusterEvent::<&str>::RequestFailed);
    assert_eq!(lookup.stage, ClusterStage::Finished);
    assert!(matches!(action, ClusterAction::Abort));
    let (_, action) = cluster_step(lookup, ClusterEvent::<&str>::Located(None));
    assert!(matches!(action, ClusterAction::Nothing));
}

#[test]
fn cluster_lookup_ignores_out_of_order_answers() {
    let (lookup, _) = cluster_start::<&str>(5);
    let (same, action) = cluster_step(lookup, ClusterEvent::ControllerAnswered(Some("x")));
    assert_eq!(same, lookup);
    assert!(matches!(action, ClusterAction::Nothing));
}
