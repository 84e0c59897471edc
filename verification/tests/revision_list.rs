use lore_server::revision_list::SegmentSource;
use lore_server::revision_list::lookup_start;
use lore_server::revision_list::direct_start;
use lore_server::revision_list::segment_strategy;
use lore_server::revision_list::serve_identifier_from_segment;
use lore_server::revision_list::serve_signature_from_segment;
use lore_server::revision_list::signature_load_after_absent;
use lore_server::revision_list::signature_first_load;
use lore_server::revision_list::FindStep;
use lore_server::revision_list::exact_revision_step;
use lore_server::revision_list::start_revision_not_found;
use lore_server::revision_list::check_start;
use lore_server::revision_list::branch_tip_not_found;
use lore_server::hooks::context::BranchId;
use lore_server::hooks::context::ContentHash;
use lore_server::revision_list::cached_next_older;
use lore_server::revision_list::cached_to_page;
use lore_server::revision_list::compute_segment_floor;
use lore_server::revision_list::first_lookup;
use lore_server::revision_list::forward_target;
use lore_server::revision_list::lookup_after_miss;
use lore_server::revision_list::lookup_strategy;
use lore_server::revision_list::segment_has_number;
use lore_server::revision_list::segment_has_signature;
use lore_server::revision_list::start_to_metric_value;
use lore_server::revision_list::CachedRevisionItem;
use lore_server::revision_list::IdentifierLookup;
use lore_server::revision_list::ResolveStart;
use lore_server::revision_list::RevisionItem;
use lore_server::revision_list::RevisionListStrategy;
use lore_server::revision_list::RevisionState;
use lore_server::revision_list::StartKind;
use lore_server::revision_list::StepBackfill;
use lore_server::revision_list::Walk;
use lore_server::revision_list::MAX_REVISION_LIST_RESPONSE_ITEMS;
use lore_server::status::RpcCode;

fn sig(n: u64) -> ContentHash {
    ContentHash { high: 7, low: n as u128 }
}

fn meta(n: u64) -> ContentHash {
    ContentHash { high: 9, low: n as u128 }
}

fn zero() -> ContentHash {
    ContentHash { high: 0, low: 0 }
}

/// The number of the revision with the given signature, in a linear chain
/// numbered from 1 whose signatures are `sig(n)`.
fn number_of(h: ContentHash) -> u64 {
    assert_eq!(h.high, 7);
    h.low as u64
}

fn state_of(n: u64) -> RevisionState {
    RevisionState {
        number: n,
        metadata: meta(n),
        parent: if n <= 1 { zero() } else { sig(n - 1) },
        state: vec![n as u8],
    }
}

/// Runs a walk over a linear chain, collecting the backfills it asks for.
fn run_walk(mut walk: Walk) -> (Vec<RevisionItem>, Option<ContentHash>, Vec<StepBackfill>) {
    let mut backfills = Vec::new();
    while let Some(h) = walk.wanted() {
        if let Some(b) = walk.advance(state_of(number_of(h))) {
            backfills.push(b);
        }
    }
    let (items, next) = walk.into_page();
    (items, next, backfills)
}

#[test]
fn test_strategy_names() {
    assert_eq!(RevisionListStrategy::Direct.as_str(), "direct");
    assert_eq!(RevisionListStrategy::FullIteration.as_str(), "full-iteration");
    assert_eq!(RevisionListStrategy::HistoryStep.as_str(), "history-step");
    assert_eq!(RevisionListStrategy::ListCache.as_str(), "list-cache");
    assert_eq!(RevisionListStrategy::ListCacheBackfill.as_str(), "list-cache-backfill");
}

#[test]
fn test_start_kind_metric_values() {
    assert_eq!(start_to_metric_value(StartKind::Identifier), "identifier");
    assert_eq!(start_to_metric_value(StartKind::Signature), "signature");
}

#[test]
fn test_segment_floor_values() {
    assert_eq!(compute_segment_floor(250, 100), 201);
    assert_eq!(compute_segment_floor(200, 100), 101);
    assert_eq!(compute_segment_floor(201, 100), 201);
    assert_eq!(compute_segment_floor(1, 100), 1);
    assert_eq!(compute_segment_floor(0, 100), 1);
    assert_eq!(compute_segment_floor(7, 1), 7);
}

#[test]
fn test_walk_stops_at_segment_floor() {
    let walk = Walk::start(sig(250), false, false, 100);
    assert!(walk.is_first());
    let (items, next, backfills) = run_walk(walk);
    assert_eq!(items.len(), 50);
    assert_eq!(items[0].number, 250);
    assert_eq!(items[0].signature, sig(250));
    assert_eq!(items[0].metadata, meta(250));
    assert_eq!(items[0].state, vec![250u8]);
    assert_eq!(items[49].number, 201);
    assert_eq!(next, Some(sig(200)));
    assert!(backfills.is_empty());
}

#[test]
fn test_walk_from_inside_segment() {
    let (items, next, _) = run_walk(Walk::start(sig(220), false, false, 100));
    assert_eq!(items.len(), 20);
    assert_eq!(items[19].number, 201);
    assert_eq!(next, Some(sig(200)));
}

#[test]
fn test_walk_reaches_root() {
    let (items, next, _) = run_walk(Walk::start(sig(3), false, false, 100));
    let numbers: Vec<u64> = items.iter().map(|i| i.number).collect();
    assert_eq!(numbers, vec![3, 2, 1]);
    assert_eq!(next, None);
}

#[test]
fn test_walk_full_page() {
    let (items, next, _) = run_walk(Walk::start(sig(1000), false, false, 1000));
    assert_eq!(items.len(), MAX_REVISION_LIST_RESPONSE_ITEMS);
    assert_eq!(items[0].number, 1000);
    assert_eq!(items[99].number, 901);
    assert_eq!(next, Some(sig(900)));
}

#[test]
fn test_walk_zero_start_is_empty() {
    let walk = Walk::start(zero(), true, true, 100);
    assert_eq!(walk.wanted(), None);
    let (items, next) = walk.into_page();
    assert!(items.is_empty());
    assert_eq!(next, None);
}

#[test]
fn test_walk_backfills_step_keys_on_block_change() {
    let (items, _, backfills) = run_walk(Walk::start(sig(250), true, true, 10));
    assert_eq!(items.len(), 10);
    assert_eq!(
        backfills,
        vec![StepBackfill { number: 250, revision: sig(250), metadata: meta(250) }]
    );
}

#[test]
fn test_walk_no_backfill_when_disabled() {
    let (_, _, backfills) = run_walk(Walk::start(sig(250), true, false, 10));
    assert!(backfills.is_empty());
    let (_, _, backfills) = run_walk(Walk::start(sig(250), false, true, 10));
    assert!(backfills.is_empty());
}

#[test]
fn test_walk_load_failures() {
    let mut walk = Walk::start(sig(5), false, false, 100);
    let s = walk.load_failure(true, "abc", "missing");
    assert_eq!(s.code, RpcCode::NotFound);
    assert_eq!(s.message, "Revision abc not found");
    let s = walk.load_failure(false, "abc", "disk on fire");
    assert_eq!(s.code, RpcCode::Internal);
    assert_eq!(s.message, "disk on fire");
    walk.advance(state_of(5));
    assert!(!walk.is_first());
    let s = walk.load_failure(true, "abc", "ancestor missing");
    assert_eq!(s.code, RpcCode::Internal);
    assert_eq!(s.message, "ancestor missing");
}

fn cached(n: u64) -> CachedRevisionItem {
    CachedRevisionItem {
        number: n,
        signature: sig(n),
        metadata: meta(n),
        parent: if n <= 1 { zero() } else { sig(n - 1) },
        state: vec![1, 2, n as u8],
    }
}

#[test]
fn test_cached_segment_helpers() {
    let items = vec![cached(12), cached(11), cached(10)];
    assert_eq!(cached_next_older(&items), Some(sig(9)));
    assert_eq!(cached_next_older(&vec![cached(2), cached(1)]), None);
    assert_eq!(cached_next_older(&Vec::new()), None);
    assert!(segment_has_number(&items, 11));
    assert!(!segment_has_number(&items, 9));
    assert!(segment_has_signature(&items, sig(10)));
    assert!(!segment_has_signature(&items, sig(13)));
    let page = cached_to_page(items);
    assert_eq!(page.len(), 3);
    assert_eq!(page[1].number, 11);
    assert_eq!(page[1].signature, sig(11));
    assert_eq!(page[1].metadata, meta(11));
    assert_eq!(page[1].state, vec![1, 2, 11]);
}

#[test]
fn test_forward_target() {
    let page = cached_to_page(vec![cached(12), cached(11)]);
    let b = BranchId { value: 42 };
    assert_eq!(forward_target(&page, Some(b)), Some((b, 13)));
    assert_eq!(forward_target(&page, None), None);
    assert_eq!(forward_target(&Vec::new(), Some(b)), None);
    let top = vec![RevisionItem { number: u64::MAX, signature: sig(1), metadata: meta(1), state: vec![] }];
    assert_eq!(forward_target(&top, Some(b)), None);
}

#[test]
fn test_identifier_lookup_sequence() {
    assert_eq!(first_lookup(0, true, true), IdentifierLookup::BranchLatest);
    assert_eq!(first_lookup(5, true, true), IdentifierLookup::CachedSegment);
    assert_eq!(first_lookup(5, false, true), IdentifierLookup::StepKey);
    assert_eq!(first_lookup(5, false, false), IdentifierLookup::FullIteration);
    assert_eq!(lookup_after_miss(IdentifierLookup::CachedSegment, true), IdentifierLookup::BackfillSegment);
    assert_eq!(lookup_after_miss(IdentifierLookup::BackfillSegment, true), IdentifierLookup::StepKey);
    assert_eq!(lookup_after_miss(IdentifierLookup::BackfillSegment, false), IdentifierLookup::FullIteration);
    assert_eq!(lookup_after_miss(IdentifierLookup::StepKey, true), IdentifierLookup::FullIteration);
    assert_eq!(lookup_strategy(IdentifierLookup::BranchLatest), RevisionListStrategy::Direct);
    assert_eq!(lookup_strategy(IdentifierLookup::CachedSegment), RevisionListStrategy::ListCache);
    assert_eq!(lookup_strategy(IdentifierLookup::BackfillSegment), RevisionListStrategy::ListCacheBackfill);
    assert_eq!(lookup_strategy(IdentifierLookup::StepKey), RevisionListStrategy::HistoryStep);
    assert_eq!(lookup_strategy(IdentifierLookup::FullIteration), RevisionListStrategy::FullIteration);
}

#[test]
fn test_resolve_start_strategy() {
    let r = ResolveStart::Walk { start: sig(3), strategy: RevisionListStrategy::HistoryStep };
    assert_eq!(r.strategy(), RevisionListStrategy::HistoryStep);
    let r = ResolveStart::Items {
        items: Vec::new(),
        branch: BranchId { value: 1 },
        next_older: None,
        strategy: RevisionListStrategy::ListCache,
    };
    assert_eq!(r.strategy(), RevisionListStrategy::ListCache);
}

#[test]
fn test_start_answers() {
    let s = check_start(false).unwrap_err();
    assert_eq!((s.code, s.message.as_str()), (RpcCode::InvalidArgument, "RevisionListRequest.start must be set"));
    assert!(check_start(true).is_ok());
    let s = branch_tip_not_found("b1", "gone");
    assert_eq!((s.code, s.message.as_str()), (RpcCode::NotFound, "Branch b1 not found: gone"));
    let s = start_revision_not_found("no such revision");
    assert_eq!((s.code, s.message.as_str()), (RpcCode::NotFound, "Revision not found: no such revision"));
}

#[test]
fn test_exact_revision_step() {
    assert_eq!(exact_revision_step(10, 10), FindStep::Match);
    assert_eq!(exact_revision_step(9, 10), FindStep::Abort);
    assert_eq!(exact_revision_step(11, 10), FindStep::Continue);
}

/// Searches newest-to-oldest numbers the way a step block is searched.
fn search(numbers: &[u64], target: u64) -> Option<usize> {
    for (i, n) in numbers.iter().enumerate() {
        match exact_revision_step(*n, target) {
            FindStep::Match => return Some(i),
            FindStep::Abort => return None,
            FindStep::Continue => {},
        }
    }
    None
}

#[test]
fn test_search_finds_target_on_chain() {
    let chain = [20, 19, 17, 12, 3];
    assert_eq!(search(&chain, 17), Some(2));
    assert_eq!(search(&chain, 3), Some(4));
    assert_eq!(search(&chain, 18), None);
    assert_eq!(search(&chain, 25), None);
    assert_eq!(search(&chain, 1), None);
}

#[test]
fn test_next_page_starts_below_this_page() {
    let (first_page, cursor, _) = run_walk(Walk::start(sig(250), false, false, 100));
    let cursor_number = number_of(cursor.unwrap());
    assert!(first_page.iter().all(|i| i.number > cursor_number));
    let (second_page, _, _) = run_walk(Walk::start(cursor.unwrap(), false, false, 100));
    assert_eq!(second_page[0].number, 200);
    assert_eq!(second_page.last().unwrap().number, 101);
    assert!(second_page.iter().all(|i| i.number < first_page.last().unwrap().number));
}

#[test]
fn test_signature_start_from_segment() {
    let seg = || vec![cached(12), cached(11), cached(10)];
    let b = BranchId { value: 5 };
    assert_eq!(signature_first_load(true), Some(SegmentSource::Cached));
    assert_eq!(signature_first_load(false), None);
    assert_eq!(signature_load_after_absent(SegmentSource::Cached), Some(SegmentSource::Backfilled));
    assert_eq!(signature_load_after_absent(SegmentSource::Backfilled), None);
    match serve_signature_from_segment(seg(), b, SegmentSource::Cached, sig(11)) {
        Some(ResolveStart::Items { items, branch, next_older, strategy }) => {
            assert_eq!(items.len(), 3);
            assert!(items.iter().any(|i| i.signature == sig(11)));
            assert_eq!(branch, b);
            assert_eq!(next_older, Some(sig(9)));
            assert_eq!(strategy, RevisionListStrategy::ListCache);
        },
        _ => panic!("expected a served page"),
    }
    assert!(serve_signature_from_segment(seg(), b, SegmentSource::Cached, sig(13)).is_none());
    match serve_identifier_from_segment(seg(), b, SegmentSource::Backfilled, 10) {
        Some(ResolveStart::Items { items, strategy, .. }) => {
            assert_eq!(items[2].number, 10);
            assert_eq!(strategy, RevisionListStrategy::ListCacheBackfill);
        },
        _ => panic!("expected a served page"),
    }
    assert!(serve_identifier_from_segment(seg(), b, SegmentSource::Cached, 9).is_none());
    assert_eq!(segment_strategy(SegmentSource::Cached), RevisionListStrategy::ListCache);
    match direct_start(sig(4)) {
        ResolveStart::Walk { start, strategy } => {
            assert_eq!((start, strategy), (sig(4), RevisionListStrategy::Direct));
        },
        _ => panic!("expected a walk"),
    }
    match lookup_start(sig(4), IdentifierLookup::StepKey) {
        ResolveStart::Walk { strategy, .. } => assert_eq!(strategy, RevisionListStrategy::HistoryStep),
        _ => panic!("expected a walk"),
    }
}
