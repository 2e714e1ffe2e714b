use streamrs::config::StreamrsConfig;
use streamrs::paging::{NavigationSlot, PagingLayout, STREAMDECK_KEY_COUNT};
use streamrs::plan::{page_count, paging_layout};

const KEY_COUNT: usize = STREAMDECK_KEY_COUNT;
const EDGE_PAGE_ACTION_KEY_COUNT: usize = KEY_COUNT - 1;
const PAGED_ACTION_KEY_COUNT: usize = KEY_COUNT - 2;

fn config_with_keys(count: usize) -> StreamrsConfig {
    let mut config = StreamrsConfig::default();
    config.keys = (0..count).map(|_| Default::default()).collect();
    config
}

fn key_index_for_slot(config: &StreamrsConfig, page: usize, slot: usize) -> Option<usize> {
    paging_layout(config).key_index_for_slot(config.keys.len(), page, slot)
}

fn locate_key_slot(config: &StreamrsConfig, key_index: usize) -> Option<(usize, usize)> {
    paging_layout(config).locate_key_slot(config.keys.len(), key_index)
}

fn navigation_slot_for_slot(
    config: &StreamrsConfig,
    page: usize,
    total_pages: usize,
    slot: usize,
) -> Option<NavigationSlot> {
    paging_layout(config).navigation_slot_for_slot(page, total_pages, slot)
}

#[test]
fn page_count_matches_expected_boundaries() {
    let config = config_with_keys(0);
    let count = |n: usize| paging_layout(&config).page_count(n);
    assert_eq!(count(0), 1);
    assert_eq!(count(KEY_COUNT), 1);
    assert_eq!(count(KEY_COUNT + 1), 2);
    assert_eq!(count(EDGE_PAGE_ACTION_KEY_COUNT * 2), 2);
    assert_eq!(count((EDGE_PAGE_ACTION_KEY_COUNT * 2) + 1), 3);
    assert_eq!(count((EDGE_PAGE_ACTION_KEY_COUNT * 2) + PAGED_ACTION_KEY_COUNT), 3);
    assert_eq!(count((EDGE_PAGE_ACTION_KEY_COUNT * 2) + PAGED_ACTION_KEY_COUNT + 1), 4);
}

#[test]
fn paging_page_count_matches_expected_boundaries() {
    let layout = PagingLayout::new(KEY_COUNT, KEY_COUNT);
    assert_eq!(layout.page_count(0), 1);
    assert_eq!(layout.page_count(KEY_COUNT), 1);
    assert_eq!(layout.page_count(KEY_COUNT + 1), 2);
    assert_eq!(layout.page_count((KEY_COUNT - 1) * 2), 2);
    assert_eq!(layout.page_count(((KEY_COUNT - 1) * 2) + 1), 3);
    assert_eq!(layout.page_count(((KEY_COUNT - 1) * 2) + (KEY_COUNT - 2)), 3);
    assert_eq!(layout.page_count(((KEY_COUNT - 1) * 2) + (KEY_COUNT - 2) + 1), 4);
}

#[test]
fn page_count_boundaries_at_fifteen_keys_per_page() {
    let layout = PagingLayout::new(15, 15);
    assert_eq!(layout.edge_page_action_key_count(), 14);
    assert_eq!(layout.paged_action_key_count(), 13);
    for (n, pages) in [(0, 1), (15, 1), (16, 2), (28, 2), (29, 3), (28 + 13, 3), (28 + 13 + 1, 4), (29 + 13 + 1, 4)] {
        assert_eq!(layout.page_count(n), pages, "page_count({n})");
    }
}

#[test]
fn navigation_slots_match_main_app_layout() {
    let config = StreamrsConfig::default();
    assert_eq!(navigation_slot_for_slot(&config, 0, 1, KEY_COUNT - 1), None);
    assert_eq!(
        navigation_slot_for_slot(&config, 0, 2, KEY_COUNT - 1),
        Some(NavigationSlot::NextPage)
    );
    assert_eq!(
        navigation_slot_for_slot(&config, 1, 2, KEY_COUNT - 1),
        Some(NavigationSlot::PreviousPage)
    );
    assert_eq!(
        navigation_slot_for_slot(&config, 1, 3, KEY_COUNT - 2),
        Some(NavigationSlot::PreviousPage)
    );
    assert_eq!(
        navigation_slot_for_slot(&config, 1, 3, KEY_COUNT - 1),
        Some(NavigationSlot::NextPage)
    );
    assert_eq!(navigation_slot_for_slot(&config, 1, 3, 0), None);
}

#[test]
fn paging_navigation_slots_match_main_app_layout() {
    let layout = PagingLayout::new(KEY_COUNT, KEY_COUNT);
    assert_eq!(layout.navigation_slot_for_slot(0, 1, KEY_COUNT - 1), None);
    assert_eq!(
        layout.navigation_slot_for_slot(0, 2, KEY_COUNT - 1),
        Some(NavigationSlot::NextPage)
    );
    assert_eq!(
        layout.navigation_slot_for_slot(1, 2, KEY_COUNT - 1),
        Some(NavigationSlot::PreviousPage)
    );
    assert_eq!(
        layout.navigation_slot_for_slot(1, 3, KEY_COUNT - 2),
        Some(NavigationSlot::PreviousPage)
    );
    assert_eq!(
        layout.navigation_slot_for_slot(1, 3, KEY_COUNT - 1),
        Some(NavigationSlot::NextPage)
    );
    assert_eq!(layout.navigation_slot_for_slot(1, 3, 0), None);
}

#[test]
fn navigation_placement_with_thirty_keys() {
    let config = config_with_keys(30);
    let layout = paging_layout(&config);
    let total = page_count(&config);
    assert_eq!(total, 3);
    assert_eq!(layout.navigation_slot_for_slot(0, total, 14), Some(NavigationSlot::NextPage));
    assert_eq!(layout.navigation_slot_for_slot(0, total, 13), None);
    assert_eq!(key_index_for_slot(&config, 0, 13), Some(13));
    assert_eq!(layout.navigation_slot_for_slot(1, total, 13), Some(NavigationSlot::PreviousPage));
    assert_eq!(layout.navigation_slot_for_slot(1, total, 14), Some(NavigationSlot::NextPage));
    assert_eq!(layout.navigation_slot_for_slot(2, total, 14), Some(NavigationSlot::PreviousPage));
    assert_ne!(layout.navigation_slot_for_slot(2, total, 14), Some(NavigationSlot::NextPage));
}

#[test]
fn key_index_mapping_respects_reserved_navigation_slots() {
    let config = config_with_keys(30);
    assert_eq!(page_count(&config), 3);
    assert_eq!(key_index_for_slot(&config, 0, 0), Some(0));
    assert_eq!(key_index_for_slot(&config, 0, KEY_COUNT - 2), Some(13));
    assert_eq!(key_index_for_slot(&config, 0, KEY_COUNT - 1), None);
    assert_eq!(key_index_for_slot(&config, 1, 0), Some(14));
    assert_eq!(key_index_for_slot(&config, 1, KEY_COUNT - 3), Some(26));
    assert_eq!(key_index_for_slot(&config, 1, KEY_COUNT - 2), None);
    assert_eq!(key_index_for_slot(&config, 1, KEY_COUNT - 1), None);
    assert_eq!(key_index_for_slot(&config, 2, 0), Some(27));
    assert_eq!(key_index_for_slot(&config, 2, 1), Some(28));
    assert_eq!(key_index_for_slot(&config, 2, 2), Some(29));
    assert_eq!(key_index_for_slot(&config, 2, 3), None);
    assert_eq!(key_index_for_slot(&config, 2, KEY_COUNT - 1), None);
}

#[test]
fn paging_key_index_mapping_respects_reserved_navigation_slots() {
    let layout = PagingLayout::new(KEY_COUNT, KEY_COUNT);
    assert_eq!(layout.page_count(30), 3);
    assert_eq!(layout.key_index_for_slot(30, 0, 0), Some(0));
    assert_eq!(layout.key_index_for_slot(30, 0, KEY_COUNT - 2), Some(13));
    assert_eq!(layout.key_index_for_slot(30, 0, KEY_COUNT - 1), None);
    assert_eq!(layout.key_index_for_slot(30, 1, 0), Some(14));
    assert_eq!(layout.key_index_for_slot(30, 1, KEY_COUNT - 3), Some(26));
    assert_eq!(layout.key_index_for_slot(30, 1, KEY_COUNT - 2), None);
    assert_eq!(layout.key_index_for_slot(30, 1, KEY_COUNT - 1), None);
    assert_eq!(layout.key_index_for_slot(30, 2, 0), Some(27));
    assert_eq!(layout.key_index_for_slot(30, 2, 1), Some(28));
    assert_eq!(layout.key_index_for_slot(30, 2, 2), Some(29));
    assert_eq!(layout.key_index_for_slot(30, 2, 3), None);
    assert_eq!(layout.key_index_for_slot(30, 2, KEY_COUNT - 1), None);
}

#[test]
fn locate_key_slot_round_trips_each_existing_key() {
    let config = config_with_keys(36);
    for key_index in 0..config.keys.len() {
        let (page, slot) = locate_key_slot(&config, key_index)
            .unwrap_or_else(|| panic!("missing slot for key index {key_index}"));
        assert_eq!(key_index_for_slot(&config, page, slot), Some(key_index));
    }
    assert_eq!(locate_key_slot(&config, config.keys.len() + 1), None);
}

#[test]
fn paging_locate_key_slot_round_trips_each_existing_key() {
    let layout = PagingLayout::new(KEY_COUNT, KEY_COUNT);
    for key_index in 0..36 {
        let (page, slot) = layout
            .locate_key_slot(36, key_index)
            .unwrap_or_else(|| panic!("missing slot for key index {key_index}"));
        assert_eq!(layout.key_index_for_slot(36, page, slot), Some(key_index));
    }
    assert_eq!(layout.locate_key_slot(36, 37), None);
}

#[test]
fn locate_round_trips_for_every_page_size() {
    for keys_per_page in 3..=15 {
        let layout = PagingLayout::new(15, keys_per_page);
        for n in [1usize, 2, 3, 14, 15, 16, 29, 50, 61] {
            for key_index in 0..n {
                let (page, slot) = layout.locate_key_slot(n, key_index).expect("slot exists");
                assert_eq!(layout.key_index_for_slot(n, page, slot), Some(key_index));
            }
        }
    }
}

#[test]
fn page_offset_and_capacity_of_small_pages() {
    let layout = PagingLayout::new(15, 5);
    assert_eq!(layout.keys_per_page(), 5);
    assert_eq!(layout.total_slots(), 15);
    assert_eq!(layout.previous_page_key(), 3);
    assert_eq!(layout.next_page_key(), 4);
    assert_eq!(layout.page_count(20), 6);
    assert_eq!(layout.page_capacity(0, 1), 5);
    assert_eq!(layout.page_capacity(0, 6), 4);
    assert_eq!(layout.page_capacity(3, 6), 3);
    assert_eq!(layout.page_capacity(5, 6), 4);
    assert_eq!(layout.page_offset(3, 6), 10);
    assert_eq!(layout.key_index_for_slot(20, 9, 3), Some(19));
    assert_eq!(layout.key_index_for_slot(20, 9, 4), None);
    assert_eq!(layout.key_index_for_slot(20, 0, 15), None);
}
