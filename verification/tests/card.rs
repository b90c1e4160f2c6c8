use ps2_host::card::{
    card_file_name, card_index, card_info, mc_status, range_in_card, save_dir_components, valid,
    CardLookup, CardTable, MC_PAGES_PER_BLOCK, MC_PAGE_SIZE, MC_SIZE, MC_TOTAL_BLOCKS,
};

#[test]
fn only_two_ports_one_slot() {
    assert!(valid(0, 0));
    assert!(valid(1, 0));
    assert!(!valid(2, 0));
    assert!(!valid(-1, 0));
    assert!(!valid(0, 1));
    assert!(!valid(1, -1));
    assert_eq!(card_index(0, 0), Some(0));
    assert_eq!(card_index(1, 0), Some(1));
    assert_eq!(card_index(0, 1), None);
}

#[test]
fn ranges_stay_inside_the_card() {
    assert!(range_in_card(0, 0));
    assert!(range_in_card(0, 0x800000));
    assert!(!range_in_card(0, 0x800001));
    assert!(range_in_card(MC_SIZE - 512, 512));
    assert!(!range_in_card(MC_SIZE - 511, 512));
    assert!(range_in_card(MC_SIZE, 0));
    assert!(!range_in_card(MC_SIZE + 1, 0));
    assert!(!range_in_card(u64::MAX, 1));
    assert!(!range_in_card(u64::MAX - 3, usize::MAX));
}

#[test]
fn info_reports_formatted_empty_ps2_card() {
    assert_eq!(card_info(), (2, 512, 1));
    assert_eq!(
        MC_TOTAL_BLOCKS as u64 * MC_PAGES_PER_BLOCK as u64 * MC_PAGE_SIZE as u64,
        MC_SIZE
    );
}

#[test]
fn status_codes() {
    assert_eq!(mc_status(true), 0);
    assert_eq!(mc_status(false), 1);
}

#[test]
fn file_names() {
    assert_eq!(card_file_name(0, 0), "mc0-0.ps2");
    assert_eq!(card_file_name(1, 0), "mc1-0.ps2");
}

#[test]
fn save_dir_choice() {
    assert_eq!(
        save_dir_components(Some("/saves".to_string()), Some("/home/u".to_string())),
        vec!["/saves".to_string()]
    );
    assert_eq!(
        save_dir_components(None, Some("/home/u".to_string())),
        vec![
            "/home/u".to_string(),
            "Library".to_string(),
            "Application Support".to_string(),
            "ps2recomp".to_string(),
            "memcards".to_string(),
        ]
    );
    assert_eq!(save_dir_components(None, None), vec!["memcards".to_string()]);
}

#[test]
fn table_opens_cards_lazily() {
    let mut t: CardTable<u32> = CardTable::new();
    assert_eq!(t.lookup(0, 0), CardLookup::Closed(0));
    assert_eq!(t.lookup(1, 0), CardLookup::Closed(1));
    assert_eq!(t.lookup(2, 0), CardLookup::Invalid);
    assert_eq!(t.lookup(0, 1), CardLookup::Invalid);
    t.put(1, 77);
    assert_eq!(t.lookup(1, 0), CardLookup::Open(1));
    assert_eq!(t.lookup(0, 0), CardLookup::Closed(0));
    let h = t.take(1);
    assert_eq!(h, Some(77));
    assert_eq!(t.lookup(1, 0), CardLookup::Closed(1));
    t.put(1, 77);
    assert_eq!(t.lookup(1, 0), CardLookup::Open(1));
    assert_eq!(t.take(0), None);
}
